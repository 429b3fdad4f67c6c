//! The decisions of the double-fork daemon start-up: which of the processes
//! that the two forks create waits for the server's pid, which reports it and
//! which becomes the server.
use vstd::prelude::*;

verus! {

/// What `fork` reported to the process that looks at it.
#[derive(Clone, Copy, Debug, PartialEq, Eq, Structural)]
pub enum ForkOutcome {
    /// This is the parent; `child` is the raw pid of the new process.
    Parent { child: i32 },
    /// This is the new process.
    Child,
}

/// Which of the two forks of the start-up has just returned.
#[derive(Clone, Copy, Debug, PartialEq, Eq, Structural)]
pub enum ForkStage {
    /// The fork made by the process that claimed the pid file.
    First,
    /// The fork made by its child, after it has started a new session.
    Second,
}

/// What a process does next in the start-up.
#[derive(Clone, Copy, Debug, PartialEq, Eq, Structural)]
pub enum DaemonAction {
    /// The launching process: let go of its handle on the pid file without
    /// unlocking or removing it, and read the server's pid from the pipe.
    AwaitServerPid,
    /// The first child: start a new session and fork again.
    DetachAndFork,
    /// The intermediate process: let go of the pid file, send the server's
    /// pid down the pipe and exit.
    ReportServerPid(u32),
    /// The grandchild: it is the server; it writes its own pid into the pid
    /// file and runs.
    BecomeServer,
}

/// The next action of the process that saw `outcome` from the fork at
/// `stage`.
pub open spec fn next_action(stage: ForkStage, outcome: ForkOutcome) -> DaemonAction {
    match (stage, outcome) {
        (ForkStage::First, ForkOutcome::Parent { .. }) => DaemonAction::AwaitServerPid,
        (ForkStage::First, ForkOutcome::Child) => DaemonAction::DetachAndFork,
        (ForkStage::Second, ForkOutcome::Parent { child }) => DaemonAction::ReportServerPid(
            child as u32,
        ),
        (ForkStage::Second, ForkOutcome::Child) => DaemonAction::BecomeServer,
    }
}

/// Decides what the process that saw `outcome` from the fork at `stage`
/// does next. The intermediate process reports the pid of its child, which a
/// successful fork gives as a non-negative number.
pub fn daemon_step(stage: ForkStage, outcome: ForkOutcome) -> (action: DaemonAction)
    requires
        stage == ForkStage::Second ==> (outcome matches ForkOutcome::Parent { child } ==> child
            >= 0),
    ensures
        action == next_action(stage, outcome),
{
    match stage {
        ForkStage::First => match outcome {
            ForkOutcome::Parent { .. } => DaemonAction::AwaitServerPid,
            ForkOutcome::Child => DaemonAction::DetachAndFork,
        },
        ForkStage::Second => match outcome {
            ForkOutcome::Parent { child } => DaemonAction::ReportServerPid(child as u32),
            ForkOutcome::Child => DaemonAction::BecomeServer,
        },
    }
}

/// Of the three processes of the start-up (the launcher, the intermediate
/// and the grandchild) exactly one becomes the server, exactly one waits for
/// the server's pid, and the pid reported is the one that the second fork
/// gave for the grandchild.
pub proof fn lemma_one_server(server_pid: i32)
    requires
        server_pid >= 0,
    ensures
        ({
            let launcher = next_action(ForkStage::First, ForkOutcome::Parent { child: 0 });
            let detached = next_action(ForkStage::First, ForkOutcome::Child);
            let intermediate = next_action(
                ForkStage::Second,
                ForkOutcome::Parent { child: server_pid },
            );
            let server = next_action(ForkStage::Second, ForkOutcome::Child);
            &&& launcher == DaemonAction::AwaitServerPid
            &&& detached == DaemonAction::DetachAndFork
            &&& intermediate == DaemonAction::ReportServerPid(server_pid as u32)
            &&& server_pid as u32 == server_pid
            &&& server == DaemonAction::BecomeServer
        }),
        forall|stage: ForkStage, outcome: ForkOutcome|
            next_action(stage, outcome) == DaemonAction::BecomeServer <==> (stage == ForkStage::Second
                && outcome == ForkOutcome::Child),
        forall|stage: ForkStage, outcome: ForkOutcome|
            next_action(stage, outcome) == DaemonAction::AwaitServerPid <==> (stage == ForkStage::First
                && outcome is Parent),
{
}

} // verus!
