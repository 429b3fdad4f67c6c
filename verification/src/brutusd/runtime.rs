//! The runtime directory and the server's command loop.
use crate::brutusd::command::{connect_message, handle, Command};
use crate::text::{
    decimal, decimal_string, is_decimal_of, joined, lemma_decimal_is_numeral, lemma_join_relative,
    path_join,
};
use vstd::prelude::*;

verus! {

/// The name of the server process.
pub const PROCESS_NAME: &'static str = "brutusd";

/// The directory under which each user's runtime directory lives.
pub const USER_RUN_DIR: &'static str = "/var/run/user";

/// The runtime directory of user `euid`: `/var/run/user/<euid>/brutus`.
pub open spec fn runtime_dir(euid: u32) -> Seq<char> {
    joined(joined(USER_RUN_DIR@, decimal(euid as nat)), "brutus"@)
}

/// The runtime directory of user `euid` is
/// `/var/run/user/<euid in decimal>/brutus`.
pub proof fn lemma_runtime_dir_layout(euid: u32)
    ensures
        exists|s: Seq<char>|
            is_decimal_of(s, euid as nat) && runtime_dir(euid) == "/var/run/user/"@ + s
                + "/brutus"@,
{
    reveal_strlit("/var/run/user");
    reveal_strlit("/var/run/user/");
    reveal_strlit("brutus");
    reveal_strlit("/brutus");
    let s = decimal(euid as nat);
    lemma_decimal_is_numeral(euid as nat);
    assert(USER_RUN_DIR@ == "/var/run/user"@);
    assert(s[0] != '/');
    lemma_join_relative(USER_RUN_DIR@, s);
    let user_dir = joined(USER_RUN_DIR@, s);
    assert(user_dir.last() == s.last());
    lemma_join_relative(user_dir, "brutus"@);
    assert(runtime_dir(euid) =~= "/var/run/user/"@ + s + "/brutus"@);
}

/// Computes [`runtime_dir`].
pub fn runtime_dir_of(euid: u32) -> (dir: String)
    ensures
        dir@ == runtime_dir(euid),
{
    let user_dir = path_join(USER_RUN_DIR, decimal_string(euid).as_str());
    path_join(user_dir.as_str(), "brutus")
}

/// Why reading a command from the command pipe failed.
#[derive(Clone, Copy, Debug, PartialEq, Eq, Structural)]
pub enum ReadFailure {
    /// The client closed its end of the pipe.
    PrematureEndOfFile,
    /// Any other failure.
    Other,
}

/// What the server's command loop does after one read.
#[derive(Debug, PartialEq, Eq)]
pub enum RunAction {
    /// The command was handled; the line to log.
    Handled(String),
    /// The client went away: open the read end of the pipe again and wait
    /// for the next one.
    Reopen,
    /// Remove the command pipe and stop the server with the failure.
    Abort,
}

/// One turn of the server's command loop, given what reading the next
/// command gave.
pub fn run_step(read: Result<(u32, Command), ReadFailure>) -> (action: RunAction)
    requires
        read matches Ok((_, cmd)) ==> cmd == Command::Connect,
    ensures
        match read {
            Ok((pid, _)) => action matches RunAction::Handled(line) && line@ == connect_message(
                pid,
            ),
            Err(ReadFailure::PrematureEndOfFile) => action == RunAction::Reopen,
            Err(ReadFailure::Other) => action == RunAction::Abort,
        },
{
    match read {
        Ok((pid, cmd)) => RunAction::Handled(handle(pid, cmd)),
        Err(ReadFailure::PrematureEndOfFile) => RunAction::Reopen,
        Err(ReadFailure::Other) => RunAction::Abort,
    }
}

} // verus!
