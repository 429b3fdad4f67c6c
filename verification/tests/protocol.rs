use std::cell::RefCell;
use std::io;

use brutus::brutusd::command::{handle, Command};
use brutus::brutusd::pid::SingletonProcessHandle as RuntimeHandle;
use brutus::brutusd::runtime::{run_step, ReadFailure, RunAction};
use brutus::brutusd::util::{filter_err, TermSize as RuntimeTermSize};
use brutus::io::IoErrorKind;
use brutus::pane::{pty_io_step, PtyIoStep};
use brutus::server::common::{TermSize, WindowSize};
use brutus::server::daemon::{daemon_step, DaemonAction, ForkOutcome, ForkStage};
use brutus::server::pid::{Pid, PidFileError, SingletonProcessHandle};
use brutus::utils::TermRect;

#[test]
fn lock_failure_that_would_block_is_already_locked() {
    let err = io::Error::from(io::ErrorKind::WouldBlock);
    assert!(matches!(PidFileError::from_lock_error(err), PidFileError::AlreadyLocked));
}

#[test]
fn other_lock_failure_is_io_error() {
    let err = io::Error::new(io::ErrorKind::PermissionDenied, "denied");
    match PidFileError::from_lock_error(err) {
        PidFileError::IoError(e) => assert_eq!(e.kind(), io::ErrorKind::PermissionDenied),
        PidFileError::AlreadyLocked => panic!("expected an I/O error"),
    }
}

#[test]
fn lock_failure_by_kind() {
    let e = PidFileError::from_lock_failure(IoErrorKind::WouldBlock, io::Error::other("x"));
    assert!(matches!(e, PidFileError::AlreadyLocked));
    let e = PidFileError::from_lock_failure(IoErrorKind::Other, io::Error::other("x"));
    assert!(matches!(e, PidFileError::IoError(_)));
}

#[test]
fn pid_file_error_messages() {
    assert_eq!(PidFileError::AlreadyLocked.message(), "pid file was already locked");
    let e = PidFileError::IoError(io::Error::other("disk on fire"));
    assert_eq!(e.message(), "disk on fire");
}

#[test]
fn singleton_claims_pid_file() {
    let seen = RefCell::new(String::new());
    let handle = SingletonProcessHandle::new(
        String::from("brutusd"),
        1000,
        |path: String| {
            *seen.borrow_mut() = path;
            Ok::<u8, PidFileError>(5)
        },
        |_path: String| -> io::Result<Pid> { panic!("no pid to read") },
    )
    .unwrap();
    assert!(matches!(handle, SingletonProcessHandle::TheSingleton(5)));
    assert_eq!(*seen.borrow(), "/var/run/user/1000/brutusd.pid");
}

#[test]
fn singleton_reads_running_pid_when_locked() {
    let seen = RefCell::new(String::new());
    let handle = SingletonProcessHandle::<u8>::new(
        String::from("brutusd"),
        7,
        |_path: String| Err(PidFileError::AlreadyLocked),
        |path: String| {
            *seen.borrow_mut() = path;
            Ok(Pid::from(4321u32))
        },
    )
    .unwrap();
    match handle {
        SingletonProcessHandle::AlreadyRunning(pid) => assert_eq!(u32::from(pid), 4321),
        SingletonProcessHandle::TheSingleton(_) => panic!("expected the running pid"),
    }
    assert_eq!(*seen.borrow(), "/var/run/user/7/brutusd.pid");
}

#[test]
fn singleton_passes_on_io_errors() {
    let r = SingletonProcessHandle::<u8>::new(
        String::from("brutusd"),
        7,
        |_path: String| Err(PidFileError::IoError(io::Error::from(io::ErrorKind::NotFound))),
        |_path: String| Ok(Pid::from(1u32)),
    );
    assert_eq!(r.err().unwrap().kind(), io::ErrorKind::NotFound);
    let r = SingletonProcessHandle::<u8>::new(
        String::from("brutusd"),
        7,
        |_path: String| Err(PidFileError::AlreadyLocked),
        |_path: String| Err(io::Error::from(io::ErrorKind::UnexpectedEof)),
    );
    assert_eq!(r.err().unwrap().kind(), io::ErrorKind::UnexpectedEof);
}

#[test]
fn runtime_singleton_claims_or_reads() {
    let handle = RuntimeHandle::new(
        String::from("brutusd"),
        1000,
        |path: String| {
            assert_eq!(path, "/var/run/user/1000/brutus/brutusd.pid");
            Ok::<u8, io::Error>(1)
        },
        |_path: String| Ok(0),
    )
    .unwrap();
    assert!(matches!(handle, RuntimeHandle::TheSingleton(1)));
    let handle = RuntimeHandle::<u8>::new(
        String::from("brutusd"),
        1000,
        |_path: String| Err(io::Error::from(io::ErrorKind::WouldBlock)),
        |path: String| {
            assert_eq!(path, "/var/run/user/1000/brutus/brutusd.pid");
            Ok(999)
        },
    )
    .unwrap();
    assert!(matches!(handle, RuntimeHandle::AlreadyRunning(999)));
    let r = RuntimeHandle::<u8>::new(
        String::from("brutusd"),
        1000,
        |_path: String| Err(io::Error::from(io::ErrorKind::PermissionDenied)),
        |_path: String| Ok(999),
    );
    assert_eq!(r.err().unwrap().kind(), io::ErrorKind::PermissionDenied);
}

#[test]
fn runtime_after_open_failure_by_kind() {
    let r = RuntimeHandle::<u8>::after_open_failure(
        IoErrorKind::WouldBlock,
        io::Error::other("locked"),
        String::from("/p"),
        |path: String| {
            assert_eq!(path, "/p");
            Ok(12)
        },
    );
    assert!(matches!(r, Ok(RuntimeHandle::AlreadyRunning(12))));
    let r = RuntimeHandle::<u8>::after_open_failure(
        IoErrorKind::AlreadyExists,
        io::Error::other("odd"),
        String::from("/p"),
        |_path: String| Ok(12),
    );
    assert_eq!(r.err().unwrap().to_string(), "odd");
}

#[test]
fn handle_connect_logs_client() {
    assert_eq!(handle(42, Command::Connect), "connect client 42");
}

#[test]
fn run_loop_steps() {
    assert_eq!(
        run_step(Ok((8, Command::Connect))),
        RunAction::Handled(String::from("connect client 8"))
    );
    assert_eq!(run_step(Err(ReadFailure::PrematureEndOfFile)), RunAction::Reopen);
    assert_eq!(run_step(Err(ReadFailure::Other)), RunAction::Abort);
}

#[test]
fn filter_err_keeps_success() {
    let r: Result<(), io::Error> = filter_err(Ok(()), |_e: &io::Error| false);
    assert!(r.is_ok());
}

#[test]
fn filter_err_drops_accepted_error() {
    let r = filter_err(Err(io::Error::from(io::ErrorKind::AlreadyExists)), |e: &io::Error| {
        e.kind() == io::ErrorKind::AlreadyExists
    });
    assert!(r.is_ok());
}

#[test]
fn filter_err_keeps_other_error() {
    let r = filter_err(Err(io::Error::from(io::ErrorKind::NotFound)), |e: &io::Error| {
        e.kind() == io::ErrorKind::AlreadyExists
    });
    assert_eq!(r.unwrap_err().kind(), io::ErrorKind::NotFound);
}

#[test]
fn daemon_steps() {
    assert_eq!(daemon_step(ForkStage::First, ForkOutcome::Parent { child: 10 }), DaemonAction::AwaitServerPid);
    assert_eq!(daemon_step(ForkStage::First, ForkOutcome::Child), DaemonAction::DetachAndFork);
    assert_eq!(
        daemon_step(ForkStage::Second, ForkOutcome::Parent { child: 31337 }),
        DaemonAction::ReportServerPid(31337)
    );
    assert_eq!(daemon_step(ForkStage::Second, ForkOutcome::Child), DaemonAction::BecomeServer);
}

#[test]
fn exactly_one_server_in_the_tree() {
    let launcher = daemon_step(ForkStage::First, ForkOutcome::Parent { child: 5 });
    let detached = daemon_step(ForkStage::First, ForkOutcome::Child);
    let intermediate = daemon_step(ForkStage::Second, ForkOutcome::Parent { child: 6 });
    let server = daemon_step(ForkStage::Second, ForkOutcome::Child);
    let all = [launcher, detached, intermediate, server];
    assert_eq!(all.iter().filter(|a| **a == DaemonAction::BecomeServer).count(), 1);
    assert_eq!(all.iter().filter(|a| **a == DaemonAction::AwaitServerPid).count(), 1);
    assert_eq!(intermediate, DaemonAction::ReportServerPid(6));
}

#[test]
fn term_sizes_become_window_sizes() {
    let w = WindowSize::from(TermSize { rows: 71, cols: 253 });
    assert_eq!(w, WindowSize { ws_row: 71, ws_col: 253, ws_xpixel: 0, ws_ypixel: 0 });
    let w = WindowSize::from(RuntimeTermSize { rows: 24, cols: 80 });
    assert_eq!(w, WindowSize { ws_row: 24, ws_col: 80, ws_xpixel: 0, ws_ypixel: 0 });
}

#[test]
fn term_rect_from_pair() {
    let r = TermRect::from((30u16, 100u16));
    assert_eq!((r.rows, r.cols), (30, 100));
    let w = WindowSize::from(r);
    assert_eq!(w, WindowSize { ws_row: 30, ws_col: 100, ws_xpixel: 0, ws_ypixel: 0 });
}

#[test]
fn pty_steps() {
    assert_eq!(pty_io_step(Ok(12), 11), PtyIoStep::Complete(12));
    assert_eq!(pty_io_step(Err(11), 11), PtyIoStep::Retry);
    assert_eq!(pty_io_step(Err(5), 11), PtyIoStep::Fail(5));
}
