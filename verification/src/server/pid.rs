//! Process ids on the wire and the pid file that makes the server a
//! singleton.
use crate::codec::{
    lemma_value_roundtrip, native_from_bytes, native_to_bytes, u32_from_ne_bytes, u32_to_ne_bytes,
};
use crate::io::{kind_of, reported_kind, IoErrorKind};
use crate::text::{
    decimal, decimal_string, is_decimal_of, joined, lemma_decimal_is_numeral, lemma_join_relative,
    path_join,
};
use vstd::prelude::*;
use vstd::string::to_string_from_display_ensures;

verus! {

/// The directory under which each user's pid files live.
pub const PID_FILE_DIR: &'static str = "/var/run/user";

/// The bytes a pid read fills in: what was received, then zeros up to four.
pub open spec fn zero_padded(received: Seq<u8>) -> [u8; 4] {
    [
        if received.len() > 0 { received[0] } else { 0 },
        if received.len() > 1 { received[1] } else { 0 },
        if received.len() > 2 { received[2] } else { 0 },
        if received.len() > 3 { received[3] } else { 0 },
    ]
}

/// The id of a process.
pub struct Pid(u32);

impl View for Pid {
    type V = u32;

    closed spec fn view(&self) -> u32 {
        self.0
    }
}

impl Pid {
    /// The pid that a single read into a zeroed four-byte buffer yields, given
    /// the bytes that the read delivered: they are completed with zeros and
    /// read in the machine's byte order.
    pub fn read_from(received: &[u8]) -> (pid: Pid)
        requires
            received@.len() <= 4,
        ensures
            pid@ == native_from_bytes(zero_padded(received@)),
    {
        let n = received.len();
        let b0: u8 = if n > 0 { received[0] } else { 0 };
        let b1: u8 = if n > 1 { received[1] } else { 0 };
        let b2: u8 = if n > 2 { received[2] } else { 0 };
        let b3: u8 = if n > 3 { received[3] } else { 0 };
        let buf = [b0, b1, b2, b3];
        assert(buf =~= zero_padded(received@));
        Pid(u32_from_ne_bytes(buf))
    }

    /// The four bytes that stand for this pid on the wire: its value in the
    /// machine's byte order.
    pub fn write_to(&self) -> (bytes: [u8; 4])
        ensures
            bytes == native_to_bytes(self@),
    {
        u32_to_ne_bytes(self.0)
    }
}

impl From<u32> for Pid {
    fn from(value: u32) -> (pid: Self)
        ensures
            pid@ == value,
    {
        Pid(value)
    }
}

impl vstd::std_specs::convert::FromSpecImpl<u32> for Pid {
    open spec fn obeys_from_spec() -> bool {
        true
    }

    closed spec fn from_spec(value: u32) -> Pid {
        Pid(value)
    }
}

impl From<Pid> for u32 {
    fn from(pid: Pid) -> (value: Self)
        ensures
            value == pid@,
    {
        pid.0
    }
}

impl vstd::std_specs::convert::FromSpecImpl<Pid> for u32 {
    open spec fn obeys_from_spec() -> bool {
        true
    }

    open spec fn from_spec(pid: Pid) -> u32 {
        pid@
    }
}

/// A pid written as its four wire bytes and read back by a read that
/// delivers those four bytes is the same pid.
pub proof fn lemma_pid_wire_roundtrip(pid: Pid)
    ensures
        native_from_bytes(zero_padded(native_to_bytes(pid@)@)) == pid@,
{
    let bytes = native_to_bytes(pid@);
    assert(zero_padded(bytes@) =~= bytes);
    lemma_value_roundtrip(pid@);
}

/// Why a pid file could not be claimed.
pub enum PidFileError {
    /// Another process holds the lock on the file.
    AlreadyLocked,
    IoError(std::io::Error),
}

impl PidFileError {
    /// The error for a failed attempt to lock the pid file, given the kind of
    /// the failure: a lock that would block means another process holds it.
    pub fn from_lock_failure(kind: IoErrorKind, err: std::io::Error) -> (e: PidFileError)
        ensures
            kind == IoErrorKind::WouldBlock ==> e is AlreadyLocked,
            kind != IoErrorKind::WouldBlock ==> e == PidFileError::IoError(err),
    {
        match kind {
            IoErrorKind::WouldBlock => PidFileError::AlreadyLocked,
            _ => PidFileError::IoError(err),
        }
    }

    /// The error for a failed attempt to lock the pid file, decided by the
    /// kind of `err`.
    pub fn from_lock_error(err: std::io::Error) -> (e: PidFileError)
        ensures
            e is AlreadyLocked || e == PidFileError::IoError(err),
            exists|kind: IoErrorKind|
                {
                    &&& reported_kind(err, kind)
                    &&& kind == IoErrorKind::WouldBlock ==> e is AlreadyLocked
                    &&& kind != IoErrorKind::WouldBlock ==> e == PidFileError::IoError(err)
                },
    {
        let kind = kind_of(&err);
        Self::from_lock_failure(kind, err)
    }

    /// The message that describes the error.
    pub fn message(&self) -> (s: String)
        ensures
            self is AlreadyLocked ==> s@ == "pid file was already locked"@,
            self matches PidFileError::IoError(err) ==> to_string_from_display_ensures::<
                std::io::Error,
            >(&err, s),
    {
        match self {
            PidFileError::AlreadyLocked => "pid file was already locked".to_string(),
            PidFileError::IoError(err) => err.to_string(),
        }
    }
}

/// The path of the pid file of the process called `name` run by the user
/// `euid`: `/var/run/user/<euid>/<name>.pid`.
pub open spec fn pid_file_path(euid: u32, name: Seq<char>) -> Seq<char> {
    joined(joined(PID_FILE_DIR@, decimal(euid as nat)), name + ".pid"@)
}

/// For a relative `name`, the pid file of `name` for user `euid` is
/// `/var/run/user/<euid in decimal>/<name>.pid`.
pub proof fn lemma_pid_file_layout(euid: u32, name: Seq<char>)
    requires
        name.len() == 0 || name[0] != '/',
    ensures
        exists|s: Seq<char>|
            is_decimal_of(s, euid as nat) && pid_file_path(euid, name) == "/var/run/user/"@ + s
                + seq!['/'] + name + ".pid"@,
{
    reveal_strlit("/var/run/user");
    reveal_strlit("/var/run/user/");
    reveal_strlit(".pid");
    let s = decimal(euid as nat);
    lemma_decimal_is_numeral(euid as nat);
    assert(PID_FILE_DIR@ == "/var/run/user"@);
    assert(s[0] != '/');
    lemma_join_relative(PID_FILE_DIR@, s);
    let user_dir = joined(PID_FILE_DIR@, s);
    assert(user_dir.last() == s.last());
    let file = name + ".pid"@;
    assert(file[0] != '/');
    lemma_join_relative(user_dir, file);
    assert(pid_file_path(euid, name) =~= "/var/run/user/"@ + s + seq!['/'] + name + ".pid"@);
}

/// Computes [`pid_file_path`].
pub fn pid_file_path_of(euid: u32, name: &str) -> (path: String)
    ensures
        path@ == pid_file_path(euid, name@),
{
    let user_dir = path_join(PID_FILE_DIR, decimal_string(euid).as_str());
    let mut file_name = name.to_string();
    file_name.append(".pid");
    path_join(user_dir.as_str(), file_name.as_str())
}

/// A process that should only be run once.
pub enum SingletonProcessHandle<F> {
    /// This process is the one: it owns the claimed pid file, which keeps
    /// other identical processes out for as long as it lives.
    TheSingleton(F),
    /// Another process already runs; this is its pid.
    AlreadyRunning(Pid),
}

impl<F> SingletonProcessHandle<F> {
    /// What claiming the pid file at `path` leads to, once the attempt to
    /// open it has given `opened` and, where the file was locked by another
    /// process, `read_running` was asked for the pid stored in it.
    pub open spec fn outcome<R: FnOnce(String) -> std::io::Result<Pid>>(
        opened: Result<F, PidFileError>,
        path: Seq<char>,
        read_running: R,
        r: std::io::Result<Self>,
    ) -> bool {
        match opened {
            Ok(file) => r == Ok::<Self, std::io::Error>(Self::TheSingleton(file)),
            Err(PidFileError::AlreadyLocked) => exists|arg: String, got: std::io::Result<Pid>|
                {
                    &&& arg@ == path
                    &&& call_ensures(read_running, (arg,), got)
                    &&& r == match got {
                        Ok(pid) => Ok(Self::AlreadyRunning(pid)),
                        Err(e) => Err(e),
                    }
                },
            Err(PidFileError::IoError(e)) => r == Err::<Self, std::io::Error>(e),
        }
    }

    /// Claiming the pid file gives: for a file that was opened, this
    /// process as the singleton owning it; for a failure to open it, that
    /// failure; for a file locked by another process, that process's pid,
    /// exactly as it was read from `path`, or the failure to read it.
    pub proof fn lemma_claim_outcomes<R: FnOnce(String) -> std::io::Result<Pid>>(
        opened: Result<F, PidFileError>,
        path: Seq<char>,
        read_running: R,
        r: std::io::Result<Self>,
    )
        requires
            Self::outcome(opened, path, read_running, r),
        ensures
            opened matches Ok(file) ==> r matches Ok(SingletonProcessHandle::TheSingleton(owned))
                && owned == file,
            opened matches Err(PidFileError::IoError(e)) ==> r matches Err(failure) && failure
                == e,
            opened matches Err(PidFileError::AlreadyLocked) ==> (r matches Ok(handle) ==> exists|
                arg: String,
                pid: Pid,
            |
                {
                    &&& arg@ == path
                    &&& call_ensures(read_running, (arg,), Ok::<Pid, std::io::Error>(pid))
                    &&& handle matches SingletonProcessHandle::AlreadyRunning(running)
                    &&& running@ == pid@
                }),
            opened matches Err(PidFileError::AlreadyLocked) ==> (r matches Err(failure) ==> exists|
                arg: String,
            |
                arg@ == path && call_ensures(
                    read_running,
                    (arg,),
                    Err::<Pid, std::io::Error>(failure),
                )),
    {
    }

    /// Creates a handle for the process called `name` run by user `euid`:
    /// `open` tries to claim the pid file at [`pid_file_path`]; when another
    /// process holds its lock, `read_running` reads that process's pid from
    /// the same path.
    pub fn new<O, R>(name: String, euid: u32, open: O, read_running: R) -> (r: std::io::Result<Self>)
        where
            O: FnOnce(String) -> Result<F, PidFileError>,
            R: FnOnce(String) -> std::io::Result<Pid>,
        requires
            forall|path: String| call_requires(open, (path,)),
            forall|path: String| call_requires(read_running, (path,)),
        ensures
            exists|arg: String, opened: Result<F, PidFileError>|
                {
                    &&& arg@ == pid_file_path(euid, name@)
                    &&& call_ensures(open, (arg,), opened)
                    &&& Self::outcome(opened, pid_file_path(euid, name@), read_running, r)
                },
    {
        let path = pid_file_path_of(euid, name.as_str());
        let arg = path.clone();
        let opened = open(arg);
        match opened {
            Ok(file) => Ok(SingletonProcessHandle::TheSingleton(file)),
            Err(PidFileError::AlreadyLocked) => {
                let got = read_running(path);
                match got {
                    Ok(pid) => Ok(SingletonProcessHandle::AlreadyRunning(pid)),
                    Err(e) => Err(e),
                }
            },
            Err(PidFileError::IoError(e)) => Err(e),
        }
    }
}

} // verus!
