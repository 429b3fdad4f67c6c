//! Process ids on the wire and the pid file that makes `brutusd` a singleton.
use crate::brutusd::runtime::runtime_dir;
use crate::brutusd::runtime::runtime_dir_of;
use crate::codec::{
    lemma_bytes_roundtrip, lemma_value_roundtrip, native_from_bytes, native_to_bytes,
    u32_from_ne_bytes, u32_to_ne_bytes,
};
use crate::io::{kind_of, reported_kind, IoErrorKind};
use crate::text::{joined, lemma_join_relative, path_join};
use vstd::prelude::*;

verus! {

/// The id of a process.
pub type Pid = u32;

/// The pid whose wire form is the four bytes `received` (as filled in by a
/// read of exactly four bytes): their value in the machine's byte order.
pub fn read(received: [u8; 4]) -> (pid: Pid)
    ensures
        pid == native_from_bytes(received),
{
    u32_from_ne_bytes(received)
}

/// The four bytes that stand for `pid` on the wire: its value in the
/// machine's byte order.
pub fn write(pid: Pid) -> (bytes: [u8; 4])
    ensures
        bytes == native_to_bytes(pid),
{
    u32_to_ne_bytes(pid)
}

/// What [`write`] produces, [`read`] turns back into the same pid.
pub proof fn lemma_read_after_write(pid: Pid)
    ensures
        native_from_bytes(native_to_bytes(pid)) == pid,
{
    lemma_value_roundtrip(pid);
}

/// Four bytes that [`read`] accepts, [`write`] gives back unchanged.
pub proof fn lemma_write_after_read(bytes: [u8; 4])
    ensures
        native_to_bytes(native_from_bytes(bytes)) == bytes,
{
    lemma_bytes_roundtrip(bytes);
}

/// The path of the pid file of the process called `name` run by the user
/// `euid`: `<runtime dir>/<name>.pid`.
pub open spec fn pid_file_path(euid: u32, name: Seq<char>) -> Seq<char> {
    joined(runtime_dir(euid), name + ".pid"@)
}

/// For a relative `name`, the pid file of `name` lies directly in the
/// runtime directory: `<runtime dir>/<name>.pid`.
pub proof fn lemma_pid_file_in_runtime_dir(euid: u32, name: Seq<char>)
    requires
        name.len() == 0 || name[0] != '/',
    ensures
        pid_file_path(euid, name) == runtime_dir(euid) + seq!['/'] + name + ".pid"@,
{
    reveal_strlit("brutus");
    reveal_strlit(".pid");
    let dir = runtime_dir(euid);
    let user_dir = joined(crate::brutusd::runtime::USER_RUN_DIR@, crate::text::decimal(euid as nat));
    assert("brutus"@[0] != '/');
    if user_dir.len() > 0 && user_dir.last() != '/' {
        assert(dir == user_dir + seq!['/'] + "brutus"@);
    } else {
        assert(dir == user_dir + "brutus"@);
    }
    assert(dir.last() == 's');
    let file = name + ".pid"@;
    assert(file[0] != '/');
    lemma_join_relative(dir, file);
    assert(pid_file_path(euid, name) =~= dir + seq!['/'] + name + ".pid"@);
}

/// Computes [`pid_file_path`].
pub fn pid_file_path_of(euid: u32, name: &str) -> (path: String)
    ensures
        path@ == pid_file_path(euid, name@),
{
    let dir = runtime_dir_of(euid);
    let mut file_name = name.to_string();
    file_name.append(".pid");
    path_join(dir.as_str(), file_name.as_str())
}

/// A process that should only be run once.
pub enum SingletonProcessHandle<F> {
    /// This process is the one: it owns the locked pid file, which keeps
    /// other identical processes out for as long as it lives.
    TheSingleton(F),
    /// Another process already runs; this is its pid.
    AlreadyRunning(Pid),
}

impl<F> SingletonProcessHandle<F> {
    /// What a failed attempt to open and lock the pid file at `path` leads
    /// to, given the kind of the failure: a lock that would block means
    /// another process runs, and `read_running` reads its pid from the file;
    /// any other failure is returned.
    pub open spec fn failure_outcome<R: FnOnce(String) -> std::io::Result<Pid>>(
        kind: IoErrorKind,
        err: std::io::Error,
        path: Seq<char>,
        read_running: R,
        r: std::io::Result<Self>,
    ) -> bool {
        if kind == IoErrorKind::WouldBlock {
            exists|arg: String, got: std::io::Result<Pid>|
                {
                    &&& arg@ == path
                    &&& call_ensures(read_running, (arg,), got)
                    &&& r == match got {
                        Ok(pid) => Ok(Self::AlreadyRunning(pid)),
                        Err(e) => Err(e),
                    }
                }
        } else {
            r == Err::<Self, std::io::Error>(err)
        }
    }

    /// A failed attempt to open the pid file gives: when the lock would
    /// block, the running server's pid exactly as it was read from `path`,
    /// or the failure to read it; for any other failure, that failure.
    pub proof fn lemma_failure_outcomes<R: FnOnce(String) -> std::io::Result<Pid>>(
        kind: IoErrorKind,
        err: std::io::Error,
        path: Seq<char>,
        read_running: R,
        r: std::io::Result<Self>,
    )
        requires
            Self::failure_outcome(kind, err, path, read_running, r),
        ensures
            kind == IoErrorKind::WouldBlock ==> (r matches Ok(handle) ==> exists|
                arg: String,
                pid: Pid,
            |
                {
                    &&& arg@ == path
                    &&& call_ensures(read_running, (arg,), Ok::<Pid, std::io::Error>(pid))
                    &&& handle == SingletonProcessHandle::<F>::AlreadyRunning(pid)
                }),
            kind == IoErrorKind::WouldBlock ==> (r matches Err(failure) ==> exists|arg: String|
                arg@ == path && call_ensures(
                    read_running,
                    (arg,),
                    Err::<Pid, std::io::Error>(failure),
                )),
            kind != IoErrorKind::WouldBlock ==> (r matches Err(failure) && failure == err),
    {
    }

    /// Handles a failed attempt to open and lock the pid file at `path` whose
    /// failure has kind `kind`.
    pub fn after_open_failure<R>(
        kind: IoErrorKind,
        err: std::io::Error,
        path: String,
        read_running: R,
    ) -> (r: std::io::Result<Self>)
        where
            R: FnOnce(String) -> std::io::Result<Pid>,
        requires
            forall|p: String| call_requires(read_running, (p,)),
        ensures
            Self::failure_outcome(kind, err, path@, read_running, r),
    {
        match kind {
            IoErrorKind::WouldBlock => {
                let got = read_running(path);
                match got {
                    Ok(pid) => Ok(Self::AlreadyRunning(pid)),
                    Err(e) => Err(e),
                }
            },
            _ => Err(err),
        }
    }

    /// Creates a handle for the process called `name` run by user `euid`:
    /// `open` tries to open and lock the pid file at [`pid_file_path`]; when
    /// that fails because another process holds the lock, `read_running`
    /// reads that process's pid from the same path.
    pub fn new<O, R>(name: String, euid: u32, open: O, read_running: R) -> (r: std::io::Result<Self>)
        where
            O: FnOnce(String) -> std::io::Result<F>,
            R: FnOnce(String) -> std::io::Result<Pid>,
        requires
            forall|path: String| call_requires(open, (path,)),
            forall|path: String| call_requires(read_running, (path,)),
        ensures
            exists|arg: String, opened: std::io::Result<F>|
                {
                    &&& arg@ == pid_file_path(euid, name@)
                    &&& call_ensures(open, (arg,), opened)
                    &&& match opened {
                        Ok(file) => r == Ok::<Self, std::io::Error>(Self::TheSingleton(file)),
                        Err(err) => exists|kind: IoErrorKind|
                            reported_kind(err, kind) && Self::failure_outcome(
                                kind,
                                err,
                                pid_file_path(euid, name@),
                                read_running,
                                r,
                            ),
                    }
                },
    {
        let path = pid_file_path_of(euid, name.as_str());
        let arg = path.clone();
        let opened = open(arg);
        match opened {
            Ok(file) => Ok(Self::TheSingleton(file)),
            Err(err) => {
                let kind = kind_of(&err);
                Self::after_open_failure(kind, err, path, read_running)
            },
        }
    }
}

} // verus!
