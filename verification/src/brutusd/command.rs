//! The commands that clients send to the server, and the pipes they travel
//! through.
use crate::text::{decimal, decimal_string, joined, lemma_decimal_injective, lemma_decimal_value, path_join};
use vstd::prelude::*;

verus! {

/// A command sent by a client.
#[derive(Clone, Copy, Debug, PartialEq, Eq, Structural)]
pub enum Command {
    /// A client connects.
    Connect,
    /// No command; a client never sends it.
    Empty,
}

/// The line that the server logs when client `pid` connects.
pub open spec fn connect_message(pid: u32) -> Seq<char> {
    "connect client "@ + decimal(pid as nat)
}

/// Handles command `cmd` from client `pid` and returns the line the server
/// logs for it.
pub fn handle(pid: u32, cmd: Command) -> (line: String)
    requires
        cmd == Command::Connect,
    ensures
        line@ == connect_message(pid),
{
    let mut line = "connect client ".to_string();
    line.append(decimal_string(pid).as_str());
    line
}

/// The command pipe of the server `server_pid` in the runtime directory
/// `runtime_dir`: `<runtime dir>/<pid>.cmd`.
pub open spec fn command_pipe_path(runtime_dir: Seq<char>, server_pid: u32) -> Seq<char> {
    joined(runtime_dir, decimal(server_pid as nat) + ".cmd"@)
}

/// Computes [`command_pipe_path`].
pub fn command_pipe_path_of(runtime_dir: &str, server_pid: u32) -> (path: String)
    ensures
        path@ == command_pipe_path(runtime_dir@, server_pid),
{
    let mut file_name = decimal_string(server_pid);
    file_name.append(".cmd");
    path_join(runtime_dir, file_name.as_str())
}

/// The event pipe of client `client_pid` in the runtime directory
/// `runtime_dir`: `<runtime dir>/<pid>.evt`.
pub open spec fn event_pipe_path(runtime_dir: Seq<char>, client_pid: u32) -> Seq<char> {
    joined(runtime_dir, decimal(client_pid as nat) + ".evt"@)
}

/// Computes [`event_pipe_path`].
pub fn event_pipe_path_of(runtime_dir: &str, client_pid: u32) -> (path: String)
    ensures
        path@ == event_pipe_path(runtime_dir@, client_pid),
{
    let mut file_name = decimal_string(client_pid);
    file_name.append(".evt");
    path_join(runtime_dir, file_name.as_str())
}

/// A file name made of a decimal number and a suffix, joined to a directory,
/// names a different path for each number.
proof fn lemma_numbered_paths_distinct(dir: Seq<char>, suffix: Seq<char>, p: u32, q: u32)
    requires
        p != q,
    ensures
        joined(dir, decimal(p as nat) + suffix) != joined(dir, decimal(q as nat) + suffix),
{
    let dp = decimal(p as nat);
    let dq = decimal(q as nat);
    let a = dp + suffix;
    let b = dq + suffix;
    lemma_decimal_value(p as nat);
    lemma_decimal_value(q as nat);
    lemma_decimal_injective(p as nat, q as nat);
    assert('0' <= dp[0] <= '9');
    assert('0' <= dq[0] <= '9');
    assert(a[0] == dp[0]);
    assert(b[0] == dq[0]);
    let prefix = if dir.len() > 0 && dir.last() != '/' {
        dir + seq!['/']
    } else {
        dir
    };
    assert(joined(dir, a) =~= prefix + a);
    assert(joined(dir, b) =~= prefix + b);
    if prefix + a == prefix + b {
        assert(a =~= (prefix + a).skip(prefix.len() as int));
        assert(b =~= (prefix + b).skip(prefix.len() as int));
        assert(a.len() == b.len());
        assert(dp.len() == dq.len());
        assert(dp =~= a.take(dp.len() as int));
        assert(dq =~= b.take(dq.len() as int));
    }
}

/// Different servers have different command pipes, and different clients
/// different event pipes.
pub proof fn lemma_pipes_distinct(runtime_dir: Seq<char>, p: u32, q: u32)
    requires
        p != q,
    ensures
        command_pipe_path(runtime_dir, p) != command_pipe_path(runtime_dir, q),
        event_pipe_path(runtime_dir, p) != event_pipe_path(runtime_dir, q),
{
    lemma_numbered_paths_distinct(runtime_dir, ".cmd"@, p, q);
    lemma_numbered_paths_distinct(runtime_dir, ".evt"@, p, q);
}

} // verus!
