//! The decisions of the pseudo-terminal's non-blocking reads and writes.
use vstd::prelude::*;

verus! {

/// What a poll of the pseudo-terminal does after one non-blocking read or
/// write of its master end.
#[derive(Clone, Copy, Debug, PartialEq, Eq, Structural)]
pub enum PtyIoStep {
    /// The transfer moved this many bytes; the poll is ready.
    Complete(usize),
    /// The descriptor was not ready after all: clear its readiness and poll
    /// again.
    Retry,
    /// The transfer failed with this error number; the poll is ready with
    /// the error.
    Fail(i32),
}

/// The step after a transfer that gave `result` (a byte count, or an error
/// number), where `would_block` is the error number of a transfer that would
/// have blocked.
pub fn pty_io_step(result: Result<usize, i32>, would_block: i32) -> (step: PtyIoStep)
    ensures
        match result {
            Ok(n) => step == PtyIoStep::Complete(n),
            Err(code) => if code == would_block {
                step == PtyIoStep::Retry
            } else {
                step == PtyIoStep::Fail(code)
            },
        },
{
    match result {
        Ok(n) => PtyIoStep::Complete(n),
        Err(code) => {
            if code == would_block {
                PtyIoStep::Retry
            } else {
                PtyIoStep::Fail(code)
            }
        },
    }
}

} // verus!
