//! Terminal sizes and error filtering.
use crate::server::common::WindowSize;
use vstd::prelude::*;

verus! {

/// A terminal size in character cells.
#[derive(Clone, Copy, Debug, PartialEq, Eq, Structural)]
pub struct TermSize {
    pub rows: u16,
    pub cols: u16,
}

impl From<TermSize> for WindowSize {
    fn from(ts: TermSize) -> (w: WindowSize)
        ensures
            w == WindowSize::of_cells(ts.rows, ts.cols),
    {
        WindowSize { ws_row: ts.rows, ws_col: ts.cols, ws_xpixel: 0, ws_ypixel: 0 }
    }
}

impl vstd::std_specs::convert::FromSpecImpl<TermSize> for WindowSize {
    open spec fn obeys_from_spec() -> bool {
        true
    }

    open spec fn from_spec(ts: TermSize) -> WindowSize {
        WindowSize::of_cells(ts.rows, ts.cols)
    }
}

/// Filters errors from `result` by `predicate`: an error that the predicate
/// accepts becomes success, any other error is kept, success stays success.
pub fn filter_err<F, E>(result: Result<(), E>, predicate: F) -> (r: Result<(), E>)
    where
        F: Fn(&E) -> bool,
    requires
        result matches Err(err) ==> call_requires(predicate, (&err,)),
    ensures
        match result {
            Ok(()) => r is Ok,
            Err(err) => {
                ||| r is Ok && call_ensures(predicate, (&err,), true)
                ||| r == Err::<(), E>(err) && call_ensures(predicate, (&err,), false)
            },
        },
{
    match result {
        Ok(_) => Ok(()),
        Err(err) => {
            if predicate(&err) {
                Ok(())
            } else {
                Err(err)
            }
        },
    }
}

} // verus!
