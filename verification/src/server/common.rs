//! Terminal sizes.
use vstd::prelude::*;

verus! {

/// A terminal size in character cells.
#[derive(Clone, Copy, Debug, PartialEq, Eq, Structural)]
pub struct TermSize {
    pub rows: u16,
    pub cols: u16,
}

/// The fields of the kernel's `winsize` record, as `ioctl(TIOCSWINSZ)` and
/// `forkpty` take them.
#[derive(Clone, Copy, Debug, PartialEq, Eq, Structural)]
pub struct WindowSize {
    pub ws_row: u16,
    pub ws_col: u16,
    pub ws_xpixel: u16,
    pub ws_ypixel: u16,
}

impl WindowSize {
    /// The window size of a terminal of `rows` by `cols` cells whose pixel
    /// size is left unknown (zero).
    pub open spec fn of_cells(rows: u16, cols: u16) -> WindowSize {
        WindowSize { ws_row: rows, ws_col: cols, ws_xpixel: 0, ws_ypixel: 0 }
    }
}

impl From<TermSize> for WindowSize {
    fn from(size: TermSize) -> (w: WindowSize)
        ensures
            w == WindowSize::of_cells(size.rows, size.cols),
    {
        WindowSize { ws_row: size.rows, ws_col: size.cols, ws_xpixel: 0, ws_ypixel: 0 }
    }
}

impl vstd::std_specs::convert::FromSpecImpl<TermSize> for WindowSize {
    open spec fn obeys_from_spec() -> bool {
        true
    }

    open spec fn from_spec(size: TermSize) -> WindowSize {
        WindowSize::of_cells(size.rows, size.cols)
    }
}

} // verus!
