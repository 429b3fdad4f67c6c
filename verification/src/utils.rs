//! Terminal rectangles.
use crate::server::common::WindowSize;
use vstd::prelude::*;

verus! {

/// A terminal rectangle in character cells.
#[derive(Debug, Clone, Copy)]
pub struct TermRect {
    pub rows: u16,
    pub cols: u16,
}

impl From<(u16, u16)> for TermRect {
    fn from(value: (u16, u16)) -> (r: TermRect)
        ensures
            r.rows == value.0 && r.cols == value.1,
    {
        TermRect { rows: value.0, cols: value.1 }
    }
}

impl vstd::std_specs::convert::FromSpecImpl<(u16, u16)> for TermRect {
    open spec fn obeys_from_spec() -> bool {
        true
    }

    open spec fn from_spec(value: (u16, u16)) -> TermRect {
        TermRect { rows: value.0, cols: value.1 }
    }
}

impl From<TermRect> for WindowSize {
    fn from(value: TermRect) -> (w: WindowSize)
        ensures
            w == WindowSize::of_cells(value.rows, value.cols),
    {
        WindowSize { ws_row: value.rows, ws_col: value.cols, ws_xpixel: 0, ws_ypixel: 0 }
    }
}

impl vstd::std_specs::convert::FromSpecImpl<TermRect> for WindowSize {
    open spec fn obeys_from_spec() -> bool {
        true
    }

    open spec fn from_spec(value: TermRect) -> WindowSize {
        WindowSize::of_cells(value.rows, value.cols)
    }
}

} // verus!
