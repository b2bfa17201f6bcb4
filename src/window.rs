use vstd::prelude::*;

verus! {

/// Window geometry for a pseudo-terminal, in character cells.
#[derive(Clone, Copy, Debug, PartialEq, Eq, Structural)]
pub struct WindowSize {
    pub columns: u16,
    pub rows: u16,
}

/// The geometry update owed for a requested size: one with both dimensions
/// positive, none otherwise.
pub open spec fn spec_window_update(columns: u16, rows: u16) -> Option<WindowSize> {
    if columns > 0 && rows > 0 {
        Some(WindowSize { columns, rows })
    } else {
        None
    }
}

/// Decides whether a terminal-control call is made for the requested size,
/// and with which geometry. A size with a zero dimension is ignored.
pub fn window_update(columns: u16, rows: u16) -> (r: Option<WindowSize>)
    ensures
        r == spec_window_update(columns, rows),
        columns == 0 || rows == 0 ==> r is None,
        r matches Some(w) ==> w.columns == columns && w.rows == rows,
{
    if columns > 0 && rows > 0 {
        Some(WindowSize { columns, rows })
    } else {
        None
    }
}

} // verus!
