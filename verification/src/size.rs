//! Terminal geometry: the extent of the visible window.

use vstd::prelude::*;
use crate::error::{OsReply, TtyError};

verus! {

/// The visible window of a terminal, by the cells at its corners, both
/// inclusive. It is the part of the screen buffer that is shown, not the
/// buffer with its scroll-back.
#[derive(Clone, Copy, Debug, PartialEq, Eq)]
pub struct WindowRect {
    pub left: i32,
    pub top: i32,
    pub right: i32,
    pub bottom: i32,
}

impl WindowRect {
    /// Number of columns from the left edge to the right edge.
    pub open spec fn columns(self) -> int {
        self.right - self.left + 1
    }

    /// Number of rows from the top edge to the bottom edge.
    pub open spec fn rows(self) -> int {
        self.bottom - self.top + 1
    }

    /// Shows at least one cell, and no more columns or rows than a size can
    /// hold.
    pub open spec fn visible(self) -> bool {
        &&& 1 <= self.columns() <= u16::MAX
        &&& 1 <= self.rows() <= u16::MAX
    }
}

/// Reads the answer to a window query as `(columns, rows)`.
///
/// A size is returned only for a window that shows at least one cell; a
/// report of an empty or oversized window counts as a failed query.
pub fn terminal_size(reply: OsReply<WindowRect>) -> (out: Result<(u16, u16), TtyError>)
    ensures
        out is Ok <==> (reply matches OsReply::Accepted(w) && w.visible()),
        out matches Ok(size) ==> size.0 == reply->Accepted_0.columns() && size.1
            == reply->Accepted_0.rows() && size.0 >= 1 && size.1 >= 1,
        out matches Err(e) ==> e == (if reply is InvalidHandle {
            TtyError::HandleInvalid
        } else {
            TtyError::QueryFailed
        }),
{
    match reply {
        OsReply::Accepted(w) => {
            let columns: i64 = (w.right as i64) - (w.left as i64) + 1;
            let rows: i64 = (w.bottom as i64) - (w.top as i64) + 1;
            if 1 <= columns && columns <= 0xffff && 1 <= rows && rows <= 0xffff {
                Ok((columns as u16, rows as u16))
            } else {
                Err(TtyError::QueryFailed)
            }
        },
        OsReply::Rejected => Err(TtyError::QueryFailed),
        OsReply::InvalidHandle => Err(TtyError::HandleInvalid),
    }
}

} // verus!
