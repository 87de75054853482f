//! The rectangles into which a frame is divided.

use ratatui::layout::{Constraint, Layout, Rect};
use vstd::prelude::*;

verus! {

/// A rectangle of terminal cells.
#[derive(Clone, Copy, Debug, PartialEq, Eq, Structural)]
pub struct Area {
    pub x: u16,
    pub y: u16,
    pub width: u16,
    pub height: u16,
}

/// Divides `area` into the table above and the input line below it.
///
/// Calls ratatui's `Layout::areas` on `Layout::vertical([Fill(1), Length(1)])` with no spacing
/// and no margin. ratatui copies the columns of every part from `area`, which is all that the
/// contract claims. Where the parts begin and how high they are comes from a constraint solver
/// that walks hash maps: of that the contract promises nothing, and callers are verified for
/// whatever comes back.
#[verifier::external_body]
pub(crate) fn split_stacked(area: Area) -> (parts: (Area, Area))
    ensures
        parts.0.x == area.x,
        parts.0.width == area.width,
        parts.1.x == area.x,
        parts.1.width == area.width,
{
    let whole = Rect { x: area.x, y: area.y, width: area.width, height: area.height };
    let layout = Layout::vertical([Constraint::Fill(1), Constraint::Length(1)]).spacing(0);
    let [upper, lower] = layout.areas(whole);
    (
        Area { x: upper.x, y: upper.y, width: upper.width, height: upper.height },
        Area { x: lower.x, y: lower.y, width: lower.width, height: lower.height },
    )
}

/// Divides the input line into the prompt on the left and the status on the right.
///
/// Calls ratatui's `Layout::areas` on `Layout::horizontal([Percentage(90), Percentage(10)])`
/// with no spacing and no margin. ratatui copies the lines of every part from `area`, which is
/// all that the contract claims. Where the parts begin and how wide they are comes from a
/// constraint solver that walks hash maps: of that the contract promises nothing, and callers
/// are verified for whatever comes back.
#[verifier::external_body]
pub(crate) fn split_adjacent(area: Area) -> (parts: (Area, Area))
    ensures
        parts.0.y == area.y,
        parts.0.height == area.height,
        parts.1.y == area.y,
        parts.1.height == area.height,
{
    let whole = Rect { x: area.x, y: area.y, width: area.width, height: area.height };
    let layout =
        Layout::horizontal([Constraint::Percentage(90), Constraint::Percentage(10)]).spacing(0);
    let [left, right] = layout.areas(whole);
    (
        Area { x: left.x, y: left.y, width: left.width, height: left.height },
        Area { x: right.x, y: right.y, width: right.width, height: right.height },
    )
}

} // verus!
