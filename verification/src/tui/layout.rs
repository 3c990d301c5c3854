//! Centring overlays, through ratatui's constraint-based layout engine.

use vstd::prelude::*;
use ratatui::layout::{Constraint, Direction, Flex, Layout, Rect as TuiRect};
use crate::tui::spans::Rect;

verus! {

/// The direction along which a layout splits its area.
#[derive(Debug, Clone, Copy, PartialEq, Eq, Structural)]
pub enum Axis {
    Horizontal,
    Vertical,
}

/// The `(x, y, width, height)` of the one segment that ratatui's
/// `Layout::areas` yields for a layout along the vertical axis (when
/// `vertical`) or the horizontal one, holding the single constraint
/// `Constraint::Length(size)` with `Flex::Center`, applied to the area
/// `(x, y, width, height)`.
pub uninterp spec fn ratatui_centered_segment(area: (u16, u16, u16, u16), vertical: bool, size: u16) -> (u16, u16, u16, u16);

/// A rectangle as the tuple of its fields.
pub open spec fn rect_fields(r: Rect) -> (u16, u16, u16, u16) {
    (r.x, r.y, r.width, r.height)
}

/// Calls ratatui's `Layout::areas` on `Layout::new(axis, [Constraint::Length(size)])`
/// with `Flex::Center`. The segment it returns is named
/// [`ratatui_centered_segment`] of the area, the axis and the size; nothing
/// more is claimed of the solver's placement.
#[verifier::external_body]
fn centered_segment(area: Rect, axis: Axis, size: u16) -> (r: Rect)
    ensures
        rect_fields(r) == ratatui_centered_segment(rect_fields(area), axis is Vertical, size),
{
    let direction = match axis {
        Axis::Horizontal => Direction::Horizontal,
        Axis::Vertical => Direction::Vertical,
    };
    let whole = TuiRect { x: area.x, y: area.y, width: area.width, height: area.height };
    let layout = Layout::new(direction, [Constraint::Length(size)]).flex(Flex::Center);
    let [segment] = layout.areas(whole);
    Rect { x: segment.x, y: segment.y, width: segment.width, height: segment.height }
}

/// The box of `width` × `height` centred in `area`: the column of `width`
/// centred across `area`, then the band of `height` centred down that column.
pub open spec fn centered_box(area: Rect, width: u16, height: u16) -> (u16, u16, u16, u16) {
    let column = ratatui_centered_segment(rect_fields(area), false, width);
    ratatui_centered_segment(column, true, height)
}

/// Centre a fixed-size box within `area`, as the help and confirmation
/// overlays are placed.
pub fn centered(area: Rect, width: u16, height: u16) -> (r: Rect)
    ensures
        rect_fields(r) == centered_box(area, width, height),
{
    let column = centered_segment(area, Axis::Horizontal, width);
    centered_segment(column, Axis::Vertical, height)
}

} // verus!
