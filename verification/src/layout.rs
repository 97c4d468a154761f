//! Screen layout, computed by the `ratatui` crate.
//!
//! Every function in this module is trusted: it hands its arguments to
//! `ratatui` and converts what comes back, and its contract records what
//! `ratatui` does. Nothing here is proved.

use vstd::prelude::*;

use crate::geometry::Rect;

verus! {

/// How much of an area one part of a split asks for.
#[derive(Clone, Copy, Debug, PartialEq, Eq, Structural)]
pub enum Constraint {
    /// A share of what the fixed parts leave, in proportion to the
    /// weight.
    Fill(u16),
    /// Exactly this many cells.
    Length(u16),
}

/// Splits `area` from top to bottom among `constraints`.
///
/// Trusted: calls `Layout::split` of `ratatui` on a vertical layout
/// without margin or spacing. The layout comes from a constraint solver
/// whose choice between equally good layouts is not fixed, so the
/// contract claims only what holds of everything it returns: there is one
/// rectangle for each constraint, and each has the left edge and the
/// width of `area`.
#[verifier::external_body]
pub(crate) fn split_vertical(area: Rect, constraints: &Vec<Constraint>) -> (parts: Vec<Rect>)
    ensures
        parts.len() == constraints.len(),
        forall|i: int|
            0 <= i < parts.len() ==> (#[trigger] parts[i]).x == area.x && parts[i].width
                == area.width,
{
    let constraints = constraints.iter().map(|constraint| match constraint {
        Constraint::Fill(weight) => ratatui::layout::Constraint::Fill(*weight),
        Constraint::Length(length) => ratatui::layout::Constraint::Length(*length),
    });
    let Rect { x, y, width, height } = area;
    ratatui::layout::Layout::default()
        .direction(ratatui::layout::Direction::Vertical)
        .constraints(constraints)
        .split(ratatui::layout::Rect { x, y, width, height })
        .iter()
        .map(|part| Rect { x: part.x, y: part.y, width: part.width, height: part.height })
        .collect()
}

/// The region inside the border of a bordered block drawn into `area`.
///
/// Trusted: calls `Block::inner` of `ratatui` on a block with all four
/// borders and no padding, which moves the left and top edge in by one
/// cell, never past the far edge, and takes two cells off the width and
/// the height, stopping at 0.
#[verifier::external_body]
pub(crate) fn block_inner(area: Rect) -> (inner: Rect)
    ensures
        inner == area.inside_border(),
{
    let Rect { x, y, width, height } = area;
    let inner = ratatui::widgets::Block::bordered().inner(
        ratatui::layout::Rect { x, y, width, height },
    );
    Rect { x: inner.x, y: inner.y, width: inner.width, height: inner.height }
}

/// The rows of `area` from top to bottom.
///
/// Trusted: calls `Rect::rows` of `ratatui`, which yields one rectangle
/// of height 1 for every row from the top edge down to the bottom edge,
/// the bottom edge and each row's right edge cut off at the largest
/// coordinate.
#[verifier::external_body]
pub(crate) fn rows_of(area: Rect) -> (rows: Vec<Rect>)
    ensures
        rows@ == area.rows(),
{
    let Rect { x, y, width, height } = area;
    ratatui::layout::Rect { x, y, width, height }
        .rows()
        .map(|row| Rect { x: row.x, y: row.y, width: row.width, height: row.height })
        .collect()
}

} // verus!
