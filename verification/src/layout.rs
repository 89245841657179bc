//! Where the board lies on the screen: the size of its cells, the
//! constraints that lay them out, and the cell a pointer press falls on.

use crate::pieces::Coord;
use crate::rules::cell_index;
use ratatui::layout::{Constraint, Position, Rect};
use vstd::prelude::*;

verus! {

/// `ratatui::layout::Rect`: a rectangle of screen cells, given by its
/// top-left corner and its size. Declared with its four public fields.
#[verifier::external_type_specification]
pub struct ExRect(ratatui::layout::Rect);

/// `ratatui::layout::Position`: a screen cell, by column `x` and row `y`.
/// Declared with its two public fields.
#[verifier::external_type_specification]
pub struct ExPosition(ratatui::layout::Position);

/// `ratatui::layout::Constraint`: one entry of a layout request. Declared
/// with its variants.
#[verifier::external_type_specification]
pub struct ExConstraint(ratatui::layout::Constraint);

/// The first coordinate past a span that starts at `start` and is `length`
/// long, held at the largest screen coordinate.
pub open spec fn span_end(start: u16, length: u16) -> int {
    if start + length > u16::MAX {
        u16::MAX as int
    } else {
        start + length
    }
}

/// Whether `position` lies inside `area`: at or after its left and top edge,
/// and before its right and bottom end.
pub open spec fn area_contains(area: Rect, position: Position) -> bool {
    &&& area.x <= position.x < span_end(area.x, area.width)
    &&& area.y <= position.y < span_end(area.y, area.height)
}

/// `Rect::contains` of ratatui. It compares the position with the
/// rectangle's left and top edge and with its right and bottom end, which it
/// computes by saturating addition; the contract says exactly that.
pub assume_specification[ ratatui::layout::Rect::contains ](area: Rect, position: Position) -> (inside:
    bool)
    ensures
        inside == area_contains(area, position),
;

/// The lengths that divide a board area into a border, eight cells and a
/// border, along each axis.
#[derive(Debug, Copy, Clone, PartialEq, Eq, Structural)]
pub struct CellMetrics {
    pub width: u16,
    pub height: u16,
    pub border_width: u16,
    pub border_height: u16,
}

/// A cell is an eighth of the area, rounded down, each way. The border on
/// each side is what half the area has left over four cells.
pub fn cell_metrics(area: Rect) -> (metrics: CellMetrics)
    ensures
        metrics.width == area.width / 8,
        metrics.height == area.height / 8,
        metrics.border_width == area.width / 2 - 4 * (area.width / 8),
        metrics.border_height == area.height / 2 - 4 * (area.height / 8),
        2 * metrics.border_width + 8 * metrics.width <= area.width,
        2 * metrics.border_height + 8 * metrics.height <= area.height,
{
    let width: u16 = area.width / 8;
    let height: u16 = area.height / 8;
    CellMetrics {
        width,
        height,
        border_width: area.width / 2 - 4 * width,
        border_height: area.height / 2 - 4 * height,
    }
}

/// The layout request for one axis of the board: a border, eight cells of
/// equal length, and a border.
pub fn length_constraints(length: u16, border_length: u16) -> (constraints: [Constraint; 10])
    ensures
        constraints[0] == Constraint::Length(border_length),
        constraints[9] == Constraint::Length(border_length),
        forall|i: int| 1 <= i <= 8 ==> constraints[i] == Constraint::Length(length),
{
    [
        Constraint::Length(border_length),
        Constraint::Length(length),
        Constraint::Length(length),
        Constraint::Length(length),
        Constraint::Length(length),
        Constraint::Length(length),
        Constraint::Length(length),
        Constraint::Length(length),
        Constraint::Length(length),
        Constraint::Length(border_length),
    ]
}

/// What a pointer press falls on.
#[derive(Debug, Copy, Clone, PartialEq, Eq, Structural)]
pub enum PointerTarget {
    /// The press is outside the board area.
    Outside,
    /// The press is on this cell of the board.
    Cell(Coord),
    /// The press is inside the board area but on none of its cells.
    Border,
}

/// Whether `target` is what a press at `position` falls on, given the board
/// area and the areas of its 64 cells, row by row.
///
/// A press outside the board area is outside, whatever the cell areas say.
/// Inside it, the press is on the first cell whose area holds the position,
/// and on the border if none does. Exactly one target fits.
pub open spec fn is_pointer_target(
    board_area: Rect,
    cells: Seq<Rect>,
    position: Position,
    target: PointerTarget,
) -> bool {
    match target {
        PointerTarget::Outside => !area_contains(board_area, position),
        PointerTarget::Cell(coord) => {
            &&& area_contains(board_area, position)
            &&& coord.in_bounds()
            &&& area_contains(cells[cell_index(coord)], position)
            &&& forall|j: int|
                0 <= j < cell_index(coord) ==> !area_contains(#[trigger] cells[j], position)
        },
        PointerTarget::Border => {
            &&& area_contains(board_area, position)
            &&& forall|j: int| 0 <= j < 64 ==> !area_contains(#[trigger] cells[j], position)
        },
    }
}

/// No press has two targets.
pub proof fn lemma_pointer_target_is_unique(
    board_area: Rect,
    cells: Seq<Rect>,
    position: Position,
    first: PointerTarget,
    second: PointerTarget,
)
    requires
        is_pointer_target(board_area, cells, position, first),
        is_pointer_target(board_area, cells, position, second),
    ensures
        first == second,
{
    if let PointerTarget::Cell(a) = first {
        if let PointerTarget::Cell(b) = second {
            if cell_index(a) < cell_index(b) {
                assert(area_contains(cells[cell_index(a)], position));
            } else if cell_index(b) < cell_index(a) {
                assert(area_contains(cells[cell_index(b)], position));
            }
        } else {
            assert(area_contains(cells[cell_index(a)], position));
        }
    } else if let PointerTarget::Cell(b) = second {
        assert(area_contains(cells[cell_index(b)], position));
    }
}

/// Finds what a press at `position` falls on.
pub fn locate(board_area: Rect, cells: &Vec<Rect>, position: Position) -> (target: PointerTarget)
    requires
        cells@.len() == 64,
    ensures
        is_pointer_target(board_area, cells@, position, target),
{
    if !board_area.contains(position) {
        return PointerTarget::Outside;
    }
    let mut index: usize = 0;
    while index < 64
        invariant
            index <= 64,
            cells@.len() == 64,
            area_contains(board_area, position),
            forall|j: int| 0 <= j < index ==> !area_contains(#[trigger] cells@[j], position),
        decreases 64 - index,
    {
        if cells[index].contains(position) {
            let coord = Coord { row: index / 8, col: index % 8 };
            assert(cell_index(coord) == index);
            return PointerTarget::Cell(coord);
        }
        index += 1;
    }
    PointerTarget::Border
}

} // verus!
