//! The move coordinator: what a click on a board cell does, given the cell
//! that is armed and what stands on both.

use crate::cell::{push_conflicts, push_result, CellSelect, CellSelectHistory, Timestamp};
use crate::game::{initial_cell, Game, GameBoard};
use crate::layout::PointerTarget;
use crate::pieces::{Coord, Piece};
use crate::rules::legal_move;
use vstd::prelude::*;

verus! {

/// What a click amounts to.
#[derive(Debug, Copy, Clone, PartialEq, Eq, Structural)]
pub enum Action {
    /// Nothing was armed: the clicked cell is offered as the selection.
    Select,
    /// A cell was armed: the clicked cell is offered in its place, and no
    /// piece moves.
    Reselect,
    /// The piece on the armed cell goes to the clicked cell, and the
    /// selection is cleared.
    Commit,
}

/// The action a click calls for, given what stands on the armed cell (`None`
/// when no cell is armed) and on the clicked cell.
///
/// | armed cell | clicked cell  | action   |
/// |------------|---------------|----------|
/// | none armed | any           | select   |
/// | empty      | empty         | reselect |
/// | empty      | occupied      | commit   |
/// | occupied   | empty         | reselect |
/// | occupied   | same side     | reselect |
/// | occupied   | other side    | commit   |
pub open spec fn decide(armed: Option<Option<Piece>>, clicked: Option<Piece>) -> Action {
    match armed {
        None => Action::Select,
        Some(None) => match clicked {
            None => Action::Reselect,
            Some(_) => Action::Commit,
        },
        Some(Some(source)) => match clicked {
            None => Action::Reselect,
            Some(target) => if source.color == target.color {
                Action::Reselect
            } else {
                Action::Commit
            },
        },
    }
}

/// The action for a click on `coord` of `board` while `selection` is held.
pub open spec fn click_action(board: GameBoard, selection: Option<CellSelect>, coord: Coord) -> Action {
    match selection {
        None => decide(None, board.at(coord)),
        Some(select) => decide(Some(board.at(select.coord)), board.at(coord)),
    }
}

/// With nothing armed, every click selects.
pub proof fn lemma_first_click_selects(board: GameBoard, coord: Coord)
    ensures
        click_action(board, None, coord) == Action::Select,
{
}

/// With a piece armed, a click on a piece of the same side re-arms and never
/// commits, so no piece takes one of its own side.
pub proof fn lemma_same_side_click_reselects(board: GameBoard, select: CellSelect, coord: Coord)
    requires
        board.at(select.coord) is Some,
        board.at(coord) is Some,
        board.at(select.coord)->0.color == board.at(coord)->0.color,
    ensures
        click_action(board, Some(select), coord) == Action::Reselect,
{
}

/// With a piece armed, a click on a piece of the other side commits.
pub proof fn lemma_other_side_click_commits(board: GameBoard, select: CellSelect, coord: Coord)
    requires
        board.at(select.coord) is Some,
        board.at(coord) is Some,
        board.at(select.coord)->0.color != board.at(coord)->0.color,
    ensures
        click_action(board, Some(select), coord) == Action::Commit,
{
}

/// A click on the armed cell itself never commits: it re-arms, which the
/// selection history takes as keeping or disarming the cell.
pub proof fn lemma_click_on_armed_cell_reselects(board: GameBoard, select: CellSelect)
    ensures
        click_action(board, Some(select), select.coord) == Action::Reselect,
{
}

/// Executable form of [`decide`].
pub fn decide_action(armed: Option<Option<Piece>>, clicked: Option<Piece>) -> (action: Action)
    ensures
        action == decide(armed, clicked),
{
    match armed {
        None => Action::Select,
        Some(None) => match clicked {
            None => Action::Reselect,
            Some(_) => Action::Commit,
        },
        Some(Some(source)) => match clicked {
            None => Action::Reselect,
            Some(target) => if source.color == target.color {
                Action::Reselect
            } else {
                Action::Commit
            },
        },
    }
}

/// The game and its selection, driven by pointer events.
#[derive(Debug)]
pub struct MoveCoordinator {
    cell_select_history: CellSelectHistory,
    game: Game,
}

impl MoveCoordinator {
    /// The armed cell and the time it was armed, if any.
    pub closed spec fn selection(&self) -> Option<CellSelect> {
        self.cell_select_history@
    }

    /// The board as it stands.
    pub closed spec fn board(&self) -> GameBoard {
        self.game.board()
    }

    /// The armed cell, if any, is a cell of the board.
    pub open spec fn wf(&self) -> bool {
        self.selection() matches Some(select) ==> select.coord.in_bounds()
    }

    /// The action a click on `coord` calls for in this state.
    pub open spec fn action_for(&self, coord: Coord) -> Action {
        click_action(self.board(), self.selection(), coord)
    }

    /// Whether a click on `coord` at `time` contradicts the held selection:
    /// it would re-arm to another cell under the timestamp already held.
    pub open spec fn click_conflicts(&self, coord: Coord, time: Timestamp) -> bool {
        &&& self.action_for(coord) != Action::Commit
        &&& push_conflicts(self.selection(), Some(CellSelect { coord, time }))
    }

    /// Whether `next` is the state that a click on `coord` at `time` leaves
    /// behind when it is carried out in this state.
    ///
    /// A commit clears the selection and moves the piece on the armed cell to
    /// `coord`. Any other action leaves the board alone and pushes the click
    /// onto the selection history.
    pub open spec fn click_effect(&self, next: Self, coord: Coord, time: Timestamp) -> bool {
        if self.action_for(coord) == Action::Commit {
            &&& self.selection() is Some
            &&& next.selection() is None
            &&& forall|cell: Coord|
                cell.in_bounds() ==> #[trigger] next.board().at(cell) == self.board().after_move(
                    self.selection()->0.coord,
                    coord,
                    cell,
                )
        } else {
            &&& next.board() == self.board()
            &&& next.selection() == push_result(
                self.selection(),
                Some(CellSelect { coord, time }),
            )
        }
    }

    /// Whether the rules let the armed piece go to `coord`. With no cell
    /// armed, or no piece on the armed cell, there is nothing to forbid.
    pub open spec fn move_allowed(&self, coord: Coord) -> bool {
        self.selection() matches Some(select) ==> (self.board().at(select.coord) matches Some(
            piece,
        ) ==> legal_move(self.board(), piece, select.coord, coord))
    }

    /// A coordinator on the starting layout, with nothing armed.
    pub fn new() -> (coordinator: Self)
        ensures
            coordinator.wf(),
            coordinator.selection() is None,
            forall|coord: Coord|
                coord.in_bounds() ==> #[trigger] coordinator.board().at(coord) == initial_cell(
                    coord,
                ),
    {
        MoveCoordinator { cell_select_history: CellSelectHistory::new(), game: Game::default() }
    }

    /// A coordinator on the given game, with nothing armed.
    pub fn with_game(game: Game) -> (coordinator: Self)
        ensures
            coordinator.wf(),
            coordinator.selection() is None,
            coordinator.board() == game.board(),
    {
        MoveCoordinator { cell_select_history: CellSelectHistory::new(), game }
    }

    /// The armed cell, if any.
    pub fn selected_cell(&self) -> (cell: Option<Coord>)
        ensures
            cell == match self.selection() {
                Some(select) => Some(select.coord),
                None => None,
            },
    {
        match self.cell_select_history.last() {
            Some(select) => Some(select.coord),
            None => None,
        }
    }

    /// The piece on a cell, if any.
    pub fn piece_at(&self, coord: Coord) -> (piece: Option<Piece>)
        requires
            coord.in_bounds(),
        ensures
            piece == self.board().at(coord),
    {
        match self.game.get_cell(coord) {
            Some(piece) => Some(*piece),
            None => None,
        }
    }

    /// The action a click on `coord` would take, without taking it.
    pub fn pending_action(&self, coord: Coord) -> (action: Action)
        requires
            self.wf(),
            coord.in_bounds(),
        ensures
            action == self.action_for(coord),
    {
        let clicked = self.piece_at(coord);
        match self.cell_select_history.last() {
            None => decide_action(None, clicked),
            Some(select) => decide_action(Some(self.piece_at(select.coord)), clicked),
        }
    }

    /// Executable form of [`MoveCoordinator::click_conflicts`]: whether
    /// `on_pointer_click` must not be called with this click.
    pub fn conflicts_with(&self, coord: Coord, time: Timestamp) -> (conflict: bool)
        requires
            self.wf(),
            coord.in_bounds(),
        ensures
            conflict == self.click_conflicts(coord, time),
    {
        match self.pending_action(coord) {
            Action::Commit => false,
            _ => self.cell_select_history.conflicts_with(&Some(CellSelect::new(coord, time))),
        }
    }

    /// Handles a click on the board cell `coord` at `time`.
    ///
    /// A commit moves the piece on the armed cell to `coord`, taking whatever
    /// stood there, and clears the selection; with no piece on the armed cell
    /// the board stays as it is. Any other action leaves the board alone and
    /// pushes the clicked cell onto the selection history.
    ///
    /// A click that contradicts the held selection must not be passed in;
    /// [`MoveCoordinator::conflicts_with`] tells whether one does.
    pub fn on_pointer_click(&mut self, coord: Coord, time: Timestamp) -> (action: Action)
        requires
            old(self).wf(),
            coord.in_bounds(),
            !old(self).click_conflicts(coord, time),
        ensures
            final(self).wf(),
            action == old(self).action_for(coord),
            old(self).click_effect(*final(self), coord, time),
    {
        let action = self.pending_action(coord);
        match action {
            Action::Commit => {
                let from = match self.cell_select_history.last() {
                    Some(select) => select.coord,
                    None => coord,
                };
                self.game.make_move(from, coord);
                self.cell_select_history.push(None);
            },
            _ => {
                self.cell_select_history.push(Some(CellSelect::new(coord, time)));
            },
        }
        action
    }

    /// Handles a click as [`MoveCoordinator::on_pointer_click`] does, but
    /// carries out a commit only where the movement rules allow the move.
    /// A commit that they forbid is rejected: `None` is returned and nothing
    /// changes.
    pub fn on_pointer_click_checked(&mut self, coord: Coord, time: Timestamp) -> (action: Option<
        Action,
    >)
        requires
            old(self).wf(),
            coord.in_bounds(),
            !old(self).click_conflicts(coord, time),
        ensures
            final(self).wf(),
            action is None <==> old(self).action_for(coord) == Action::Commit && !old(
                self,
            ).move_allowed(coord),
            action is None ==> final(self).board() == old(self).board() && final(self).selection()
                == old(self).selection(),
            action is Some ==> action == Some(old(self).action_for(coord)) && old(
                self,
            ).click_effect(*final(self), coord, time),
    {
        let allowed = match self.cell_select_history.last() {
            Some(select) => match self.game.get_cell(select.coord) {
                Some(piece) => piece.can_move(&select.coord, &coord, self.game.game_board()),
                None => true,
            },
            None => true,
        };
        match self.pending_action(coord) {
            Action::Commit => if allowed {
                Some(self.on_pointer_click(coord, time))
            } else {
                None
            },
            _ => Some(self.on_pointer_click(coord, time)),
        }
    }

    /// Handles a pointer press by what it fell on: a press outside the board
    /// is the pointer leaving it, a press on a cell is a click on that cell,
    /// and a press on the border changes nothing.
    pub fn on_pointer_press(&mut self, target: PointerTarget, time: Timestamp) -> (action: Option<
        Action,
    >)
        requires
            old(self).wf(),
            target matches PointerTarget::Cell(coord) ==> coord.in_bounds() && !old(
                self,
            ).click_conflicts(coord, time),
        ensures
            final(self).wf(),
            match target {
                PointerTarget::Outside => {
                    &&& action is None
                    &&& final(self).selection() is None
                    &&& final(self).board() == old(self).board()
                },
                PointerTarget::Cell(coord) => {
                    &&& action == Some(old(self).action_for(coord))
                    &&& old(self).click_effect(*final(self), coord, time)
                },
                PointerTarget::Border => {
                    &&& action is None
                    &&& final(self).selection() == old(self).selection()
                    &&& final(self).board() == old(self).board()
                },
            },
    {
        match target {
            PointerTarget::Outside => {
                self.on_pointer_leave();
                None
            },
            PointerTarget::Cell(coord) => Some(self.on_pointer_click(coord, time)),
            PointerTarget::Border => None,
        }
    }

    /// Handles the pointer leaving the board: the selection is cleared and
    /// the board stays as it is.
    pub fn on_pointer_leave(&mut self)
        ensures
            final(self).wf(),
            final(self).selection() is None,
            final(self).board() == old(self).board(),
    {
        self.cell_select_history.push(None);
    }
}

} // verus!
