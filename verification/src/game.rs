//! The board and the game that owns it.

use crate::pieces::{Coord, Piece, PieceColor, PieceKind};
use vstd::prelude::*;

verus! {

/// The 8×8 grid. Each cell holds one piece or none.
#[derive(Debug)]
pub struct GameBoard {
    pub board: [[Option<Piece>; 8]; 8],
}

/// What the starting layout puts on a cell: black pawns on row 1, white pawns
/// on row 6, nothing elsewhere.
pub open spec fn initial_cell(coord: Coord) -> Option<Piece> {
    if coord.row == 1 {
        Some(Piece { kind: PieceKind::Pawn, color: PieceColor::Black })
    } else if coord.row == 6 {
        Some(Piece { kind: PieceKind::Pawn, color: PieceColor::White })
    } else {
        None
    }
}

impl GameBoard {
    /// The content of a cell.
    pub open spec fn at(&self, coord: Coord) -> Option<Piece> {
        self.board[coord.row as int][coord.col as int]
    }

    /// The content of cell `coord` once the piece on `from` has been moved to
    /// `to`. With no piece on `from` nothing moves and nothing is erased.
    pub open spec fn after_move(&self, from: Coord, to: Coord, coord: Coord) -> Option<Piece> {
        if self.at(from) is None {
            self.at(coord)
        } else if coord == to {
            self.at(from)
        } else if coord == from {
            None
        } else {
            self.at(coord)
        }
    }

    /// A board with no piece on it.
    pub fn empty() -> (board: Self)
        ensures
            forall|coord: Coord| coord.in_bounds() ==> #[trigger] board.at(coord) is None,
    {
        let row: [Option<Piece>; 8] = [None, None, None, None, None, None, None, None];
        GameBoard { board: [row, row, row, row, row, row, row, row] }
    }

    /// Reads a cell.
    pub fn get(&self, coord: Coord) -> (cell: Option<Piece>)
        requires
            coord.in_bounds(),
        ensures
            cell == self.at(coord),
    {
        self.board[coord.row][coord.col]
    }

    /// Writes a cell, leaving every other cell as it was.
    pub fn set(&mut self, coord: Coord, cell: Option<Piece>)
        requires
            coord.in_bounds(),
        ensures
            forall|other: Coord|
                other.in_bounds() ==> #[trigger] final(self).at(other) == if other == coord {
                    cell
                } else {
                    old(self).at(other)
                },
    {
        self.board[coord.row][coord.col] = cell;
    }
}

/// A move from an empty cell changes no cell: nothing is placed, and the
/// piece on `to`, if any, stays.
pub proof fn lemma_move_from_empty_cell_changes_nothing(
    board: GameBoard,
    from: Coord,
    to: Coord,
    coord: Coord,
)
    requires
        board.at(from) is None,
    ensures
        board.after_move(from, to, from) == board.at(from),
        board.after_move(from, to, to) == board.at(to),
        board.after_move(from, to, coord) == board.at(coord),
{
}

/// A move from an occupied cell puts the piece on `to`, whatever stood
/// there, leaves `from` empty unless it is `to` itself, and touches no other
/// cell.
pub proof fn lemma_move_relocates_the_piece(
    board: GameBoard,
    from: Coord,
    to: Coord,
    coord: Coord,
)
    requires
        board.at(from) is Some,
    ensures
        board.after_move(from, to, to) == board.at(from),
        from != to ==> board.after_move(from, to, from) is None,
        coord != from && coord != to ==> board.after_move(from, to, coord) == board.at(coord),
{
}

impl Default for GameBoard {
    /// The starting layout.
    fn default() -> (board: Self)
        ensures
            forall|coord: Coord| coord.in_bounds() ==> #[trigger] board.at(coord) == initial_cell(coord),
    {
        let none: [Option<Piece>; 8] = [None, None, None, None, None, None, None, None];
        let b: Option<Piece> = Some(Piece { kind: PieceKind::Pawn, color: PieceColor::Black });
        let w: Option<Piece> = Some(Piece { kind: PieceKind::Pawn, color: PieceColor::White });
        let black: [Option<Piece>; 8] = [b, b, b, b, b, b, b, b];
        let white: [Option<Piece>; 8] = [w, w, w, w, w, w, w, w];
        GameBoard { board: [none, black, none, none, none, none, white, none] }
    }
}

/// A game in progress: the board and nothing else.
#[derive(Debug)]
pub struct Game {
    game_board: GameBoard,
}

impl Default for Game {
    /// A game on the starting layout.
    fn default() -> (game: Self)
        ensures
            forall|coord: Coord|
                coord.in_bounds() ==> #[trigger] game.board().at(coord) == initial_cell(coord),
    {
        Game { game_board: GameBoard::default() }
    }
}

impl Game {
    /// The board as it stands.
    pub closed spec fn board(&self) -> GameBoard {
        self.game_board
    }

    /// A game that starts from the given board.
    pub fn from_board(game_board: GameBoard) -> (game: Self)
        ensures
            game.board() == game_board,
    {
        Game { game_board }
    }

    /// The board, for reading.
    pub fn game_board(&self) -> (board: &GameBoard)
        ensures
            *board == self.board(),
    {
        &self.game_board
    }

    /// Moves the piece on `from` to `to`, replacing whatever stood there.
    /// With no piece on `from` the board is left exactly as it was.
    pub fn make_move(&mut self, from: Coord, to: Coord)
        requires
            from.in_bounds(),
            to.in_bounds(),
        ensures
            old(self).board().at(from) is None ==> final(self).board() == old(self).board(),
            forall|coord: Coord|
                coord.in_bounds() ==> #[trigger] final(self).board().at(coord) == old(
                    self,
                ).board().after_move(from, to, coord),
    {
        let piece = self.game_board.board[from.row][from.col];
        if piece.is_some() {
            self.game_board.board[from.row][from.col] = None;
            self.game_board.board[to.row][to.col] = piece;
        }
    }

    /// The piece on a cell, if any.
    pub fn get_cell(&self, coord: Coord) -> (cell: Option<&Piece>)
        requires
            coord.in_bounds(),
        ensures
            cell is Some <==> self.board().at(coord) is Some,
            cell is Some ==> *cell->0 == self.board().at(coord)->0,
    {
        self.game_board.board[coord.row][coord.col].as_ref()
    }
}

} // verus!
