//! The movement rules: which cells a piece may go to from where it stands.
//!
//! The rules are those of the pieces alone. They know nothing of check,
//! castling, promotion or capture in passing.

use crate::game::GameBoard;
use crate::pieces::{Coord, Piece, PieceColor, PieceKind};
use vstd::prelude::*;

verus! {

/// Whether `coord` holds a piece of the given side.
pub open spec fn friendly(board: GameBoard, color: PieceColor, coord: Coord) -> bool {
    board.at(coord) matches Some(piece) && piece.color == color
}

/// Whether `coord` holds a piece of the other side.
pub open spec fn hostile(board: GameBoard, color: PieceColor, coord: Coord) -> bool {
    board.at(coord) matches Some(piece) && piece.color != color
}

/// How far apart two row or column numbers are.
pub open spec fn distance(a: usize, b: usize) -> int {
    if a >= b {
        a - b
    } else {
        b - a
    }
}

/// The number `k` steps away from `base` in the direction of `goal`.
pub open spec fn toward(base: usize, goal: usize, k: int) -> int {
    if goal > base {
        base + k
    } else if goal < base {
        base - k
    } else {
        base as int
    }
}

/// The cell `k` steps from `from` on the line that leads to `to`.
pub open spec fn line_cell(from: Coord, to: Coord, k: int) -> Coord {
    Coord { row: toward(from.row, to.row, k) as usize, col: toward(from.col, to.col, k) as usize }
}

/// Two different cells of one row or of one column.
pub open spec fn straight(from: Coord, to: Coord) -> bool {
    (from.row == to.row) != (from.col == to.col)
}

/// Two different cells of one diagonal.
pub open spec fn diagonal(from: Coord, to: Coord) -> bool {
    from.row != to.row && distance(from.row, to.row) == distance(from.col, to.col)
}

/// The number of steps from one cell to another along a line.
pub open spec fn span(from: Coord, to: Coord) -> int {
    if distance(from.row, to.row) >= distance(from.col, to.col) {
        distance(from.row, to.row)
    } else {
        distance(from.col, to.col)
    }
}

/// Every cell strictly between `from` and `to` on their line is empty.
pub open spec fn path_clear(board: GameBoard, from: Coord, to: Coord) -> bool {
    forall|k: int| 1 <= k < span(from, to) ==> board.at(#[trigger] line_cell(from, to, k)) is None
}

/// A knight's jump: two cells one way and one cell the other.
pub open spec fn knight_jump(from: Coord, to: Coord) -> bool {
    ||| distance(from.row, to.row) == 1 && distance(from.col, to.col) == 2
    ||| distance(from.row, to.row) == 2 && distance(from.col, to.col) == 1
}

/// A king's step: to one of the up to eight neighbouring cells.
pub open spec fn king_step(from: Coord, to: Coord) -> bool {
    from != to && distance(from.row, to.row) <= 1 && distance(from.col, to.col) <= 1
}

/// The row a pawn reaches after `steps` steps forward. White advances to
/// lower row numbers, black to higher ones.
pub open spec fn pawn_advance(color: PieceColor, row: usize, steps: int) -> int {
    match color {
        PieceColor::White => row - steps,
        PieceColor::Black => row + steps,
    }
}

/// The row on which a side's pawns start.
pub open spec fn pawn_home_row(color: PieceColor) -> int {
    match color {
        PieceColor::White => 6,
        PieceColor::Black => 1,
    }
}

/// A pawn steps one cell forward onto an empty cell, two from its home row
/// over an empty cell onto an empty cell, or one cell diagonally forward onto
/// a piece of the other side.
pub open spec fn pawn_move(board: GameBoard, color: PieceColor, from: Coord, to: Coord) -> bool {
    ||| {
        &&& to.col == from.col
        &&& to.row == pawn_advance(color, from.row, 1)
        &&& board.at(to) is None
    }
    ||| {
        &&& to.col == from.col
        &&& from.row == pawn_home_row(color)
        &&& to.row == pawn_advance(color, from.row, 2)
        &&& board.at(line_cell(from, to, 1)) is None
        &&& board.at(to) is None
    }
    ||| {
        &&& distance(from.col, to.col) == 1
        &&& to.row == pawn_advance(color, from.row, 1)
        &&& hostile(board, color, to)
    }
}

/// Whether `piece`, standing on `from`, may go to `to` on `board`.
///
/// Both cells are on the board and differ. Rook, bishop and queen slide along
/// their lines over empty cells only; knight and king go by their shape. None
/// of them lands on a piece of its own side. The pawn follows [`pawn_move`].
pub open spec fn legal_move(board: GameBoard, piece: Piece, from: Coord, to: Coord) -> bool {
    &&& from.in_bounds()
    &&& to.in_bounds()
    &&& from != to
    &&& match piece.kind {
        PieceKind::Pawn => pawn_move(board, piece.color, from, to),
        PieceKind::Knight => knight_jump(from, to) && !friendly(board, piece.color, to),
        PieceKind::King => king_step(from, to) && !friendly(board, piece.color, to),
        PieceKind::Rook => {
            &&& straight(from, to)
            &&& path_clear(board, from, to)
            &&& !friendly(board, piece.color, to)
        },
        PieceKind::Bishop => {
            &&& diagonal(from, to)
            &&& path_clear(board, from, to)
            &&& !friendly(board, piece.color, to)
        },
        PieceKind::Queen => {
            &&& straight(from, to) || diagonal(from, to)
            &&& path_clear(board, from, to)
            &&& !friendly(board, piece.color, to)
        },
    }
}

/// The place of a cell when the board is read row by row.
pub open spec fn cell_index(coord: Coord) -> int {
    coord.row * 8 + coord.col
}

/// A legal move stays on the board, leaves the piece's own cell, and never
/// ends on a piece of the mover's side.
pub proof fn lemma_legal_move_target(board: GameBoard, piece: Piece, from: Coord, to: Coord)
    requires
        legal_move(board, piece, from, to),
    ensures
        to.in_bounds(),
        to != from,
        !friendly(board, piece.color, to),
{
}

/// A legal move onto an occupied cell is a capture: the piece there belongs
/// to the other side.
pub proof fn lemma_legal_move_captures(board: GameBoard, piece: Piece, from: Coord, to: Coord)
    requires
        legal_move(board, piece, from, to),
        board.at(to) is Some,
    ensures
        hostile(board, piece.color, to),
{
}

fn gap(a: usize, b: usize) -> (d: usize)
    ensures
        d == distance(a, b),
{
    if a >= b {
        a - b
    } else {
        b - a
    }
}

fn step_toward(base: usize, goal: usize, k: usize) -> (pos: usize)
    requires
        k <= distance(base, goal) || base == goal,
    ensures
        pos == toward(base, goal, k as int),
{
    if goal > base {
        base + k
    } else if goal < base {
        base - k
    } else {
        base
    }
}

fn occupied_by(board: &GameBoard, coord: &Coord, color: PieceColor) -> (yes: bool)
    requires
        coord.in_bounds(),
    ensures
        yes == friendly(*board, color, *coord),
{
    match board.get(*coord) {
        Some(piece) => piece.color == color,
        None => false,
    }
}

fn is_path_clear(board: &GameBoard, from: &Coord, to: &Coord) -> (clear: bool)
    requires
        from.in_bounds(),
        to.in_bounds(),
        straight(*from, *to) || diagonal(*from, *to),
    ensures
        clear == path_clear(*board, *from, *to),
{
    let rows = gap(from.row, to.row);
    let cols = gap(from.col, to.col);
    let steps: usize = if rows >= cols {
        rows
    } else {
        cols
    };
    let mut k: usize = 1;
    while k < steps
        invariant
            1 <= k,
            steps == span(*from, *to),
            steps <= 7,
            from.in_bounds(),
            to.in_bounds(),
            straight(*from, *to) || diagonal(*from, *to),
            forall|j: int| 1 <= j < k ==> board.at(#[trigger] line_cell(*from, *to, j)) is None,
        decreases steps - k,
    {
        let row = step_toward(from.row, to.row, k);
        let col = step_toward(from.col, to.col, k);
        let here = Coord { row, col };
        assert(here == line_cell(*from, *to, k as int));
        if board.get(here).is_some() {
            return false;
        }
        k += 1;
    }
    true
}

fn is_pawn_move(board: &GameBoard, color: PieceColor, from: &Coord, to: &Coord) -> (ok: bool)
    requires
        from.in_bounds(),
        to.in_bounds(),
    ensures
        ok == pawn_move(*board, color, *from, *to),
{
    let one_ahead = match color {
        PieceColor::White => from.row == to.row + 1,
        PieceColor::Black => to.row == from.row + 1,
    };
    let two_ahead = match color {
        PieceColor::White => from.row == 6 && to.row == 4,
        PieceColor::Black => from.row == 1 && to.row == 3,
    };
    let target = board.get(*to);
    if to.col == from.col {
        if one_ahead {
            target.is_none()
        } else if two_ahead {
            let row = step_toward(from.row, to.row, 1);
            let middle = Coord { row, col: from.col };
            assert(middle == line_cell(*from, *to, 1));
            board.get(middle).is_none() && target.is_none()
        } else {
            false
        }
    } else if gap(from.col, to.col) == 1 && one_ahead {
        match target {
            Some(piece) => piece.color != color,
            None => false,
        }
    } else {
        false
    }
}

impl Piece {
    /// Whether this piece, standing on `from`, may go to `to`.
    pub fn can_move(&self, from: &Coord, to: &Coord, game_board: &GameBoard) -> (ok: bool)
        requires
            from.in_bounds(),
            to.in_bounds(),
        ensures
            ok == legal_move(*game_board, *self, *from, *to),
    {
        if from.row == to.row && from.col == to.col {
            return false;
        }
        let rows = gap(from.row, to.row);
        let cols = gap(from.col, to.col);
        let is_straight = (from.row == to.row) != (from.col == to.col);
        let is_diagonal = from.row != to.row && rows == cols;
        match self.kind {
            PieceKind::Pawn => is_pawn_move(game_board, self.color, from, to),
            PieceKind::Knight => {
                ((rows == 1 && cols == 2) || (rows == 2 && cols == 1)) && !occupied_by(
                    game_board,
                    to,
                    self.color,
                )
            },
            PieceKind::King => {
                rows <= 1 && cols <= 1 && !occupied_by(game_board, to, self.color)
            },
            PieceKind::Rook => {
                is_straight && is_path_clear(game_board, from, to) && !occupied_by(
                    game_board,
                    to,
                    self.color,
                )
            },
            PieceKind::Bishop => {
                is_diagonal && is_path_clear(game_board, from, to) && !occupied_by(
                    game_board,
                    to,
                    self.color,
                )
            },
            PieceKind::Queen => {
                (is_straight || is_diagonal) && is_path_clear(game_board, from, to)
                    && !occupied_by(game_board, to, self.color)
            },
        }
    }

    /// Every cell this piece may go to from `coordinates`, each listed once,
    /// in the order of the rows and, within a row, of the columns.
    pub fn acceptable_moves(&self, coordinates: &Coord, game_board: &GameBoard) -> (moves: Vec<
        Coord,
    >)
        requires
            coordinates.in_bounds(),
        ensures
            forall|to: Coord|
                moves@.contains(to) <==> legal_move(*game_board, *self, *coordinates, to),
            forall|i: int, j: int|
                0 <= i < j < moves@.len() ==> cell_index(moves@[i]) < cell_index(moves@[j]),
            moves@.no_duplicates(),
    {
        let mut moves: Vec<Coord> = Vec::new();
        let mut index: usize = 0;
        while index < 64
            invariant
                index <= 64,
                coordinates.in_bounds(),
                forall|i: int|
                    0 <= i < moves@.len() ==> legal_move(
                        *game_board,
                        *self,
                        *coordinates,
                        #[trigger] moves@[i],
                    ) && cell_index(moves@[i]) < index,
                forall|to: Coord|
                    #[trigger] legal_move(*game_board, *self, *coordinates, to) && cell_index(to)
                        < index ==> moves@.contains(to),
                forall|i: int, j: int|
                    0 <= i < j < moves@.len() ==> cell_index(#[trigger] moves@[i]) < cell_index(
                        #[trigger] moves@[j],
                    ),
            decreases 64 - index,
        {
            let to = Coord { row: index / 8, col: index % 8 };
            if self.can_move(coordinates, &to, game_board) {
                let ghost before = moves@;
                moves.push(to);
                proof {
                    assert(moves@[before.len() as int] == to);
                    assert forall|other: Coord|
                        #[trigger] legal_move(*game_board, *self, *coordinates, other)
                            && cell_index(other) < index + 1 implies moves@.contains(other) by {
                        if cell_index(other) < index {
                            let i = choose|i: int| 0 <= i < before.len() && before[i] == other;
                            assert(moves@[i] == other);
                        } else {
                            assert(other == to);
                        }
                    }
                }
            } else {
                proof {
                    assert forall|other: Coord|
                        #[trigger] legal_move(*game_board, *self, *coordinates, other)
                            && cell_index(other) < index + 1 implies moves@.contains(other) by {
                        if cell_index(other) >= index {
                            assert(other == to);
                        }
                    }
                }
            }
            index += 1;
        }
        moves
    }
}

} // verus!
