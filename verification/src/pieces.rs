//! Coordinates and pieces: the plain values every other module exchanges.

use ratatui::style::Color;
use vstd::prelude::*;
use vstd::std_specs::convert::FromSpecImpl;

verus! {

/// Number of rows, and of columns, of the board.
pub const BOARD_SIZE: usize = 8;

/// A board cell, addressed by row and column, both counted from zero and from
/// the top-left corner of the board as it is drawn.
#[derive(Debug, Copy, Clone, PartialEq, Eq, Structural)]
pub struct Coord {
    pub row: usize,
    pub col: usize,
}

impl From<(usize, usize)> for Coord {
    fn from(pair: (usize, usize)) -> (coord: Self) {
        Coord { row: pair.0, col: pair.1 }
    }
}

impl FromSpecImpl<(usize, usize)> for Coord {
    open spec fn obeys_from_spec() -> bool {
        true
    }

    open spec fn from_spec(pair: (usize, usize)) -> Self {
        Coord { row: pair.0, col: pair.1 }
    }
}

impl Coord {
    /// Whether the coordinate names one of the 64 cells.
    pub open spec fn in_bounds(self) -> bool {
        self.row < 8 && self.col < 8
    }

    /// The coordinate `(row, col)`, ready for an optional slot.
    pub fn some(row: usize, col: usize) -> (coord: Option<Self>)
        ensures
            coord == Some(Coord { row, col }),
    {
        Some(Coord { row, col })
    }

    /// Executable form of [`Coord::in_bounds`].
    pub fn is_in_bounds(&self) -> (ok: bool)
        ensures
            ok == self.in_bounds(),
    {
        self.row < BOARD_SIZE && self.col < BOARD_SIZE
    }
}

/// `ratatui::style::Color`, the colour type of the terminal drawing crate.
/// The declaration lets colours appear in signatures and contracts; it claims
/// nothing beyond the enum's own variants.
#[verifier::external_type_specification]
pub struct ExColor(ratatui::style::Color);

/// Something that belongs to a side and is drawn in that side's colour.
pub trait Colored {
    /// The terminal colour to draw with.
    fn ratatui_color(&self) -> Color;

    /// The side.
    fn piece_color(&self) -> PieceColor;
}

/// The two sides.
#[derive(Debug, Copy, Clone, PartialEq, Eq, Structural)]
pub enum PieceColor {
    White,
    Black,
}

impl PieceColor {
    /// The terminal colour of a side: white for white, black for black.
    pub fn ratatui_color(&self) -> (color: Color)
        ensures
            color == match *self {
                PieceColor::White => Color::White,
                PieceColor::Black => Color::Black,
            },
    {
        match self {
            PieceColor::White => Color::White,
            PieceColor::Black => Color::Black,
        }
    }
}

/// The six kinds of chess piece.
#[derive(Debug, Copy, Clone, PartialEq, Eq, Structural)]
pub enum PieceKind {
    Pawn,
    Rook,
    Knight,
    Bishop,
    Queen,
    King,
}

/// A piece: its kind and its side. A piece never changes; it is only moved
/// from cell to cell.
#[derive(Debug, Copy, Clone, PartialEq, Eq, Structural)]
pub struct Piece {
    pub kind: PieceKind,
    pub color: PieceColor,
}

/// The picture of a piece of the given kind: five lines, each ended by a
/// line feed, the upper ones blank and the lower ones made of block characters.
pub open spec fn glyph_text(kind: PieceKind) -> Seq<char> {
    match kind {
        PieceKind::Pawn => "\n\n▟█▙\n▜█▛\n▟███▙\n"@,
        PieceKind::Rook => "\n█ █ █\n▜███▛\n███\n▟███▙\n"@,
        PieceKind::Knight => "\n▟██▙\n▟█▛██\n▟██\n▟███▙\n"@,
        PieceKind::Bishop => "\n▲\n▟█▙\n▜█▛\n▟███▙\n"@,
        PieceKind::Queen => "\n▲ ▲ ▲\n▜███▛\n███\n▟███▙\n"@,
        PieceKind::King => "\n╋\n▟███▙\n███\n▟███▙\n"@,
    }
}

impl Piece {
    /// A piece of the given kind and side.
    pub fn new(kind: PieceKind, color: PieceColor) -> (piece: Self)
        ensures
            piece == (Piece { kind, color }),
    {
        Piece { kind, color }
    }

    /// A white piece of the given kind.
    pub fn white(kind: PieceKind) -> (piece: Self)
        ensures
            piece == (Piece { kind, color: PieceColor::White }),
    {
        Piece { kind, color: PieceColor::White }
    }

    /// A black piece of the given kind.
    pub fn black(kind: PieceKind) -> (piece: Self)
        ensures
            piece == (Piece { kind, color: PieceColor::Black }),
    {
        Piece { kind, color: PieceColor::Black }
    }

    /// The picture of the piece, the same for both sides.
    pub fn to_string(&self) -> (glyph: &'static str)
        ensures
            glyph@ == glyph_text(self.kind),
    {
        match self.kind {
            PieceKind::Pawn => "\n\n▟█▙\n▜█▛\n▟███▙\n",
            PieceKind::Rook => "\n█ █ █\n▜███▛\n███\n▟███▙\n",
            PieceKind::Knight => "\n▟██▙\n▟█▛██\n▟██\n▟███▙\n",
            PieceKind::Bishop => "\n▲\n▟█▙\n▜█▛\n▟███▙\n",
            PieceKind::Queen => "\n▲ ▲ ▲\n▜███▛\n███\n▟███▙\n",
            PieceKind::King => "\n╋\n▟███▙\n███\n▟███▙\n",
        }
    }
}

impl Colored for Piece {
    fn ratatui_color(&self) -> (color: Color)
        ensures
            color == match self.color {
                PieceColor::White => Color::White,
                PieceColor::Black => Color::Black,
            },
    {
        self.color.ratatui_color()
    }

    fn piece_color(&self) -> (color: PieceColor)
        ensures
            color == self.color,
    {
        self.color
    }
}

} // verus!
