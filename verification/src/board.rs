//! The board as a player sees it: each side looks at it from its own
//! edge, so that squares and the cells of the screen correspond
//! differently for White and for Black.

use crate::message::{Color, PieceKind, Position};
use vstd::prelude::*;

verus! {

/// The length of the side of a cell, in pixels.
pub const SQUARE_SIZE: i32 = 100;

/// A cell of the screen: `column` counted from the left and `row` from
/// the top, both from 0.
#[derive(Clone, Copy, Debug, PartialEq, Eq, Structural)]
pub struct Cell {
    pub column: u8,
    pub row: u8,
}

/// The cell in which `side` sees the square `p`: White has rank 0 at
/// the bottom and file 0 on the left, Black has them at the top and on
/// the right.
pub open spec fn seen_from(p: Position, side: Color) -> Cell {
    match side {
        Color::White => Cell { column: p.x(), row: (7 - p.y()) as u8 },
        Color::Black => Cell { column: (7 - p.x()) as u8, row: p.y() },
    }
}

/// The square that `side` sees in the cell at `column` and `row`, if
/// the cell is one of the board's.
pub open spec fn square_under(column: int, row: int, side: Color) -> Option<Position> {
    if 0 <= column < 8 && 0 <= row < 8 {
        Some(
            match side {
                Color::White => Position::at(column as u8, (7 - row) as u8),
                Color::Black => Position::at((7 - column) as u8, row as u8),
            },
        )
    } else {
        None
    }
}

/// The file name of the image of a piece.
pub open spec fn image_name(color: Color, kind: PieceKind) -> Seq<char> {
    match (color, kind) {
        (Color::White, PieceKind::Pawn) => "/wP.png"@,
        (Color::White, PieceKind::Knight) => "/wN.png"@,
        (Color::White, PieceKind::Bishop) => "/wB.png"@,
        (Color::White, PieceKind::Rook) => "/wR.png"@,
        (Color::White, PieceKind::Queen) => "/wQ.png"@,
        (Color::White, PieceKind::King) => "/wK.png"@,
        (Color::Black, PieceKind::Pawn) => "/bP.png"@,
        (Color::Black, PieceKind::Knight) => "/bN.png"@,
        (Color::Black, PieceKind::Bishop) => "/bB.png"@,
        (Color::Black, PieceKind::Rook) => "/bR.png"@,
        (Color::Black, PieceKind::Queen) => "/bQ.png"@,
        (Color::Black, PieceKind::King) => "/bK.png"@,
    }
}

/// The cell in which `side` sees the square `p`.
pub fn cell_of(p: Position, side: Color) -> (c: Cell)
    ensures
        c == seen_from(p, side),
        c.column <= 7,
        c.row <= 7,
{
    match side {
        Color::White => Cell { column: p.x(), row: 7 - p.y() },
        Color::Black => Cell { column: 7 - p.x(), row: p.y() },
    }
}

/// The square that `side` sees in the cell at `column` and `row`:
/// `None` where the cell lies off the board.
pub fn square_at(column: i32, row: i32, side: Color) -> (r: Option<Position>)
    ensures
        r == square_under(column as int, row as int, side),
        r is Some <==> 0 <= column < 8 && 0 <= row < 8,
{
    if 0 <= column && column < 8 && 0 <= row && row < 8 {
        match side {
            Color::White => Position::new(column as u8, (7 - row) as u8),
            Color::Black => Position::new((7 - column) as u8, row as u8),
        }
    } else {
        None
    }
}

/// Whether the cell is one of the light ones: those whose column and
/// row add up to an even number.
pub fn is_light(cell: Cell) -> (r: bool)
    ensures
        r == ((cell.column + cell.row) % 2 == 0),
{
    (cell.column % 2) == (cell.row % 2)
}

/// The left or upper edge, in pixels, of the cells in the column or row
/// with the given number.
pub fn pixel_of(index: u8) -> (r: i32)
    ensures
        r == SQUARE_SIZE * index,
{
    SQUARE_SIZE * (index as i32)
}

/// The file name of the image of a piece.
pub fn image_of(color: Color, kind: PieceKind) -> (r: &'static str)
    ensures
        r@ == image_name(color, kind),
{
    match (color, kind) {
        (Color::White, PieceKind::Pawn) => "/wP.png",
        (Color::White, PieceKind::Knight) => "/wN.png",
        (Color::White, PieceKind::Bishop) => "/wB.png",
        (Color::White, PieceKind::Rook) => "/wR.png",
        (Color::White, PieceKind::Queen) => "/wQ.png",
        (Color::White, PieceKind::King) => "/wK.png",
        (Color::Black, PieceKind::Pawn) => "/bP.png",
        (Color::Black, PieceKind::Knight) => "/bN.png",
        (Color::Black, PieceKind::Bishop) => "/bB.png",
        (Color::Black, PieceKind::Rook) => "/bR.png",
        (Color::Black, PieceKind::Queen) => "/bQ.png",
        (Color::Black, PieceKind::King) => "/bK.png",
    }
}

/// A player who clicks on the cell in which it sees a square gets that
/// square, and sees the square under a cell of the board in that cell.
pub proof fn lemma_cell_and_square(p: Position, column: int, row: int, side: Color)
    ensures
        p.on_board() ==> square_under(
            seen_from(p, side).column as int,
            seen_from(p, side).row as int,
            side,
        ) == Some(p),
        square_under(column, row, side) is Some ==> {
            &&& square_under(column, row, side)->0.on_board()
            &&& seen_from(square_under(column, row, side)->0, side).column == column
            &&& seen_from(square_under(column, row, side)->0, side).row == row
        },
{
}

} // verus!
