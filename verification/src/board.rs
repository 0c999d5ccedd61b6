//! The fixed layout of the board buffer: three header bytes, then the
//! 15x15 cells in row-major order.

use vstd::prelude::*;

verus! {

/// Side length of the square board.
pub const BOARD_DIMENSION: u8 = 15;

/// Length of the board buffer: three header bytes and 225 cells.
pub const BOARD_LEN: usize = 228;

/// Position of the winner byte: 0 none, 1 black, 2 white.
pub const WINNER_BYTE: usize = 0;

/// Position of the turn byte: 1 black, 2 white, 0 once the game is over.
pub const TURN_BYTE: usize = 1;

/// Position of the byte that says which player holds the black stones.
pub const BLACK_ID_BYTE: usize = 2;

/// Cell value of an empty cell.
pub const EMPTY: u8 = 0;

/// Number of stones after which every cell is taken.
pub const FULL_BOARD_STONES: u16 = 225;

/// The two stone colors, with the byte each one is stored as.
#[derive(Clone, Copy, Debug, PartialEq, Eq, Structural)]
pub enum Color {
    Black,
    White,
}

impl Color {
    /// The byte that stands for this color in the buffer and in signed data.
    pub open spec fn byte(self) -> u8 {
        match self {
            Color::Black => 1,
            Color::White => 2,
        }
    }

    /// The color of the opponent.
    pub open spec fn other(self) -> Color {
        match self {
            Color::Black => Color::White,
            Color::White => Color::Black,
        }
    }

    /// The color that a byte stands for, if it stands for one.
    pub open spec fn of_byte(b: u8) -> Option<Color> {
        if b == 1 {
            Some(Color::Black)
        } else if b == 2 {
            Some(Color::White)
        } else {
            None
        }
    }

    /// Gives the byte that stands for this color.
    pub fn to_byte(self) -> (b: u8)
        ensures
            b == self.byte(),
            Color::of_byte(b) == Some(self),
    {
        match self {
            Color::Black => 1,
            Color::White => 2,
        }
    }

    /// Reads a color from its byte; `None` for every byte but 1 and 2.
    pub fn from_byte(b: u8) -> (c: Option<Color>)
        ensures
            c == Color::of_byte(b),
    {
        if b == 1 {
            Some(Color::Black)
        } else if b == 2 {
            Some(Color::White)
        } else {
            None
        }
    }

    /// Gives the opponent's color.
    pub fn opponent(self) -> (c: Color)
        ensures
            c == self.other(),
    {
        match self {
            Color::Black => Color::White,
            Color::White => Color::Black,
        }
    }
}

/// Whether `(x, y)` names a cell of the board.
pub open spec fn in_bounds(x: int, y: int) -> bool {
    0 <= x < 15 && 0 <= y < 15
}

/// Position in the buffer of the cell `(x, y)`.
pub open spec fn index(x: int, y: int) -> int {
    3 + 15 * x + y
}

/// The byte stored for the cell `(x, y)`.
pub open spec fn cell(board: Seq<u8>, x: int, y: int) -> u8 {
    board[index(x, y)]
}

/// Tells whether the coordinate `(x, y)` lies on the board.
pub fn check_boundary(x: u8, y: u8) -> (r: bool)
    ensures
        r == in_bounds(x as int, y as int),
{
    x < BOARD_DIMENSION && y < BOARD_DIMENSION
}

/// Computes the position in the buffer of a cell that lies on the board.
pub fn state_index(x: u8, y: u8) -> (i: usize)
    requires
        in_bounds(x as int, y as int),
    ensures
        i == index(x as int, y as int),
        3 <= i < BOARD_LEN,
{
    3 + 15 * (x as usize) + (y as usize)
}

/// Every cell has a position of its own: distinct cells have distinct
/// positions, and none of them is a header byte.
pub proof fn law_cells_have_their_own_positions(x1: int, y1: int, x2: int, y2: int)
    requires
        in_bounds(x1, y1),
        in_bounds(x2, y2),
    ensures
        3 <= index(x1, y1) < 228,
        index(x1, y1) == index(x2, y2) <==> (x1 == x2 && y1 == y2),
{
}

} // verus!
