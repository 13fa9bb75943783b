//! Reading the engine's picture of the board: eight lines of eight
//! characters, the line of rank 8 first, each line closed by a newline.

use vstd::prelude::*;
use crate::notation::on_board;

verus! {

/// The character of a square that holds no piece.
pub const EMPTY_SQUARE: u8 = 42;

/// The character that closes a line of the picture.
pub const LINE_END: u8 = 10;

/// Bytes from the start of one line of the picture to the start of the next.
pub const LINE_STRIDE: usize = 9;

/// Bytes that a picture needs for every square to have its character.
pub const PICTURE_LEN: usize = 71;

/// Where the character of `square` stands in the picture: files run along a
/// line, and the line of rank 8 comes first.
pub open spec fn cell_index(square: (u32, u32)) -> int {
    square.0 + (7 - square.1) * LINE_STRIDE
}

/// Whether `board` is long enough to hold a character for every square.
pub open spec fn shows_every_square(board: Seq<u8>) -> bool {
    board.len() >= PICTURE_LEN
}

/// The character that `board` shows on `square`.
pub open spec fn piece_on(board: Seq<u8>, square: (u32, u32)) -> u8
    recommends
        on_board(square),
        cell_index(square) < board.len(),
{
    board[cell_index(square)]
}

/// Whether `piece` is a white piece's character. White pieces are written in
/// upper case and black pieces in lower case; a byte is read as a character
/// of Latin-1, whose upper-case letters are `A` to `Z` and `À` to `Þ` without
/// the multiplication sign.
pub open spec fn is_white(piece: u8) -> bool {
    65 <= piece <= 90 || (192 <= piece <= 222 && piece != 215)
}

/// Whether the side to move may pick up what `piece` shows: the square is not
/// empty and the piece belongs to that side.
pub open spec fn may_pick(piece: u8, white_to_move: bool) -> bool {
    piece != EMPTY_SQUARE && is_white(piece) == white_to_move
}

/// Reads the character that `board` shows on `square`.
pub fn piece_at(board: &[u8], square: (u32, u32)) -> (piece: u8)
    requires
        on_board(square),
        cell_index(square) < board@.len(),
    ensures
        piece == piece_on(board@, square),
{
    let file: usize = square.0 as usize;
    let line: usize = 7 - square.1 as usize;
    board[file + line * LINE_STRIDE]
}

/// Tells whether `piece` is a white piece's character.
pub fn is_white_piece(piece: u8) -> (white: bool)
    ensures
        white == is_white(piece),
{
    (65 <= piece && piece <= 90) || (192 <= piece && piece <= 222 && piece != 215)
}

/// Tells whether the side to move may pick up what `piece` shows.
pub fn can_pick(piece: u8, white_to_move: bool) -> (friendly: bool)
    ensures
        friendly == may_pick(piece, white_to_move),
{
    piece != EMPTY_SQUARE && is_white_piece(piece) == white_to_move
}

} // verus!
