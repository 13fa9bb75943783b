//! Squares of the board, their names, and the pixels they cover.

use vstd::prelude::*;

verus! {

/// Files and ranks on a chess board.
pub const BOARD_SIZE: u32 = 8;

/// Tiles along one side of the window: the board and a margin of one tile on
/// every side.
pub const GRID_SIZE: i64 = 10;

/// Width of one tile in pixels.
pub const GRID_CELL_WIDTH: i64 = 128;

/// Height of one tile in pixels.
pub const GRID_CELL_HEIGHT: i64 = 128;

/// Width of the window in pixels.
pub const SCREEN_WIDTH: i64 = GRID_SIZE * GRID_CELL_WIDTH;

/// Height of the window in pixels.
pub const SCREEN_HEIGHT: i64 = GRID_SIZE * GRID_CELL_HEIGHT;

/// Whether `(file, rank)` names one of the 64 squares.
pub open spec fn on_board(square: (u32, u32)) -> bool {
    square.0 < BOARD_SIZE && square.1 < BOARD_SIZE
}

/// Whether the pixel `(x, y)` lies on one of the 64 tiles of the board: past
/// the margin's one tile, and before the ninth.
pub open spec fn within_board(x: int, y: int) -> bool {
    &&& GRID_CELL_WIDTH <= x < (BOARD_SIZE + 1) * GRID_CELL_WIDTH
    &&& GRID_CELL_HEIGHT <= y < (BOARD_SIZE + 1) * GRID_CELL_HEIGHT
}

/// The square under the pixel `(x, y)`, if the pixel lies on the board.
///
/// The board starts one tile in from the window's top left corner, so the
/// pixel's tile column and row are each lowered by one.
pub open spec fn square_under(x: int, y: int) -> Option<(u32, u32)> {
    if within_board(x, y) {
        Some(((x / GRID_CELL_WIDTH as int - 1) as u32, (y / GRID_CELL_HEIGHT as int - 1) as u32))
    } else {
        None
    }
}

/// Resolves a click at pixel `(x, y)` to a square, or to `None` when the click
/// fell on the margin or outside the window.
pub fn square_at_pixel(x: i64, y: i64) -> (hit: Option<(u32, u32)>)
    ensures
        hit == square_under(x as int, y as int),
        hit matches Some(square) ==> on_board(square),
{
    if x < GRID_CELL_WIDTH || y < GRID_CELL_HEIGHT {
        return None;
    }
    let column: i64 = x / GRID_CELL_WIDTH - 1;
    let row: i64 = y / GRID_CELL_HEIGHT - 1;
    if column >= BOARD_SIZE as i64 || row >= BOARD_SIZE as i64 {
        return None;
    }
    Some((column as u32, row as u32))
}

/// The letter that names file `file`: `'A'` for 0 up to `'H'` for 7.
pub open spec fn file_letter(file: u32) -> char {
    (65 + file) as char
}

/// The character of the decimal digit `digit`.
pub open spec fn digit_char(digit: nat) -> char {
    (48 + digit) as char
}

/// The decimal numeral of `n`, most significant digit first, without leading
/// zeros.
pub open spec fn decimal(n: nat) -> Seq<char>
    decreases n,
{
    if n < 10 {
        seq![digit_char(n)]
    } else {
        decimal(n / 10).push(digit_char(n % 10))
    }
}

/// The name of the square `(file, rank)`: its file letter followed by the
/// rank counted from one.
pub open spec fn algebraic(file: u32, rank: u32) -> Seq<char> {
    seq![file_letter(file)] + decimal((rank + 1) as nat)
}

/// The file that the letter `c` names, in either case.
pub open spec fn file_of(c: char) -> Option<u32> {
    if 'A' <= c <= 'H' {
        Some((c as u32 - 'A' as u32) as u32)
    } else if 'a' <= c <= 'h' {
        Some((c as u32 - 'a' as u32) as u32)
    } else {
        None
    }
}

/// The rank that the digit `c` names: one less than the digit. `'0'` names
/// no rank.
pub open spec fn rank_of(c: char) -> Option<u32> {
    if '1' <= c <= '9' {
        Some((c as u32 - '1' as u32) as u32)
    } else {
        None
    }
}

/// Whether `text` starts with a file letter and a rank digit. What follows
/// the two characters is not looked at.
pub open spec fn is_algebraic(text: Seq<char>) -> bool {
    &&& text.len() >= 2
    &&& file_of(text[0]) is Some
    &&& rank_of(text[1]) is Some
}

/// The square that `text` names.
pub open spec fn square_named(text: Seq<char>) -> (u32, u32)
    recommends
        is_algebraic(text),
{
    (file_of(text[0]).unwrap(), rank_of(text[1]).unwrap())
}

fn file_index(c: char) -> (file: Option<u32>)
    ensures
        file == file_of(c),
{
    if 'A' <= c && c <= 'H' {
        Some(c as u32 - 'A' as u32)
    } else if 'a' <= c && c <= 'h' {
        Some(c as u32 - 'a' as u32)
    } else {
        None
    }
}

fn rank_index(c: char) -> (rank: Option<u32>)
    ensures
        rank == rank_of(c),
{
    if '1' <= c && c <= '9' {
        Some(c as u32 - '1' as u32)
    } else {
        None
    }
}

/// Reads the square that `text` names, or `None` when `text` does not start
/// with a file letter and a rank digit.
pub fn parse_square(text: &str) -> (square: Option<(u32, u32)>)
    ensures
        square is Some <==> is_algebraic(text@),
        square matches Some(found) ==> found == square_named(text@),
{
    if text.unicode_len() < 2 {
        return None;
    }
    match (file_index(text.get_char(0)), rank_index(text.get_char(1))) {
        (Some(file), Some(rank)) => Some((file, rank)),
        _ => None,
    }
}

/// Reads the square that `input_pos` names.
pub fn transform_input(input_pos: &str) -> (square: (u32, u32))
    requires
        is_algebraic(input_pos@),
    ensures
        square == square_named(input_pos@),
        square.0 < 8,
        square.1 <= 8,
{
    let file = file_index(input_pos.get_char(0));
    let rank = rank_index(input_pos.get_char(1));
    (file.unwrap(), rank.unwrap())
}

fn file_name(file: u32) -> (name: &'static str)
    requires
        file < 8,
    ensures
        name@ == seq![file_letter(file)],
{
    proof {
        reveal_strlit("A");
        reveal_strlit("B");
        reveal_strlit("C");
        reveal_strlit("D");
        reveal_strlit("E");
        reveal_strlit("F");
        reveal_strlit("G");
        reveal_strlit("H");
    }
    let name = match file {
        0 => "A",
        1 => "B",
        2 => "C",
        3 => "D",
        4 => "E",
        5 => "F",
        6 => "G",
        _ => "H",
    };
    assert(name@ =~= seq![file_letter(file)]);
    name
}

fn digit_name(digit: u32) -> (name: &'static str)
    requires
        digit < 10,
    ensures
        name@ == seq![digit_char(digit as nat)],
{
    proof {
        reveal_strlit("0");
        reveal_strlit("1");
        reveal_strlit("2");
        reveal_strlit("3");
        reveal_strlit("4");
        reveal_strlit("5");
        reveal_strlit("6");
        reveal_strlit("7");
        reveal_strlit("8");
        reveal_strlit("9");
    }
    let name = match digit {
        0 => "0",
        1 => "1",
        2 => "2",
        3 => "3",
        4 => "4",
        5 => "5",
        6 => "6",
        7 => "7",
        8 => "8",
        _ => "9",
    };
    assert(name@ =~= seq![digit_char(digit as nat)]);
    name
}

fn append_decimal(text: &mut String, n: u32)
    ensures
        final(text)@ == old(text)@ + decimal(n as nat),
    decreases n,
{
    if n >= 10 {
        append_decimal(text, n / 10);
    }
    text.append(digit_name(n % 10));
    assert(text@ =~= old(text)@ + decimal(n as nat));
}

/// Writes the name of the square `(file_input, rank_input)`: the file letter,
/// then the rank counted from one, in decimal.
pub fn transform_back(file_input: u32, rank_input: u32) -> (name: String)
    requires
        file_input < 8,
        rank_input < u32::MAX,
    ensures
        name@ == algebraic(file_input, rank_input),
{
    let mut name = String::from_str(file_name(file_input));
    append_decimal(&mut name, rank_input + 1);
    name
}

/// Whether `text` is a name as [`algebraic`] writes it for a square whose
/// rank has one digit: an upper-case file letter and a digit from 1 to 9,
/// and no more.
pub open spec fn is_plain_name(text: Seq<char>) -> bool {
    &&& text.len() == 2
    &&& 'A' <= text[0] <= 'H'
    &&& '1' <= text[1] <= '9'
}

/// Reading a plain name and naming the square again gives the name.
pub proof fn lemma_square_round_trip(text: Seq<char>)
    requires
        is_plain_name(text),
    ensures
        is_algebraic(text),
        algebraic(square_named(text).0, square_named(text).1) == text,
{
    let (file, rank) = square_named(text);
    assert(decimal((rank + 1) as nat) =~= seq![digit_char((rank + 1) as nat)]);
    assert(algebraic(file, rank) =~= text);
}

/// Naming a square of the board and reading the name back gives the square.
pub proof fn lemma_name_round_trip(file: u32, rank: u32)
    requires
        file < 8,
        rank < 8,
    ensures
        is_algebraic(algebraic(file, rank)),
        square_named(algebraic(file, rank)) == (file, rank),
{
    let name = algebraic(file, rank);
    assert(decimal((rank + 1) as nat) =~= seq![digit_char((rank + 1) as nat)]);
    assert(name.len() == 2);
    assert(name[0] == file_letter(file));
    assert(name[1] == digit_char((rank + 1) as nat));
}

} // verus!
