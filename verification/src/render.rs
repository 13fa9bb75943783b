//! Where things are drawn: the 64 tiles, the highlighted squares, the pieces
//! with their shadows, and the line of text above the board. Everything is
//! laid out in whole pixels; turning the layout into draw calls is the
//! caller's part.

use vstd::prelude::*;
use vstd::string::StringExecFns;
use crate::board::LINE_END;
use crate::notation::{GRID_CELL_HEIGHT, GRID_CELL_WIDTH};
use crate::sprites::{has_sprite, is_sprite_key, SHADOW};

verus! {

/// Factor by which the images of the pieces are enlarged.
pub const SPRITE_SCALE: i64 = 4;

/// Pixels of the image, before it is enlarged, by which a piece stands above
/// its shadow.
pub const PIECE_LIFT: i64 = 14;

/// The colour of a tile or of a highlight.
#[derive(Clone, Copy, Debug, PartialEq, Eq, Structural)]
pub enum Paint {
    /// The colour of the tile in the top left corner.
    White,
    /// The colour of the tiles beside it.
    Black,
    /// The colour laid over a square to which the selected piece may go.
    Highlight,
}

/// A rectangle of pixels: its top left corner and its size.
#[derive(Clone, Copy, Debug, PartialEq, Eq, Structural)]
pub struct Rect {
    pub x: i64,
    pub y: i64,
    pub w: i64,
    pub h: i64,
}

/// A tile of the board with its colour.
#[derive(Clone, Copy, Debug, PartialEq, Eq, Structural)]
pub struct Tile {
    pub rect: Rect,
    pub paint: Paint,
}

/// An image to draw: the key of the image and the pixel of its top left
/// corner.
#[derive(Clone, Copy, Debug, PartialEq, Eq, Structural)]
pub struct Sprite {
    pub key: u8,
    pub x: i64,
    pub y: i64,
}

/// The colour of the tile in column `col` and row `row`: white where the two
/// add up to an even number, so the corner `(0, 0)` is white.
pub open spec fn paint_of(col: int, row: int) -> Paint {
    if (col + row) % 2 == 0 {
        Paint::White
    } else {
        Paint::Black
    }
}

/// The pixels of the tile in column `col` and row `row` of the board, which
/// starts one tile in from the window's corner.
pub open spec fn rect_of(col: int, row: int) -> Rect {
    Rect {
        x: ((col + 1) * GRID_CELL_WIDTH) as i64,
        y: ((row + 1) * GRID_CELL_HEIGHT) as i64,
        w: GRID_CELL_WIDTH,
        h: GRID_CELL_HEIGHT,
    }
}

/// The `k`-th tile in drawing order: row by row from the top, each row from
/// the left.
pub open spec fn tile_of(k: int) -> Tile {
    Tile { rect: rect_of(k % 8, k / 8), paint: paint_of(k % 8, k / 8) }
}

/// The red, green and blue parts of `paint`, each out of 255.
pub open spec fn rgb_of(paint: Paint) -> (u8, u8, u8) {
    match paint {
        Paint::White => (188, 140, 76),
        Paint::Black => (228, 196, 108),
        Paint::Highlight => (230, 200, 50),
    }
}

/// How much of what lies under `paint` it hides, in percent.
pub open spec fn opacity_of(paint: Paint) -> u8 {
    match paint {
        Paint::Highlight => 50,
        _ => 100,
    }
}

impl Paint {
    /// The red, green and blue parts of the colour, each out of 255.
    pub fn rgb(self) -> (parts: (u8, u8, u8))
        ensures
            parts == rgb_of(self),
    {
        match self {
            Paint::White => (188, 140, 76),
            Paint::Black => (228, 196, 108),
            Paint::Highlight => (230, 200, 50),
        }
    }

    /// How much of what lies under the colour it hides, in percent.
    pub fn opacity(self) -> (percent: u8)
        ensures
            percent == opacity_of(self),
    {
        match self {
            Paint::Highlight => 50,
            _ => 100,
        }
    }
}

/// The colour of the tile in column `col` and row `row`.
pub fn tile_paint(col: u32, row: u32) -> (paint: Paint)
    ensures
        paint == paint_of(col as int, row as int),
{
    if (col % 2 == 0) == (row % 2 == 0) {
        Paint::White
    } else {
        Paint::Black
    }
}

/// The pixels of the tile in column `col` and row `row`.
pub fn tile_rect(col: u32, row: u32) -> (rect: Rect)
    ensures
        rect == rect_of(col as int, row as int),
{
    Rect {
        x: (col as i64 + 1) * GRID_CELL_WIDTH,
        y: (row as i64 + 1) * GRID_CELL_HEIGHT,
        w: GRID_CELL_WIDTH,
        h: GRID_CELL_HEIGHT,
    }
}

/// The 64 tiles of the board in drawing order.
pub fn board_tiles() -> (tiles: Vec<Tile>)
    ensures
        tiles@ == Seq::new(64, |k: int| tile_of(k)),
{
    let mut tiles: Vec<Tile> = Vec::new();
    let mut row: u32 = 0;
    while row < 8
        invariant
            row <= 8,
            tiles@ == Seq::new(8 * row as nat, |k: int| tile_of(k)),
        decreases 8 - row,
    {
        let mut col: u32 = 0;
        while col < 8
            invariant
                row < 8,
                col <= 8,
                tiles@ == Seq::new((8 * row + col) as nat, |k: int| tile_of(k)),
            decreases 8 - col,
        {
            tiles.push(Tile { rect: tile_rect(col, row), paint: tile_paint(col, row) });
            col += 1;
            assert(tiles@ =~= Seq::new((8 * row + col) as nat, |k: int| tile_of(k)));
        }
        row += 1;
    }
    tiles
}

/// The tiles to highlight: one for each of `squares`, in the same order. A
/// square's file is its column and its rank is its row.
pub open spec fn highlights_of(squares: Seq<(u32, u32)>) -> Seq<Rect> {
    squares.map_values(|square: (u32, u32)| rect_of(square.0 as int, square.1 as int))
}

/// Lays a highlight over each of `squares`.
pub fn highlight_rects(squares: &Vec<(u32, u32)>) -> (rects: Vec<Rect>)
    ensures
        rects@ == highlights_of(squares@),
{
    let mut rects: Vec<Rect> = Vec::new();
    let mut i: usize = 0;
    while i < squares.len()
        invariant
            i <= squares.len(),
            rects@ == highlights_of(squares@.subrange(0, i as int)),
        decreases squares.len() - i,
    {
        let square = squares[i];
        rects.push(tile_rect(square.0, square.1));
        i += 1;
        assert(rects@ =~= highlights_of(squares@.subrange(0, i as int)));
    }
    assert(squares@.subrange(0, i as int) =~= squares@);
    rects
}

/// How many characters of `board` before position `end` stand for a square:
/// all but the line ends.
pub open spec fn cells_before(board: Seq<u8>, end: int) -> int
    decreases end,
{
    if end <= 0 {
        0
    } else {
        cells_before(board, end - 1) + if board[end - 1] != LINE_END {
            1int
        } else {
            0int
        }
    }
}

/// The shadow and the image `key` for the `cell`-th square of the picture.
/// Squares fill the rows from the left, and the first row of the picture is
/// the lowest on screen. The image stands above its shadow by the enlarged
/// lift.
pub open spec fn sprites_on(key: u8, cell: int) -> Seq<Sprite> {
    let x = (cell % 8 + 1) * GRID_CELL_WIDTH;
    let y = (7 - cell / 8 + 1) * GRID_CELL_HEIGHT;
    seq![
        Sprite { key: SHADOW, x: x as i64, y: y as i64 },
        Sprite { key, x: x as i64, y: (y - PIECE_LIFT * SPRITE_SCALE) as i64 },
    ]
}

/// What the characters of `board` before position `end` have drawn: for each
/// character with an image, its shadow and then the image, in the order of
/// the picture.
pub open spec fn sprites_before(board: Seq<u8>, end: int) -> Seq<Sprite>
    decreases end,
{
    if end <= 0 {
        Seq::empty()
    } else if has_sprite(board[end - 1]) {
        sprites_before(board, end - 1) + sprites_on(
            board[end - 1],
            cells_before(board, end - 1),
        )
    } else {
        sprites_before(board, end - 1)
    }
}

/// The images to draw for the picture `board`.
pub fn piece_sprites(board: &[u8]) -> (sprites: Vec<Sprite>)
    requires
        board@.len() <= i32::MAX,
    ensures
        sprites@ == sprites_before(board@, board@.len() as int),
{
    let mut sprites: Vec<Sprite> = Vec::new();
    let mut cell: i64 = 0;
    let mut i: usize = 0;
    while i < board.len()
        invariant
            i <= board.len(),
            board@.len() <= i32::MAX,
            cell == cells_before(board@, i as int),
            0 <= cell <= i,
            sprites@ == sprites_before(board@, i as int),
        decreases board.len() - i,
    {
        let key: u8 = board[i];
        if is_sprite_key(key) {
            let x: i64 = (cell % 8 + 1) * GRID_CELL_WIDTH;
            let y: i64 = (7 - cell / 8 + 1) * GRID_CELL_HEIGHT;
            sprites.push(Sprite { key: SHADOW, x, y });
            sprites.push(Sprite { key, x, y: y - PIECE_LIFT * SPRITE_SCALE });
            assert(sprites@ =~= sprites_before(board@, i as int) + sprites_on(key, cell as int));
        }
        if key != LINE_END {
            cell += 1;
        }
        i += 1;
    }
    sprites
}

/// The line of text above the board for a game whose state the engine calls
/// `state`.
pub open spec fn status_of(state: Seq<char>) -> Seq<char> {
    "Game is "@ + state + "."@
}

/// Writes the line of text above the board.
pub fn status_line(state: &str) -> (line: String)
    ensures
        line@ == status_of(state@),
{
    let mut line = String::from_str("Game is ");
    line.append(state);
    line.append(".");
    line
}

/// One frame, in the order in which its parts are drawn: the tiles, the
/// highlights over them, the pieces over those, and the line of text.
pub struct Scene {
    pub tiles: Vec<Tile>,
    pub highlights: Vec<Rect>,
    pub sprites: Vec<Sprite>,
    pub status: String,
}

/// Lays out one frame: the board, a highlight on each of `candidates`, the
/// pieces that the picture `board` shows, and the line of text for the state
/// that the engine calls `state`.
pub fn lay_out(candidates: &Vec<(u32, u32)>, board: &[u8], state: &str) -> (scene: Scene)
    requires
        board@.len() <= i32::MAX,
    ensures
        scene.tiles@ == Seq::new(64, |k: int| tile_of(k)),
        scene.highlights@ == highlights_of(candidates@),
        scene.sprites@ == sprites_before(board@, board@.len() as int),
        scene.status@ == status_of(state@),
{
    Scene {
        tiles: board_tiles(),
        highlights: highlight_rects(candidates),
        sprites: piece_sprites(board),
        status: status_line(state),
    }
}

/// The corner tile `(0, 0)` is white, and every tile differs in colour from
/// the tile to its right and from the tile below it.
pub proof fn lemma_tiles_alternate(col: int, row: int)
    ensures
        paint_of(0, 0) == Paint::White,
        paint_of(col + 1, row) != paint_of(col, row),
        paint_of(col, row + 1) != paint_of(col, row),
{
}

} // verus!
