//! The images of the pieces: which character of the board's picture is drawn
//! with which file.

use vstd::prelude::*;

verus! {

/// The key of the shadow that lies under every piece.
pub const SHADOW: u8 = 115;

/// Images in the table: six black pieces, six white pieces and the shadow.
pub const SPRITE_COUNT: usize = 13;

/// Whether the table holds an image under `key`: a piece's letter in either
/// case, or the shadow's key.
pub open spec fn has_sprite(key: u8) -> bool {
    ||| key == 'k' as u8
    ||| key == 'q' as u8
    ||| key == 'r' as u8
    ||| key == 'p' as u8
    ||| key == 'b' as u8
    ||| key == 'n' as u8
    ||| key == 'K' as u8
    ||| key == 'Q' as u8
    ||| key == 'R' as u8
    ||| key == 'P' as u8
    ||| key == 'B' as u8
    ||| key == 'N' as u8
    ||| key == SHADOW
}

/// The table: each key with the path of its image below the resource
/// directory.
pub open spec fn sprite_table() -> Seq<(u8, Seq<char>)> {
    seq![
        ('k' as u8, "/black_king.png"@),
        ('q' as u8, "/black_queen.png"@),
        ('r' as u8, "/black_rook.png"@),
        ('p' as u8, "/black_pawn.png"@),
        ('b' as u8, "/black_bishop.png"@),
        ('n' as u8, "/black_knight.png"@),
        ('K' as u8, "/white_king.png"@),
        ('Q' as u8, "/white_queen.png"@),
        ('R' as u8, "/white_rook.png"@),
        ('P' as u8, "/white_pawn.png"@),
        ('B' as u8, "/white_bishop.png"@),
        ('N' as u8, "/white_knight.png"@),
        (SHADOW, "/shadow.png"@),
    ]
}

/// Tells whether the table holds an image under `key`.
pub fn is_sprite_key(key: u8) -> (known: bool)
    ensures
        known == has_sprite(key),
{
    key == 107 || key == 113 || key == 114 || key == 112 || key == 98 || key == 110 || key == 75
        || key == 81 || key == 82 || key == 80 || key == 66 || key == 78 || key == SHADOW
}

/// The table as a list of keys and paths, in the order in which the images
/// are loaded.
pub fn sprite_files() -> (files: Vec<(u8, &'static str)>)
    ensures
        files@.len() == SPRITE_COUNT,
        forall|i: int| 0 <= i < files@.len() ==> (#[trigger] files@[i]).0 == sprite_table()[i].0,
        forall|i: int| 0 <= i < files@.len() ==> (#[trigger] files@[i]).1@ == sprite_table()[i].1,
{
    let mut files: Vec<(u8, &'static str)> = Vec::new();
    files.push((107, "/black_king.png"));
    files.push((113, "/black_queen.png"));
    files.push((114, "/black_rook.png"));
    files.push((112, "/black_pawn.png"));
    files.push((98, "/black_bishop.png"));
    files.push((110, "/black_knight.png"));
    files.push((75, "/white_king.png"));
    files.push((81, "/white_queen.png"));
    files.push((82, "/white_rook.png"));
    files.push((80, "/white_pawn.png"));
    files.push((66, "/white_bishop.png"));
    files.push((78, "/white_knight.png"));
    files.push((SHADOW, "/shadow.png"));
    files
}

/// The table holds an image for exactly the keys that [`has_sprite`] accepts,
/// and for none of them twice.
pub proof fn lemma_table_covers_keys()
    ensures
        sprite_table().len() == SPRITE_COUNT,
        forall|key: u8|
            has_sprite(key) <==> exists|i: int|
                0 <= i < sprite_table().len() && (#[trigger] sprite_table()[i]).0 == key,
        forall|i: int, j: int|
            0 <= i < j < sprite_table().len() ==> (#[trigger] sprite_table()[i]).0 != (
            #[trigger] sprite_table()[j]).0,
{
    let table = sprite_table();
    assert forall|key: u8| has_sprite(key) implies exists|i: int|
        0 <= i < table.len() && (#[trigger] table[i]).0 == key by {
        if key == 'k' as u8 {
            assert(table[0].0 == key);
        } else if key == 'q' as u8 {
            assert(table[1].0 == key);
        } else if key == 'r' as u8 {
            assert(table[2].0 == key);
        } else if key == 'p' as u8 {
            assert(table[3].0 == key);
        } else if key == 'b' as u8 {
            assert(table[4].0 == key);
        } else if key == 'n' as u8 {
            assert(table[5].0 == key);
        } else if key == 'K' as u8 {
            assert(table[6].0 == key);
        } else if key == 'Q' as u8 {
            assert(table[7].0 == key);
        } else if key == 'R' as u8 {
            assert(table[8].0 == key);
        } else if key == 'P' as u8 {
            assert(table[9].0 == key);
        } else if key == 'B' as u8 {
            assert(table[10].0 == key);
        } else if key == 'N' as u8 {
            assert(table[11].0 == key);
        } else {
            assert(table[12].0 == key);
        }
    }
}

} // verus!
