use chess_gui::sprites::{is_sprite_key, sprite_files, SHADOW, SPRITE_COUNT};

#[test]
fn lists_the_thirteen_images_in_loading_order() {
    let files = sprite_files();
    let expected: Vec<(u8, &str)> = vec![
        (b'k', "/black_king.png"),
        (b'q', "/black_queen.png"),
        (b'r', "/black_rook.png"),
        (b'p', "/black_pawn.png"),
        (b'b', "/black_bishop.png"),
        (b'n', "/black_knight.png"),
        (b'K', "/white_king.png"),
        (b'Q', "/white_queen.png"),
        (b'R', "/white_rook.png"),
        (b'P', "/white_pawn.png"),
        (b'B', "/white_bishop.png"),
        (b'N', "/white_knight.png"),
        (b's', "/shadow.png"),
    ];
    assert_eq!(files, expected);
    assert_eq!(files.len(), SPRITE_COUNT);
}

#[test]
fn knows_exactly_the_keys_of_the_table() {
    let files = sprite_files();
    for byte in 0..=255u8 {
        let listed = files.iter().any(|(key, _)| *key == byte);
        assert_eq!(is_sprite_key(byte), listed, "byte {}", byte);
    }
}

#[test]
fn lists_no_key_twice() {
    let files = sprite_files();
    for i in 0..files.len() {
        for j in (i + 1)..files.len() {
            assert_ne!(files[i].0, files[j].0);
        }
    }
}

#[test]
fn keeps_the_shadow_under_its_own_key() {
    assert_eq!(SHADOW, b's');
    assert!(is_sprite_key(SHADOW));
    assert!(!is_sprite_key(b'*'));
    assert!(!is_sprite_key(b'\n'));
}
