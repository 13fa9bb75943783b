use chess_gui::render::{
    board_tiles, highlight_rects, lay_out, piece_sprites, status_line, tile_paint, tile_rect,
    Paint, Rect, Sprite, PIECE_LIFT, SPRITE_SCALE,
};

const START: &str =
    "rnbqkbnr\npppppppp\n********\n********\n********\n********\nPPPPPPPP\nRNBQKBNR\n";

#[test]
fn paints_the_corner_white() {
    assert_eq!(tile_paint(0, 0), Paint::White);
    assert_eq!(tile_paint(7, 7), Paint::White);
    assert_eq!(tile_paint(0, 7), Paint::Black);
    assert_eq!(tile_paint(7, 0), Paint::Black);
}

#[test]
fn alternates_the_colours_of_all_64_tiles() {
    for row in 0..8u32 {
        for col in 0..8u32 {
            let expected = if (col + row) % 2 == 0 { Paint::White } else { Paint::Black };
            assert_eq!(tile_paint(col, row), expected);
            if col < 7 {
                assert_ne!(tile_paint(col, row), tile_paint(col + 1, row));
            }
            if row < 7 {
                assert_ne!(tile_paint(col, row), tile_paint(col, row + 1));
            }
        }
    }
}

#[test]
fn paints_tiles_far_from_the_board_by_the_same_rule() {
    assert_eq!(tile_paint(u32::MAX, u32::MAX), Paint::White);
    assert_eq!(tile_paint(u32::MAX, 0), Paint::Black);
    assert_eq!(tile_paint(u32::MAX - 1, 0), Paint::White);
}

#[test]
fn places_tiles_one_tile_in_from_the_corner() {
    assert_eq!(tile_rect(0, 0), Rect { x: 128, y: 128, w: 128, h: 128 });
    assert_eq!(tile_rect(7, 0), Rect { x: 1024, y: 128, w: 128, h: 128 });
    assert_eq!(tile_rect(3, 5), Rect { x: 512, y: 768, w: 128, h: 128 });
    assert_eq!(
        tile_rect(u32::MAX, u32::MAX),
        Rect { x: 549_755_813_888, y: 549_755_813_888, w: 128, h: 128 }
    );
}

#[test]
fn lists_the_tiles_row_by_row() {
    let tiles = board_tiles();
    assert_eq!(tiles.len(), 64);
    for k in 0..64usize {
        let col = (k % 8) as u32;
        let row = (k / 8) as u32;
        assert_eq!(tiles[k].rect, tile_rect(col, row));
        assert_eq!(tiles[k].paint, tile_paint(col, row));
    }
    assert_eq!(tiles[0].rect, Rect { x: 128, y: 128, w: 128, h: 128 });
    assert_eq!(tiles[1].rect, Rect { x: 256, y: 128, w: 128, h: 128 });
    assert_eq!(tiles[8].rect, Rect { x: 128, y: 256, w: 128, h: 128 });
    assert_eq!(tiles[63].rect, Rect { x: 1024, y: 1024, w: 128, h: 128 });
}

#[test]
fn gives_each_paint_its_colour() {
    assert_eq!(Paint::White.rgb(), (188, 140, 76));
    assert_eq!(Paint::Black.rgb(), (228, 196, 108));
    assert_eq!(Paint::Highlight.rgb(), (230, 200, 50));
    assert_eq!(Paint::White.opacity(), 100);
    assert_eq!(Paint::Black.opacity(), 100);
    assert_eq!(Paint::Highlight.opacity(), 50);
}

#[test]
fn highlights_each_candidate_in_order() {
    let rects = highlight_rects(&vec![(4, 2), (4, 3)]);
    assert_eq!(
        rects,
        vec![
            Rect { x: 640, y: 384, w: 128, h: 128 },
            Rect { x: 640, y: 512, w: 128, h: 128 },
        ]
    );
    assert_eq!(highlight_rects(&vec![]), vec![]);
    assert_eq!(
        highlight_rects(&vec![(0, 8), (0, 8)]),
        vec![
            Rect { x: 128, y: 1152, w: 128, h: 128 },
            Rect { x: 128, y: 1152, w: 128, h: 128 },
        ]
    );
}

#[test]
fn draws_a_shadow_under_every_piece() {
    let sprites = piece_sprites(b"P\n*k");
    assert_eq!(
        sprites,
        vec![
            Sprite { key: b's', x: 128, y: 1024 },
            Sprite { key: b'P', x: 128, y: 968 },
            Sprite { key: b's', x: 384, y: 1024 },
            Sprite { key: b'k', x: 384, y: 968 },
        ]
    );
    assert_eq!(PIECE_LIFT * SPRITE_SCALE, 56);
}

#[test]
fn draws_the_first_line_of_the_picture_lowest() {
    let sprites = piece_sprites(START.as_bytes());
    assert_eq!(sprites.len(), 64);
    assert_eq!(sprites[0], Sprite { key: b's', x: 128, y: 1024 });
    assert_eq!(sprites[1], Sprite { key: b'r', x: 128, y: 968 });
    assert_eq!(sprites[15], Sprite { key: b'r', x: 1024, y: 968 });
    assert_eq!(sprites[17], Sprite { key: b'p', x: 128, y: 840 });
    assert_eq!(sprites[33], Sprite { key: b'P', x: 128, y: 200 });
    assert_eq!(sprites[49], Sprite { key: b'R', x: 128, y: 72 });
    assert_eq!(sprites[63], Sprite { key: b'R', x: 1024, y: 72 });
    assert_eq!(sprites[62], Sprite { key: b's', x: 1024, y: 128 });
}

#[test]
fn skips_characters_without_an_image() {
    assert_eq!(piece_sprites(b""), vec![]);
    assert_eq!(piece_sprites(b"********\n"), vec![]);
    assert_eq!(piece_sprites(b"xyz?\n\n"), vec![]);
    let sprites = piece_sprites(b"x?Q");
    assert_eq!(
        sprites,
        vec![Sprite { key: b's', x: 384, y: 1024 }, Sprite { key: b'Q', x: 384, y: 968 }]
    );
}

#[test]
fn does_not_count_line_ends_as_squares() {
    let sprites = piece_sprites(b"\n\n\nN");
    assert_eq!(
        sprites,
        vec![Sprite { key: b's', x: 128, y: 1024 }, Sprite { key: b'N', x: 128, y: 968 }]
    );
}

#[test]
fn draws_the_shadow_character_as_a_shadow_on_a_shadow() {
    let sprites = piece_sprites(b"s");
    assert_eq!(
        sprites,
        vec![Sprite { key: b's', x: 128, y: 1024 }, Sprite { key: b's', x: 128, y: 968 }]
    );
}

#[test]
fn goes_on_above_the_board_after_64_squares() {
    let mut board = vec![b'*'; 64];
    board.push(b'b');
    board.extend_from_slice(&[b'*'; 7]);
    board.push(b'B');
    let sprites = piece_sprites(&board);
    assert_eq!(
        sprites,
        vec![
            Sprite { key: b's', x: 128, y: 0 },
            Sprite { key: b'b', x: 128, y: -56 },
            Sprite { key: b's', x: 128, y: -128 },
            Sprite { key: b'B', x: 128, y: -184 },
        ]
    );
}

#[test]
fn writes_the_line_above_the_board() {
    assert_eq!(status_line("InProgress"), "Game is InProgress.");
    assert_eq!(status_line("Check"), "Game is Check.");
    assert_eq!(status_line(""), "Game is .");
}

#[test]
fn lays_out_a_whole_frame() {
    let scene = lay_out(&vec![(4, 2), (4, 3)], START.as_bytes(), "InProgress");
    assert_eq!(scene.tiles, board_tiles());
    assert_eq!(scene.highlights, highlight_rects(&vec![(4, 2), (4, 3)]));
    assert_eq!(scene.sprites, piece_sprites(START.as_bytes()));
    assert_eq!(scene.status, "Game is InProgress.");
    assert_eq!(scene.tiles.len(), 64);
    assert_eq!(scene.highlights.len(), 2);
    assert_eq!(scene.sprites.len(), 64);
}
