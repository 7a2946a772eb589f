use glyphscreen::glyph::ScreenCharacter;
use glyphscreen::screen::Screen;

/// The expected 10x10 raster of each supported glyph, one row per string,
/// `#` for a lit pixel and `.` for background.  Any unsupported character
/// renders as a solid block inside the one-pixel border.
fn mask(c: char) -> [&'static str; 10] {
    match c {
        'H' => [
            "..........",
            ".##....##.",
            ".##....##.",
            ".##....##.",
            ".########.",
            ".########.",
            ".##....##.",
            ".##....##.",
            ".##....##.",
            "..........",
        ],
        'E' => [
            "..........",
            ".########.",
            ".########.",
            ".##.......",
            ".########.",
            ".########.",
            ".##.......",
            ".########.",
            ".########.",
            "..........",
        ],
        'L' => [
            "..........",
            ".##.......",
            ".##.......",
            ".##.......",
            ".##.......",
            ".##.......",
            ".##.......",
            ".########.",
            ".########.",
            "..........",
        ],
        'O' | 'D' => [
            "..........",
            ".########.",
            ".########.",
            ".##....##.",
            ".##....##.",
            ".##....##.",
            ".##....##.",
            ".########.",
            ".########.",
            "..........",
        ],
        'W' => [
            "..........",
            ".##....##.",
            ".##....##.",
            ".##....##.",
            ".##....##.",
            ".##....##.",
            ".##....##.",
            ".########.",
            ".########.",
            "..........",
        ],
        'R' => [
            "..........",
            ".########.",
            ".########.",
            ".##....##.",
            ".########.",
            ".########.",
            ".##...##..",
            ".##....##.",
            ".##.....#.",
            "..........",
        ],
        ' ' => [
            "..........",
            "..........",
            "..........",
            "..........",
            "..........",
            "..........",
            "..........",
            "..........",
            "..........",
            "..........",
        ],
        '!' => [
            "..........",
            "....##....",
            "....##....",
            "....##....",
            "....##....",
            "..........",
            "..........",
            "....##....",
            "....##....",
            "..........",
        ],
        _ => [
            "..........",
            ".########.",
            ".########.",
            ".########.",
            ".########.",
            ".########.",
            ".########.",
            ".########.",
            ".########.",
            "..........",
        ],
    }
}

fn mask_byte(c: char, x: usize, y: usize) -> u8 {
    if mask(c)[y].as_bytes()[x] == b'#' {
        0xff
    } else {
        0x00
    }
}

const SUPPORTED: [char; 8] = ['H', 'E', 'L', 'O', 'W', 'R', 'D', '!'];

#[test]
fn glyph_truth_tables() {
    let sc = ScreenCharacter::new('H');
    for &c in SUPPORTED.iter() {
        for y in 0..10usize {
            for x in 0..10usize {
                assert_eq!(sc.draw_char(x, y, c), mask_byte(c, x, y), "{} at ({}, {})", c, x, y);
            }
        }
    }
    for y in 0..10usize {
        for x in 0..10usize {
            assert_eq!(sc.draw_char(x, y, ' '), 0x00);
        }
    }
}

#[test]
fn glyph_off_beyond_cell() {
    let sc = ScreenCharacter::new('H');
    assert_eq!(sc.draw_char(12, 4, 'H'), 0x00);
    assert_eq!(sc.draw_char(4, 100, 'Z'), 0x00);
}

#[test]
fn unknown_char_solid_block() {
    let sc = ScreenCharacter::new('Z');
    for y in 1..=8usize {
        for x in 1..=8usize {
            assert_eq!(sc.draw_char(x, y, 'Z'), 0xff);
            assert_eq!(sc.draw_char(x, y, 'q'), 0xff);
        }
    }
}

#[test]
fn border_always_off() {
    let sc = ScreenCharacter::new('H');
    for &c in ['H', 'E', 'L', 'O', 'W', 'R', 'D', ' ', '!', 'Z'].iter() {
        for i in 0..10usize {
            assert_eq!(sc.draw_char(0, i, c), 0x00);
            assert_eq!(sc.draw_char(9, i, c), 0x00);
            assert_eq!(sc.draw_char(i, 0, c), 0x00);
            assert_eq!(sc.draw_char(i, 9, c), 0x00);
        }
    }
}

#[test]
fn draw_fn_spot_values() {
    let sc = ScreenCharacter::new('H');
    // side strokes and bar of H
    assert_eq!(sc.draw_h(1, 1), 0xff);
    assert_eq!(sc.draw_h(4, 4), 0xff);
    assert_eq!(sc.draw_h(4, 1), 0x00);
    // three bars and left stroke of E
    assert_eq!(sc.draw_e(8, 1), 0xff);
    assert_eq!(sc.draw_e(8, 4), 0xff);
    assert_eq!(sc.draw_e(8, 3), 0x00);
    assert_eq!(sc.draw_e(2, 3), 0xff);
    // left and bottom strokes of L
    assert_eq!(sc.draw_l(2, 1), 0xff);
    assert_eq!(sc.draw_l(8, 8), 0xff);
    assert_eq!(sc.draw_l(4, 4), 0x00);
    // ring of O, dark interior
    assert_eq!(sc.draw_o(1, 4), 0xff);
    assert_eq!(sc.draw_o(4, 1), 0xff);
    assert_eq!(sc.draw_o(4, 4), 0x00);
    // W: side strokes and bottom, dark central gap
    assert_eq!(sc.draw_w(1, 1), 0xff);
    assert_eq!(sc.draw_w(4, 8), 0xff);
    assert_eq!(sc.draw_w(4, 4), 0x00);
    // R: diagonal leg
    assert_eq!(sc.draw_r(7, 7), 0xff);
    assert_eq!(sc.draw_r(8, 8), 0xff);
    assert_eq!(sc.draw_r(8, 6), 0x00);
    // bang: central column with a gap
    assert_eq!(sc.draw_bang(4, 1), 0xff);
    assert_eq!(sc.draw_bang(4, 5), 0x00);
    assert_eq!(sc.draw_bang(4, 8), 0xff);
    assert_eq!(sc.draw_space(4, 4), 0x00);
}

#[test]
fn draw_d_matches_draw_o() {
    let sc = ScreenCharacter::new('D');
    for y in 0..12usize {
        for x in 0..12usize {
            assert_eq!(sc.draw_d(x, y), sc.draw_o(x, y));
        }
    }
}

#[test]
fn screen_character_holds_its_character() {
    let sc = ScreenCharacter::new('W');
    assert_eq!(sc.get_character(), 'W');
}

#[test]
fn screen_new_defaults() {
    let s = Screen::new();
    assert_eq!(s.get_x(), 0);
    assert_eq!(s.get_y(), 0);
    assert_eq!(s.get_column_size(), 2560);
}

#[test]
fn screen_with_column_size() {
    let s = Screen::new_with_column_size(40);
    assert_eq!(s.get_column_size(), 40);
    assert_eq!(s.get_x(), 0);
}

#[test]
fn inc_cursor_advances_column() {
    let mut s = Screen::new();
    s.inc_cursor();
    s.inc_cursor();
    assert_eq!(s.get_x(), 2);
    assert_eq!(s.get_y(), 0);
}

#[test]
fn cell_coordinates_from_index() {
    let s = Screen::new_with_column_size(480);
    // one cell is 40 bytes wide; one cell row spans 10 framebuffer rows
    assert_eq!(s.get_xy_from_buffer_index(0), (0, 0));
    assert_eq!(s.get_xy_from_buffer_index(39), (0, 0));
    assert_eq!(s.get_xy_from_buffer_index(40), (1, 0));
    assert_eq!(s.get_xy_from_buffer_index(479), (11, 0));
    assert_eq!(s.get_xy_from_buffer_index(480), (0, 0));
    assert_eq!(s.get_xy_from_buffer_index(4800), (0, 1));
}

#[test]
fn pixel_color_from_index() {
    let s = Screen::new_with_column_size(40);
    // index 0 is the border pixel (0, 0); index 44 is pixel (1, 1)
    assert_eq!(s.get_pixel_color(0, 'H'), 0x00);
    assert_eq!(s.get_pixel_color(44, 'H'), 0xff);
    assert_eq!(s.get_pixel_color(44, ' '), 0x00);
}

#[test]
fn print_empty_text_changes_nothing() {
    let mut s = Screen::new_with_column_size(40);
    let mut fb: Vec<u8> = vec![0xAA; 400];
    s.print_text("", &mut fb);
    assert_eq!(fb, vec![0xAA; 400]);
    assert_eq!(s.get_x(), 0);
    assert_eq!(s.get_y(), 0);
}

#[test]
fn print_text_advances_cursor_by_length() {
    let mut s = Screen::new_with_column_size(480);
    let mut fb: Vec<u8> = vec![0; 4800];
    s.print_text("HELLO WORLD!", &mut fb);
    assert_eq!(s.get_x(), 12);
    assert_eq!(s.get_y(), 0);
    let mut s2 = Screen::new();
    let mut fb2: Vec<u8> = Vec::new();
    s2.print_text("HE", &mut fb2);
    assert_eq!(s2.get_x(), 2);
    assert_eq!(s2.get_y(), 0);
}

#[test]
fn print_char_h_writes_exact_mask() {
    // a framebuffer of exactly one glyph cell: 10 pixel rows of 10 pixels,
    // 4 bytes per pixel
    let mut s = Screen::new_with_column_size(40);
    let mut fb: Vec<u8> = vec![0xAA; 400];
    s.print_char('H', &mut fb);
    let mut expected: Vec<u8> = Vec::new();
    for y in 0..10usize {
        for x in 0..10usize {
            for _ in 0..4usize {
                expected.push(mask_byte('H', x, y));
            }
        }
    }
    assert_eq!(fb, expected);
    assert_eq!(s.get_x(), 1);
    assert_eq!(s.get_y(), 0);
}

#[test]
fn bytes_outside_cell_keep_sentinel() {
    // two cells per row, two cell rows
    let mut s = Screen::new_with_column_size(80);
    let mut fb: Vec<u8> = vec![0xAA; 1600];
    s.print_char('H', &mut fb);
    for i in 0..1600usize {
        let cell_x = (i % 80) / 40;
        let cell_y = i / 800;
        if cell_x == 0 && cell_y == 0 {
            let local_x = (i % 40) / 4;
            let local_y = (i / 80) % 10;
            assert_eq!(fb[i], mask_byte('H', local_x, local_y), "byte {}", i);
        } else {
            assert_eq!(fb[i], 0xAA, "byte {}", i);
        }
    }
}

#[test]
fn overflowing_characters_are_dropped() {
    // one cell per row: the second character lands past the last column
    let mut s = Screen::new_with_column_size(40);
    let mut fb: Vec<u8> = vec![0xAA; 400];
    s.print_text("LO", &mut fb);
    let mut expected: Vec<u8> = Vec::new();
    for y in 0..10usize {
        for x in 0..10usize {
            for _ in 0..4usize {
                expected.push(mask_byte('L', x, y));
            }
        }
    }
    assert_eq!(fb, expected);
    assert_eq!(s.get_x(), 2);
}

#[test]
fn print_char_past_last_column_changes_nothing() {
    let mut s = Screen::new_with_column_size(40);
    s.inc_cursor();
    let mut fb: Vec<u8> = vec![0xAA; 400];
    s.print_char('E', &mut fb);
    assert_eq!(fb, vec![0xAA; 400]);
    assert_eq!(s.get_x(), 2);
}

#[test]
fn print_text_on_empty_framebuffer() {
    let mut s = Screen::new_with_column_size(40);
    let mut fb: Vec<u8> = Vec::new();
    s.print_text("HELLO", &mut fb);
    assert_eq!(fb.len(), 0);
    assert_eq!(s.get_x(), 5);
}

#[test]
fn hello_world_end_to_end() {
    // a framebuffer sized for exactly 12 cells in one cell row
    let text = "HELLO WORLD!";
    let chars: Vec<char> = text.chars().collect();
    let mut s = Screen::new_with_column_size(480);
    let mut fb: Vec<u8> = vec![0x55; 4800];
    s.print_text(text, &mut fb);
    for i in 0..4800usize {
        let cell_x = (i % 480) / 40;
        let local_x = (i % 40) / 4;
        let local_y = (i / 480) % 10;
        assert_eq!(fb[i], mask_byte(chars[cell_x], local_x, local_y), "byte {}", i);
    }
    assert_eq!(s.get_x(), 12);
}
