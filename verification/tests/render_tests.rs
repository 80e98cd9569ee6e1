use ascii_clock::get_ascii_digits;
use ascii_clock::render::finished_message;
use ascii_clock::render::render_frame;

#[test]
fn a_single_character_frame_matches_exactly() {
    let table = get_ascii_digits();
    let frame = render_frame("1", (1, 2, 3), &table);
    let rows = ["   1   ", "  11   ", "   1   ", "   1   ", "  111  "];
    let mut expected = String::from("\x1b[2J\x1b[1;1H");
    for row in rows {
        expected.push_str(&format!("\x1b[38;2;1;2;3m{}\x1b[0m \n", row));
    }
    assert_eq!(frame, expected);
}

#[test]
fn empty_text_renders_five_empty_rows() {
    let table = get_ascii_digits();
    let frame = render_frame("", (10, 20, 30), &table);
    assert_eq!(frame, "\x1b[2J\x1b[1;1H\n\n\n\n\n");
}

#[test]
fn a_time_frame_colors_each_cell() {
    let table = get_ascii_digits();
    let frame = render_frame("0:1", (255, 0, 128), &table);
    let glyphs = [
        ["  000  ", " 0   0 ", " 0   0 ", " 0   0 ", "  000  "],
        ["       ", "   7   ", "       ", "   7   ", "       "],
        ["   1   ", "  11   ", "   1   ", "   1   ", "  111  "],
    ];
    let mut expected = String::from("\x1b[2J\x1b[1;1H");
    for row in 0..5 {
        for glyph in &glyphs {
            expected.push_str(&format!("\x1b[38;2;255;0;128m{}\x1b[0m ", glyph[row]));
        }
        expected.push('\n');
    }
    assert_eq!(frame, expected);
}

#[test]
fn unsupported_characters_render_as_blank_cells() {
    let table = get_ascii_digits();
    let with_blank = render_frame("?", (9, 9, 9), &table);
    let with_space = render_frame(" ", (9, 9, 9), &table);
    assert_eq!(with_blank, with_space);
}

#[test]
fn the_finish_message_is_colored() {
    let msg = finished_message((0, 255, 0));
    assert_eq!(msg, "\x1b[38;2;0;255;0mTimer finished!\x1b[0m");
}
