use ascii_clock::get_ascii_digits;

#[test]
fn every_glyph_has_five_rows_of_the_same_width() {
    let table = get_ascii_digits();
    for c in "0123456789: AMP".chars() {
        let rows = table.lookup(c);
        assert_eq!(rows.len(), 5);
        for row in rows {
            assert_eq!(row.chars().count(), 7);
        }
    }
}

#[test]
fn unsupported_characters_yield_blank_rows() {
    let table = get_ascii_digits();
    for c in ['x', 'Q', '#', 'é'] {
        let rows = table.lookup(c);
        assert_eq!(rows.len(), 5);
        for row in rows {
            assert_eq!(row, "       ");
        }
    }
}

#[test]
fn the_zero_glyph_matches_its_rows() {
    let table = get_ascii_digits();
    let rows = table.lookup('0');
    assert_eq!(rows[0], "  000  ");
    assert_eq!(rows[1], " 0   0 ");
    assert_eq!(rows[2], " 0   0 ");
    assert_eq!(rows[3], " 0   0 ");
    assert_eq!(rows[4], "  000  ");
}

#[test]
fn the_colon_glyph_matches_its_rows() {
    let table = get_ascii_digits();
    let rows = table.lookup(':');
    assert_eq!(rows[0], "       ");
    assert_eq!(rows[1], "   7   ");
    assert_eq!(rows[2], "       ");
    assert_eq!(rows[3], "   7   ");
    assert_eq!(rows[4], "       ");
}
