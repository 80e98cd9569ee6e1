use ascii_clock::hex_to_rgb;

#[test]
fn green_parses_exactly() {
    assert_eq!(hex_to_rgb("#00ff00"), (0, 255, 0));
}

#[test]
fn white_parses_exactly() {
    assert_eq!(hex_to_rgb("#ffffff"), (255, 255, 255));
}

#[test]
fn non_hex_components_default_to_zero() {
    assert_eq!(hex_to_rgb("#zzzzzz"), (0, 0, 0));
}

#[test]
fn one_bad_component_leaves_the_others() {
    assert_eq!(hex_to_rgb("#12zz34"), (0x12, 0, 0x34));
}

#[test]
fn upper_and_lower_case_digits_mix() {
    assert_eq!(hex_to_rgb("#0aF0B9"), (0x0a, 0xf0, 0xb9));
}

#[test]
fn characters_past_the_seventh_are_ignored() {
    assert_eq!(hex_to_rgb("#123456 and more"), (0x12, 0x34, 0x56));
}
