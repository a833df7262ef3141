use linenum::render::{pad, pretty_numbered_lines, u64_to_dec_string, PadMode, RenderError};

#[test]
fn decimal_rendering() {
    assert_eq!(u64_to_dec_string(0), "0");
    assert_eq!(u64_to_dec_string(7), "7");
    assert_eq!(u64_to_dec_string(10), "10");
    assert_eq!(u64_to_dec_string(987654), "987654");
    assert_eq!(u64_to_dec_string(u64::MAX), "18446744073709551615");
}

#[test]
fn pad_left_right_aligns_content() {
    assert_eq!(pad(PadMode::PadLeft, 5, "ab"), "   ab");
    assert_eq!(pad(PadMode::PadRight, 5, "ab"), "ab   ");
    assert_eq!(pad(PadMode::PadLeft, 3, "abc"), "abc");
    assert_eq!(pad(PadMode::PadRight, 0, ""), "");
    assert_eq!(pad(PadMode::PadLeft, 4, ""), "    ");
}

#[test]
fn render_joins_padded_number_space_text() {
    let doc = vec![(Some(3), "abc".to_string()), (None, "xy".to_string())];
    let rows = pretty_numbered_lines(&PadMode::PadLeft, doc).unwrap();
    assert_eq!(rows, vec!["  3 abc".to_string(), "    xy".to_string()]);
}

#[test]
fn render_row_count_equals_input_count() {
    let doc = vec![
        (Some(1), "one".to_string()),
        (None, "".to_string()),
        (Some(2), "two".to_string()),
    ];
    let rows = pretty_numbered_lines(&PadMode::PadRight, doc).unwrap();
    assert_eq!(rows.len(), 3);
}

#[test]
fn render_of_empty_document_is_empty() {
    let rows = pretty_numbered_lines(&PadMode::PadLeft, vec![]).unwrap();
    assert_eq!(rows, Vec::<String>::new());
}

#[test]
fn number_wider_than_column_is_an_error() {
    // The column is as wide as the longest text (1), but the tenth
    // ordinal needs two digits.
    let doc: Vec<(Option<u64>, String)> =
        (1..=10).map(|n| (Some(n), "x".to_string())).collect();
    assert_eq!(
        pretty_numbered_lines(&PadMode::PadLeft, doc),
        Err(RenderError::NumberTooWide)
    );
}
