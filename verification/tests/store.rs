use browser_history::store::{
    cell_at, flag, integer, optional_integer, optional_text, read_flag, read_optional_integer,
    read_optional_text, read_text, read_unsigned, text, unsigned, Cell, ViolationKind,
};

fn text_cell(s: &str) -> Cell {
    Cell::Text(s.to_string())
}

#[test]
fn integer_column_takes_integers_only() {
    assert_eq!(integer(&Cell::Integer(-7)), Ok(-7));
    assert_eq!(integer(&Cell::Null), Err(ViolationKind::InvalidType));
    assert_eq!(integer(&Cell::Real), Err(ViolationKind::InvalidType));
    assert_eq!(integer(&text_cell("7")), Err(ViolationKind::InvalidType));
    assert_eq!(integer(&Cell::InvalidText), Err(ViolationKind::InvalidType));
    assert_eq!(integer(&Cell::Blob), Err(ViolationKind::InvalidType));
}

#[test]
fn text_column_takes_valid_text_only() {
    assert_eq!(text(&text_cell("https://example.com")), Ok("https://example.com".to_string()));
    assert_eq!(text(&text_cell("")), Ok(String::new()));
    assert_eq!(text(&Cell::InvalidText), Err(ViolationKind::InvalidText));
    assert_eq!(text(&Cell::Null), Err(ViolationKind::InvalidType));
    assert_eq!(text(&Cell::Integer(1)), Err(ViolationKind::InvalidType));
    assert_eq!(text(&Cell::Real), Err(ViolationKind::InvalidType));
    assert_eq!(text(&Cell::Blob), Err(ViolationKind::InvalidType));
}

#[test]
fn flag_column_is_true_unless_zero() {
    assert_eq!(flag(&Cell::Integer(0)), Ok(false));
    assert_eq!(flag(&Cell::Integer(1)), Ok(true));
    assert_eq!(flag(&Cell::Integer(-3)), Ok(true));
    assert_eq!(flag(&Cell::Null), Err(ViolationKind::InvalidType));
    assert_eq!(flag(&text_cell("true")), Err(ViolationKind::InvalidType));
}

#[test]
fn unsigned_column_takes_integers_in_range() {
    assert_eq!(unsigned(&Cell::Integer(0)), Ok(0));
    assert_eq!(unsigned(&Cell::Integer(1700000000)), Ok(1700000000));
    assert_eq!(unsigned(&Cell::Integer(4294967295)), Ok(u32::MAX));
    assert_eq!(unsigned(&Cell::Integer(4294967296)), Err(ViolationKind::OutOfRange));
    assert_eq!(unsigned(&Cell::Integer(-1)), Err(ViolationKind::OutOfRange));
    assert_eq!(unsigned(&Cell::Null), Err(ViolationKind::InvalidType));
    assert_eq!(unsigned(&Cell::Real), Err(ViolationKind::InvalidType));
}

#[test]
fn optional_columns_read_null_as_absent() {
    assert_eq!(optional_integer(&Cell::Null), Ok(None));
    assert_eq!(optional_integer(&Cell::Integer(5)), Ok(Some(5)));
    assert_eq!(optional_integer(&text_cell("5")), Err(ViolationKind::InvalidType));
    assert_eq!(optional_text(&Cell::Null), Ok(None));
    assert_eq!(optional_text(&text_cell("t")), Ok(Some("t".to_string())));
    assert_eq!(optional_text(&Cell::Integer(5)), Err(ViolationKind::InvalidType));
    assert_eq!(optional_text(&Cell::InvalidText), Err(ViolationKind::InvalidText));
}

#[test]
fn column_beyond_the_row_is_missing() {
    let row = vec![text_cell("a"), Cell::Integer(1)];
    assert!(matches!(cell_at(&row, 0), Ok(Cell::Text(_))));
    assert!(matches!(cell_at(&row, 1), Ok(Cell::Integer(1))));
    assert!(matches!(cell_at(&row, 2), Err(ViolationKind::MissingColumn)));
    assert_eq!(read_text(&row, 2), Err(ViolationKind::MissingColumn));
    assert_eq!(read_optional_text(&row, 9), Err(ViolationKind::MissingColumn));
    assert_eq!(read_optional_integer(&row, 2), Err(ViolationKind::MissingColumn));
    assert_eq!(read_flag(&row, 2), Err(ViolationKind::MissingColumn));
    assert_eq!(read_unsigned(&row, 2), Err(ViolationKind::MissingColumn));
}

#[test]
fn columns_are_read_at_their_index() {
    let row = vec![text_cell("a"), Cell::Integer(1), Cell::Null];
    assert_eq!(read_text(&row, 0), Ok("a".to_string()));
    assert_eq!(read_text(&row, 1), Err(ViolationKind::InvalidType));
    assert_eq!(read_unsigned(&row, 1), Ok(1));
    assert_eq!(read_flag(&row, 1), Ok(true));
    assert_eq!(read_optional_integer(&row, 1), Ok(Some(1)));
    assert_eq!(read_optional_integer(&row, 2), Ok(None));
    assert_eq!(read_optional_text(&row, 2), Ok(None));
    assert_eq!(read_optional_text(&row, 0), Ok(Some("a".to_string())));
}
