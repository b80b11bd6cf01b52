use browser_history::browser::{firefox, qutebrowser};
use browser_history::store::{Cell, ReadError, SchemaViolation, ViolationKind};

fn text(s: &str) -> Cell {
    Cell::Text(s.to_string())
}

fn firefox_snapshot() -> firefox::Database {
    let mut database = firefox::Database::new("/root/a/places.sqlite".to_string());
    firefox::copy_database(&mut database, "/tmp/browser-history-firefox-t.db".to_string(), true)
        .unwrap();
    database
}

fn qutebrowser_snapshot() -> qutebrowser::Database {
    let mut database = qutebrowser::Database::new("/root/history.sqlite".to_string());
    qutebrowser::copy_database(
        &mut database,
        "/tmp/browser-history-qutebrowser-t.db".to_string(),
        true,
    )
    .unwrap();
    database
}

#[test]
fn firefox_query_names_the_columns_in_order() {
    assert_eq!(
        firefox::history_query(),
        "SELECT url, title, last_visit_date, description FROM moz_places"
    );
}

#[test]
fn qutebrowser_query_names_the_columns_in_order() {
    assert_eq!(qutebrowser::history_query(), "SELECT title, url, atime, redirect FROM History");
}

#[test]
fn firefox_rows_decode_one_entry_each_in_order() {
    let rows = vec![
        vec![text("https://a.example"), text("A"), Cell::Integer(1700000000000000), text("first")],
        vec![text("https://b.example"), Cell::Null, Cell::Null, Cell::Null],
        vec![text("https://c.example"), text(""), Cell::Integer(0), Cell::Null],
    ];
    let history = firefox::get_history(firefox_snapshot(), &rows).unwrap();
    assert_eq!(history.entries.len(), 3);
    assert_eq!(history.entries[0].url, "https://a.example");
    assert_eq!(history.entries[0].title, Some("A".to_string()));
    assert_eq!(history.entries[0].last_visit_date.unwrap().epoch_millis, 1700000000000);
    assert_eq!(history.entries[0].last_visit_date.unwrap().year, 2023);
    assert_eq!(history.entries[0].description, Some("first".to_string()));
    assert_eq!(history.entries[1].url, "https://b.example");
    assert_eq!(history.entries[1].title, None);
    assert_eq!(history.entries[1].last_visit_date, None);
    assert_eq!(history.entries[1].description, None);
    assert_eq!(history.entries[2].url, "https://c.example");
    assert_eq!(history.entries[2].title, Some(String::new()));
    assert_eq!(history.entries[2].last_visit_date.unwrap().epoch_millis, 0);
}

#[test]
fn firefox_store_without_rows_has_an_empty_history() {
    let history = firefox::get_history(firefox_snapshot(), &Vec::new()).unwrap();
    assert!(history.entries.is_empty());
}

#[test]
fn firefox_row_without_url_fails_the_whole_read() {
    let rows = vec![
        vec![text("https://a.example"), Cell::Null, Cell::Null, Cell::Null],
        vec![Cell::Null, text("no url"), Cell::Null, Cell::Null],
        vec![Cell::Integer(1), Cell::Null, Cell::Null, Cell::Null],
    ];
    let error = firefox::get_history(firefox_snapshot(), &rows).unwrap_err();
    assert_eq!(
        error,
        ReadError::Schema(SchemaViolation { row: 1, column: 0, kind: ViolationKind::InvalidType })
    );
}

#[test]
fn firefox_violations_name_the_first_bad_column() {
    let row = vec![text("u"), Cell::Integer(1), text("not a time"), Cell::Blob];
    assert_eq!(
        firefox::decode_entry(4, &row).unwrap_err(),
        SchemaViolation { row: 4, column: 1, kind: ViolationKind::InvalidType }
    );
    let row = vec![text("u"), Cell::Null, text("not a time"), Cell::Blob];
    assert_eq!(
        firefox::decode_entry(0, &row).unwrap_err(),
        SchemaViolation { row: 0, column: 2, kind: ViolationKind::InvalidType }
    );
    let row = vec![text("u"), Cell::Null, Cell::Integer(i64::MAX), Cell::Blob];
    assert_eq!(
        firefox::decode_entry(0, &row).unwrap_err(),
        SchemaViolation { row: 0, column: 2, kind: ViolationKind::OutOfRange }
    );
    let row = vec![text("u"), Cell::Null, Cell::Null, Cell::Blob];
    assert_eq!(
        firefox::decode_entry(0, &row).unwrap_err(),
        SchemaViolation { row: 0, column: 3, kind: ViolationKind::InvalidType }
    );
    let row = vec![text("u"), Cell::InvalidText, Cell::Null, Cell::Null];
    assert_eq!(
        firefox::decode_entry(0, &row).unwrap_err(),
        SchemaViolation { row: 0, column: 1, kind: ViolationKind::InvalidText }
    );
    let row = vec![text("u"), Cell::Null, Cell::Null];
    assert_eq!(
        firefox::decode_entry(7, &row).unwrap_err(),
        SchemaViolation { row: 7, column: 3, kind: ViolationKind::MissingColumn }
    );
}

#[test]
fn firefox_store_without_snapshot_is_not_read() {
    let database = firefox::Database::new("/root/a/places.sqlite".to_string());
    let rows = vec![vec![text("https://a.example"), Cell::Null, Cell::Null, Cell::Null]];
    assert_eq!(firefox::get_history(database, &rows).unwrap_err(), ReadError::NotSnapshotted);
}

#[test]
fn qutebrowser_rows_decode_one_entry_each_in_order() {
    let rows = vec![
        vec![text("Example"), text("https://example.com"), Cell::Integer(1700000000), Cell::Integer(0)],
        vec![text(""), text("https://redirect.example"), Cell::Integer(0), Cell::Integer(1)],
    ];
    let history = qutebrowser::get_history(qutebrowser_snapshot(), &rows).unwrap();
    assert_eq!(history.entries.len(), 2);
    assert_eq!(history.entries[0].title, "Example");
    assert_eq!(history.entries[0].url, "https://example.com");
    assert_eq!(history.entries[0].access_time, 1700000000);
    assert!(!history.entries[0].redirect);
    assert_eq!(history.entries[1].title, "");
    assert_eq!(history.entries[1].url, "https://redirect.example");
    assert_eq!(history.entries[1].access_time, 0);
    assert!(history.entries[1].redirect);
}

#[test]
fn qutebrowser_has_no_optional_columns() {
    let rows = vec![
        vec![text("t"), text("u"), Cell::Integer(1), Cell::Integer(0)],
        vec![Cell::Null, text("u"), Cell::Integer(1), Cell::Integer(0)],
    ];
    assert_eq!(
        qutebrowser::get_history(qutebrowser_snapshot(), &rows).unwrap_err(),
        ReadError::Schema(SchemaViolation { row: 1, column: 0, kind: ViolationKind::InvalidType })
    );
    let row = vec![text("t"), Cell::Null, Cell::Integer(1), Cell::Integer(0)];
    assert_eq!(
        qutebrowser::decode_entry(0, &row).unwrap_err(),
        SchemaViolation { row: 0, column: 1, kind: ViolationKind::InvalidType }
    );
    let row = vec![text("t"), text("u"), Cell::Null, Cell::Integer(0)];
    assert_eq!(
        qutebrowser::decode_entry(0, &row).unwrap_err(),
        SchemaViolation { row: 0, column: 2, kind: ViolationKind::InvalidType }
    );
    let row = vec![text("t"), text("u"), Cell::Integer(-1), Cell::Integer(0)];
    assert_eq!(
        qutebrowser::decode_entry(3, &row).unwrap_err(),
        SchemaViolation { row: 3, column: 2, kind: ViolationKind::OutOfRange }
    );
    let row = vec![text("t"), text("u"), Cell::Integer(1), Cell::Null];
    assert_eq!(
        qutebrowser::decode_entry(0, &row).unwrap_err(),
        SchemaViolation { row: 0, column: 3, kind: ViolationKind::InvalidType }
    );
    let row = vec![text("t"), text("u"), Cell::Integer(1)];
    assert_eq!(
        qutebrowser::decode_entry(0, &row).unwrap_err(),
        SchemaViolation { row: 0, column: 3, kind: ViolationKind::MissingColumn }
    );
}

#[test]
fn qutebrowser_store_without_snapshot_is_not_read() {
    let database = qutebrowser::Database::new("/root/history.sqlite".to_string());
    assert_eq!(
        qutebrowser::get_history(database, &Vec::new()).unwrap_err(),
        ReadError::NotSnapshotted
    );
}
