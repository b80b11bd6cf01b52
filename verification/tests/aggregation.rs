use browser_history::browser::{firefox, qutebrowser};
use browser_history::registry::RegistryError;
use browser_history::snapshot::{SnapshotError, Source};
use browser_history::store::{ReadError, SchemaViolation, ViolationKind};
use browser_history::{
    configured_sources, get_history, Aggregation, FailureKind, History, SourceFailure,
    SourceReport,
};

fn firefox_history(urls: &[&str]) -> firefox::History {
    firefox::History {
        entries: urls
            .iter()
            .map(|url| firefox::HistoryEntry {
                url: url.to_string(),
                title: None,
                last_visit_date: None,
                description: None,
            })
            .collect(),
    }
}

fn qutebrowser_history(urls: &[&str]) -> qutebrowser::History {
    qutebrowser::History {
        entries: urls
            .iter()
            .map(|url| qutebrowser::HistoryEntry {
                url: url.to_string(),
                title: format!("title of {}", url),
                access_time: 1,
                redirect: false,
            })
            .collect(),
    }
}

fn urls(entries: &[History]) -> Vec<&str> {
    entries.iter().map(|h| h.url.as_str()).collect()
}

#[test]
fn sources_are_gathered_in_their_configured_order() {
    assert_eq!(configured_sources(), vec![Source::Qutebrowser, Source::Firefox]);
}

#[test]
fn entries_come_in_source_then_profile_then_row_order() {
    let reports = vec![
        SourceReport::Firefox(vec![Ok(firefox_history(&["a1"])), Ok(firefox_history(&["a2"]))]),
        SourceReport::Qutebrowser(vec![Ok(qutebrowser_history(&["b1", "b2", "b3"]))]),
    ];
    let gathered = get_history(&reports);
    assert_eq!(gathered.entries.len(), 5);
    assert_eq!(urls(&gathered.entries), vec!["a1", "a2", "b1", "b2", "b3"]);
    assert_eq!(gathered.entries[0].title, None);
    assert_eq!(gathered.entries[1].title, None);
    assert_eq!(gathered.entries[2].title, Some("title of b1".to_string()));
    assert!(gathered.failures.is_empty());
}

#[test]
fn duplicates_are_kept_and_nothing_is_sorted() {
    let reports = vec![
        SourceReport::Qutebrowser(vec![Ok(qutebrowser_history(&["z", "a", "z"]))]),
        SourceReport::Firefox(vec![Ok(firefox_history(&["z", "a"]))]),
    ];
    let gathered = get_history(&reports);
    assert_eq!(urls(&gathered.entries), vec!["z", "a", "z", "z", "a"]);
}

#[test]
fn source_without_profiles_adds_nothing_and_fails_nothing() {
    let reports = vec![
        SourceReport::Qutebrowser(Vec::new()),
        SourceReport::Firefox(vec![Ok(firefox_history(&["a1"]))]),
    ];
    let gathered = get_history(&reports);
    assert_eq!(urls(&gathered.entries), vec!["a1"]);
    assert!(gathered.failures.is_empty());
    assert!(gathered.into_result().is_ok());
}

#[test]
fn nothing_gathered_from_no_sources() {
    let gathered = get_history(&Vec::new());
    assert!(gathered.entries.is_empty());
    assert!(gathered.failures.is_empty());
    let gathered = get_history(&vec![SourceReport::Firefox(Vec::new())]);
    assert!(gathered.entries.is_empty());
    assert!(gathered.failures.is_empty());
}

#[test]
fn failure_in_a_later_source_keeps_the_earlier_entries() {
    let reports = vec![
        SourceReport::Firefox(vec![Ok(firefox_history(&["a1", "a2"]))]),
        SourceReport::Qutebrowser(vec![Err(FailureKind::SchemaViolation)]),
    ];
    let gathered = get_history(&reports);
    assert_eq!(urls(&gathered.entries), vec!["a1", "a2"]);
    assert_eq!(
        gathered.failures,
        vec![SourceFailure { source: Source::Qutebrowser, kind: FailureKind::SchemaViolation }]
    );
}

#[test]
fn failed_store_takes_nothing_from_its_neighbours() {
    let reports = vec![
        SourceReport::Firefox(vec![
            Ok(firefox_history(&["a1"])),
            Err(FailureKind::SnapshotFailure),
            Ok(firefox_history(&["a3"])),
            Err(FailureKind::StoreUnreadable),
        ]),
        SourceReport::Qutebrowser(vec![Err(FailureKind::MalformedRegistry)]),
    ];
    let gathered = get_history(&reports);
    assert_eq!(urls(&gathered.entries), vec!["a1", "a3"]);
    assert_eq!(
        gathered.failures,
        vec![
            SourceFailure { source: Source::Firefox, kind: FailureKind::SnapshotFailure },
            SourceFailure { source: Source::Firefox, kind: FailureKind::StoreUnreadable },
            SourceFailure { source: Source::Qutebrowser, kind: FailureKind::MalformedRegistry },
        ]
    );
}

#[test]
fn all_or_nothing_gives_the_entries_where_nothing_failed() {
    let gathered = get_history(&vec![SourceReport::Firefox(vec![Ok(firefox_history(&["a1"]))])]);
    let entries = gathered.into_result().unwrap();
    assert_eq!(urls(&entries), vec!["a1"]);
}

#[test]
fn all_or_nothing_gives_the_first_failure_alone() {
    let gathered = Aggregation {
        entries: vec![History { url: "kept".to_string(), title: None }],
        failures: vec![
            SourceFailure { source: Source::Firefox, kind: FailureKind::StoreUnreadable },
            SourceFailure { source: Source::Qutebrowser, kind: FailureKind::SnapshotFailure },
        ],
    };
    assert_eq!(
        gathered.into_result().unwrap_err(),
        SourceFailure { source: Source::Firefox, kind: FailureKind::StoreUnreadable }
    );
}

#[test]
fn errors_map_to_their_failure_kind() {
    assert_eq!(
        FailureKind::of_registry(RegistryError::MissingDefault { section: 3 }),
        Some(FailureKind::MalformedRegistry)
    );
    assert_eq!(FailureKind::of_registry(RegistryError::Unparsable), None);
    assert_eq!(FailureKind::of_snapshot(SnapshotError::CopyFailed), FailureKind::SnapshotFailure);
    assert_eq!(FailureKind::of_snapshot(SnapshotError::AlreadyTaken), FailureKind::SnapshotFailure);
    assert_eq!(
        FailureKind::of_snapshot(SnapshotError::CollidesWithSource),
        FailureKind::SnapshotFailure
    );
    let violation = SchemaViolation { row: 0, column: 0, kind: ViolationKind::InvalidType };
    assert_eq!(FailureKind::of_read(ReadError::Schema(violation)), FailureKind::SchemaViolation);
    assert_eq!(FailureKind::of_read(ReadError::NotSnapshotted), FailureKind::SnapshotFailure);
}
