use browser_history::browser::{firefox, qutebrowser};

#[test]
fn qutebrowser_entry_maps_to_unified_with_title_present() {
    let entry = qutebrowser::HistoryEntry {
        url: "https://example.com".to_string(),
        title: "Example".to_string(),
        access_time: 0,
        redirect: false,
    };
    let unified = entry.to_unified();
    assert_eq!(unified.url, "https://example.com");
    assert_eq!(unified.title, Some("Example".to_string()));
}

#[test]
fn firefox_entry_without_title_maps_to_unified_without_title() {
    let entry = firefox::HistoryEntry {
        url: "https://example.org".to_string(),
        title: None,
        last_visit_date: None,
        description: None,
    };
    let unified = entry.to_unified();
    assert_eq!(unified.url, "https://example.org");
    assert_eq!(unified.title, None);
}
