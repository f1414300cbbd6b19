use inkos_core::journal::{list_logbook_entries, list_timeline_events, LogbookEntry, TimelineEvent};
use inkos_core::text::comes_before;

fn entry(id: &str, date: &str) -> LogbookEntry {
    LogbookEntry {
        id: id.to_string(),
        entry_date: date.to_string(),
        summary: format!("summary of {date}"),
        created_at: 7,
    }
}

fn event(id: &str, date: &str, at: i64) -> TimelineEvent {
    TimelineEvent {
        id: id.to_string(),
        entry_date: date.to_string(),
        event_time: at,
        kind: "note".to_string(),
        title: id.to_uppercase(),
        detail: None,
        created_at: at,
    }
}

fn before(a: &str, b: &str) -> bool {
    comes_before(&a.chars().collect(), &b.chars().collect())
}

#[test]
fn texts_are_ordered_character_by_character() {
    assert!(before("2024-01-05", "2024-01-06"));
    assert!(before("2023-12-31", "2024-01-01"));
    assert!(!before("2024-01-05", "2024-01-05"));
    assert!(!before("2024-01-06", "2024-01-05"));
    assert!(before("", "a"));
    assert!(!before("", ""));
    assert!(!before("a", ""));
    assert!(before("2024", "2024-01"));
    assert!(before("Z", "a"));
    assert!(before("z", "é"));
    assert!(before("é", "\u{10000}"));
    // The order is that of the texts' bytes.
    for (a, b) in [("a", "b"), ("ab", "b"), ("é", "z"), ("\u{ffff}", "\u{10000}"), ("x", "x")] {
        assert_eq!(before(a, b), a.as_bytes() < b.as_bytes());
        assert_eq!(before(b, a), b.as_bytes() < a.as_bytes());
    }
}

#[test]
fn the_logbook_is_listed_latest_first() {
    let rows = vec![
        entry("b", "2024-01-05"),
        entry("d", "2024-02-01"),
        entry("a", "2023-12-31"),
        entry("c", "2024-01-06"),
    ];
    let ids = |listed: Vec<LogbookEntry>| listed.into_iter().map(|e| e.id).collect::<Vec<_>>();
    assert_eq!(ids(list_logbook_entries(&rows, None)), vec!["d", "c", "b", "a"]);
    assert_eq!(ids(list_logbook_entries(&rows, Some(2))), vec!["d", "c"]);
    assert_eq!(ids(list_logbook_entries(&rows, Some(0))), Vec::<String>::new());
    assert_eq!(ids(list_logbook_entries(&rows, Some(9))), vec!["d", "c", "b", "a"]);
    assert!(list_logbook_entries(&Vec::new(), None).is_empty());
    let listed = list_logbook_entries(&rows, Some(1));
    assert_eq!(listed[0].entry_date, "2024-02-01");
    assert_eq!(listed[0].summary, "summary of 2024-02-01");
    assert_eq!(listed[0].created_at, 7);
}

#[test]
fn entries_of_one_date_stay_in_the_order_they_were_stored() {
    let rows = vec![
        entry("first", "2024-01-05"),
        entry("later", "2024-01-06"),
        entry("second", "2024-01-05"),
    ];
    let listed = list_logbook_entries(&rows, None);
    let ids: Vec<&str> = listed.iter().map(|e| e.id.as_str()).collect();
    assert_eq!(ids, vec!["later", "first", "second"]);
}

#[test]
fn the_timeline_of_a_day_is_listed_by_event_time() {
    let rows = vec![
        event("late", "2024-01-05", 900),
        event("other-day", "2024-01-06", 100),
        event("early", "2024-01-05", -5),
        event("noon", "2024-01-05", 400),
        event("noon-too", "2024-01-05", 400),
    ];
    let listed = list_timeline_events(&rows, "2024-01-05");
    let ids: Vec<&str> = listed.iter().map(|e| e.id.as_str()).collect();
    assert_eq!(ids, vec!["early", "noon", "noon-too", "late"]);
    assert_eq!(listed[0].title, "EARLY");
    assert_eq!(listed[0].event_time, -5);
    let listed = list_timeline_events(&rows, "2024-01-06");
    assert_eq!(listed.len(), 1);
    assert_eq!(listed[0].id, "other-day");
    assert!(list_timeline_events(&rows, "2024-01-07").is_empty());
    assert!(list_timeline_events(&rows, "2024-01-0").is_empty());
}
