use gramps_reader::types::{FamilyRecord, ParsedEvent, ParsedPerson};

fn rec(parents: &[&str], children: &[&str]) -> FamilyRecord {
    FamilyRecord {
        parent_handles: parents.iter().map(|s| s.to_string()).collect(),
        child_handles: children.iter().map(|s| s.to_string()).collect(),
    }
}

#[test]
fn family_record_size_empty() {
    let r = rec(&[], &[]);
    assert_eq!(r.size(), 0);
}

#[test]
fn family_record_size_parents_and_children() {
    let r = rec(&["p1", "p2"], &["p3", "p4"]);
    assert_eq!(r.size(), 4);
}

#[test]
fn family_record_size_counts_duplicates_once() {
    let r = rec(&["p1", "p2"], &["p1", "p3"]);
    assert_eq!(r.size(), 3);
}

#[test]
fn family_record_size_single_parent() {
    let r = rec(&["p1"], &[]);
    assert_eq!(r.size(), 1);
}

#[test]
fn parsed_event_default() {
    let e = ParsedEvent::default();
    assert_eq!(e.handle, "");
    assert!(e.event_type.is_none());
    assert!(e.date_val.is_none());
    assert!(e.date_year.is_none());
}

#[test]
fn parsed_event_full() {
    let e = ParsedEvent {
        handle: "e0001".to_string(),
        event_type: Some("Birth".to_string()),
        date_val: Some("1850-07-13".to_string()),
        date_year: Some(1850),
    };
    assert_eq!(e.handle, "e0001");
    assert_eq!(e.event_type.as_deref(), Some("Birth"));
    assert_eq!(e.date_val.as_deref(), Some("1850-07-13"));
    assert_eq!(e.date_year, Some(1850));
}

#[test]
fn parsed_person_event_refs_default() {
    let p = ParsedPerson::default();
    assert!(p.event_refs.is_empty());
}

#[test]
fn parsed_person_event_refs_populated() {
    let p = ParsedPerson {
        event_refs: vec!["e1".to_string(), "e2".to_string()],
        ..ParsedPerson::default()
    };
    assert_eq!(p.event_refs, vec!["e1", "e2"]);
}

#[test]
fn family_record_size_repeated_parent() {
    let r = rec(&["p1", "p1"], &["p1"]);
    assert_eq!(r.size(), 1);
}
