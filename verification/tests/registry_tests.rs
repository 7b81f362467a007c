use restream::interface::TranscriptRecord;
use restream::registry::{RewindSession, SessionRegistry, SinkKind};

fn record(time_code: &str, speaker: &str, sentence: &str) -> TranscriptRecord {
    TranscriptRecord {
        time_code: time_code.to_string(),
        speaker: speaker.to_string(),
        sentence: sentence.to_string(),
    }
}

fn session(name: &str, n: usize) -> RewindSession {
    let records = (0..n)
        .map(|i| record(&format!("{}", i), "speaker", &format!("sentence {}", i)))
        .collect();
    RewindSession::new(name.to_string(), records, SinkKind::LivePush)
}

#[test]
fn new_registry_is_empty() {
    let registry = SessionRegistry::new();
    assert!(registry.is_empty());
    assert_eq!(registry.len(), 0);
    assert!(!registry.contains("a"));
    assert!(registry.get("a").is_none());
}

#[test]
fn created_session_is_found() {
    let mut registry = SessionRegistry::new();
    registry.create("a".to_string(), session("one.csv", 3));
    assert!(registry.contains("a"));
    assert_eq!(registry.len(), 1);
    let found = registry.get("a").unwrap();
    assert_eq!(found.filename(), "one.csv");
    assert_eq!(found.len(), 3);
    assert_eq!(found.current_index(), 0);
    assert_eq!(found.sink_kind(), SinkKind::LivePush);
    assert_eq!(found.records()[2], record("2", "speaker", "sentence 2"));
}

#[test]
fn lookup_hands_out_a_copy() {
    let mut registry = SessionRegistry::new();
    registry.create("a".to_string(), session("one.csv", 2));
    let mut copy = registry.get("a").unwrap();
    copy.advance();
    copy.advance();
    assert_eq!(copy.current_index(), 2);
    assert!(copy.is_complete());
    let again = registry.get("a").unwrap();
    assert_eq!(again.current_index(), 0);
    assert!(!again.is_complete());
}

#[test]
fn create_under_the_same_id_replaces() {
    let mut registry = SessionRegistry::new();
    registry.create("a".to_string(), session("one.csv", 1));
    registry.create("b".to_string(), session("two.csv", 2));
    registry.create("a".to_string(), session("three.csv", 3));
    assert_eq!(registry.len(), 2);
    assert_eq!(registry.get("a").unwrap().filename(), "three.csv");
    assert_eq!(registry.get("a").unwrap().len(), 3);
    assert_eq!(registry.get("b").unwrap().filename(), "two.csv");
}

#[test]
fn removed_session_is_not_found_however_often_it_is_looked_up() {
    let mut registry = SessionRegistry::new();
    registry.create("a".to_string(), session("one.csv", 1));
    registry.create("b".to_string(), session("two.csv", 1));
    assert!(registry.remove("a"));
    for _ in 0..5 {
        assert!(registry.get("a").is_none());
        assert!(!registry.contains("a"));
    }
    assert!(registry.contains("b"));
    assert_eq!(registry.len(), 1);
}

#[test]
fn removing_twice_changes_nothing() {
    let mut registry = SessionRegistry::new();
    registry.create("a".to_string(), session("one.csv", 1));
    registry.create("b".to_string(), session("two.csv", 1));
    assert!(registry.remove("a"));
    assert!(!registry.remove("a"));
    assert!(!registry.remove("a"));
    assert!(!registry.remove("never there"));
    assert_eq!(registry.len(), 1);
    assert_eq!(registry.get("b").unwrap().filename(), "two.csv");
}

#[test]
fn removal_from_the_middle_keeps_the_others() {
    let mut registry = SessionRegistry::new();
    for (i, id) in ["a", "b", "c", "d"].iter().enumerate() {
        registry.create(id.to_string(), session(&format!("{}.csv", id), i + 1));
    }
    assert!(registry.remove("b"));
    assert_eq!(registry.len(), 3);
    assert_eq!(registry.get("a").unwrap().len(), 1);
    assert!(registry.get("b").is_none());
    assert_eq!(registry.get("c").unwrap().len(), 3);
    assert_eq!(registry.get("d").unwrap().len(), 4);
}

#[test]
fn ids_are_told_apart_exactly() {
    let mut registry = SessionRegistry::new();
    registry.create("abc".to_string(), session("one.csv", 1));
    assert!(!registry.contains("ab"));
    assert!(!registry.contains("abcd"));
    assert!(!registry.contains("ABC"));
    assert!(!registry.contains(""));
    registry.create("".to_string(), session("empty.csv", 0));
    assert_eq!(registry.get("").unwrap().filename(), "empty.csv");
}

#[test]
fn session_cursor_counts_up_to_the_number_of_records() {
    let mut s = session("one.csv", 3);
    assert_eq!(s.current().unwrap().sentence, "sentence 0");
    s.advance();
    assert_eq!(s.current_index(), 1);
    assert_eq!(s.current().unwrap().sentence, "sentence 1");
    s.advance();
    s.advance();
    assert_eq!(s.current_index(), 3);
    assert!(s.is_complete());
    assert!(s.current().is_none());
}

#[test]
fn empty_session_is_complete_from_the_start() {
    let s = session("none.csv", 0);
    assert!(s.is_complete());
    assert!(s.current().is_none());
    assert_eq!(s.len(), 0);
}

#[test]
fn cloned_session_keeps_everything() {
    let mut s = session("one.csv", 2);
    s.advance();
    let copy = s.clone();
    assert_eq!(copy.filename(), "one.csv");
    assert_eq!(copy.current_index(), 1);
    assert_eq!(copy.len(), 2);
    assert_eq!(copy.records()[0], s.records()[0]);
    assert_eq!(copy.records()[1], s.records()[1]);
    assert_eq!(copy.sink_kind(), SinkKind::LivePush);
}
