use udpt_web::engine::{TorrentEntry, TrackerEngine};

fn id(b: u8) -> [u8; 20] {
    [b; 20]
}

#[test]
fn new_engine_is_empty() {
    let engine = TrackerEngine::new();
    assert_eq!(engine.count(), 0);
    assert_eq!(engine.lookup(&id(1)), None);
}

#[test]
fn add_then_lookup() {
    let mut engine = TrackerEngine::new();
    assert!(engine.add(&id(1)));
    assert_eq!(engine.count(), 1);
    let entry = engine.lookup(&id(1)).expect("added entity is stored");
    assert_eq!(entry, TorrentEntry::new());
    assert!(!entry.is_flagged());
    assert_eq!(entry.get_stats(), (0, 0, 0));
}

#[test]
fn add_duplicate_fails() {
    let mut engine = TrackerEngine::new();
    assert!(engine.add(&id(7)));
    assert!(!engine.add(&id(7)));
    assert_eq!(engine.count(), 1);
}

#[test]
fn set_flag_and_clear() {
    let mut engine = TrackerEngine::new();
    assert!(engine.add(&id(2)));
    assert!(engine.set_flag(&id(2), true));
    assert!(engine.lookup(&id(2)).unwrap().is_flagged());
    assert!(engine.set_flag(&id(2), false));
    assert!(!engine.lookup(&id(2)).unwrap().is_flagged());
}

#[test]
fn set_flag_on_absent_identifier_reports_missing() {
    let mut engine = TrackerEngine::new();
    assert!(!engine.set_flag(&id(9), true));
    assert_eq!(engine.count(), 0);
}

#[test]
fn set_stats_overwrites() {
    let mut engine = TrackerEngine::new();
    assert!(engine.add(&id(3)));
    assert!(engine.set_stats(&id(3), 5, 2, 9));
    let entry = engine.lookup(&id(3)).unwrap();
    assert_eq!(entry.get_stats(), (5, 2, 9));
    assert!(!engine.set_stats(&id(4), 1, 1, 1));
}

#[test]
fn remove_keeps_order_of_rest() {
    let mut engine = TrackerEngine::new();
    assert!(engine.add(&id(1)));
    assert!(engine.add(&id(2)));
    assert!(engine.add(&id(3)));
    assert!(engine.remove(&id(2), true));
    assert_eq!(engine.count(), 2);
    assert_eq!(engine.id_at(0), id(1));
    assert_eq!(engine.id_at(1), id(3));
    assert!(!engine.remove(&id(2), true));
}
