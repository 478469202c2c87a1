use agent_session::turns::TurnTracker;

fn s(v: &str) -> String {
    v.to_string()
}

#[test]
fn clear_with_other_ticket_keeps_entry() {
    let mut t: TurnTracker<u32> = TurnTracker::new();
    t.track_turn(s("thread-1"), s("turn-a"), 7);
    t.clear_turn("thread-1", "turn-b");
    let turn = t.active_turn("thread-1").expect("entry kept");
    assert_eq!(turn.turn_id, "turn-a");
    assert_eq!(turn.handle, 7);
    assert_eq!(t.len(), 1);
}

#[test]
fn clear_with_same_ticket_removes_entry() {
    let mut t: TurnTracker<u32> = TurnTracker::new();
    t.track_turn(s("thread-1"), s("turn-a"), 7);
    t.clear_turn("thread-1", "turn-a");
    assert!(t.active_turn("thread-1").is_none());
    assert!(t.is_empty());
}

#[test]
fn clear_unknown_thread_is_noop() {
    let mut t: TurnTracker<u32> = TurnTracker::new();
    t.track_turn(s("thread-1"), s("turn-a"), 7);
    t.clear_turn("thread-2", "turn-a");
    assert_eq!(t.len(), 1);
}

#[test]
fn interrupt_without_entry_succeeds_and_stays_empty() {
    let mut t: TurnTracker<u32> = TurnTracker::new();
    assert_eq!(t.interrupt_turn("thread-1", "turn-a"), None);
    assert!(t.is_empty());
}

#[test]
fn interrupt_with_stale_ticket_keeps_turn() {
    let mut t: TurnTracker<u32> = TurnTracker::new();
    t.track_turn(s("thread-1"), s("turn-a"), 11);
    assert_eq!(t.interrupt_turn("thread-1", "turn-b"), None);
    let turn = t.active_turn("thread-1").expect("entry kept");
    assert_eq!(turn.turn_id, "turn-a");
    assert_eq!(turn.handle, 11);
}

#[test]
fn interrupt_with_current_ticket_returns_handle() {
    let mut t: TurnTracker<u32> = TurnTracker::new();
    t.track_turn(s("thread-1"), s("turn-a"), 5);
    assert_eq!(t.interrupt_turn("thread-1", "turn-a"), Some(5));
    assert!(t.active_turn("thread-1").is_none());
    assert_eq!(t.interrupt_turn("thread-1", "turn-a"), None);
}

#[test]
fn replaced_turn_survives_interrupt_of_old_ticket() {
    let mut t: TurnTracker<u32> = TurnTracker::new();
    t.track_turn(s("thread-1"), s("turn-a"), 1);
    t.clear_turn("thread-1", "turn-a");
    t.track_turn(s("thread-1"), s("turn-b"), 2);
    assert_eq!(t.interrupt_turn("thread-1", "turn-a"), None);
    assert_eq!(t.active_turn("thread-1").map(|x| x.handle), Some(2));
}

#[test]
fn track_overwrites_entry_of_same_thread() {
    let mut t: TurnTracker<u32> = TurnTracker::new();
    t.track_turn(s("thread-1"), s("turn-a"), 1);
    t.track_turn(s("thread-2"), s("turn-x"), 9);
    t.track_turn(s("thread-1"), s("turn-b"), 2);
    assert_eq!(t.len(), 2);
    let turn = t.active_turn("thread-1").unwrap();
    assert_eq!(turn.turn_id, "turn-b");
    assert_eq!(turn.handle, 2);
    assert_eq!(t.active_turn("thread-2").unwrap().handle, 9);
}

#[test]
fn threads_are_independent() {
    let mut t: TurnTracker<u32> = TurnTracker::new();
    t.track_turn(s("a"), s("1"), 1);
    t.track_turn(s("b"), s("1"), 2);
    assert_eq!(t.interrupt_turn("a", "1"), Some(1));
    assert_eq!(t.active_turn("b").unwrap().handle, 2);
    assert_eq!(t.len(), 1);
}
