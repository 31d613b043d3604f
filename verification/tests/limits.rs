use pydeno::error::RuntimeError;
use pydeno::limits::{
    byte_limit_message, depth_limit_message, record_stack_anchor, slot_bytes,
    stack_used_since_anchor, LimitTracker, SerializationLimits, MAX_JS_BYTES, MAX_JS_DEPTH,
    STACK_HEADROOM_BYTES,
};

fn text_of(err: RuntimeError) -> String {
    match err {
        RuntimeError::Internal { context } => context,
        other => panic!("unexpected error {:?}", other),
    }
}

#[test]
fn test_limit_tracker_basic() {
    let mut tracker = LimitTracker::new(10, 1000);
    assert!(tracker.enter().is_ok());
    assert!(tracker.add_bytes(100).is_ok());
    tracker.exit();
}

#[test]
fn test_limit_tracker_depth_exceeded() {
    let mut tracker = LimitTracker::new(3, 1000);
    for _ in 0..3 {
        assert!(tracker.enter().is_ok());
    }
    assert!(tracker.enter().is_err());
}

#[test]
fn test_limit_tracker_size_exceeded() {
    let mut tracker = LimitTracker::new(10, 100);
    assert!(tracker.add_bytes(50).is_ok());
    assert!(tracker.add_bytes(40).is_ok());
    assert!(tracker.add_bytes(20).is_err());
}

#[test]
fn leaving_a_level_makes_room_for_another() {
    let mut tracker = LimitTracker::new(1, 1000);
    assert!(tracker.enter().is_ok());
    tracker.exit();
    assert!(tracker.enter().is_ok());
    let refused = tracker.enter();
    assert_eq!(text_of(refused.unwrap_err()), depth_limit_message(1));
}

#[test]
fn refused_bytes_stay_refused() {
    let mut tracker = LimitTracker::new(10, 100);
    let first = tracker.add_bytes(101);
    assert_eq!(text_of(first.unwrap_err()), byte_limit_message(101, 100));
    assert!(tracker.add_bytes(0).is_err());
}

#[test]
fn byte_count_saturates() {
    let mut tracker = LimitTracker::new(10, usize::MAX);
    assert!(tracker.add_bytes(usize::MAX).is_ok());
    assert!(tracker.add_bytes(1).is_ok());
    assert_eq!(tracker.max_bytes(), usize::MAX);
}

#[test]
fn stack_headroom_is_kept() {
    let anchor = record_stack_anchor(1_000_000_000);
    assert_eq!(stack_used_since_anchor(None, 5), None);
    let used = stack_used_since_anchor(Some(anchor), 1_000_000_000 - STACK_HEADROOM_BYTES - 1);
    assert_eq!(used, Some(STACK_HEADROOM_BYTES + 1));
    let mut tracker = LimitTracker::new(10, 100);
    tracker.note_stack(used, true);
    assert!(tracker.enter().is_err());
    let mut other = LimitTracker::new(10, 100);
    other.note_stack(Some(STACK_HEADROOM_BYTES), true);
    assert!(other.enter().is_ok());
}

#[test]
fn default_limits() {
    let limits = SerializationLimits::default();
    assert_eq!(limits.max_depth, MAX_JS_DEPTH);
    assert_eq!(limits.max_bytes, MAX_JS_BYTES);
    let own = SerializationLimits::new(2, 3);
    assert_eq!((own.max_depth, own.max_bytes), (2, 3));
}

#[test]
fn slots_are_words() {
    let word = std::mem::size_of::<usize>();
    assert_eq!(slot_bytes(3, false), 3 * word);
    assert_eq!(slot_bytes(3, true), 6 * word);
    assert_eq!(slot_bytes(usize::MAX, true), usize::MAX);
}
