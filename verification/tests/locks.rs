use rustcord::locks::LockByName;

#[test]
fn test_reference_counting_increment() {
    let mut locks: LockByName<u32> = LockByName::new();
    assert!(locks.acquire("test_channel", 1));
    assert_eq!(locks.len(), 1);
    assert!(!locks.acquire("test_channel", 2));
    assert_eq!(locks.get("test_channel"), Some(&1));
    assert!(!locks.release("test_channel"));
    assert_eq!(locks.len(), 1);
    assert!(locks.release("test_channel"));
    assert_eq!(locks.len(), 0);
    assert_eq!(locks.get("test_channel"), None);
}

#[test]
fn test_lock_isolation_different_names() {
    let mut locks: LockByName<&str> = LockByName::new();
    locks.acquire("channel_a", "a");
    locks.acquire("channel_b", "b");
    assert_eq!(locks.get("channel_a"), Some(&"a"));
    assert_eq!(locks.get("channel_b"), Some(&"b"));
    locks.release("channel_a");
    assert_eq!(locks.get("channel_a"), None);
    assert_eq!(locks.get("channel_b"), Some(&"b"));
}

#[test]
fn test_multiple_acquisitions_same_name() {
    let mut locks: LockByName<u8> = LockByName::new();
    for _ in 0..3 {
        locks.acquire("multi_test", 7);
    }
    assert_eq!(locks.len(), 1);
    assert!(!locks.release("multi_test"));
    assert!(!locks.release("multi_test"));
    assert!(locks.release("multi_test"));
    assert!(!locks.release("multi_test"));
    assert_eq!(locks.len(), 0);
}

#[test]
fn holders_are_counted_by_name() {
    let mut locks: LockByName<u8> = LockByName::new();
    assert_eq!(locks.holders("a"), 0);
    locks.acquire("a", 1);
    locks.acquire("a", 1);
    locks.acquire("b", 2);
    assert_eq!(locks.holders("a"), 2);
    assert_eq!(locks.holders("b"), 1);
    locks.release("a");
    assert_eq!(locks.holders("a"), 1);
    locks.release("a");
    assert_eq!(locks.holders("a"), 0);
    assert_eq!(locks.holders("b"), 1);
}

#[test]
fn default_table_is_empty() {
    let mut locks: LockByName<u8> = LockByName::default();
    assert_eq!(locks.len(), 0);
    assert!(locks.acquire("x", 3));
    assert_eq!(locks.get("x"), Some(&3));
}
