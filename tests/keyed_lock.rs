use strawberry_runtime::keyed_lock::KeyedRwLock;

#[test]
fn first_use_creates_one_slot_per_key() {
    let mut locks: KeyedRwLock<u32> = KeyedRwLock::new();
    assert!(locks.enter("a", 7));
    assert!(locks.enter("a", 99));
    assert!(locks.enter("b", 5));
    assert_eq!(locks.len(), 2);
    assert_eq!(locks.value("a"), Some(&7));
    assert_eq!(locks.value("b"), Some(&5));
    assert_eq!(locks.value("c"), None);
}

#[test]
fn free_only_takes_an_idle_slot() {
    let mut locks: KeyedRwLock<String> = KeyedRwLock::new();
    assert!(locks.enter("k", "v".to_string()));
    assert_eq!(locks.free("k"), None);
    assert_eq!(locks.len(), 1);
    assert!(locks.leave("k"));
    assert_eq!(locks.free("k"), Some(("k".to_string(), "v".to_string())));
    assert_eq!(locks.len(), 0);
    assert_eq!(locks.free("k"), None);
}

#[test]
fn leave_without_holder_changes_nothing() {
    let mut locks: KeyedRwLock<u8> = KeyedRwLock::new();
    assert!(!locks.leave("k"));
    assert!(locks.enter("k", 1));
    assert!(locks.leave("k"));
    assert!(!locks.leave("k"));
    assert_eq!(locks.len(), 1);
}

#[test]
fn cleanup_drops_idle_slots_only() {
    let mut locks: KeyedRwLock<u8> = KeyedRwLock::new();
    locks.enter("held", 1);
    locks.enter("idle", 2);
    locks.leave("idle");
    locks.cleanup();
    assert_eq!(locks.len(), 1);
    assert_eq!(locks.value("held"), Some(&1));
    assert_eq!(locks.value("idle"), None);
}

#[test]
fn every_thirty_second_enter_cleans_up() {
    let mut locks: KeyedRwLock<u8> = KeyedRwLock::new();
    for i in 0..31 {
        let key = format!("k{}", i);
        assert!(locks.enter(&key, 0));
        assert!(locks.leave(&key));
    }
    assert_eq!(locks.len(), 31);
    assert!(locks.enter("last", 0));
    assert_eq!(locks.len(), 1);
    assert_eq!(locks.value("last"), Some(&0));
}
