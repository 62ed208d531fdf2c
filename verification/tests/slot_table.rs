//! Slot table: identity assignment, capacity boundary, idempotent
//! removal, and reuse of freed identities.

use echo_reactor::event::SlotError;
use echo_reactor::slot::SlotTable;

#[test]
fn identities_are_issued_from_base() {
    let mut t: SlotTable<u32> = SlotTable::new(2, 4);
    assert_eq!(t.insert(10), Ok(2));
    assert_eq!(t.insert(11), Ok(3));
    assert_eq!(t.insert(12), Ok(4));
    assert_eq!(t.insert(13), Ok(5));
}

#[test]
fn insert_on_full_table_is_refused() {
    let mut t: SlotTable<u32> = SlotTable::new(2, 2);
    assert_eq!(t.insert(10), Ok(2));
    assert_eq!(t.insert(11), Ok(3));
    assert_eq!(t.insert(12), Err(SlotError::CapacityExceeded));
    // The existing entries are untouched.
    assert_eq!(t.get(2), Some(&10));
    assert_eq!(t.get(3), Some(&11));
}

#[test]
fn get_fails_on_stale_or_unknown_identity() {
    let mut t: SlotTable<u32> = SlotTable::new(2, 4);
    assert_eq!(t.get(2), None);
    assert_eq!(t.insert(10), Ok(2));
    assert_eq!(t.get(0), None);
    assert_eq!(t.get(1), None);
    assert_eq!(t.get(3), None);
    assert_eq!(t.get(99), None);
    assert_eq!(t.get(2), Some(&10));
}

#[test]
fn remove_is_idempotent() {
    let mut t: SlotTable<u32> = SlotTable::new(2, 4);
    assert_eq!(t.insert(10), Ok(2));
    assert!(t.remove(2));
    assert!(!t.remove(2));
    assert_eq!(t.get(2), None);
    assert!(!t.remove(77));
}

#[test]
fn freed_identity_is_reused() {
    let mut t: SlotTable<u32> = SlotTable::new(2, 4);
    assert_eq!(t.insert(10), Ok(2));
    assert_eq!(t.insert(11), Ok(3));
    assert_eq!(t.insert(12), Ok(4));
    assert!(t.remove(3));
    assert_eq!(t.insert(13), Ok(3));
    assert_eq!(t.get(3), Some(&13));
}

#[test]
fn lowest_free_identity_wins() {
    let mut t: SlotTable<u32> = SlotTable::new(2, 4);
    assert_eq!(t.insert(10), Ok(2));
    assert_eq!(t.insert(11), Ok(3));
    assert!(t.remove(2));
    assert_eq!(t.next_free(), Some(2));
    assert_eq!(t.insert(12), Ok(2));
}

#[test]
fn take_and_put_round_trip() {
    let mut t: SlotTable<u32> = SlotTable::new(2, 4);
    assert_eq!(t.insert(10), Ok(2));
    assert_eq!(t.take(2), Some(10));
    assert_eq!(t.take(2), None);
    assert_eq!(t.get(2), None);
    t.put(2, 20);
    assert_eq!(t.get(2), Some(&20));
}

#[test]
fn next_free_on_full_table_is_none() {
    let mut t: SlotTable<u32> = SlotTable::new(1, 1);
    assert_eq!(t.next_free(), Some(1));
    assert_eq!(t.insert(5), Ok(1));
    assert_eq!(t.next_free(), None);
}
