use freelancer_escrow::{AgreementStore, EscrowBook, EscrowDetails, EscrowError};

fn key(id: &str) -> EscrowBook {
    EscrowBook::Agreement(String::from(id))
}

fn record(client: &str, freelancer: &str, amount: i128) -> EscrowDetails {
    EscrowDetails::new(String::from(client), String::from(freelancer), amount)
}

#[test]
fn new_store_is_empty() {
    let store = AgreementStore::new();
    assert_eq!(store.get(&key("A1")), None);
    assert_eq!(store.get(&key("")), None);
    assert_eq!(store.counter(), 0);
}

#[test]
fn store_starts_from_a_given_count() {
    let mut store = AgreementStore::with_counter(41);
    assert_eq!(store.counter(), 41);
    assert_eq!(store.get(&key("A1")), None);
    store.increment_counter();
    assert_eq!(store.counter(), 42);
}

#[test]
fn put_then_get_gives_the_record() {
    let mut store = AgreementStore::new();
    store.put(key("A1"), record("C", "F", 100));
    assert_eq!(store.get(&key("A1")), Some(record("C", "F", 100)));
    assert_eq!(store.get(&key("A2")), None);
    assert_eq!(store.get(&key("a1")), None);
    assert_eq!(store.counter(), 0);
}

#[test]
fn put_overwrites_under_the_same_key_only() {
    let mut store = AgreementStore::new();
    store.put(key("A1"), record("C", "F", 100));
    store.put(key("A2"), record("D", "G", 200));
    store.put(key("A3"), record("E", "H", 300));
    store.put(key("A2"), record("X", "Y", -5));
    assert_eq!(store.get(&key("A1")), Some(record("C", "F", 100)));
    assert_eq!(store.get(&key("A2")), Some(record("X", "Y", -5)));
    assert_eq!(store.get(&key("A3")), Some(record("E", "H", 300)));
    store.put(key("A1"), record("P", "Q", 1));
    assert_eq!(store.get(&key("A1")), Some(record("P", "Q", 1)));
    assert_eq!(store.get(&key("A2")), Some(record("X", "Y", -5)));
}

#[test]
fn counter_goes_up_by_one() {
    let mut store = AgreementStore::new();
    store.put(key("A1"), record("C", "F", 100));
    store.increment_counter();
    store.increment_counter();
    assert_eq!(store.counter(), 2);
    assert_eq!(store.get(&key("A1")), Some(record("C", "F", 100)));
    let mut high = AgreementStore::with_counter(u32::MAX - 1);
    high.increment_counter();
    assert_eq!(high.counter(), u32::MAX);
}

#[test]
fn key_copies_are_equal() {
    let first = key("A1");
    let copy = first.clone();
    assert_eq!(first, copy);
    assert_ne!(first, key("A2"));
}

#[test]
fn new_record_has_no_flag_set() {
    let made = record("C", "F", 100);
    assert_eq!(made.client, "C");
    assert_eq!(made.freelancer, "F");
    assert_eq!(made.amount, 100);
    assert!(!made.client_approved);
    assert!(!made.freelancer_approved);
    assert!(!made.is_completed);
    assert!(!made.is_refunded);
    assert_eq!(made.clone(), made);
}

#[test]
fn record_approval_sets_the_flag_of_the_approver() {
    let mut made = record("C", "F", 100);
    assert_eq!(made.approve(&String::from("F")), Ok(false));
    assert!(made.freelancer_approved && !made.client_approved && !made.is_completed);
    assert_eq!(made.approve(&String::from("X")), Err(EscrowError::Unauthorized));
    assert!(made.freelancer_approved && !made.client_approved && !made.is_completed);
    assert_eq!(made.approve(&String::from("C")), Ok(true));
    assert!(made.freelancer_approved && made.client_approved && made.is_completed);
    assert!(!made.is_refunded);
}

#[test]
fn record_refund_is_for_the_client_before_completion() {
    let mut made = record("C", "F", 100);
    assert_eq!(made.refund(&String::from("F")), Err(EscrowError::Unauthorized));
    assert!(!made.is_refunded);
    assert_eq!(made.refund(&String::from("C")), Ok(true));
    assert!(made.is_refunded);
    assert_eq!(made.refund(&String::from("C")), Ok(true));
    let mut done = record("C", "F", 100);
    assert_eq!(done.approve(&String::from("C")), Ok(false));
    assert_eq!(done.approve(&String::from("F")), Ok(true));
    assert_eq!(done.refund(&String::from("C")), Err(EscrowError::InvalidState));
    assert!(!done.is_refunded);
    assert_eq!(done.refund(&String::from("F")), Err(EscrowError::Unauthorized));
}

#[test]
fn lifetime_is_extended_to_a_hundred_ledgers() {
    assert_eq!(freelancer_escrow::LIFETIME_THRESHOLD, 100);
    assert_eq!(freelancer_escrow::LIFETIME_TARGET, 100);
}
