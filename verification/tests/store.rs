use ndi_sdk::store::ReceiveDataStore;

#[test]
fn new_store_is_empty() {
    let store: ReceiveDataStore<u32> = ReceiveDataStore::new();
    assert_eq!(store.len(), 0);
    assert!(store.is_empty());
    assert!(store.ids().is_empty());
    assert!(store.get(0).is_none());
}

#[test]
fn track_issues_ids_from_zero_upwards() {
    let mut store: ReceiveDataStore<&str> = ReceiveDataStore::new();
    assert_eq!(store.track("a"), Some(0));
    assert_eq!(store.track("b"), Some(1));
    assert_eq!(store.track("c"), Some(2));
    assert_eq!(store.len(), 3);
    assert_eq!(store.get(1), Some(&"b"));
}

#[test]
fn ids_keep_increasing_across_removals() {
    let mut store: ReceiveDataStore<u8> = ReceiveDataStore::new();
    let mut last: Option<usize> = None;
    for round in 0..50u8 {
        let id = store.track(round).expect("an id is left");
        if let Some(previous) = last {
            assert!(id > previous);
        }
        last = Some(id);
        if round % 2 == 0 {
            assert_eq!(store.remove(id), Some(round));
        }
    }
    assert_eq!(last, Some(49));
    assert_eq!(store.len(), 25);
}

#[test]
fn remove_gives_each_id_once() {
    let mut store: ReceiveDataStore<String> = ReceiveDataStore::new();
    let id = store.track("frame".to_string()).unwrap();
    assert_eq!(store.remove(id), Some("frame".to_string()));
    assert_eq!(store.remove(id), None);
    assert_eq!(store.remove(id), None);
    assert_eq!(store.track("next".to_string()), Some(id + 1));
    assert_eq!(store.remove(id), None);
}

#[test]
fn remove_of_an_id_never_issued_is_absent() {
    let mut store: ReceiveDataStore<u8> = ReceiveDataStore::new();
    assert_eq!(store.remove(0), None);
    store.track(1);
    assert_eq!(store.remove(7), None);
    assert_eq!(store.len(), 1);
}

#[test]
fn removed_id_is_not_issued_again() {
    let mut store: ReceiveDataStore<u8> = ReceiveDataStore::new();
    let first = store.track(10).unwrap();
    store.remove(first);
    let second = store.track(11).unwrap();
    assert_ne!(first, second);
    assert_eq!(store.get(first), None);
    assert_eq!(store.get(second), Some(&11));
}

#[test]
fn store_can_start_at_a_later_id() {
    let mut store: ReceiveDataStore<u8> = ReceiveDataStore::starting_at(40);
    assert_eq!(store.track(1), Some(40));
    assert_eq!(store.track(2), Some(41));
}

#[test]
fn track_fails_when_the_ids_have_run_out() {
    let mut store: ReceiveDataStore<u8> = ReceiveDataStore::starting_at(usize::MAX - 1);
    assert_eq!(store.track(1), Some(usize::MAX - 1));
    assert_eq!(store.track(2), None);
    assert_eq!(store.track(3), None);
    assert_eq!(store.len(), 1);
    assert_eq!(store.remove(usize::MAX - 1), Some(1));
    assert_eq!(store.track(4), None);
}

#[test]
fn ids_lists_what_is_present() {
    let mut store: ReceiveDataStore<u8> = ReceiveDataStore::new();
    for value in 0..5u8 {
        store.track(value);
    }
    store.remove(2);
    let mut ids = store.ids();
    ids.sort();
    assert_eq!(ids, vec![0, 1, 3, 4]);
}

#[test]
fn drain_takes_every_entry_once() {
    let mut store: ReceiveDataStore<u8> = ReceiveDataStore::new();
    for value in 0..6u8 {
        store.track(value * 10);
    }
    store.remove(0);
    store.remove(4);
    let mut listing = store.drain();
    listing.sort();
    assert_eq!(listing, vec![(1, 10), (2, 20), (3, 30), (5, 50)]);
    assert!(store.is_empty());
    assert!(store.drain().is_empty());
    assert_eq!(store.track(99), Some(6));
}
