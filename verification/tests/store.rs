use notifyd::store::successor;
use notifyd::{Notification, NotificationStore, Urgency};

fn record(summary: &str, expire_timeout: i32, now: i64) -> Notification {
    Notification::at(
        0,
        "app".to_string(),
        summary.to_string(),
        "body".to_string(),
        Urgency::Low,
        expire_timeout,
        now,
    )
}

#[test]
fn successor_counts_up_and_wraps_to_one() {
    assert_eq!(successor(0), 1);
    assert_eq!(successor(1), 2);
    assert_eq!(successor(41), 42);
    assert_eq!(successor(u32::MAX - 1), u32::MAX);
    assert_eq!(successor(u32::MAX), 1);
}

#[test]
fn new_store_is_empty() {
    let store = NotificationStore::new();
    assert!(store.to_map().is_empty());
    assert!(store.get(1).is_none());
    assert!(store.expired_ids(i64::MAX).is_empty());
}

#[test]
fn new_ids_are_pairwise_distinct() {
    let mut store = NotificationStore::new();
    let mut ids: Vec<u32> = Vec::new();
    for k in 0..100 {
        ids.push(store.insert_new(record("n", 0, k)));
    }
    assert_eq!(ids, (1..=100).collect::<Vec<u32>>());
}

#[test]
fn new_ids_pass_over_live_records() {
    let mut store = NotificationStore::new();
    assert_eq!(store.replace(1, record("one", 0, 0)), 1);
    assert_eq!(store.replace(2, record("two", 0, 0)), 2);
    assert_eq!(store.replace(4, record("four", 0, 0)), 4);
    assert_eq!(store.insert_new(record("a", 0, 0)), 3);
    assert_eq!(store.insert_new(record("b", 0, 0)), 5);
    assert_eq!(store.get(1).unwrap().summary, "one");
    assert_eq!(store.get(3).unwrap().summary, "a");
    assert_eq!(store.get(4).unwrap().summary, "four");
    assert_eq!(store.to_map().len(), 5);
}

#[test]
fn freed_ids_are_not_handed_out_before_the_counter_wraps() {
    let mut store = NotificationStore::new();
    assert_eq!(store.insert_new(record("a", 0, 0)), 1);
    assert_eq!(store.insert_new(record("b", 0, 0)), 2);
    assert!(store.remove(1).is_some());
    assert!(store.remove(2).is_some());
    assert_eq!(store.insert_new(record("c", 0, 0)), 3);
}

#[test]
fn insert_stores_under_the_given_id() {
    let mut store = NotificationStore::new();
    assert!(store.insert(7, record("first", 0, 0)).is_none());
    let found = store.get(7).unwrap();
    assert_eq!(found.id, 7);
    assert_eq!(found.summary, "first");
    let previous = store.insert(7, record("second", 0, 0)).unwrap();
    assert_eq!(previous.id, 7);
    assert_eq!(previous.summary, "first");
    assert_eq!(store.get(7).unwrap().summary, "second");
    assert_eq!(store.to_map().len(), 1);
}

#[test]
fn replace_then_get_returns_the_new_content() {
    let mut store = NotificationStore::new();
    let id = store.insert_new(record("old", -1, 0));
    assert_eq!(store.replace(id, record("new", 50, 1_000)), id);
    let found = store.get(id).unwrap();
    assert_eq!(found.id, id);
    assert_eq!(found.summary, "new");
    assert_eq!(found.created_at, 1_000);
    assert_eq!(found.lifetime, Some(50));
}

#[test]
fn replace_of_an_absent_id_inserts() {
    let mut store = NotificationStore::new();
    assert_eq!(store.replace(12, record("twelve", 0, 0)), 12);
    assert_eq!(store.get(12).unwrap().summary, "twelve");
}

#[test]
fn replace_of_zero_takes_a_new_id() {
    let mut store = NotificationStore::new();
    assert_eq!(store.replace(0, record("a", 0, 0)), 1);
    assert_eq!(store.replace(0, record("b", 0, 0)), 2);
    assert!(store.get(0).is_none());
}

#[test]
fn remove_is_idempotent() {
    let mut store = NotificationStore::new();
    assert!(store.remove(5).is_none());
    assert!(store.remove(5).is_none());
    let id = store.insert_new(record("a", 0, 0));
    let removed = store.remove(id).unwrap();
    assert_eq!(removed.id, id);
    assert_eq!(removed.summary, "a");
    assert!(store.remove(id).is_none());
    assert!(store.remove(id).is_none());
    assert!(store.get(id).is_none());
}

#[test]
fn get_does_not_change_the_store() {
    let mut store = NotificationStore::new();
    let id = store.insert_new(record("a", 0, 0));
    assert!(store.get(id).is_some());
    assert!(store.get(id).is_some());
    assert_eq!(store.to_map().len(), 1);
}

#[test]
fn snapshot_holds_what_was_inserted() {
    let mut store = NotificationStore::new();
    let mut ids: Vec<u32> = Vec::new();
    for k in 0..10 {
        ids.push(store.insert_new(record(&format!("n{}", k), 0, k)));
    }
    let snapshot = store.to_map();
    assert_eq!(snapshot.len(), 10);
    for k in 0..10 {
        let id = ids[k];
        let n = &snapshot[&id];
        assert_eq!(n.id, id);
        assert_eq!(n.summary, format!("n{}", k));
        assert_eq!(n.created_at, k as i64);
    }
}

#[test]
fn snapshot_is_a_copy() {
    let mut store = NotificationStore::new();
    let id = store.insert_new(record("a", 0, 0));
    let mut snapshot = store.to_map();
    snapshot.remove(&id);
    assert!(store.get(id).is_some());
    let snapshot = store.to_map();
    store.remove(id);
    assert_eq!(snapshot[&id].summary, "a");
}

#[test]
fn expired_ids_names_the_expired_records_only() {
    let mut store = NotificationStore::new();
    let short = store.insert_new(record("short", 50, 1_000));
    let long = store.insert_new(record("long", 500, 1_000));
    let never = store.insert_new(record("never", 0, 1_000));
    let default = store.insert_new(record("default", -1, 1_000));
    assert!(store.expired_ids(1_049).is_empty());
    assert_eq!(store.expired_ids(1_050), vec![short]);
    let mut ids = store.expired_ids(1_500);
    ids.sort();
    assert_eq!(ids, vec![short, long]);
    let mut ids = store.expired_ids(61_000);
    ids.sort();
    assert_eq!(ids, vec![short, long, default]);
    assert_eq!(store.to_map().len(), 4);
    assert!(store.get(never).is_some());
}

#[test]
fn reads_between_inserts_change_nothing() {
    let mut store = NotificationStore::new();
    let mut ids: Vec<u32> = Vec::new();
    for k in 0..50 {
        let before = store.to_map();
        assert_eq!(before.len(), k);
        for id in &ids {
            assert!(store.get(*id).is_some());
        }
        assert!(store.get(k as u32 + 1).is_none());
        ids.push(store.insert_new(record(&format!("n{}", k), 0, k as i64)));
    }
    let snapshot = store.to_map();
    assert_eq!(snapshot.len(), 50);
    let mut keys: Vec<u32> = snapshot.keys().copied().collect();
    keys.sort();
    assert_eq!(keys, ids);
    for (k, id) in ids.iter().enumerate() {
        let n = &snapshot[id];
        assert_eq!(n.id, *id);
        assert_eq!(n.app_name, "app");
        assert_eq!(n.summary, format!("n{}", k));
        assert_eq!(n.body, "body");
        assert_eq!(n.lifetime, None);
    }
}
