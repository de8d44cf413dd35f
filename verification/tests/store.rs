use memo_store::record::NotFound;
use memo_store::store::RecordStore;

#[test]
fn scenario_create_update_delete_list() {
    let mut store = RecordStore::new();

    let a = store.create(String::from("A"), String::from("1"));
    assert_eq!(a.id, 0);
    assert_eq!(a.title, "A");
    assert_eq!(a.content, "1");

    let b = store.create(String::from("B"), String::from("2"));
    assert_eq!(b.id, 1);
    assert_eq!(b.title, "B");
    assert_eq!(b.content, "2");

    let updated = store
        .update(0, String::from("A2"), String::from("1b"))
        .expect("record 0 exists");
    assert_eq!(updated.id, 0);
    assert_eq!(updated.title, "A2");
    assert_eq!(updated.content, "1b");

    assert!(store.delete(1).is_ok());
    assert!(matches!(store.get(1), Err(NotFound)));

    let listed = store.list();
    assert_eq!(listed.len(), 1);
    assert_eq!(listed[0].id, 0);
    assert_eq!(listed[0].title, "A2");
    assert_eq!(listed[0].content, "1b");
}

#[test]
fn create_then_get_matches_and_is_timestamped() {
    let start = chrono::Utc::now().timestamp_millis();
    let mut store = RecordStore::new();
    let created = store.create(String::from("title"), String::from("content"));
    let end = chrono::Utc::now().timestamp_millis();

    let fetched = store.get(created.id).expect("just created");
    assert_eq!(fetched.id, created.id);
    assert_eq!(fetched.title, "title");
    assert_eq!(fetched.content, "content");
    assert_eq!(fetched.created_at, created.created_at);
    assert!(created.created_at >= start);
    assert!(created.created_at <= end);
}

#[test]
fn create_with_time_stores_the_given_time() {
    let mut store = RecordStore::new();
    let created = store.create_with_time(String::from("t"), String::from("c"), 123_456_789);
    assert_eq!(created.created_at, 123_456_789);
    let fetched = store.get(created.id).expect("just created");
    assert_eq!(fetched.created_at, 123_456_789);
}

#[test]
fn update_keeps_id_and_created_at() {
    let mut store = RecordStore::new();
    let created = store.create_with_time(String::from("old"), String::from("body"), 42);
    let updated = store
        .update(created.id, String::from("new"), String::from("body2"))
        .expect("record exists");
    assert_eq!(updated.id, created.id);
    assert_eq!(updated.created_at, 42);
    assert_eq!(updated.title, "new");
    assert_eq!(updated.content, "body2");

    let fetched = store.get(created.id).expect("record exists");
    assert_eq!(fetched.id, created.id);
    assert_eq!(fetched.created_at, 42);
    assert_eq!(fetched.title, "new");
    assert_eq!(fetched.content, "body2");
}

#[test]
fn update_missing_reports_not_found() {
    let mut store = RecordStore::new();
    assert_eq!(
        store.update(7, String::from("x"), String::from("y")),
        Err(NotFound)
    );
    store.create(String::from("a"), String::from("b"));
    assert!(matches!(
        store.update(1, String::from("x"), String::from("y")),
        Err(NotFound)
    ));
}

#[test]
fn delete_then_get_not_found_and_second_delete_not_found() {
    let mut store = RecordStore::new();
    let created = store.create(String::from("a"), String::from("b"));
    assert_eq!(store.delete(created.id), Ok(()));
    assert!(matches!(store.get(created.id), Err(NotFound)));
    assert_eq!(store.delete(created.id), Err(NotFound));
}

#[test]
fn get_missing_reports_not_found() {
    let store = RecordStore::new();
    assert!(matches!(store.get(0), Err(NotFound)));
}

#[test]
fn deleted_identifiers_are_never_reused() {
    let mut store = RecordStore::new();
    let first = store.create(String::from("a"), String::from("1"));
    assert_eq!(first.id, 0);
    assert_eq!(store.delete(0), Ok(()));
    let second = store.create(String::from("b"), String::from("2"));
    assert_eq!(second.id, 1);
    let third = store.create(String::from("c"), String::from("3"));
    assert_eq!(third.id, 2);
}

#[test]
fn list_length_is_creates_minus_deletes() {
    let mut store = RecordStore::new();
    store.create(String::from("a"), String::from("1"));
    store.create(String::from("b"), String::from("2"));
    store.create(String::from("c"), String::from("3"));
    assert!(store.delete(1).is_ok());
    store.create(String::from("d"), String::from("4"));
    store.create(String::from("e"), String::from("5"));
    assert!(store.delete(0).is_ok());
    // 5 successful creates, 2 successful deletes.
    assert_eq!(store.list().len(), 3);

    let mut ids: Vec<u64> = store.list().iter().map(|r| r.id).collect();
    ids.sort();
    assert_eq!(ids, vec![2, 3, 4]);
}

#[test]
fn list_returns_empty_snapshot_of_fresh_store() {
    let store = RecordStore::new();
    assert!(store.list().is_empty());
}

#[test]
fn hundred_creates_yield_the_first_hundred_identifiers() {
    let mut store = RecordStore::new();
    let mut ids = Vec::new();
    for i in 0..100u64 {
        let rec = store.create(format!("title {}", i), format!("content {}", i));
        ids.push(rec.id);
    }
    for (i, id) in ids.iter().enumerate() {
        assert_eq!(*id, i as u64);
    }
    let listed = store.list();
    assert_eq!(listed.len(), 100);
    let mut seen: Vec<u64> = listed.iter().map(|r| r.id).collect();
    seen.sort();
    seen.dedup();
    assert_eq!(seen.len(), 100);
}

#[test]
fn allocator_hands_out_zero_one_two() {
    let mut allocator = memo_store::allocator::IdentifierAllocator::new();
    let a = allocator.next();
    let b = allocator.next();
    let c = allocator.next();
    assert_eq!(a, 0);
    assert_eq!(b, 1);
    assert_eq!(c, 2);
    assert!(a < b && b < c);
}
