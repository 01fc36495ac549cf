use cacheroo::store::{Store, Timer};
use std::sync::Arc;
use std::time::Duration;
use tokio::sync::RwLock;

#[test]
fn test_insert_and_get() {
    let mut store: Store<&str, &str> = Store::new();
    let k = "test";
    let v = "insert_and_get";

    store.insert(k, v);

    assert_eq!(store.get(&k), Some(v));
}

#[test]
fn test_lifetime() {
    let rt = tokio::runtime::Builder::new_current_thread().build().unwrap();
    let mut store: Store<&str, &str> = Store::new();
    let k = "test";
    let v = "lifetime";

    let id = store.reserve_timer_id().unwrap();
    let timer = Timer::new(id, rt.spawn(std::future::pending::<()>()));
    store.insert_with_lifetime(k, v, timer);

    assert_eq!(store.get(&k), Some(v));

    // What the scheduled task does once the lifetime has elapsed.
    store.expire(&k, id);

    assert_eq!(store.get(&k), None);
}

#[test]
fn test_remove() {
    let mut store: Store<&str, &str> = Store::new();
    let k = "test";
    let v = "remove";

    store.insert(k, v);

    assert!(store.contains_key(&k));

    store.remove(&k);

    assert!(!store.contains_key(&k));
}

#[test]
fn test_abort_expiration() {
    let rt = tokio::runtime::Builder::new_current_thread().build().unwrap();
    let mut store: Store<&str, &str> = Store::new();
    let k = "test";
    let v = "abort_expiration";

    let id_1 = store.reserve_timer_id().unwrap();
    let timer_1 = Timer::new(id_1, rt.spawn(std::future::pending::<()>()));
    store.insert_with_lifetime(k, v, timer_1);

    let id_2 = store.reserve_timer_id().unwrap();
    let timer_2 = Timer::new(id_2, rt.spawn(std::future::pending::<()>()));
    store.insert_with_lifetime(k, v, timer_2);

    assert_eq!(store.get(&k), Some(v));

    // The first timer was superseded: even if its removal still runs, the
    // identity check makes it a no-op.
    store.expire(&k, id_1);

    assert_eq!(store.get(&k), Some(v));

    store.expire(&k, id_2);

    assert_eq!(store.get(&k), None);
}

#[test]
fn test_zero_lifetime() {
    let rt = tokio::runtime::Builder::new_current_thread().build().unwrap();
    let mut store: Store<&str, &str> = Store::new();
    let k = "test";
    let v = "zero_lifetime";

    let id = store.reserve_timer_id().unwrap();
    let timer = Timer::new(id, rt.spawn(std::future::pending::<()>()));
    store.insert_with_lifetime(k, v, timer);

    // Observable until the scheduler runs the expiration.
    assert_eq!(store.get(&k), Some(v));

    store.expire(&k, id);

    assert_eq!(store.get(&k), None);
}

#[test]
fn test_multithreading() {
    let rt = tokio::runtime::Builder::new_multi_thread()
        .worker_threads(2)
        .build()
        .unwrap();

    rt.block_on(async {
        let store: Arc<RwLock<Store<&str, i32>>> = Arc::new(RwLock::new(Store::new()));
        let mut handles = vec![];

        let k_1 = "one";
        let v_1 = 1;
        let store_1 = Arc::clone(&store);

        let handle_1 = tokio::spawn(async move {
            store_1.write().await.insert(k_1, v_1);
        });

        handles.push(handle_1);

        let k_2 = "two";
        let v_2 = 2;
        let store_2 = Arc::clone(&store);

        let handle_2 = tokio::spawn(async move {
            store_2.write().await.insert(k_2, v_2);
        });

        handles.push(handle_2);

        for handle in handles {
            handle.await.unwrap();
        }

        assert_eq!(store.read().await.get(&k_1), Some(v_1));
        assert_eq!(store.read().await.get(&k_2), Some(v_2));
    });
}

#[test]
fn test_insert_ten_million() {
    let mut store: Store<u64, u64> = Store::new();

    for i in 0..10_000_000 {
        store.insert(i, i);
    }
}

#[test]
fn insert_returns_previous_value() {
    let mut store: Store<u64, u64> = Store::new();

    assert_eq!(store.insert(7, 1), None);
    assert_eq!(store.insert(7, 2), Some(1));
    assert_eq!(store.get(&7), Some(2));
}

#[test]
fn remove_returns_value() {
    let mut store: Store<u64, u64> = Store::new();

    store.insert(7, 42);

    assert_eq!(store.remove(&7), Some(42));
    assert_eq!(store.remove(&7), None);
    assert_eq!(store.get(&7), None);
}

#[test]
fn empty_store_has_nothing() {
    let mut store: Store<u64, u64> = Store::new();

    assert_eq!(store.len(), 0);
    assert!(!store.contains_key(&0));
    assert_eq!(store.get(&0), None);
    assert_eq!(store.remove(&0), None);
}

#[test]
fn len_matches_contained_keys() {
    let mut store: Store<u64, u64> = Store::new();

    store.insert(1, 10);
    store.insert(2, 20);
    store.insert(3, 30);
    store.insert(2, 21);

    assert_eq!(store.len(), 3);

    store.remove(&1);

    assert_eq!(store.len(), 2);
    assert!(!store.contains_key(&1));
    assert!(store.contains_key(&2));
    assert!(store.contains_key(&3));
}

#[test]
fn reserved_timer_ids_are_distinct() {
    let mut store: Store<u64, u64> = Store::new();

    assert_eq!(store.reserve_timer_id(), Some(0));
    assert_eq!(store.reserve_timer_id(), Some(1));
    assert_eq!(store.reserve_timer_id(), Some(2));
}

#[test]
fn expire_without_matching_timer_is_noop() {
    let mut store: Store<u64, u64> = Store::new();

    store.insert(5, 50);

    // No timer stored for the key: nothing happens.
    assert_eq!(store.expire(&5, 0), None);
    assert_eq!(store.get(&5), Some(50));

    // Absent key: nothing happens.
    assert_eq!(store.expire(&6, 0), None);
    assert_eq!(store.len(), 1);
}

#[test]
fn scheduler_runs_expiration() {
    let rt = tokio::runtime::Builder::new_current_thread()
        .enable_time()
        .build()
        .unwrap();

    rt.block_on(async {
        let store: Arc<RwLock<Store<u64, u64>>> = Arc::new(RwLock::new(Store::new()));

        let mut state = store.write().await;
        let id = state.reserve_timer_id().unwrap();
        let shared = Arc::clone(&store);
        let handle = tokio::spawn(async move {
            tokio::time::sleep(Duration::from_millis(20)).await;
            shared.write().await.expire(&9, id);
        });
        state.insert_with_lifetime(9, 90, Timer::new(id, handle));
        drop(state);

        assert_eq!(store.read().await.get(&9), Some(90));

        tokio::time::sleep(Duration::from_millis(100)).await;

        assert_eq!(store.read().await.get(&9), None);
    });
}

#[test]
fn scheduler_overwrite_keeps_newer_entry() {
    let rt = tokio::runtime::Builder::new_current_thread()
        .enable_time()
        .build()
        .unwrap();

    rt.block_on(async {
        let store: Arc<RwLock<Store<u64, u64>>> = Arc::new(RwLock::new(Store::new()));

        let mut state = store.write().await;

        let id_1 = state.reserve_timer_id().unwrap();
        let shared_1 = Arc::clone(&store);
        let handle_1 = tokio::spawn(async move {
            tokio::time::sleep(Duration::from_millis(20)).await;
            shared_1.write().await.expire(&9, id_1);
        });
        state.insert_with_lifetime(9, 91, Timer::new(id_1, handle_1));

        // Replace before the first lifetime elapses: the first timer is
        // aborted, and even a racing removal would fail its identity check.
        let id_2 = state.reserve_timer_id().unwrap();
        let shared_2 = Arc::clone(&store);
        let handle_2 = tokio::spawn(async move {
            tokio::time::sleep(Duration::from_millis(150)).await;
            shared_2.write().await.expire(&9, id_2);
        });
        state.insert_with_lifetime(9, 92, Timer::new(id_2, handle_2));
        drop(state);

        // Past the first lifetime, before the second: the newer entry lives.
        tokio::time::sleep(Duration::from_millis(80)).await;
        assert_eq!(store.read().await.get(&9), Some(92));

        tokio::time::sleep(Duration::from_millis(150)).await;
        assert_eq!(store.read().await.get(&9), None);
    });
}
