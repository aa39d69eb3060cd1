use std::sync::{Arc, Mutex};

use api::message::{create, get, CreateMessage, MessageLog, MessageStore, StoreUnavailable};
use api::response::ApiResponse;

/// A store whose lock was held by a task that failed.
fn poisoned_store() -> MessageStore {
    let mut log = MessageLog::new();
    log.append("before the failure".to_string());
    let shared = Arc::new(Mutex::new(log));

    let runtime = tokio::runtime::Builder::new_current_thread().build().unwrap();
    let holder = shared.clone();
    let failed = runtime.block_on(runtime.spawn_blocking(move || {
        let _guard = holder.lock().unwrap();
        panic!("a holder of the lock fails");
    }));
    assert!(failed.is_err());
    drop(runtime);

    let lock = match Arc::try_unwrap(shared) {
        Ok(lock) => lock,
        Err(_) => panic!("the failed holder still has the lock"),
    };
    assert!(lock.is_poisoned());
    MessageStore::from_lock(lock)
}

#[test]
fn poisoned_store_fails_create_with_500() {
    let store = poisoned_store();
    let response = create(CreateMessage::new("lost".to_string()), &store);
    assert!(matches!(response, ApiResponse::Error { .. }));
    let sent = response.into_response();
    assert_eq!(sent.status, 500);
    assert_eq!(sent.body, "{\"error\":\"internal server error\"}");
}

#[test]
fn poisoned_store_fails_list_with_500() {
    let store = poisoned_store();
    let sent = get(&store).into_response();
    assert_eq!(sent.status, 500);
    assert_eq!(sent.body, "{\"error\":\"internal server error\"}");
}

#[test]
fn poisoned_store_reports_unavailable() {
    let store = poisoned_store();
    assert_eq!(store.append("lost".to_string()).unwrap_err(), StoreUnavailable);
    assert_eq!(store.snapshot().unwrap_err(), StoreUnavailable);
    assert_eq!(store.clone().snapshot().unwrap_err(), StoreUnavailable);
}

#[test]
fn store_over_a_lock_sees_its_messages() {
    let mut log = MessageLog::new();
    log.append("already there".to_string());
    let store = MessageStore::from_lock(Mutex::new(log));
    store.append("new".to_string()).unwrap();
    let messages = store.snapshot().unwrap();
    assert_eq!(messages.len(), 2);
    assert_eq!(messages[0].content(), "already there");
    assert_eq!(messages[1].content(), "new");
}

#[test]
fn concurrent_creates_are_all_kept_once() {
    let callers = 8;
    let per_caller = 200;
    let store = MessageStore::new();
    let runtime = tokio::runtime::Builder::new_multi_thread()
        .worker_threads(2)
        .max_blocking_threads(callers)
        .build()
        .unwrap();

    let mut running = Vec::new();
    for caller in 0..callers {
        let handle = store.clone();
        running.push(runtime.spawn_blocking(move || {
            let mut successes = 0;
            for i in 0..per_caller {
                let payload = CreateMessage::new(format!("{}:{}", caller, i));
                if let ApiResponse::Created { .. } = create(payload, &handle) {
                    successes += 1;
                }
            }
            successes
        }));
    }
    let mut successes = 0;
    for task in running {
        successes += runtime.block_on(task).unwrap();
    }

    let messages = store.snapshot().unwrap();
    assert_eq!(successes, callers * per_caller);
    assert_eq!(messages.len(), successes);

    let mut listed: Vec<String> = messages.iter().map(|m| m.content().to_string()).collect();
    // Each caller's messages keep that caller's order.
    for caller in 0..callers {
        let prefix = format!("{}:", caller);
        let own: Vec<&String> = listed.iter().filter(|text| text.starts_with(&prefix)).collect();
        let expected: Vec<String> =
            (0..per_caller).map(|i| format!("{}:{}", caller, i)).collect();
        assert_eq!(own.len(), per_caller);
        for (got, want) in own.iter().zip(expected.iter()) {
            assert_eq!(*got, want);
        }
    }
    // Nothing is lost and nothing occurs twice.
    listed.sort();
    let mut expected: Vec<String> = Vec::new();
    for caller in 0..callers {
        for i in 0..per_caller {
            expected.push(format!("{}:{}", caller, i));
        }
    }
    expected.sort();
    assert_eq!(listed, expected);
}
