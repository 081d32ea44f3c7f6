use actix_web::rt::task::spawn_blocking;
use actix_web::rt::System;
use message_board::identity::ServerIdentity;
use message_board::state::AppState;
use message_board::store::MessageStore;
use std::sync::Arc;

#[test]
fn concurrent_appends_are_all_kept() {
    let store = MessageStore::new();
    let workers: usize = 8;
    let per_worker: usize = 200;
    let handles: Vec<MessageStore> = (0..workers).map(|_| store.clone()).collect();
    System::new().block_on(async move {
        let mut tasks = Vec::new();
        for (worker, handle) in handles.into_iter().enumerate() {
            tasks.push(spawn_blocking(move || {
                for n in 0..per_worker {
                    assert_eq!(handle.append(format!("{}:{}", worker, n)), Ok(()));
                }
            }));
        }
        for task in tasks {
            task.await.unwrap();
        }
    });
    let mut listed = store.snapshot().unwrap();
    assert_eq!(listed.len(), workers * per_worker);
    let mut expected: Vec<String> = Vec::new();
    for worker in 0..workers {
        for n in 0..per_worker {
            expected.push(format!("{}:{}", worker, n));
        }
    }
    listed.sort();
    expected.sort();
    assert_eq!(listed, expected);
    assert_eq!(store.clear(), Ok(()));
    assert_eq!(store.snapshot(), Ok(Vec::new()));
}

#[test]
fn each_worker_keeps_its_own_order_under_concurrency() {
    let store = MessageStore::new();
    let handles: Vec<MessageStore> = (0..4).map(|_| store.clone()).collect();
    System::new().block_on(async move {
        let mut tasks = Vec::new();
        for (worker, handle) in handles.into_iter().enumerate() {
            tasks.push(spawn_blocking(move || {
                for n in 0..100usize {
                    assert_eq!(handle.append(format!("{}:{}", worker, n)), Ok(()));
                }
            }));
        }
        for task in tasks {
            task.await.unwrap();
        }
    });
    let listed = store.snapshot().unwrap();
    assert_eq!(listed.len(), 400);
    for worker in 0..4usize {
        let prefix = format!("{}:", worker);
        let own: Vec<usize> = listed
            .iter()
            .filter(|m| m.starts_with(&prefix))
            .map(|m| m[prefix.len()..].parse().unwrap())
            .collect();
        assert_eq!(own, (0..100usize).collect::<Vec<usize>>());
    }
}

#[test]
fn concurrent_allocations_are_distinct_and_dense() {
    let identity = Arc::new(ServerIdentity::new());
    let sources: Vec<Arc<ServerIdentity>> = (0..8).map(|_| Arc::clone(&identity)).collect();
    let mut all: Vec<usize> = System::new().block_on(async move {
        let mut tasks = Vec::new();
        for source in sources {
            tasks.push(spawn_blocking(move || {
                let mut got = Vec::new();
                for _ in 0..500 {
                    got.push(source.allocate());
                }
                got
            }));
        }
        let mut all = Vec::new();
        for task in tasks {
            let got = task.await.unwrap();
            assert!(got.windows(2).all(|pair| pair[0] < pair[1]));
            all.extend(got);
        }
        all
    });
    all.sort();
    assert_eq!(all, (0..4000usize).collect::<Vec<usize>>());
}

#[test]
fn concurrent_instances_count_alone_and_post_together() {
    let identity = Arc::new(ServerIdentity::new());
    let store = MessageStore::new();
    let instances: usize = 8;
    let posts: usize = 50;
    let seeds: Vec<(Arc<ServerIdentity>, MessageStore)> =
        (0..instances).map(|_| (Arc::clone(&identity), store.clone())).collect();
    let mut ids: Vec<usize> = System::new().block_on(async move {
        let mut tasks = Vec::new();
        for (source, handle) in seeds {
            tasks.push(spawn_blocking(move || {
                let mut state = AppState::spawn(&source, &handle);
                for n in 1..=posts {
                    let posted = state.send(20, Some(format!("post {}", n))).unwrap();
                    assert_eq!(posted.server_id, state.server_id());
                    assert_eq!(posted.request_count, n);
                }
                assert_eq!(state.request_count(), posts);
                state.server_id()
            }));
        }
        let mut ids = Vec::new();
        for task in tasks {
            ids.push(task.await.unwrap());
        }
        ids
    });
    ids.sort();
    assert_eq!(ids, (0..instances).collect::<Vec<usize>>());
    assert_eq!(store.snapshot().map(|v| v.len()), Ok(instances * posts));
}
