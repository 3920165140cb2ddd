use cargo_lambda::invocation::Invocation;
use cargo_lambda::queue::RequestQueue;
use cargo_lambda::registry::RequestCache;
use cargo_lambda::responses::ResponseCache;
use cargo_lambda::scheduler::{handle_event, SchedulerAction, SchedulerEvent};

fn inv(function_name: &str, request_id: &str) -> Invocation {
    Invocation::new(function_name.to_string(), request_id.to_string())
}

#[test]
fn scenario_three_orders_invocations() {
    let mut cache = RequestCache::new("http://127.0.0.1:9000".to_string());

    let mut spawn_signals = 0;
    for id in ["r1", "r2", "r3"] {
        if cache.upsert(inv("orders", id)).is_some() {
            spawn_signals += 1;
        }
    }
    assert_eq!(spawn_signals, 1);

    for id in ["r1", "r2", "r3"] {
        let popped = cache.pop("orders").expect("an invocation should be pending");
        assert_eq!(popped.function_name, "orders");
        assert_eq!(popped.request_id, id);
    }
    assert!(cache.pop("orders").is_none());
}

#[test]
fn fifo_is_per_function() {
    let mut cache = RequestCache::new("base".to_string());
    cache.upsert(inv("alpha", "a1"));
    cache.upsert(inv("beta", "b1"));
    cache.upsert(inv("alpha", "a2"));
    cache.upsert(inv("beta", "b2"));

    assert_eq!(cache.pop("beta").unwrap().request_id, "b1");
    assert_eq!(cache.pop("alpha").unwrap().request_id, "a1");
    assert_eq!(cache.pop("alpha").unwrap().request_id, "a2");
    assert_eq!(cache.pop("beta").unwrap().request_id, "b2");
    assert!(cache.pop("alpha").is_none());
    assert!(cache.pop("beta").is_none());
}

#[test]
fn first_submission_carries_spawn_details() {
    let mut cache = RequestCache::new("http://[::1]:9000".to_string());
    let signal = cache.upsert(inv("orders", "r1"));
    let (name, runtime_api) = signal.expect("first submission must signal a spawn");
    assert_eq!(name, "orders");
    assert_eq!(runtime_api, "http://[::1]:9000/orders");
}

#[test]
fn at_most_one_spawn_per_function() {
    let mut cache = RequestCache::new("base".to_string());
    let n = 16;
    let mut signals = 0;
    for i in 0..n {
        let r = cache.upsert(inv("fresh", &format!("id-{i}")));
        if r.is_some() {
            signals += 1;
            assert_eq!(i, 0, "only the first submission may signal a spawn");
        }
    }
    assert_eq!(signals, 1);
}

#[test]
fn clean_rearms_the_spawn_signal() {
    let mut cache = RequestCache::new("base".to_string());
    assert!(cache.upsert(inv("orders", "r1")).is_some());
    assert!(cache.upsert(inv("orders", "r2")).is_none());

    // The function's process exits; the scheduler garbage-collects it.
    cache.clean("orders");

    let signal = cache.upsert(inv("orders", "r3"));
    let (name, runtime_api) = signal.expect("a cleaned function spawns again");
    assert_eq!(name, "orders");
    assert_eq!(runtime_api, "base/orders");
    // The fresh queue holds only the submission that re-created it.
    assert_eq!(cache.pop("orders").unwrap().request_id, "r3");
    assert!(cache.pop("orders").is_none());
}

#[test]
fn pop_of_unknown_function_is_empty() {
    let mut cache = RequestCache::new("base".to_string());
    assert!(cache.pop("never-seen").is_none());
}

#[test]
fn response_handoff_is_single_use() {
    let mut responses: ResponseCache<String> = ResponseCache::new();
    responses.push("r1", "first response".to_string());

    let first = responses.pop("r1");
    assert_eq!(first.as_deref(), Some("first response"));

    // A second delivery for the same id finds nothing and is a no-op.
    let second = responses.pop("r1");
    assert!(second.is_none());
}

#[test]
fn unknown_response_id_is_safe() {
    let mut responses: ResponseCache<String> = ResponseCache::new();
    responses.push("known", "value".to_string());

    assert!(responses.pop("nonexistent").is_none());
    // The cache is untouched: the known handle is still delivered.
    assert_eq!(responses.pop("known").as_deref(), Some("value"));
}

#[test]
fn reused_response_id_overwrites() {
    let mut responses: ResponseCache<String> = ResponseCache::new();
    responses.push("r1", "stale".to_string());
    responses.push("r1", "fresh".to_string());
    assert_eq!(responses.pop("r1").as_deref(), Some("fresh"));
    assert!(responses.pop("r1").is_none());
}

#[test]
fn submission_event_spawns_once() {
    let mut cache = RequestCache::new("base".to_string());
    match handle_event(&mut cache, SchedulerEvent::Submission(inv("orders", "r1"))) {
        SchedulerAction::SpawnFunction { function_name, runtime_api } => {
            assert_eq!(function_name, "orders");
            assert_eq!(runtime_api, "base/orders");
        }
        _ => panic!("first submission must order a spawn"),
    }
    match handle_event(&mut cache, SchedulerEvent::Submission(inv("orders", "r2"))) {
        SchedulerAction::Continue => {}
        _ => panic!("second submission must not order a spawn"),
    }
}

#[test]
fn exit_event_cleans_the_registry() {
    let mut cache = RequestCache::new("base".to_string());
    handle_event(&mut cache, SchedulerEvent::Submission(inv("orders", "r1")));
    match handle_event(&mut cache, SchedulerEvent::FunctionExited("orders".to_string())) {
        SchedulerAction::Continue => {}
        _ => panic!("an exit notification only garbage-collects"),
    }
    // The entry is gone: the next submission spawns again.
    assert!(cache.upsert(inv("orders", "r2")).is_some());
}

#[test]
fn shutdown_stops_without_cleanup() {
    let mut cache = RequestCache::new("base".to_string());
    handle_event(&mut cache, SchedulerEvent::Submission(inv("orders", "r1")));
    match handle_event(&mut cache, SchedulerEvent::ShutdownRequested) {
        SchedulerAction::Stop => {}
        _ => panic!("shutdown must stop the loop"),
    }
    // No clean happened on the shutdown path: the entry is still there,
    // so a new submission is still classified "already running".
    assert!(cache.upsert(inv("orders", "r2")).is_none());
    assert_eq!(cache.pop("orders").unwrap().request_id, "r1");
}

#[test]
fn queue_len_tracks_pending_invocations() {
    let mut q = RequestQueue::new();
    assert_eq!(q.len(), 0);
    assert!(q.pop().is_none());
    q.push(inv("orders", "r1"));
    q.push(inv("orders", "r2"));
    assert_eq!(q.len(), 2);
    assert_eq!(q.pop().unwrap().request_id, "r1");
    assert_eq!(q.pop().unwrap().request_id, "r2");
    assert!(q.pop().is_none());
}
