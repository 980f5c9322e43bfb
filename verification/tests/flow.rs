use fnct::flow::{option_to_cache, result_to_cache, step, CacheAction, CacheEvent, CacheState};

#[test]
fn hit_returns_the_cached_value_without_computing() {
    let (s, a) = step::<i32, Vec<u8>>(CacheState::Start, CacheEvent::Begin);
    assert!(matches!(s, CacheState::Looking));
    assert!(matches!(a, CacheAction::Lookup));
    let (s, a) = step::<i32, Vec<u8>>(s, CacheEvent::Looked(Some(3)));
    assert!(matches!(s, CacheState::Done));
    assert!(matches!(a, CacheAction::Return(3)));
}

#[test]
fn miss_computes_stores_and_returns() {
    let (s, _) = step::<i32, Vec<u8>>(CacheState::Start, CacheEvent::Begin);
    let (s, a) = step::<i32, Vec<u8>>(s, CacheEvent::Looked(None));
    assert!(matches!(a, CacheAction::Compute));
    let (s, a) = step(s, CacheEvent::Computed(3, Some(vec![3u8])));
    assert!(matches!(s, CacheState::Storing(3)));
    match a {
        CacheAction::Store(bytes) => assert_eq!(bytes, vec![3u8]),
        _ => panic!("expected a store"),
    }
    let (s, a) = step::<i32, Vec<u8>>(s, CacheEvent::Stored);
    assert!(matches!(s, CacheState::Done));
    assert!(matches!(a, CacheAction::Return(3)));
}

#[test]
fn miss_without_anything_to_keep_returns_without_storing() {
    let (s, a) = step::<Result<i32, &str>, Vec<u8>>(
        CacheState::Computing,
        CacheEvent::Computed(Err("test"), None),
    );
    assert!(matches!(s, CacheState::Done));
    assert!(matches!(a, CacheAction::Return(Err("test"))));
}

#[test]
fn option_filter_keeps_some_only() {
    assert_eq!(option_to_cache(&Some(5)), Some(&5));
    assert_eq!(option_to_cache::<i32>(&None), None);
}

#[test]
fn result_filter_keeps_ok_only() {
    assert_eq!(result_to_cache::<u64, &str>(&Ok(500000500000)), Some(&500000500000));
    assert_eq!(result_to_cache::<u64, &str>(&Err("test")), None);
}

#[test]
fn a_full_miss_computes_once_and_returns_once() {
    let mut actions = Vec::new();
    let (s, a) = step::<&str, &str>(CacheState::Start, CacheEvent::Begin);
    actions.push(a);
    let (s, a) = step::<&str, &str>(s, CacheEvent::Looked(None));
    actions.push(a);
    let (s, a) = step::<&str, &str>(s, CacheEvent::Computed("v", Some("v")));
    actions.push(a);
    let (s, a) = step::<&str, &str>(s, CacheEvent::Stored);
    actions.push(a);
    assert!(matches!(s, CacheState::Done));
    assert_eq!(actions.iter().filter(|a| matches!(a, CacheAction::Compute)).count(), 1);
    assert_eq!(actions.iter().filter(|a| matches!(a, CacheAction::Return(_))).count(), 1);
    assert!(matches!(actions[3], CacheAction::Return("v")));
}

#[test]
fn failures_end_the_call() {
    let (s, a) = step::<i32, Vec<u8>>(CacheState::Looking, CacheEvent::Failed);
    assert!(matches!(s, CacheState::Done));
    assert!(matches!(a, CacheAction::Fail));
    let (_, a) = step::<i32, Vec<u8>>(CacheState::Computing, CacheEvent::Failed);
    assert!(matches!(a, CacheAction::Fail));
    let (s, a) = step::<i32, Vec<u8>>(CacheState::Storing(3), CacheEvent::Failed);
    assert!(matches!(s, CacheState::Done));
    assert!(matches!(a, CacheAction::Fail));
}
