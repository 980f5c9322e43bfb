use std::time::Duration;

use fnct::async_redis::AsyncRedisCache;
use fnct::backend::AsyncRedisBackend;
use fnct::format::{JsonFormatter, PostcardFormatter};
use fnct::AsyncCache;

#[test]
fn redis_cache_keeps_what_it_was_made_with() {
    let cache = AsyncRedisCache::new(7u8, "test_cached".to_owned(), Duration::from_secs(20), PostcardFormatter);
    assert_eq!(*cache.conn(), 7);
    assert_eq!(cache.namespace(), "test_cached");
    assert_eq!(*cache.default_ttl(), Duration::from_secs(20));
    assert_eq!(cache.formatter().id(), "postcard");
}

#[test]
fn redis_cache_ttl_falls_back_to_default() {
    let cache = AsyncRedisCache::new((), "ns".to_owned(), Duration::from_secs(20), PostcardFormatter);
    assert_eq!(cache.ttl_or_default(None), Duration::from_secs(20));
    assert_eq!(cache.ttl_or_default(Some(Duration::from_secs(1))), Duration::from_secs(1));
}

#[test]
fn backend_keeps_connection_and_namespace() {
    let backend = AsyncRedisBackend::new("conn", "my_application".to_owned());
    assert_eq!(*backend.conn(), "conn");
    assert_eq!(backend.namespace(), "my_application");
}

#[test]
fn cache_ttl_and_formatter_swap() {
    let cache = AsyncCache::new(AsyncRedisBackend::new(1u32, "ns".to_owned()), PostcardFormatter, Duration::from_secs(600));
    assert_eq!(cache.ttl_or_default(None), Duration::from_secs(600));
    assert_eq!(cache.ttl_or_default(Some(Duration::from_secs(1))), Duration::from_secs(1));
    let json = cache.with_formatter(JsonFormatter);
    assert_eq!(*json.default_ttl(), Duration::from_secs(600));
    assert_eq!(json.formatter().id(), "json");
    assert_eq!(json.backend().namespace(), "ns");
    assert_eq!(*json.backend().conn(), 1);
}

#[test]
fn debug_texts_hide_the_connection() {
    let backend = AsyncRedisBackend::new(42u8, "my \"app\"".to_owned());
    assert_eq!(backend.debug_text(), "AsyncRedisBackend { namespace: \"my \\\"app\\\"\", .. }");
    let cache = AsyncRedisCache::new(42u8, "ns".to_owned(), Duration::from_secs(20), PostcardFormatter);
    assert_eq!(
        cache.debug_text(),
        "AsyncRedisCache { namespace: \"ns\", default_ttl: 20s, formatter: PostcardFormatter, .. }"
    );
    let c = AsyncCache::new(1u8, JsonFormatter, Duration::from_millis(1500));
    assert_eq!(format!("{:?}", c), "AsyncCache { backend: 1, formatter: JsonFormatter, default_ttl: 1.5s }");
}
