//! Backends are what a cache talks to; the library ships one for Redis.

pub mod async_redis;

pub use async_redis::AsyncRedisBackend;
