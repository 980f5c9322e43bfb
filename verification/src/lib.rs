//! Caching with invalidation by tags, on top of Redis.
//!
//! The library derives the keys under which values are stored, builds the
//! Redis commands that write, tag and invalidate entries, and decides, step by
//! step, what a cached call does next. Running the commands against a server
//! is left to the caller.

pub mod async_redis;
pub mod backend;
pub mod commands;
pub mod flow;
pub mod format;
pub mod glob;
pub mod key;
pub mod pipeline;
pub mod text;

pub use key::make_key;

use vstd::prelude::*;
use std::time::Duration;

verus! {

/// A cache that can be used asynchronously: a backend, the formatter of the
/// stored values, and the time to live of entries stored without one of
/// their own.
#[derive(Debug, Clone)]
pub struct AsyncCache<B, S> {
    backend: B,
    formatter: S,
    default_ttl: Duration,
}

impl<B, S> AsyncCache<B, S> {
    pub closed spec fn spec_backend(&self) -> B {
        self.backend
    }

    pub closed spec fn spec_formatter(&self) -> S {
        self.formatter
    }

    pub closed spec fn spec_default_ttl(&self) -> Duration {
        self.default_ttl
    }

    /// Create a new [`AsyncCache`].
    pub fn new(backend: B, formatter: S, default_ttl: Duration) -> (cache: Self)
        ensures
            cache.spec_backend() == backend,
            cache.spec_formatter() == formatter,
            cache.spec_default_ttl() == default_ttl,
    {
        Self { backend, formatter, default_ttl }
    }

    /// Create a new cache that uses a different formatter, with a clone of
    /// this cache's backend and the same default time to live.
    pub fn with_formatter<T>(&self, formatter: T) -> (cache: AsyncCache<B, T>) where B: Clone
        ensures
            cloned::<B>(self.spec_backend(), cache.spec_backend()),
            cache.spec_formatter() == formatter,
            cache.spec_default_ttl() == self.spec_default_ttl(),
    {
        AsyncCache {
            backend: self.backend.clone(),
            formatter,
            default_ttl: self.default_ttl,
        }
    }

    /// The backend.
    pub fn backend(&self) -> (backend: &B)
        ensures
            *backend == self.spec_backend(),
    {
        &self.backend
    }

    /// The formatter of the stored values.
    pub fn formatter(&self) -> (formatter: &S)
        ensures
            *formatter == self.spec_formatter(),
    {
        &self.formatter
    }

    /// The time to live of entries stored without one of their own.
    pub fn default_ttl(&self) -> (ttl: &Duration)
        ensures
            *ttl == self.spec_default_ttl(),
    {
        &self.default_ttl
    }

    /// The time to live of an entry: the one given, else the cache's default.
    pub fn ttl_or_default(&self, ttl: Option<Duration>) -> (chosen: Duration)
        ensures
            chosen == match ttl {
                Some(t) => t,
                None => self.spec_default_ttl(),
            },
    {
        match ttl {
            Some(t) => t,
            None => self.default_ttl,
        }
    }
}

} // verus!
