//! A cache backed by Redis that stores values with a given formatter.

use vstd::prelude::*;
use std::time::Duration;
use crate::text::{debug_duration, debug_str, debug_value, duration_text, quoted};

verus! {

/// `Duration` is `Copy`, and its `Clone` is the derived one: the clone equals
/// the original.
pub assume_specification[ <Duration as Clone>::clone ](d: &Duration) -> (c: Duration)
    ensures
        c == *d,
;

/// Async cache backed by Redis: a connection, the namespace that all its
/// keys start with, the time to live of entries stored without one of their
/// own, and the formatter of the stored values.
#[derive(Clone)]
pub struct AsyncRedisCache<C, S> {
    conn: C,
    namespace: String,
    default_ttl: Duration,
    formatter: S,
}

impl<C, S> AsyncRedisCache<C, S> {
    pub closed spec fn spec_conn(&self) -> C {
        self.conn
    }

    pub closed spec fn spec_namespace(&self) -> Seq<char> {
        self.namespace@
    }

    pub closed spec fn spec_default_ttl(&self) -> Duration {
        self.default_ttl
    }

    pub closed spec fn spec_formatter(&self) -> S {
        self.formatter
    }

    /// Create a new [`AsyncRedisCache`].
    pub fn new(conn: C, namespace: String, default_ttl: Duration, formatter: S) -> (cache: Self)
        ensures
            cache.spec_conn() == conn,
            cache.spec_namespace() == namespace@,
            cache.spec_default_ttl() == default_ttl,
            cache.spec_formatter() == formatter,
    {
        Self { conn, namespace, default_ttl, formatter }
    }

    /// The connection to Redis.
    pub fn conn(&self) -> (conn: &C)
        ensures
            *conn == self.spec_conn(),
    {
        &self.conn
    }

    /// The text that `{:?}` shows of the cache: its namespace, default time
    /// to live and formatter, and not its connection. The formatter is
    /// written by its own `Debug` impl.
    pub fn debug_text(&self) -> (text: String) where S: std::fmt::Debug
        ensures
            exists|formatter_text: Seq<char>|
                text@ == "AsyncRedisCache { namespace: "@ + quoted(self.spec_namespace())
                    + ", default_ttl: "@ + duration_text(self.spec_default_ttl())
                    + ", formatter: "@ + formatter_text + ", .. }"@,
    {
        let mut text = String::from_str("AsyncRedisCache { namespace: ");
        let quoted_namespace = debug_str(self.namespace.as_str());
        text.append(quoted_namespace.as_str());
        text.append(", default_ttl: ");
        let ttl_text = debug_duration(&self.default_ttl);
        text.append(ttl_text.as_str());
        text.append(", formatter: ");
        let formatter_text = debug_value(&self.formatter);
        text.append(formatter_text.as_str());
        text.append(", .. }");
        assert(text@ == "AsyncRedisCache { namespace: "@ + quoted(self.spec_namespace())
            + ", default_ttl: "@ + duration_text(self.spec_default_ttl()) + ", formatter: "@
            + formatter_text@ + ", .. }"@);
        text
    }

    /// The namespace that all keys of this cache start with.
    pub fn namespace(&self) -> (namespace: &str)
        ensures
            namespace@ == self.spec_namespace(),
    {
        self.namespace.as_str()
    }

    /// The time to live of entries stored without one of their own.
    pub fn default_ttl(&self) -> (ttl: &Duration)
        ensures
            *ttl == self.spec_default_ttl(),
    {
        &self.default_ttl
    }

    /// The formatter of the stored values.
    pub fn formatter(&self) -> (formatter: &S)
        ensures
            *formatter == self.spec_formatter(),
    {
        &self.formatter
    }

    /// The time to live of an entry: the one given, else the cache's default.
    pub fn ttl_or_default(&self, ttl: Option<Duration>) -> (chosen: Duration)
        ensures
            chosen == match ttl {
                Some(t) => t,
                None => self.spec_default_ttl(),
            },
    {
        match ttl {
            Some(t) => t,
            None => self.default_ttl,
        }
    }
}

} // verus!
