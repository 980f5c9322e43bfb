//! Cache backend for Redis.

use vstd::prelude::*;
use crate::text::{debug_str, quoted};

verus! {

/// Cache backend for [Redis](https://redis.io/): a connection and the
/// namespace that all keys of the backend start with.
#[derive(Clone)]
pub struct AsyncRedisBackend<C> {
    conn: C,
    namespace: String,
}

impl<C> AsyncRedisBackend<C> {
    pub closed spec fn spec_conn(&self) -> C {
        self.conn
    }

    pub closed spec fn spec_namespace(&self) -> Seq<char> {
        self.namespace@
    }

    /// Create a new [`AsyncRedisBackend`].
    pub fn new(conn: C, namespace: String) -> (backend: Self)
        ensures
            backend.spec_conn() == conn,
            backend.spec_namespace() == namespace@,
    {
        Self { conn, namespace }
    }

    /// The connection to Redis.
    pub fn conn(&self) -> (conn: &C)
        ensures
            *conn == self.spec_conn(),
    {
        &self.conn
    }

    /// The text that `{:?}` shows of the backend: its namespace, and not its
    /// connection.
    pub fn debug_text(&self) -> (text: String)
        ensures
            text@ == "AsyncRedisBackend { namespace: "@ + quoted(self.spec_namespace()) + ", .. }"@,
    {
        let mut text = String::from_str("AsyncRedisBackend { namespace: ");
        let quoted_namespace = debug_str(self.namespace.as_str());
        text.append(quoted_namespace.as_str());
        text.append(", .. }");
        text
    }

    /// The namespace that all keys of this backend start with.
    pub fn namespace(&self) -> (namespace: &str)
        ensures
            namespace@ == self.spec_namespace(),
    {
        self.namespace.as_str()
    }
}

} // verus!
