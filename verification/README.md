# fnct

A caching library with invalidation by tags, on top of Redis.

`src/` is the verified library:

- `key.rs`: cache keys (SHA-512 of the serialized key, lower-case hex, then
  the formatter's identifier), with the proof that two keys are equal exactly
  when the digests and the formatters are.
- `commands.rs`: where entries and tag sets live in Redis, and the exact
  commands (byte for byte) that store, read and invalidate entries; laws that
  tie the invalidations to what a store wrote.
- `glob.rs`: escaping a namespace for a `KEYS` pattern, with the proof that
  the pattern matches exactly the namespace's entry keys.
- `pipeline.rs`: the Redis command builders used, with their contracts.
- `flow.rs`: the steps of a cached call as a state machine, with the proof
  that a call computes at most once and returns at most once.
- `text.rs`: debug text as `{:?}` writes it.
- `async_redis.rs`, `backend/`, `format.rs`, `lib.rs`: the cache types.

`app/` holds the asynchronous side: serialization with serde formats, the
clock, and sending the commands to Redis.
