//! Where entries and tags live in Redis, and the commands that write an
//! entry and invalidate entries by key or by tag.
//!
//! Within a namespace `ns`, the value of the entry with key `k` is stored at
//! `ns:cache:k`, and the entries tagged with `t` are the members of the sorted
//! set at `ns:tag:t`, each scored with the time (in seconds since the Unix
//! epoch) at which its entry expires.

use vstd::prelude::*;
use redis::{Cmd, Pipeline};
use crate::glob::{escape_glob, escaped_prefix_matches_exactly, glob_escape, glob_match};
use crate::pipeline::{
    cmd_arg, command_args, decimal, decimal_bytes, new_cmd, new_pipeline, pipe_arg, pipe_cmd,
    pipe_del, pipe_set_ex, pipe_zadd, pipe_zrembyscore, pipeline_commands, utf8,
};

verus! {

/// Where the value of the entry with key `key` is stored.
pub open spec fn entry_key(ns: Seq<char>, key: Seq<char>) -> Seq<char> {
    ns + ":cache:"@ + key
}

/// Where the set of the entries tagged with `tag` is stored.
pub open spec fn tag_set_key(ns: Seq<char>, tag: Seq<char>) -> Seq<char> {
    ns + ":tag:"@ + tag
}

/// The pattern that matches every entry of the namespace and nothing else:
/// the escaped start of its entry keys, then `*`.
pub open spec fn entry_pattern(ns: Seq<char>) -> Seq<char> {
    glob_escape(ns + ":cache:"@) + seq!['*']
}

/// `KEYS` of the pattern of the namespace's entries.
pub open spec fn keys_args(ns: Seq<char>) -> Seq<Seq<u8>> {
    seq![utf8("KEYS"@), utf8(entry_pattern(ns))]
}

/// `ZRANGE set 0 -1`: all members of the tag's set.
pub open spec fn tag_members_args(ns: Seq<char>, tag: Seq<char>) -> Seq<Seq<u8>> {
    seq![utf8("ZRANGE"@), utf8(tag_set_key(ns, tag)), utf8("0"@), utf8("-1"@)]
}

/// The texts that a slice of string slices holds.
pub open spec fn str_views(s: Seq<&str>) -> Seq<Seq<char>> {
    s.map_values(|t: &str| t@)
}

/// The texts that a slice of strings holds.
pub open spec fn string_views(s: Seq<String>) -> Seq<Seq<char>> {
    s.map_values(|t: String| t@)
}

pub open spec fn del_command(key: Seq<char>) -> Seq<Seq<u8>> {
    seq![utf8("DEL"@), utf8(key)]
}

pub open spec fn get_args(ns: Seq<char>, key: Seq<char>) -> Seq<Seq<u8>> {
    seq![utf8("GET"@), utf8(entry_key(ns, key))]
}

pub open spec fn set_ex_command(key: Seq<char>, seconds: nat, value: Seq<u8>) -> Seq<Seq<u8>> {
    seq![utf8("SETEX"@), utf8(key), decimal(seconds), value]
}

/// The commands that register `key` under `tag`: drop the members of the
/// tag's set that expired by `now`, add `key` with its expiry `now + ttl`,
/// and let the set live at least as long as its newest member (`EXPIRE ..
/// NX` sets a timeout where there is none, `EXPIRE .. GT` extends a shorter
/// one).
pub open spec fn tag_commands(
    ns: Seq<char>,
    key: Seq<char>,
    tag: Seq<char>,
    ttl: nat,
    now: nat,
) -> Seq<Seq<Seq<u8>>> {
    let k = tag_set_key(ns, tag);
    seq![
        seq![utf8("ZREMRANGEBYSCORE"@), utf8(k), utf8("-inf"@), decimal(now)],
        seq![utf8("ZADD"@), utf8(k), decimal(now + ttl), utf8(key)],
        seq![utf8("EXPIRE"@), utf8(k), decimal(ttl), utf8("NX"@)],
        seq![utf8("EXPIRE"@), utf8(k), decimal(ttl), utf8("GT"@)],
    ]
}

/// `tag_commands` for each tag, in the order of the tags.
pub open spec fn tags_commands(
    ns: Seq<char>,
    key: Seq<char>,
    tags: Seq<Seq<char>>,
    ttl: nat,
    now: nat,
) -> Seq<Seq<Seq<u8>>>
    decreases tags.len(),
{
    if tags.len() == 0 {
        Seq::empty()
    } else {
        tags_commands(ns, key, tags.drop_last(), ttl, now) + tag_commands(
            ns,
            key,
            tags.last(),
            ttl,
            now,
        )
    }
}

/// The commands that store `value` as the entry `key` for `ttl` seconds and
/// register it under each of `tags`. The entry's time to live is handed to
/// Redis as a `usize` (the type that `SETEX` takes here), so on a target
/// where `usize` is narrower than 64 bits it is truncated to that width.
pub open spec fn put_commands(
    ns: Seq<char>,
    key: Seq<char>,
    value: Seq<u8>,
    tags: Seq<Seq<char>>,
    ttl: nat,
    now: nat,
) -> Seq<Seq<Seq<u8>>> {
    seq![set_ex_command(entry_key(ns, key), (ttl as usize) as nat, value)] + tags_commands(
        ns,
        key,
        tags,
        ttl,
        now,
    )
}

/// One `DEL` of the entry for each of `keys`, in order.
pub open spec fn entry_deletions(ns: Seq<char>, keys: Seq<Seq<char>>) -> Seq<Seq<Seq<u8>>> {
    Seq::new(keys.len(), |i: int| del_command(entry_key(ns, keys[i])))
}

/// One `DEL` of each of `keys` themselves, in order.
pub open spec fn key_deletions(keys: Seq<Seq<char>>) -> Seq<Seq<Seq<u8>>> {
    Seq::new(keys.len(), |i: int| del_command(keys[i]))
}

/// The commands that invalidate the entries `members` of the tag `tag`, and
/// then the tag's set itself.
pub open spec fn pop_tag_commands(
    ns: Seq<char>,
    tag: Seq<char>,
    members: Seq<Seq<char>>,
) -> Seq<Seq<Seq<u8>>> {
    entry_deletions(ns, members).push(del_command(tag_set_key(ns, tag)))
}

/// `ZINTER n set_1 .. set_n`: the members common to the sets of all `tags`.
pub open spec fn zinter_args(ns: Seq<char>, tags: Seq<Seq<char>>) -> Seq<Seq<u8>> {
    seq![utf8("ZINTER"@), decimal(tags.len())] + Seq::new(
        tags.len(),
        |i: int| utf8(tag_set_key(ns, tags[i])),
    )
}

/// The commands that invalidate what a query for `tags` found: the keys that
/// `KEYS` returned where `tags` is empty, else the entries of the members
/// that `ZINTER` returned.
pub open spec fn pop_tags_commands(
    ns: Seq<char>,
    tags: Seq<Seq<char>>,
    found: Seq<Seq<char>>,
) -> Seq<Seq<Seq<u8>>> {
    if tags.len() == 0 {
        key_deletions(found)
    } else {
        entry_deletions(ns, found)
    }
}

/// What to ask Redis for before invalidating entries by several tags.
pub enum TagQuery {
    /// No tag was given: every entry of the namespace goes, so run this
    /// `KEYS` command, which lists the keys of all entries of the namespace.
    AllEntries(Cmd),
    /// The entries tagged with all of the tags go: run this `ZINTER` command.
    Intersection(Cmd),
}

/// Where the value of the entry `key` is stored: `{namespace}:cache:{key}`.
pub fn cache_key(namespace: &str, key: &str) -> (k: String)
    ensures
        k@ == entry_key(namespace@, key@),
{
    let mut k = String::from_str(namespace);
    k.append(":cache:");
    k.append(key);
    k
}

/// Where the set of the entries tagged with `tag` is stored:
/// `{namespace}:tag:{tag}`.
pub fn tag_key(namespace: &str, tag: &str) -> (k: String)
    ensures
        k@ == tag_set_key(namespace@, tag@),
{
    let mut k = String::from_str(namespace);
    k.append(":tag:");
    k.append(tag);
    k
}

/// The pattern that matches the keys of all entries of the namespace and of
/// no other key: `{namespace}:cache:` with its glob characters escaped, then
/// `*`.
pub fn cache_key_pattern(namespace: &str) -> (p: String)
    ensures
        p@ == entry_pattern(namespace@),
{
    let prefix = cache_key(namespace, "");
    proof {
        reveal_strlit("");
        assert(prefix@ =~= namespace@ + ":cache:"@);
    }
    let mut p = escape_glob(prefix.as_str());
    proof { reveal_strlit("*"); }
    p.append("*");
    p
}

/// The command that lists the members of the tag's set (the keys of the
/// entries registered under the tag): `ZRANGE {namespace}:tag:{tag} 0 -1`.
pub fn tag_members_command(namespace: &str, tag: &str) -> (c: Cmd)
    ensures
        command_args(c) == tag_members_args(namespace@, tag@),
{
    let k = tag_key(namespace, tag);
    let mut c = new_cmd("ZRANGE");
    cmd_arg(&mut c, k.as_str().as_bytes());
    cmd_arg(&mut c, "0".as_bytes());
    cmd_arg(&mut c, "-1".as_bytes());
    proof {
        assert(command_args(c) =~= tag_members_args(namespace@, tag@));
    }
    c
}

/// The command that reads the value of the entry `key`: `GET` of where the
/// entry is stored.
pub fn get_command(namespace: &str, key: &str) -> (c: Cmd)
    ensures
        command_args(c) == get_args(namespace@, key@),
{
    let k = cache_key(namespace, key);
    let mut c = new_cmd("GET");
    cmd_arg(&mut c, k.as_str().as_bytes());
    c
}

/// The command that invalidates the entry `key`: `DEL` of where the entry is
/// stored.
pub fn pop_key_command(namespace: &str, key: &str) -> (c: Cmd)
    ensures
        command_args(c) == del_command(entry_key(namespace@, key@)),
{
    let k = cache_key(namespace, key);
    let mut c = new_cmd("DEL");
    cmd_arg(&mut c, k.as_str().as_bytes());
    proof {
        assert(command_args(c) =~= del_command(entry_key(namespace@, key@)));
    }
    c
}

/// The pipeline that stores `value` as the entry `key` for `ttl` seconds and
/// registers the entry under each of `tags`, at time `now` (seconds since the
/// Unix epoch).
pub fn put_pipeline(
    namespace: &str,
    key: &str,
    value: &[u8],
    tags: &[&str],
    ttl: u64,
    now: u64,
) -> (p: Pipeline)
    requires
        now + ttl <= u64::MAX,
    ensures
        pipeline_commands(p) == put_commands(
            namespace@,
            key@,
            value@,
            str_views(tags@),
            ttl as nat,
            now as nat,
        ),
{
    let ghost ns = namespace@;
    let ghost all = str_views(tags@);
    let mut p = new_pipeline();
    let entry = cache_key(namespace, key);
    pipe_set_ex(&mut p, entry.as_str(), value, ttl as usize);
    let ttl_digits = decimal_bytes(ttl);
    let mut i: usize = 0;
    while i < tags.len()
        invariant
            i <= tags@.len(),
            all == str_views(tags@),
            ns == namespace@,
            ttl_digits@ == decimal(ttl as nat),
            now + ttl <= u64::MAX,
            pipeline_commands(p) == put_commands(
                ns,
                key@,
                value@,
                all.subrange(0, i as int),
                ttl as nat,
                now as nat,
            ),
        decreases tags@.len() - i,
    {
        let ghost before = pipeline_commands(p);
        let tag: &str = tags[i];
        let k = tag_key(namespace, tag);
        pipe_zrembyscore(&mut p, k.as_str(), "-inf", now);
        pipe_zadd(&mut p, k.as_str(), key, now + ttl);
        let ghost k_bytes = utf8(tag_set_key(ns, tag@));
        let ghost mid = pipeline_commands(p);
        pipe_cmd(&mut p, "EXPIRE");
        pipe_arg(&mut p, k.as_str().as_bytes());
        pipe_arg(&mut p, ttl_digits.as_slice());
        pipe_arg(&mut p, "NX".as_bytes());
        assert(pipeline_commands(p) =~~= mid.push(
            seq![utf8("EXPIRE"@), k_bytes, decimal(ttl as nat), utf8("NX"@)],
        ));
        let ghost mid2 = pipeline_commands(p);
        pipe_cmd(&mut p, "EXPIRE");
        pipe_arg(&mut p, k.as_str().as_bytes());
        pipe_arg(&mut p, ttl_digits.as_slice());
        pipe_arg(&mut p, "GT".as_bytes());
        assert(pipeline_commands(p) =~~= mid2.push(
            seq![utf8("EXPIRE"@), k_bytes, decimal(ttl as nat), utf8("GT"@)],
        ));
        proof {
            let prefix = all.subrange(0, i + 1);
            assert(prefix.drop_last() =~= all.subrange(0, i as int));
            assert(prefix.last() == tag@);
            let added = tag_commands(ns, key@, tag@, ttl as nat, now as nat);
            assert(pipeline_commands(p) =~= before + added);
        }
        i = i + 1;
    }
    proof {
        assert(all.subrange(0, tags@.len() as int) =~= all);
    }
    p
}

/// The time at which an entry stored at `now` for `ttl` seconds expires, or
/// `None` where that time does not fit in a `u64`.
pub fn expiry(ttl: u64, now: u64) -> (at: Option<u64>)
    ensures
        at == (if now + ttl <= u64::MAX {
            Some((now + ttl) as u64)
        } else {
            None::<u64>
        }),
{
    now.checked_add(ttl)
}

/// A time to live of `secs` seconds and `nanos` nanoseconds in whole seconds,
/// rounded up, so that an entry lives at least as long as it was given.
pub open spec fn whole_seconds(secs: nat, nanos: nat) -> nat {
    if nanos == 0 {
        secs
    } else {
        secs + 1
    }
}

/// The time to live of `secs` seconds and `nanos` nanoseconds in whole
/// seconds, rounded up; `None` where that does not fit in a `u64`.
pub fn ttl_in_seconds(secs: u64, nanos: u32) -> (whole: Option<u64>)
    ensures
        whole == (if whole_seconds(secs as nat, nanos as nat) <= u64::MAX {
            Some(whole_seconds(secs as nat, nanos as nat) as u64)
        } else {
            None::<u64>
        }),
{
    if nanos == 0 {
        Some(secs)
    } else {
        secs.checked_add(1)
    }
}

/// `put_pipeline` for a time to live of `ttl_secs` seconds and `ttl_nanos`
/// nanoseconds, rounded up to whole seconds; `None` where the rounded time to
/// live or the time the entry expires does not fit in a `u64` (the inputs on
/// which storing fails).
pub fn checked_put_pipeline(
    namespace: &str,
    key: &str,
    value: &[u8],
    tags: &[&str],
    ttl_secs: u64,
    ttl_nanos: u32,
    now: u64,
) -> (p: Option<Pipeline>)
    ensures
        match p {
            Some(p) => now + whole_seconds(ttl_secs as nat, ttl_nanos as nat) <= u64::MAX
                && pipeline_commands(p) == put_commands(
                namespace@,
                key@,
                value@,
                str_views(tags@),
                whole_seconds(ttl_secs as nat, ttl_nanos as nat),
                now as nat,
            ),
            None => now + whole_seconds(ttl_secs as nat, ttl_nanos as nat) > u64::MAX,
        },
{
    match ttl_in_seconds(ttl_secs, ttl_nanos) {
        Some(ttl) => match expiry(ttl, now) {
            Some(_) => Some(put_pipeline(namespace, key, value, tags, ttl, now)),
            None => None,
        },
        None => None,
    }
}

/// Appends one `DEL` of the entry for each of `keys`.
fn push_entry_deletions(p: &mut Pipeline, namespace: &str, keys: &[String])
    ensures
        pipeline_commands(*final(p)) == pipeline_commands(*old(p)) + entry_deletions(
            namespace@,
            string_views(keys@),
        ),
{
    let ghost start = pipeline_commands(*p);
    let ghost all = string_views(keys@);
    let mut i: usize = 0;
    while i < keys.len()
        invariant
            i <= keys@.len(),
            all == string_views(keys@),
            pipeline_commands(*p) == start + entry_deletions(
                namespace@,
                all.subrange(0, i as int),
            ),
        decreases keys@.len() - i,
    {
        let k = cache_key(namespace, keys[i].as_str());
        pipe_del(p, k.as_str());
        proof {
            assert(entry_deletions(namespace@, all.subrange(0, i + 1)) =~= entry_deletions(
                namespace@,
                all.subrange(0, i as int),
            ).push(del_command(entry_key(namespace@, all[i as int]))));
        }
        i = i + 1;
    }
    proof {
        assert(all.subrange(0, keys@.len() as int) =~= all);
    }
}

/// Appends one `DEL` of each of `keys` themselves.
fn push_key_deletions(p: &mut Pipeline, keys: &[String])
    ensures
        pipeline_commands(*final(p)) == pipeline_commands(*old(p)) + key_deletions(
            string_views(keys@),
        ),
{
    let ghost start = pipeline_commands(*p);
    let ghost all = string_views(keys@);
    let mut i: usize = 0;
    while i < keys.len()
        invariant
            i <= keys@.len(),
            all == string_views(keys@),
            pipeline_commands(*p) == start + key_deletions(all.subrange(0, i as int)),
        decreases keys@.len() - i,
    {
        pipe_del(p, keys[i].as_str());
        proof {
            assert(key_deletions(all.subrange(0, i + 1)) =~= key_deletions(
                all.subrange(0, i as int),
            ).push(del_command(all[i as int])));
        }
        i = i + 1;
    }
    proof {
        assert(all.subrange(0, keys@.len() as int) =~= all);
    }
}

/// The pipeline that invalidates the entries `members` (what `ZRANGE` gave
/// for the tag's set) and then deletes the tag's set.
pub fn pop_tag_pipeline(namespace: &str, tag: &str, members: &[String]) -> (p: Pipeline)
    ensures
        pipeline_commands(p) == pop_tag_commands(namespace@, tag@, string_views(members@)),
{
    let mut p = new_pipeline();
    push_entry_deletions(&mut p, namespace, members);
    let k = tag_key(namespace, tag);
    pipe_del(&mut p, k.as_str());
    proof {
        assert(pipeline_commands(p) =~= pop_tag_commands(
            namespace@,
            tag@,
            string_views(members@),
        ));
    }
    p
}

/// What to ask Redis for before invalidating the entries tagged with all of
/// `tags`: the keys of all entries of the namespace where `tags` is empty,
/// else the members common to the sets of all the tags.
pub fn pop_tags_query(namespace: &str, tags: &[&str]) -> (q: TagQuery)
    ensures
        match q {
            TagQuery::AllEntries(c) => tags@.len() == 0 && command_args(c) == keys_args(
                namespace@,
            ),
            TagQuery::Intersection(c) => tags@.len() > 0 && command_args(c) == zinter_args(
                namespace@,
                str_views(tags@),
            ),
        },
{
    if tags.len() == 0 {
        let pattern = cache_key_pattern(namespace);
        let mut c = new_cmd("KEYS");
        cmd_arg(&mut c, pattern.as_str().as_bytes());
        proof {
            assert(command_args(c) =~= keys_args(namespace@));
        }
        return TagQuery::AllEntries(c);
    }
    let ghost all = str_views(tags@);
    let mut c = new_cmd("ZINTER");
    let count = decimal_bytes(tags.len() as u64);
    cmd_arg(&mut c, count.as_slice());
    let mut i: usize = 0;
    while i < tags.len()
        invariant
            i <= tags@.len(),
            all == str_views(tags@),
            command_args(c) == seq![utf8("ZINTER"@), decimal(tags@.len())] + Seq::new(
                i as nat,
                |j: int| utf8(tag_set_key(namespace@, all[j])),
            ),
        decreases tags@.len() - i,
    {
        let k = tag_key(namespace, tags[i]);
        cmd_arg(&mut c, k.as_str().as_bytes());
        proof {
            assert(command_args(c) =~= seq![utf8("ZINTER"@), decimal(tags@.len())] + Seq::new(
                (i + 1) as nat,
                |j: int| utf8(tag_set_key(namespace@, all[j])),
            ));
        }
        i = i + 1;
    }
    TagQuery::Intersection(c)
}

/// The pipeline that invalidates what the query of `pop_tags_query` found:
/// where `tags` is empty, `found` holds full keys (from `KEYS`) and each is
/// deleted as it is; else `found` holds entry keys (from `ZINTER`) and each
/// entry is deleted.
pub fn pop_tags_pipeline(namespace: &str, tags: &[&str], found: &[String]) -> (p: Pipeline)
    ensures
        pipeline_commands(p) == pop_tags_commands(
            namespace@,
            str_views(tags@),
            string_views(found@),
        ),
{
    let mut p = new_pipeline();
    if tags.len() == 0 {
        push_key_deletions(&mut p, found);
    } else {
        push_entry_deletions(&mut p, namespace, found);
    }
    proof {
        assert(pipeline_commands(p) =~= pop_tags_commands(
            namespace@,
            str_views(tags@),
            string_views(found@),
        ));
    }
    p
}

/// Within one namespace, the value of an entry and the set of a tag never
/// share a key.
pub proof fn entry_and_tag_keys_differ(ns: Seq<char>, key: Seq<char>, tag: Seq<char>)
    ensures
        entry_key(ns, key) != tag_set_key(ns, tag),
{
    reveal_strlit(":cache:");
    reveal_strlit(":tag:");
    assert(entry_key(ns, key)[ns.len() as int + 1] == 'c');
    assert(tag_set_key(ns, tag)[ns.len() as int + 1] == 't');
}

/// Within one namespace, different keys are stored in different places.
pub proof fn entry_key_injective(ns: Seq<char>, key1: Seq<char>, key2: Seq<char>)
    requires
        entry_key(ns, key1) == entry_key(ns, key2),
    ensures
        key1 == key2,
{
    reveal_strlit(":cache:");
    let n = ns.len() as int + 7;
    assert(entry_key(ns, key1).skip(n) =~= key1);
    assert(entry_key(ns, key2).skip(n) =~= key2);
}

/// A key matches the pattern of a namespace's entries exactly when it is
/// the key of an entry of that namespace, whatever characters the namespace
/// holds.
pub proof fn pattern_matches_exactly_the_entries(ns: Seq<char>, k: Seq<char>)
    ensures
        glob_match(entry_pattern(ns), k) <==> exists|key: Seq<char>| k == entry_key(ns, key),
{
    let prefix = ns + ":cache:"@;
    let n = prefix.len() as int;
    escaped_prefix_matches_exactly(prefix, k);
    if glob_match(entry_pattern(ns), k) {
        assert(k =~= entry_key(ns, k.skip(n)));
    }
    if exists|key: Seq<char>| k == entry_key(ns, key) {
        let key = choose|key: Seq<char>| k == entry_key(ns, key);
        assert(k.subrange(0, n) =~= prefix);
    }
}

proof fn tags_commands_layout(
    ns: Seq<char>,
    key: Seq<char>,
    tags: Seq<Seq<char>>,
    ttl: nat,
    now: nat,
)
    ensures
        tags_commands(ns, key, tags, ttl, now).len() == 4 * tags.len(),
        forall|j: int, i: int|
            0 <= j < tags.len() && 0 <= i < 4 ==> #[trigger] tags_commands(
                ns,
                key,
                tags,
                ttl,
                now,
            )[4 * j + i] == tag_commands(ns, key, tags[j], ttl, now)[i],
    decreases tags.len(),
{
    if tags.len() > 0 {
        tags_commands_layout(ns, key, tags.drop_last(), ttl, now);
    }
}

/// Where the pipeline of a put stores its value, and how it registers the
/// entry under its `j`-th tag: `ZADD` with the entry's key as the member and
/// the time the entry expires as the score.
pub proof fn put_registers_entry_under_tag(
    ns: Seq<char>,
    key: Seq<char>,
    value: Seq<u8>,
    tags: Seq<Seq<char>>,
    ttl: nat,
    now: nat,
    j: int,
)
    requires
        0 <= j < tags.len(),
    ensures
        put_commands(ns, key, value, tags, ttl, now)[0] == set_ex_command(
            entry_key(ns, key),
            (ttl as usize) as nat,
            value,
        ),
        put_commands(ns, key, value, tags, ttl, now)[4 * j + 2] == seq![
            utf8("ZADD"@),
            utf8(tag_set_key(ns, tags[j])),
            decimal(now + ttl),
            utf8(key),
        ],
{
    tags_commands_layout(ns, key, tags, ttl, now);
    assert(tags_commands(ns, key, tags, ttl, now)[4 * j + 1] == tag_commands(
        ns,
        key,
        tags[j],
        ttl,
        now,
    )[1]);
}

/// An entry put under a tag is deleted when that tag is popped, as long as
/// the tag's set lists the entry: `pop_tag` reads the very set that the put
/// added the entry to, and its pipeline deletes the very key that the put
/// wrote its value to.
pub proof fn pop_tag_deletes_what_put_wrote(
    ns: Seq<char>,
    key: Seq<char>,
    value: Seq<u8>,
    tags: Seq<Seq<char>>,
    ttl: nat,
    now: nat,
    j: int,
    members: Seq<Seq<char>>,
    m: int,
)
    requires
        0 <= j < tags.len(),
        0 <= m < members.len(),
        members[m] == key,
    ensures
        pop_tag_commands(ns, tags[j], members)[m] == seq![
            utf8("DEL"@),
            put_commands(ns, key, value, tags, ttl, now)[0][1],
        ],
        pop_tag_commands(ns, tags[j], members).last() == del_command(tag_set_key(ns, tags[j])),
        tag_members_args(ns, tags[j])[1] == put_commands(ns, key, value, tags, ttl, now)[4 * j
            + 2][1],
{
    put_registers_entry_under_tag(ns, key, value, tags, ttl, now, j);
}

/// Popping several tags deletes the very keys that the puts of the found
/// entries wrote their values to: the entries that `ZINTER` named where tags
/// are given, and the keys that `KEYS` listed (full entry keys) where none
/// are.
pub proof fn pop_tags_deletes_what_put_wrote(
    ns: Seq<char>,
    key: Seq<char>,
    value: Seq<u8>,
    put_tags: Seq<Seq<char>>,
    ttl: nat,
    now: nat,
    tags: Seq<Seq<char>>,
    found: Seq<Seq<char>>,
    m: int,
)
    requires
        0 <= m < found.len(),
        tags.len() == 0 ==> found[m] == entry_key(ns, key),
        tags.len() > 0 ==> found[m] == key,
    ensures
        pop_tags_commands(ns, tags, found)[m] == seq![
            utf8("DEL"@),
            put_commands(ns, key, value, put_tags, ttl, now)[0][1],
        ],
{
}

/// A read of an entry asks for the very key that a put of the entry wrote
/// its value to, and popping the entry by its key deletes that key.
pub proof fn get_and_pop_key_target_what_put_wrote(
    ns: Seq<char>,
    key: Seq<char>,
    value: Seq<u8>,
    tags: Seq<Seq<char>>,
    ttl: nat,
    now: nat,
)
    ensures
        get_args(ns, key) == seq![utf8("GET"@), put_commands(ns, key, value, tags, ttl, now)[0][1]],
        del_command(entry_key(ns, key)) == seq![
            utf8("DEL"@),
            put_commands(ns, key, value, tags, ttl, now)[0][1],
        ],
{
}

/// What a put sends, command by command: first `SETEX` of the entry's key
/// with its time to live (in seconds, as a `usize`) and the value, so that
/// the entry expires; then for each tag, in order, a trim of the tag's set
/// that removes only the members that expired by `now` (scores up to `now`;
/// a member of a still-live entry, scored above `now`, stays), the `ZADD` of
/// the entry's key scored with its expiry `now + ttl`, and the two `EXPIRE`s
/// of the set (`NX`, then `GT`) by the time to live. Nothing else is sent.
pub proof fn put_sends_exactly(
    ns: Seq<char>,
    key: Seq<char>,
    value: Seq<u8>,
    tags: Seq<Seq<char>>,
    ttl: nat,
    now: nat,
)
    ensures
        put_commands(ns, key, value, tags, ttl, now).len() == 1 + 4 * tags.len(),
        put_commands(ns, key, value, tags, ttl, now)[0] == seq![
            utf8("SETEX"@),
            utf8(ns + ":cache:"@ + key),
            decimal((ttl as usize) as nat),
            value,
        ],
        forall|j: int|
            0 <= j < tags.len() ==> {
                let set = utf8(ns + ":tag:"@ + tags[j]);
                &&& #[trigger] put_commands(ns, key, value, tags, ttl, now)[4 * j + 1] == seq![
                    utf8("ZREMRANGEBYSCORE"@),
                    set,
                    utf8("-inf"@),
                    decimal(now),
                ]
                &&& put_commands(ns, key, value, tags, ttl, now)[4 * j + 2] == seq![
                    utf8("ZADD"@),
                    set,
                    decimal(now + ttl),
                    utf8(key),
                ]
                &&& put_commands(ns, key, value, tags, ttl, now)[4 * j + 3] == seq![
                    utf8("EXPIRE"@),
                    set,
                    decimal(ttl),
                    utf8("NX"@),
                ]
                &&& put_commands(ns, key, value, tags, ttl, now)[4 * j + 4] == seq![
                    utf8("EXPIRE"@),
                    set,
                    decimal(ttl),
                    utf8("GT"@),
                ]
            },
{
    tags_commands_layout(ns, key, tags, ttl, now);
    assert forall|j: int| 0 <= j < tags.len() implies {
        let set = utf8(ns + ":tag:"@ + tags[j]);
        &&& #[trigger] put_commands(ns, key, value, tags, ttl, now)[4 * j + 1] == seq![
            utf8("ZREMRANGEBYSCORE"@),
            set,
            utf8("-inf"@),
            decimal(now),
        ]
        &&& put_commands(ns, key, value, tags, ttl, now)[4 * j + 2] == seq![
            utf8("ZADD"@),
            set,
            decimal(now + ttl),
            utf8(key),
        ]
        &&& put_commands(ns, key, value, tags, ttl, now)[4 * j + 3] == seq![
            utf8("EXPIRE"@),
            set,
            decimal(ttl),
            utf8("NX"@),
        ]
        &&& put_commands(ns, key, value, tags, ttl, now)[4 * j + 4] == seq![
            utf8("EXPIRE"@),
            set,
            decimal(ttl),
            utf8("GT"@),
        ]
    } by {
        let t = tags_commands(ns, key, tags, ttl, now);
        assert(t[4 * j + 0] == tag_commands(ns, key, tags[j], ttl, now)[0]);
        assert(t[4 * j + 1] == tag_commands(ns, key, tags[j], ttl, now)[1]);
        assert(t[4 * j + 2] == tag_commands(ns, key, tags[j], ttl, now)[2]);
        assert(t[4 * j + 3] == tag_commands(ns, key, tags[j], ttl, now)[3]);
    }
}

/// Popping one tag reads the whole of the tag's set (ranks `0` to `-1`, the
/// last member), so every entry registered under the tag is found.
pub proof fn pop_tag_reads_the_whole_set(ns: Seq<char>, tag: Seq<char>)
    ensures
        tag_members_args(ns, tag) == seq![
            utf8("ZRANGE"@),
            utf8(ns + ":tag:"@ + tag),
            utf8("0"@),
            utf8("-1"@),
        ],
{
}

/// Popping one tag deletes each entry that the tag's set listed, in order,
/// then the tag's set, and nothing else.
pub proof fn pop_tag_sends_exactly(ns: Seq<char>, tag: Seq<char>, members: Seq<Seq<char>>)
    ensures
        pop_tag_commands(ns, tag, members).len() == members.len() + 1,
        forall|i: int|
            0 <= i < members.len() ==> #[trigger] pop_tag_commands(ns, tag, members)[i] == seq![
                utf8("DEL"@),
                utf8(ns + ":cache:"@ + members[i]),
            ],
        pop_tag_commands(ns, tag, members)[members.len() as int] == seq![
            utf8("DEL"@),
            utf8(ns + ":tag:"@ + tag),
        ],
{
}

/// Popping several tags looks for the entries tagged with all of them: the
/// query is the intersection (`ZINTER`, never a union) of the sets of all
/// the tags, in order, whatever their number.
pub proof fn pop_tags_intersects_all_sets(ns: Seq<char>, tags: Seq<Seq<char>>)
    requires
        tags.len() > 0,
    ensures
        zinter_args(ns, tags).len() == tags.len() + 2,
        zinter_args(ns, tags)[0] == utf8("ZINTER"@),
        zinter_args(ns, tags)[1] == decimal(tags.len()),
        forall|i: int|
            0 <= i < tags.len() ==> #[trigger] zinter_args(ns, tags)[i + 2] == utf8(
                ns + ":tag:"@ + tags[i],
            ),
{
}

/// Popping several tags sends exactly one `DEL` per found key and nothing
/// else (it never deletes a tag's set): of the found key itself where no tag
/// was given (`KEYS` listed full keys), else of the found entry.
pub proof fn pop_tags_deletes_only_what_was_found(
    ns: Seq<char>,
    tags: Seq<Seq<char>>,
    found: Seq<Seq<char>>,
)
    ensures
        pop_tags_commands(ns, tags, found).len() == found.len(),
        forall|i: int|
            0 <= i < found.len() ==> #[trigger] pop_tags_commands(ns, tags, found)[i] == (if tags.len()
                == 0 {
                seq![utf8("DEL"@), utf8(found[i])]
            } else {
                seq![utf8("DEL"@), utf8(ns + ":cache:"@ + found[i])]
            }),
{
}

/// Popping all entries lists the keys that match the escaped start of the
/// namespace's entry keys followed by `*`.
pub proof fn pop_all_lists_the_namespace(ns: Seq<char>)
    ensures
        keys_args(ns) == seq![
            utf8("KEYS"@),
            utf8(glob_escape(ns + ":cache:"@) + seq!['*']),
        ],
{
}

/// A read asks `GET` of the entry's key, and popping a key sends `DEL` of
/// it.
pub proof fn get_and_pop_key_send_exactly(ns: Seq<char>, key: Seq<char>)
    ensures
        get_args(ns, key) == seq![utf8("GET"@), utf8(ns + ":cache:"@ + key)],
        del_command(entry_key(ns, key)) == seq![utf8("DEL"@), utf8(ns + ":cache:"@ + key)],
{
}

/// A time to live in whole seconds is rounded up: an entry lives at least as
/// long as it was given, and less than a second longer.
pub proof fn whole_seconds_rounds_up(secs: nat, nanos: nat)
    requires
        nanos < 1_000_000_000,
    ensures
        secs * 1_000_000_000 + nanos <= whole_seconds(secs, nanos) * 1_000_000_000,
        whole_seconds(secs, nanos) * 1_000_000_000 < secs * 1_000_000_000 + nanos + 1_000_000_000,
{
}

} // verus!
