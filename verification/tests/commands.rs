use fnct::commands::{
    checked_put_pipeline, expiry, get_command, tag_members_command, ttl_in_seconds, pop_key_command, pop_tag_pipeline, pop_tags_pipeline, pop_tags_query, put_pipeline,
    TagQuery,
};
use fnct::pipeline::decimal_bytes;
use redis::{Arg, Cmd, Pipeline};

fn args(c: &Cmd) -> Vec<Vec<u8>> {
    c.args_iter()
        .map(|a| match a {
            Arg::Simple(bytes) => bytes.to_vec(),
            Arg::Cursor => panic!("no cursor expected"),
        })
        .collect()
}

fn commands(p: &Pipeline) -> Vec<Vec<Vec<u8>>> {
    p.cmd_iter().map(args).collect()
}

fn cmd(parts: &[&[u8]]) -> Vec<Vec<u8>> {
    parts.iter().map(|p| p.to_vec()).collect()
}

#[test]
fn put_without_tags_is_one_setex() {
    let p = put_pipeline("ns", "k", b"value", &[], 20, 1_000);
    assert_eq!(commands(&p), vec![cmd(&[b"SETEX", b"ns:cache:k", b"20", b"value"])]);
}

#[test]
fn put_with_tags_registers_the_entry_under_each_tag() {
    let p = put_pipeline("app", "key", &[1, 2, 3], &["t1", "t2"], 600, 1_700_000_000);
    assert_eq!(
        commands(&p),
        vec![
            cmd(&[b"SETEX", b"app:cache:key", b"600", &[1, 2, 3]]),
            cmd(&[b"ZREMRANGEBYSCORE", b"app:tag:t1", b"-inf", b"1700000000"]),
            cmd(&[b"ZADD", b"app:tag:t1", b"1700000600", b"key"]),
            cmd(&[b"EXPIRE", b"app:tag:t1", b"600", b"NX"]),
            cmd(&[b"EXPIRE", b"app:tag:t1", b"600", b"GT"]),
            cmd(&[b"ZREMRANGEBYSCORE", b"app:tag:t2", b"-inf", b"1700000000"]),
            cmd(&[b"ZADD", b"app:tag:t2", b"1700000600", b"key"]),
            cmd(&[b"EXPIRE", b"app:tag:t2", b"600", b"NX"]),
            cmd(&[b"EXPIRE", b"app:tag:t2", b"600", b"GT"]),
        ]
    );
}

#[test]
fn put_with_zero_time() {
    let p = put_pipeline("n", "k", b"", &["t"], 0, 0);
    let c = commands(&p);
    assert_eq!(c[0], cmd(&[b"SETEX", b"n:cache:k", b"0", b""]));
    assert_eq!(c[2], cmd(&[b"ZADD", b"n:tag:t", b"0", b"k"]));
}

#[test]
fn pop_tag_deletes_members_then_the_tag() {
    let members = vec!["a".to_owned(), "b".to_owned()];
    let p = pop_tag_pipeline("ns", "t3", &members);
    assert_eq!(
        commands(&p),
        vec![
            cmd(&[b"DEL", b"ns:cache:a"]),
            cmd(&[b"DEL", b"ns:cache:b"]),
            cmd(&[b"DEL", b"ns:tag:t3"]),
        ]
    );
}

#[test]
fn pop_tag_with_no_members_deletes_the_tag_only() {
    let p = pop_tag_pipeline("ns", "t", &[]);
    assert_eq!(commands(&p), vec![cmd(&[b"DEL", b"ns:tag:t"])]);
}

#[test]
fn pop_tags_without_tags_lists_all_entries() {
    match pop_tags_query("ns", &[]) {
        TagQuery::AllEntries(c) => assert_eq!(args(&c), cmd(&[b"KEYS", b"ns:cache:*"])),
        TagQuery::Intersection(_) => panic!("expected a listing of all entries"),
    }
    let found = vec!["ns:cache:x".to_owned(), "ns:cache:y".to_owned()];
    let p = pop_tags_pipeline("ns", &[], &found);
    assert_eq!(
        commands(&p),
        vec![cmd(&[b"DEL", b"ns:cache:x"]), cmd(&[b"DEL", b"ns:cache:y"])]
    );
}

#[test]
fn pop_tags_intersects_the_tag_sets() {
    match pop_tags_query("ns", &["t2", "t3"]) {
        TagQuery::Intersection(c) => {
            assert_eq!(args(&c), cmd(&[b"ZINTER", b"2", b"ns:tag:t2", b"ns:tag:t3"]))
        }
        TagQuery::AllEntries(_) => panic!("expected an intersection"),
    }
    let found = vec!["foo".to_owned()];
    let p = pop_tags_pipeline("ns", &["t2", "t3"], &found);
    assert_eq!(commands(&p), vec![cmd(&[b"DEL", b"ns:cache:foo"])]);
}

#[test]
fn pop_tags_with_nothing_found_is_empty() {
    let p = pop_tags_pipeline("ns", &["t1"], &[]);
    assert!(commands(&p).is_empty());
}

#[test]
fn decimal_digits() {
    assert_eq!(decimal_bytes(0), b"0".to_vec());
    assert_eq!(decimal_bytes(7), b"7".to_vec());
    assert_eq!(decimal_bytes(10), b"10".to_vec());
    assert_eq!(decimal_bytes(1234567890), b"1234567890".to_vec());
    assert_eq!(decimal_bytes(u64::MAX), b"18446744073709551615".to_vec());
}

#[test]
fn get_and_pop_key_commands() {
    assert_eq!(args(&get_command("ns", "foo")), cmd(&[b"GET", b"ns:cache:foo"]));
    assert_eq!(args(&pop_key_command("ns", "foo")), cmd(&[b"DEL", b"ns:cache:foo"]));
}

#[test]
fn get_and_pop_key_target_what_put_wrote() {
    let put = commands(&put_pipeline("ns", "foo", b"bar", &["t1"], 20, 100));
    assert_eq!(args(&get_command("ns", "foo"))[1], put[0][1]);
    assert_eq!(args(&pop_key_command("ns", "foo"))[1], put[0][1]);
}

#[test]
fn pop_tag_deletes_what_put_wrote() {
    let put = commands(&put_pipeline("ns", "foo", b"1", &["t1", "t2", "t3"], 20, 100));
    // the entry is a member of the set of its tag t3
    assert_eq!(put[4 * 2 + 2], cmd(&[b"ZADD", b"ns:tag:t3", b"120", b"foo"]));
    let members = vec!["baz".to_owned(), "foo".to_owned()];
    let pop = commands(&pop_tag_pipeline("ns", "t3", &members));
    assert_eq!(pop[1], vec![b"DEL".to_vec(), put[0][1].clone()]);
    assert_eq!(pop[2], cmd(&[b"DEL", b"ns:tag:t3"]));
}

#[test]
fn pop_tags_deletes_what_put_wrote() {
    let put = commands(&put_pipeline("ns", "foo", b"1", &["t1", "t2"], 20, 100));
    let by_tags = commands(&pop_tags_pipeline("ns", &["t1", "t2"], &["foo".to_owned()]));
    assert_eq!(by_tags[0], vec![b"DEL".to_vec(), put[0][1].clone()]);
    let all = commands(&pop_tags_pipeline("ns", &[], &["ns:cache:foo".to_owned()]));
    assert_eq!(all[0], vec![b"DEL".to_vec(), put[0][1].clone()]);
}

#[test]
fn expiry_is_checked() {
    assert_eq!(expiry(600, 1_700_000_000), Some(1_700_000_600));
    assert_eq!(expiry(0, u64::MAX), Some(u64::MAX));
    assert_eq!(expiry(1, u64::MAX), None);
}

#[test]
fn checked_put_refuses_an_overflowing_expiry() {
    assert!(checked_put_pipeline("ns", "k", b"v", &["t"], 1, 0, u64::MAX).is_none());
    assert!(checked_put_pipeline("ns", "k", b"v", &["t"], u64::MAX, 1, 0).is_none());
    let p = checked_put_pipeline("ns", "k", b"v", &[], 20, 0, 100).unwrap();
    assert_eq!(commands(&p), vec![cmd(&[b"SETEX", b"ns:cache:k", b"20", b"v"])]);
}

#[test]
fn sub_second_time_to_live_rounds_up() {
    assert_eq!(ttl_in_seconds(1, 500_000_000), Some(2));
    assert_eq!(ttl_in_seconds(0, 500_000_000), Some(1));
    assert_eq!(ttl_in_seconds(20, 0), Some(20));
    assert_eq!(ttl_in_seconds(u64::MAX, 0), Some(u64::MAX));
    assert_eq!(ttl_in_seconds(u64::MAX, 1), None);
    let p = checked_put_pipeline("ns", "k", b"v", &["t"], 1, 500_000_000, 100).unwrap();
    let c = commands(&p);
    assert_eq!(c[0], cmd(&[b"SETEX", b"ns:cache:k", b"2", b"v"]));
    assert_eq!(c[2], cmd(&[b"ZADD", b"ns:tag:t", b"102", b"k"]));
}

#[test]
fn tag_members_are_read_with_zrange() {
    assert_eq!(args(&tag_members_command("ns", "t3")), cmd(&[b"ZRANGE", b"ns:tag:t3", b"0", b"-1"]));
    let put = commands(&put_pipeline("ns", "foo", b"1", &["t3"], 20, 100));
    assert_eq!(args(&tag_members_command("ns", "t3"))[1], put[2][1]);
}

#[test]
fn keys_pattern_escapes_the_namespace() {
    match pop_tags_query("a*b?[c]\\", &[]) {
        TagQuery::AllEntries(c) => {
            assert_eq!(args(&c), cmd(&[b"KEYS", b"a\\*b\\?\\[c\\]\\\\:cache:*"]))
        }
        TagQuery::Intersection(_) => panic!("expected a listing of all entries"),
    }
}
