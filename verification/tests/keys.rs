use fnct::commands::{cache_key, cache_key_pattern, tag_key};
use fnct::glob::escape_glob;
use fnct::format::{JsonFormatter, PostcardFormatter};
use fnct::key::to_hex_lower;
use fnct::make_key;

const ABC_DIGEST: &str = "ddaf35a193617abacc417349ae20413112e6fa4e89a97ea20a9eeee64b55d39a2192992a274fc1a836ba3c23a3feebbd454d4423643ce80e2a9ac94fa54ca49f";

#[test]
fn make_key_of_abc_is_its_sha512_in_hex() {
    assert_eq!(make_key(b"abc", "postcard"), format!("{}:postcard", ABC_DIGEST));
}

#[test]
fn make_key_of_empty_input() {
    assert_eq!(
        make_key(b"", "json"),
        "cf83e1357eefb8bdf1542850d66d8007d620e4050b5715dc83f4a921d36ce9ce47d0d13c5d85f2b0ff8318d2877eec2f63b931bd47417a81a538327af927da3e:json"
    );
}

#[test]
fn make_key_of_a_postcard_string_key() {
    let serialized = postcard::to_stdvec("foo").unwrap();
    assert_eq!(serialized, vec![3, b'f', b'o', b'o']);
    assert_eq!(
        make_key(&serialized, PostcardFormatter.id()),
        "2e74cbaa45be392a35aead5ee717d352f3c695cb540b41071fd545ea8714cd9a4b679709a54282bc3ea5de5b83887380b7153bc24286d3fceedbbd5820f8e8d3:postcard"
    );
}

#[test]
fn make_key_differs_by_formatter() {
    let a = make_key(b"abc", PostcardFormatter.id());
    let b = make_key(b"abc", JsonFormatter.id());
    assert_ne!(a, b);
    assert_eq!(a[..128], b[..128]);
}

#[test]
fn make_key_is_deterministic_and_separates_inputs() {
    assert_eq!(make_key(b"k1", "postcard"), make_key(b"k1", "postcard"));
    assert_ne!(make_key(b"k1", "postcard"), make_key(b"k2", "postcard"));
    assert_eq!(make_key(b"k1", "postcard").len(), 128 + 1 + 8);
}

#[test]
fn formatter_ids() {
    assert_eq!(PostcardFormatter.id(), "postcard");
    assert_eq!(JsonFormatter.id(), "json");
}

#[test]
fn hex_is_lower_case_two_digits_per_byte() {
    assert_eq!(to_hex_lower(&[0x0a, 0x14, 0x1e]), "0a141e");
    assert_eq!(to_hex_lower(&[0x00, 0xff, 0xab, 0x09]), "00ffab09");
    assert_eq!(to_hex_lower(&[]), "");
}

#[test]
fn redis_key_layout() {
    assert_eq!(cache_key("ns", "abc:postcard"), "ns:cache:abc:postcard");
    assert_eq!(tag_key("ns", "t1"), "ns:tag:t1");
    assert_eq!(cache_key_pattern("my_application"), "my_application:cache:*");
    assert_eq!(cache_key("", ""), ":cache:");
}

#[test]
fn entry_and_tag_keys_differ_in_one_namespace() {
    assert_ne!(cache_key("ns", "x"), tag_key("ns", "x"));
    assert!(cache_key("ns", "anything").starts_with(&cache_key_pattern("ns")[..9]));
}

#[test]
fn different_keys_are_stored_apart() {
    assert_ne!(cache_key("ns", "a"), cache_key("ns", "b"));
    assert_ne!(to_hex_lower(&[0x01, 0x02]), to_hex_lower(&[0x01, 0x03]));
    assert_ne!(to_hex_lower(&[0x01]), to_hex_lower(&[0x10]));
}

#[test]
fn make_key_length() {
    assert_eq!(make_key(b"anything", "postcard").len(), 129 + "postcard".len());
    assert_eq!(make_key(b"", "").len(), 129);
}

#[test]
fn glob_escaping() {
    assert_eq!(escape_glob("plain:ns"), "plain:ns");
    assert_eq!(escape_glob("a*"), "a\\*");
    assert_eq!(escape_glob("?[]\\"), "\\?\\[\\]\\\\");
    assert_eq!(escape_glob("ünï*"), "ünï\\*");
    assert_eq!(cache_key_pattern("a*"), "a\\*:cache:*");
}
