//! Cache keys: the SHA-512 digest of a serialized key, in lower-case hex,
//! followed by the identifier of the formatter that encodes the values.

use vstd::prelude::*;
use sha2::Digest;

verus! {

/// What SHA-512 gives for a byte string.
pub uninterp spec fn sha512_digest(data: Seq<u8>) -> Seq<u8>;

/// Calls `sha2::Sha512::digest` (through `sha2::Digest::digest`).
/// The contract claims that the result is the digest named by
/// `sha512_digest` on the same bytes, and that it is 64 bytes long: the
/// output size of `Sha512` in `sha2` is `U64`.
#[verifier::external_body]
fn sha512(data: &[u8]) -> (digest: Vec<u8>)
    ensures
        digest@ == sha512_digest(data@),
        digest@.len() == 64,
{
    sha2::Sha512::digest(data).to_vec()
}

/// The lower-case hexadecimal digit for `d`, which must be below 16.
pub open spec fn hex_char(d: int) -> char {
    seq!['0', '1', '2', '3', '4', '5', '6', '7', '8', '9', 'a', 'b', 'c', 'd', 'e', 'f'][d]
}

/// Lower-case hexadecimal text of a byte string: two digits per byte, the
/// high nibble first.
pub open spec fn hex_lower(bytes: Seq<u8>) -> Seq<char>
    decreases bytes.len(),
{
    if bytes.len() == 0 {
        Seq::empty()
    } else {
        let b = bytes.last();
        hex_lower(bytes.drop_last()) + seq![hex_char(b as int / 16), hex_char(b as int % 16)]
    }
}

/// The key under which a value is cached: the hex digest of the serialized
/// key, a colon, and the formatter's identifier.
pub open spec fn cache_key_for(serialized_key: Seq<u8>, formatter_id: Seq<char>) -> Seq<char> {
    hex_lower(sha512_digest(serialized_key)) + seq![':'] + formatter_id
}

fn hex_digit(d: u8) -> (s: &'static str)
    requires
        d < 16,
    ensures
        s@ == seq![hex_char(d as int)],
{
    if d == 0 {
        proof { reveal_strlit("0"); }
        "0"
    } else if d == 1 {
        proof { reveal_strlit("1"); }
        "1"
    } else if d == 2 {
        proof { reveal_strlit("2"); }
        "2"
    } else if d == 3 {
        proof { reveal_strlit("3"); }
        "3"
    } else if d == 4 {
        proof { reveal_strlit("4"); }
        "4"
    } else if d == 5 {
        proof { reveal_strlit("5"); }
        "5"
    } else if d == 6 {
        proof { reveal_strlit("6"); }
        "6"
    } else if d == 7 {
        proof { reveal_strlit("7"); }
        "7"
    } else if d == 8 {
        proof { reveal_strlit("8"); }
        "8"
    } else if d == 9 {
        proof { reveal_strlit("9"); }
        "9"
    } else if d == 10 {
        proof { reveal_strlit("a"); }
        "a"
    } else if d == 11 {
        proof { reveal_strlit("b"); }
        "b"
    } else if d == 12 {
        proof { reveal_strlit("c"); }
        "c"
    } else if d == 13 {
        proof { reveal_strlit("d"); }
        "d"
    } else if d == 14 {
        proof { reveal_strlit("e"); }
        "e"
    } else {
        proof { reveal_strlit("f"); }
        "f"
    }
}

/// Writes `bytes` as lower-case hexadecimal, two digits per byte.
pub fn to_hex_lower(bytes: &[u8]) -> (text: String)
    ensures
        text@ == hex_lower(bytes@),
{
    let mut text = String::new();
    let mut i: usize = 0;
    while i < bytes.len()
        invariant
            i <= bytes@.len(),
            text@ == hex_lower(bytes@.subrange(0, i as int)),
        decreases bytes@.len() - i,
    {
        let b = bytes[i];
        text.append(hex_digit(b / 16));
        text.append(hex_digit(b % 16));
        proof {
            let next = bytes@.subrange(0, i + 1);
            assert(next.drop_last() =~= bytes@.subrange(0, i as int));
            assert(next.last() == b);
        }
        i = i + 1;
    }
    proof {
        assert(bytes@.subrange(0, bytes@.len() as int) =~= bytes@);
    }
    text
}

/// Derives the cache key of an entry from its serialized key and the
/// identifier of the formatter that encodes the entry's value.
pub fn make_key(serialized_key: &[u8], formatter_id: &str) -> (key: String)
    ensures
        key@ == cache_key_for(serialized_key@, formatter_id@),
        key@.len() == 129 + formatter_id@.len(),
{
    let digest = sha512(serialized_key);
    proof {
        hex_lower_shape(digest@);
    }
    let mut key = to_hex_lower(digest.as_slice());
    proof { reveal_strlit(":"); }
    key.append(":");
    key.append(formatter_id);
    key
}

proof fn hex_char_injective(a: int, b: int)
    requires
        0 <= a < 16,
        0 <= b < 16,
        hex_char(a) == hex_char(b),
    ensures
        a == b,
{
    let digits = seq!['0', '1', '2', '3', '4', '5', '6', '7', '8', '9', 'a', 'b', 'c', 'd', 'e', 'f'];
    assert(digits[a] == digits[b]);
}

proof fn hex_lower_shape(bytes: Seq<u8>)
    ensures
        hex_lower(bytes).len() == 2 * bytes.len(),
        forall|i: int| 0 <= i < hex_lower(bytes).len() ==> #[trigger] hex_lower(bytes)[i] != ':',
    decreases bytes.len(),
{
    if bytes.len() > 0 {
        hex_lower_shape(bytes.drop_last());
        let b = bytes.last();
        let hi = hex_char(b as int / 16);
        let lo = hex_char(b as int % 16);
        assert(hi != ':' && lo != ':');
    }
}

/// Hex text determines the bytes it was written from.
pub proof fn hex_lower_injective(a: Seq<u8>, b: Seq<u8>)
    requires
        hex_lower(a) == hex_lower(b),
    ensures
        a == b,
    decreases a.len(),
{
    hex_lower_shape(a);
    hex_lower_shape(b);
    if a.len() > 0 {
        let ha = hex_lower(a);
        let n = ha.len() as int;
        let x = a.last();
        let y = b.last();
        assert(ha[n - 2] == hex_char(x as int / 16));
        assert(hex_lower(b)[n - 2] == hex_char(y as int / 16));
        assert(ha[n - 1] == hex_char(x as int % 16));
        assert(hex_lower(b)[n - 1] == hex_char(y as int % 16));
        hex_char_injective(x as int / 16, y as int / 16);
        hex_char_injective(x as int % 16, y as int % 16);
        assert(ha.subrange(0, n - 2) =~= hex_lower(a.drop_last()));
        assert(hex_lower(b).subrange(0, n - 2) =~= hex_lower(b.drop_last()));
        hex_lower_injective(a.drop_last(), b.drop_last());
        assert(a =~= a.drop_last().push(x));
        assert(b =~= b.drop_last().push(y));
    }
}

/// Two cache keys are equal exactly when the digests of the serialized keys
/// are equal and the formatters are the same: values in one format never
/// land where another format's values are read.
pub proof fn cache_keys_equal_iff(
    key1: Seq<u8>,
    id1: Seq<char>,
    key2: Seq<u8>,
    id2: Seq<char>,
)
    ensures
        cache_key_for(key1, id1) == cache_key_for(key2, id2) <==> (sha512_digest(key1)
            == sha512_digest(key2) && id1 == id2),
{
    let d1 = sha512_digest(key1);
    let d2 = sha512_digest(key2);
    let h1 = hex_lower(d1);
    let h2 = hex_lower(d2);
    let k1 = cache_key_for(key1, id1);
    let k2 = cache_key_for(key2, id2);
    if k1 == k2 {
        hex_lower_shape(d1);
        hex_lower_shape(d2);
        if h1.len() < h2.len() {
            assert(k1[h1.len() as int] == ':');
            assert(k2[h1.len() as int] == h2[h1.len() as int]);
        } else if h2.len() < h1.len() {
            assert(k2[h2.len() as int] == ':');
            assert(k1[h2.len() as int] == h1[h2.len() as int]);
        }
        assert(h1.len() == h2.len());
        assert(k1.subrange(0, h1.len() as int) =~= h1);
        assert(k2.subrange(0, h2.len() as int) =~= h2);
        hex_lower_injective(d1, d2);
        assert(k1.skip(h1.len() as int + 1) =~= id1);
        assert(k2.skip(h2.len() as int + 1) =~= id2);
    }
}

/// Hex text holds two lower-case digits per byte, high nibble first:
/// `0`-`9` for the values 0 to 9 and `a`-`f` for 10 to 15.
pub proof fn hex_lower_writes_each_byte(bytes: Seq<u8>)
    ensures
        hex_lower(bytes).len() == 2 * bytes.len(),
        forall|i: int|
            0 <= i < bytes.len() ==> {
                &&& #[trigger] hex_lower(bytes)[2 * i] == seq![
                    '0', '1', '2', '3', '4', '5', '6', '7', '8', '9', 'a', 'b', 'c', 'd', 'e', 'f'
                ][bytes[i] as int / 16]
                &&& hex_lower(bytes)[2 * i + 1] == seq![
                    '0', '1', '2', '3', '4', '5', '6', '7', '8', '9', 'a', 'b', 'c', 'd', 'e', 'f'
                ][bytes[i] as int % 16]
            },
    decreases bytes.len(),
{
    hex_lower_shape(bytes);
    if bytes.len() > 0 {
        let init = bytes.drop_last();
        hex_lower_writes_each_byte(init);
        assert forall|i: int| 0 <= i < bytes.len() implies {
            &&& #[trigger] hex_lower(bytes)[2 * i] == seq![
                '0', '1', '2', '3', '4', '5', '6', '7', '8', '9', 'a', 'b', 'c', 'd', 'e', 'f'
            ][bytes[i] as int / 16]
            &&& hex_lower(bytes)[2 * i + 1] == seq![
                '0', '1', '2', '3', '4', '5', '6', '7', '8', '9', 'a', 'b', 'c', 'd', 'e', 'f'
            ][bytes[i] as int % 16]
        } by {
            if i < bytes.len() - 1 {
                assert(init[i] == bytes[i]);
                assert(hex_lower(bytes)[2 * i] == hex_lower(init)[2 * i]);
                assert(hex_lower(bytes)[2 * i + 1] == hex_lower(init)[2 * i + 1]);
            }
        }
    }
}

/// A cache key is the hex digest of the serialized key, a colon, and the
/// formatter's identifier, in that order.
pub proof fn cache_key_layout(serialized_key: Seq<u8>, formatter_id: Seq<char>)
    ensures
        cache_key_for(serialized_key, formatter_id) == hex_lower(sha512_digest(serialized_key))
            + ":"@ + formatter_id,
{
    reveal_strlit(":");
}

} // verus!
