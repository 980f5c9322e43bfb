//! Redis glob patterns (as `KEYS` takes them): escaping a text so that it
//! matches only itself, and what a pattern of escaped text and `*` matches.

use vstd::prelude::*;

verus! {

/// The characters that mean something in a Redis glob pattern.
pub open spec fn is_glob_special(c: char) -> bool {
    c == '\\' || c == '*' || c == '?' || c == '[' || c == ']'
}

/// One character of a text, as it stands in a pattern that matches the text
/// literally: a special character gets a backslash in front.
pub open spec fn escaped_char(c: char) -> Seq<char> {
    if is_glob_special(c) {
        seq!['\\', c]
    } else {
        seq![c]
    }
}

/// A text with every special character escaped.
pub open spec fn glob_escape(s: Seq<char>) -> Seq<char>
    decreases s.len(),
{
    if s.len() == 0 {
        Seq::empty()
    } else {
        escaped_char(s[0]) + glob_escape(s.drop_first())
    }
}

/// Whether `key` matches `pattern`, for patterns whose `[` are all escaped
/// (Redis's glob matching without character classes): `*` matches any run
/// of characters, `?` any one character, a backslash makes the next
/// character literal, and any other character matches itself.
pub open spec fn glob_match(pattern: Seq<char>, key: Seq<char>) -> bool
    decreases pattern.len(),
{
    if pattern.len() == 0 {
        key.len() == 0
    } else if pattern[0] == '*' {
        exists|i: int| 0 <= i <= key.len() && glob_match(pattern.drop_first(), #[trigger] key.skip(i))
    } else if pattern[0] == '\\' && pattern.len() >= 2 {
        key.len() > 0 && key[0] == pattern[1] && glob_match(pattern.skip(2), key.drop_first())
    } else if pattern[0] == '?' {
        key.len() > 0 && glob_match(pattern.drop_first(), key.drop_first())
    } else {
        key.len() > 0 && key[0] == pattern[0] && glob_match(pattern.drop_first(), key.drop_first())
    }
}

proof fn glob_escape_concat(a: Seq<char>, b: Seq<char>)
    ensures
        glob_escape(a + b) == glob_escape(a) + glob_escape(b),
    decreases a.len(),
{
    if a.len() == 0 {
        assert(a + b =~= b);
    } else {
        assert((a + b).drop_first() =~= a.drop_first() + b);
        glob_escape_concat(a.drop_first(), b);
        assert(glob_escape(a + b) =~= glob_escape(a) + glob_escape(b));
    }
}

/// `text` with `*` after it matches exactly the keys that start with `text`.
pub proof fn escaped_prefix_matches_exactly(text: Seq<char>, key: Seq<char>)
    ensures
        glob_match(glob_escape(text) + seq!['*'], key) <==> (text.len() <= key.len()
            && key.subrange(0, text.len() as int) == text),
    decreases text.len(),
{
    let p = glob_escape(text) + seq!['*'];
    if text.len() == 0 {
        assert(p =~= seq!['*']);
        assert(p.drop_first() =~= Seq::<char>::empty());
        assert(key.skip(key.len() as int) =~= Seq::<char>::empty());
        assert(glob_match(p.drop_first(), key.skip(key.len() as int)));
        assert(key.subrange(0, 0) =~= text);
    } else {
        let c = text[0];
        let rest = glob_escape(text.drop_first()) + seq!['*'];
        assert(p =~= escaped_char(c) + rest);
        if key.len() > 0 {
            escaped_prefix_matches_exactly(text.drop_first(), key.drop_first());
        }
        if is_glob_special(c) {
            assert(p[0] == '\\' && p[1] == c);
            assert(p.skip(2) =~= rest);
        } else {
            assert(p[0] == c);
            assert(p.drop_first() =~= rest);
        }
        if key.len() > 0 && key[0] == c {
            if text.len() <= key.len() {
                let n = text.len() as int;
                if key.subrange(0, n) =~= text {
                    assert(key.drop_first().subrange(0, n - 1) =~= text.drop_first());
                }
                if key.drop_first().subrange(0, n - 1) =~= text.drop_first() {
                    assert forall|j: int| 0 <= j < n implies key.subrange(0, n)[j] == text[j] by {
                        if j > 0 {
                            assert(key.drop_first().subrange(0, n - 1)[j - 1] == text.drop_first()[
                                j - 1
                            ]);
                        }
                    }
                    assert(key.subrange(0, n) =~= text);
                }
            }
        }
        if text.len() <= key.len() && key.subrange(0, text.len() as int) == text {
            assert(key[0] == key.subrange(0, text.len() as int)[0]);
        }
    }
}

/// Escapes the special characters of `s`, so that the result, as a pattern,
/// matches `s` only.
pub fn escape_glob(s: &str) -> (escaped: String)
    ensures
        escaped@ == glob_escape(s@),
{
    let n = s.unicode_len();
    let mut escaped = String::new();
    let mut i: usize = 0;
    while i < n
        invariant
            n == s@.len(),
            i <= n,
            escaped@ == glob_escape(s@.subrange(0, i as int)),
        decreases n - i,
    {
        let c = s.get_char(i);
        let piece = s.substring_char(i, i + 1);
        if c == '\\' || c == '*' || c == '?' || c == '[' || c == ']' {
            proof { reveal_strlit("\\"); }
            escaped.append("\\");
        }
        escaped.append(piece);
        proof {
            let before = s@.subrange(0, i as int);
            assert(s@.subrange(0, i + 1) =~= before + seq![c]);
            glob_escape_concat(before, seq![c]);
            assert(seq![c].drop_first() =~= Seq::<char>::empty());
            assert(glob_escape(Seq::<char>::empty()) =~= Seq::<char>::empty());
            assert(glob_escape(seq![c]) =~= escaped_char(c));
            assert(piece@ =~= seq![c]);
            assert(escaped@ =~= glob_escape(before) + escaped_char(c));
        }
        i = i + 1;
    }
    proof {
        assert(s@.subrange(0, n as int) =~= s@);
    }
    escaped
}

} // verus!
