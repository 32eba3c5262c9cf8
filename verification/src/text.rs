//! Trimming of surrounding whitespace.

use vstd::prelude::*;
use vstd::string::*;

verus! {

/// `c` is whitespace as Unicode defines it (White_Space).
pub open spec fn is_whitespace(c: char) -> bool {
    ||| '\u{9}' <= c <= '\u{D}'
    ||| c == ' '
    ||| c == '\u{85}'
    ||| c == '\u{A0}'
    ||| c == '\u{1680}'
    ||| '\u{2000}' <= c <= '\u{200A}'
    ||| c == '\u{2028}'
    ||| c == '\u{2029}'
    ||| c == '\u{202F}'
    ||| c == '\u{205F}'
    ||| c == '\u{3000}'
}

/// `s` without its leading whitespace.
pub open spec fn trim_start(s: Seq<char>) -> Seq<char>
    decreases s.len(),
{
    if s.len() > 0 && is_whitespace(s.first()) {
        trim_start(s.drop_first())
    } else {
        s
    }
}

/// `s` without its trailing whitespace.
pub open spec fn trim_end(s: Seq<char>) -> Seq<char>
    decreases s.len(),
{
    if s.len() > 0 && is_whitespace(s.last()) {
        trim_end(s.drop_last())
    } else {
        s
    }
}

/// `s` without the whitespace at either end.
pub open spec fn trimmed(s: Seq<char>) -> Seq<char> {
    trim_end(trim_start(s))
}

/// Leading whitespace is all that `trim_start` takes away: what is left is
/// the end of `s`, and it does not begin with whitespace.
pub proof fn lemma_trim_start(s: Seq<char>)
    ensures
        trim_start(s).len() <= s.len(),
        trim_start(s) == s.subrange(s.len() - trim_start(s).len(), s.len() as int),
        forall|i: int| 0 <= i < s.len() - trim_start(s).len() ==> is_whitespace(#[trigger] s[i]),
        trim_start(s).len() > 0 ==> !is_whitespace(trim_start(s).first()),
    decreases s.len(),
{
    if s.len() > 0 && is_whitespace(s.first()) {
        let rest = s.drop_first();
        lemma_trim_start(rest);
        let cut = s.len() - trim_start(s).len();
        assert(trim_start(s) =~= s.subrange(cut, s.len() as int));
        assert forall|i: int| 0 <= i < cut implies is_whitespace(#[trigger] s[i]) by {
            if i > 0 {
                assert(s[i] == rest[i - 1]);
            }
        }
    } else {
        assert(s =~= s.subrange(0, s.len() as int));
    }
}

/// Trailing whitespace is all that `trim_end` takes away: what is left is
/// the beginning of `s`, and it does not end in whitespace.
pub proof fn lemma_trim_end(s: Seq<char>)
    ensures
        trim_end(s).len() <= s.len(),
        trim_end(s) == s.subrange(0, trim_end(s).len() as int),
        forall|i: int| trim_end(s).len() <= i < s.len() ==> is_whitespace(#[trigger] s[i]),
        trim_end(s).len() > 0 ==> !is_whitespace(trim_end(s).last()),
    decreases s.len(),
{
    if s.len() > 0 && is_whitespace(s.last()) {
        let rest = s.drop_last();
        lemma_trim_end(rest);
        assert(trim_end(s) =~= s.subrange(0, trim_end(s).len() as int));
        assert forall|i: int| trim_end(s).len() <= i < s.len() implies is_whitespace(
            #[trigger] s[i],
        ) by {
            if i < s.len() - 1 {
                assert(s[i] == rest[i]);
            }
        }
    } else {
        assert(s =~= s.subrange(0, s.len() as int));
    }
}

/// Trimmed text neither begins nor ends with whitespace, and trimming it
/// again changes nothing.
pub proof fn lemma_trimmed_is_clean(s: Seq<char>)
    ensures
        trimmed(s).len() > 0 ==> !is_whitespace(trimmed(s).first()) && !is_whitespace(
            trimmed(s).last(),
        ),
        trimmed(trimmed(s)) == trimmed(s),
{
    let a = trim_start(s);
    let t = trim_end(a);
    lemma_trim_start(s);
    lemma_trim_end(a);
    if t.len() > 0 {
        assert(t.first() == a.first());
    }
}

/// Tells whether `c` is whitespace.
pub fn is_whitespace_char(c: char) -> (b: bool)
    ensures
        b == is_whitespace(c),
{
    ('\u{9}' <= c && c <= '\u{D}') || c == ' ' || c == '\u{85}' || c == '\u{A0}' || c == '\u{1680}'
        || ('\u{2000}' <= c && c <= '\u{200A}') || c == '\u{2028}' || c == '\u{2029}' || c
        == '\u{202F}' || c == '\u{205F}' || c == '\u{3000}'
}

/// The text between the first and the last character of `s` that is not
/// whitespace; empty where `s` holds nothing else.
pub fn trim(s: &str) -> (t: String)
    ensures
        t@ == trimmed(s@),
{
    let n = s.unicode_len();
    let mut start: usize = 0;
    assert(s@.subrange(0, n as int) =~= s@);
    while start < n
        invariant
            start <= n,
            n == s@.len(),
            trim_start(s@) == trim_start(s@.subrange(start as int, n as int)),
        ensures
            start <= n,
            trim_start(s@) == s@.subrange(start as int, n as int),
        decreases n - start,
    {
        let c = s.get_char(start);
        if !is_whitespace_char(c) {
            break;
        }
        proof {
            assert(s@.subrange(start as int, n as int).drop_first() =~= s@.subrange(
                start as int + 1,
                n as int,
            ));
        }
        start = start + 1;
    }
    let mut end: usize = n;
    while end > start
        invariant
            start <= end <= n,
            n == s@.len(),
            trimmed(s@) == trim_end(s@.subrange(start as int, end as int)),
        ensures
            start <= end <= n,
            trimmed(s@) == s@.subrange(start as int, end as int),
        decreases end - start,
    {
        let c = s.get_char(end - 1);
        if !is_whitespace_char(c) {
            break;
        }
        proof {
            assert(s@.subrange(start as int, end as int).drop_last() =~= s@.subrange(
                start as int,
                end as int - 1,
            ));
        }
        end = end - 1;
    }
    String::from_str(s.substring_char(start, end))
}

} // verus!
