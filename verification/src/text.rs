//! Whitespace and trimming of the text that a user types.

use vstd::prelude::*;

verus! {

/// Whether `c` has the Unicode property `White_Space`.
pub open spec fn is_whitespace(c: char) -> bool {
    let n = c as u32;
    ||| 0x09 <= n <= 0x0D
    ||| n == 0x20
    ||| n == 0x85
    ||| n == 0xA0
    ||| n == 0x1680
    ||| 0x2000 <= n <= 0x200A
    ||| n == 0x2028
    ||| n == 0x2029
    ||| n == 0x202F
    ||| n == 0x205F
    ||| n == 0x3000
}

/// `s` without its leading whitespace.
pub open spec fn trim_start(s: Seq<char>) -> Seq<char>
    decreases s.len(),
{
    if s.len() > 0 && is_whitespace(s.first()) {
        trim_start(s.drop_first())
    } else {
        s
    }
}

/// `s` without its trailing whitespace.
pub open spec fn trim_end(s: Seq<char>) -> Seq<char>
    decreases s.len(),
{
    if s.len() > 0 && is_whitespace(s.last()) {
        trim_end(s.drop_last())
    } else {
        s
    }
}

/// `s` without its leading and trailing whitespace.
pub open spec fn trimmed(s: Seq<char>) -> Seq<char> {
    trim_end(trim_start(s))
}

/// Whether `s` holds nothing but whitespace; the empty text does.
pub open spec fn is_blank(s: Seq<char>) -> bool {
    forall|i: int| 0 <= i < s.len() ==> is_whitespace(#[trigger] s[i])
}

/// `str::trim` of std: the slice of `s` that is left when the leading and the
/// trailing whitespace is removed, whitespace being the characters with the
/// Unicode property `White_Space`. Not proved: that std removes just these.
#[verifier::external_body]
pub(crate) fn trim(s: &str) -> (r: &str)
    ensures
        r@ == trimmed(s@),
{
    s.trim()
}

/// Whether two texts hold the same characters.
pub fn same_text(a: &str, b: &str) -> (same: bool)
    ensures
        same == (a@ == b@),
{
    let left = a.to_owned();
    let right = b.to_owned();
    left == right
}

/// Trimming the start leaves a suffix of the text that does not begin with
/// whitespace, and drops whitespace only.
pub proof fn lemma_trim_start(s: Seq<char>)
    ensures
        exists|k: int|
            0 <= k <= s.len() && #[trigger] s.subrange(k, s.len() as int) == trim_start(s)
                && is_blank(s.subrange(0, k)),
        trim_start(s).len() > 0 ==> !is_whitespace(trim_start(s).first()),
    decreases s.len(),
{
    if s.len() > 0 && is_whitespace(s.first()) {
        let rest = s.drop_first();
        lemma_trim_start(rest);
        let k = choose|k: int|
            0 <= k <= rest.len() && #[trigger] rest.subrange(k, rest.len() as int) == trim_start(
                rest,
            ) && is_blank(rest.subrange(0, k));
        assert(s.subrange(k + 1, s.len() as int) =~= rest.subrange(k, rest.len() as int));
        assert forall|i: int| 0 <= i < k + 1 implies is_whitespace(
            #[trigger] s.subrange(0, k + 1)[i],
        ) by {
            if i > 0 {
                assert(s.subrange(0, k + 1)[i] == rest.subrange(0, k)[i - 1]);
            }
        }
    } else {
        assert(s.subrange(0, s.len() as int) =~= s);
    }
}

/// Trimming the end leaves a prefix of the text that does not end with
/// whitespace, and drops whitespace only.
pub proof fn lemma_trim_end(s: Seq<char>)
    ensures
        exists|k: int|
            0 <= k <= s.len() && #[trigger] s.subrange(0, k) == trim_end(s) && is_blank(
                s.subrange(k, s.len() as int),
            ),
        trim_end(s).len() > 0 ==> !is_whitespace(trim_end(s).last()),
    decreases s.len(),
{
    if s.len() > 0 && is_whitespace(s.last()) {
        let rest = s.drop_last();
        lemma_trim_end(rest);
        let k = choose|k: int|
            0 <= k <= rest.len() && #[trigger] rest.subrange(0, k) == trim_end(rest) && is_blank(
                rest.subrange(k, rest.len() as int),
            );
        assert(s.subrange(0, k) =~= rest.subrange(0, k));
        assert forall|i: int| 0 <= i < s.len() - k implies is_whitespace(
            #[trigger] s.subrange(k, s.len() as int)[i],
        ) by {
            if i < rest.len() - k {
                assert(s.subrange(k, s.len() as int)[i] == rest.subrange(k, rest.len() as int)[i]);
            }
        }
    } else {
        assert(s.subrange(0, s.len() as int) =~= s);
    }
}

/// A text trims to nothing exactly when it is blank.
pub proof fn lemma_trimmed_empty(s: Seq<char>)
    ensures
        trimmed(s).len() == 0 <==> is_blank(s),
{
    lemma_trim_start(s);
    let inner = trim_start(s);
    lemma_trim_end(inner);
    let a = choose|k: int|
        0 <= k <= s.len() && #[trigger] s.subrange(k, s.len() as int) == trim_start(s) && is_blank(
            s.subrange(0, k),
        );
    let b = choose|k: int|
        0 <= k <= inner.len() && #[trigger] inner.subrange(0, k) == trim_end(inner) && is_blank(
            inner.subrange(k, inner.len() as int),
        );
    if trimmed(s).len() == 0 {
        assert(b == 0);
        assert forall|i: int| 0 <= i < s.len() implies is_whitespace(#[trigger] s[i]) by {
            if i < a {
                assert(s[i] == s.subrange(0, a)[i]);
            } else {
                assert(s[i] == inner.subrange(0, inner.len() as int)[i - a]);
            }
        }
    }
    if is_blank(s) {
        if trimmed(s).len() > 0 {
            let last = trimmed(s).len() - 1;
            assert(trimmed(s).last() == s[a + last]);
        }
    }
}

} // verus!
