//! How the length of a raw password is measured: in characters, with the
//! white space at both ends left out.

use vstd::prelude::*;

verus! {

/// Whether `c` is white space: a code point with the Unicode property `White_Space`.
pub open spec fn is_whitespace(c: char) -> bool {
    let n = c as u32;
    ||| 0x09 <= n <= 0x0D
    ||| n == 0x20
    ||| n == 0x85
    ||| n == 0xA0
    ||| n == 0x1680
    ||| 0x2000 <= n <= 0x200A
    ||| n == 0x2028
    ||| n == 0x2029
    ||| n == 0x202F
    ||| n == 0x205F
    ||| n == 0x3000
}

/// `s` without its leading white space.
pub open spec fn trim_start(s: Seq<char>) -> Seq<char>
    decreases s.len(),
{
    if s.len() > 0 && is_whitespace(s.first()) {
        trim_start(s.drop_first())
    } else {
        s
    }
}

/// `s` without its trailing white space.
pub open spec fn trim_end(s: Seq<char>) -> Seq<char>
    decreases s.len(),
{
    if s.len() > 0 && is_whitespace(s.last()) {
        trim_end(s.drop_last())
    } else {
        s
    }
}

/// `s` without the white space at either end.
pub open spec fn trimmed(s: Seq<char>) -> Seq<char> {
    trim_end(trim_start(s))
}

/// Trimming at the front drops exactly the white space before the first
/// character that is none.
pub proof fn lemma_trim_start_at(s: Seq<char>, k: int)
    requires
        0 <= k <= s.len(),
        forall|i: int| 0 <= i < k ==> is_whitespace(#[trigger] s[i]),
        k < s.len() ==> !is_whitespace(s[k]),
    ensures
        trim_start(s) == s.subrange(k, s.len() as int),
    decreases k,
{
    if k == 0 {
        assert(s.subrange(0, s.len() as int) =~= s);
    } else {
        let rest = s.drop_first();
        assert forall|i: int| 0 <= i < k - 1 implies is_whitespace(#[trigger] rest[i]) by {
            assert(rest[i] == s[i + 1]);
        }
        lemma_trim_start_at(rest, k - 1);
        assert(rest.subrange(k - 1, rest.len() as int) =~= s.subrange(k, s.len() as int));
    }
}

/// Trimming at the back drops exactly the white space after the last
/// character that is none.
pub proof fn lemma_trim_end_at(s: Seq<char>, k: int)
    requires
        0 <= k <= s.len(),
        forall|i: int| k <= i < s.len() ==> is_whitespace(#[trigger] s[i]),
        0 < k ==> !is_whitespace(s[k - 1]),
    ensures
        trim_end(s) == s.subrange(0, k),
    decreases s.len() - k,
{
    if k == s.len() {
        assert(s.subrange(0, k) =~= s);
    } else {
        let rest = s.drop_last();
        lemma_trim_end_at(rest, k);
        assert(rest.subrange(0, k) =~= s.subrange(0, k));
    }
}

/// Tells whether `c` is white space.
pub fn char_is_whitespace(c: char) -> (b: bool)
    ensures
        b == is_whitespace(c),
{
    let n: u32 = c as u32;
    (0x09 <= n && n <= 0x0D) || n == 0x20 || n == 0x85 || n == 0xA0 || n == 0x1680 || (0x2000 <= n
        && n <= 0x200A) || n == 0x2028 || n == 0x2029 || n == 0x202F || n == 0x205F || n == 0x3000
}

/// The number of characters of `raw` once the white space at both ends is
/// left out.
pub fn trimmed_char_count(raw: &str) -> (n: usize)
    ensures
        n == trimmed(raw@).len(),
{
    let total: usize = raw.unicode_len();
    let mut seen: usize = 0;
    let mut found: bool = false;
    let mut first: usize = 0;
    let mut end: usize = 0;
    for c in it: raw.chars()
        invariant
            it.seq() == raw@,
            total == raw@.len(),
            seen == it.index(),
            !found ==> forall|i: int| 0 <= i < seen ==> is_whitespace(#[trigger] raw@[i]),
            found ==> first < end <= seen,
            found ==> !is_whitespace(raw@[first as int]) && !is_whitespace(raw@[end - 1]),
            found ==> forall|i: int| 0 <= i < first ==> is_whitespace(#[trigger] raw@[i]),
            found ==> forall|i: int| end <= i < seen ==> is_whitespace(#[trigger] raw@[i]),
    {
        if !char_is_whitespace(c) {
            if !found {
                first = seen;
                found = true;
            }
            end = seen + 1;
        }
        seen = seen + 1;
    }
    proof {
        let s = raw@;
        if found {
            lemma_trim_start_at(s, first as int);
            let t = s.subrange(first as int, s.len() as int);
            assert forall|i: int| end - first <= i < t.len() implies is_whitespace(
                #[trigger] t[i],
            ) by {
                assert(t[i] == s[i + first]);
            }
            assert(t[end - first - 1] == s[end - 1]);
            lemma_trim_end_at(t, end - first);
        } else {
            lemma_trim_start_at(s, s.len() as int);
            assert(trim_start(s).len() == 0);
        }
    }
    if found {
        end - first
    } else {
        0
    }
}

} // verus!
