//! Splitting of identifiers and paths at a separator character.

use vstd::prelude::*;

verus! {

/// The part of `s` before the first occurrence of `sep` (all of `s` where
/// `sep` does not occur), as `s.split(sep).next()` gives it.
pub open spec fn first_segment(s: Seq<char>, sep: char) -> Seq<char>
    decreases s.len(),
{
    if s.len() == 0 {
        s
    } else if s[0] == sep {
        Seq::empty()
    } else {
        seq![s[0]] + first_segment(s.drop_first(), sep)
    }
}

/// The first segment is a prefix of the string, free of the separator, and
/// is the whole string exactly when the separator does not occur.
pub proof fn lemma_first_segment(s: Seq<char>, sep: char)
    ensures
        first_segment(s, sep).len() <= s.len(),
        first_segment(s, sep) =~= s.take(first_segment(s, sep).len() as int),
        !first_segment(s, sep).contains(sep),
        first_segment(s, sep).len() < s.len() ==> s[first_segment(s, sep).len() as int] == sep,
        !s.contains(sep) ==> first_segment(s, sep) == s,
    decreases s.len(),
{
    if s.len() == 0 {
    } else if s[0] == sep {
        assert(s.contains(sep));
    } else {
        let t = s.drop_first();
        lemma_first_segment(t, sep);
        let f = first_segment(t, sep);
        assert(first_segment(s, sep) == seq![s[0]] + f);
        assert forall|i: int| 0 <= i < (seq![s[0]] + f).len() implies (seq![s[0]] + f)[i] != sep by {
            if i > 0 {
                assert((seq![s[0]] + f)[i] == f[i - 1]);
                assert(!f.contains(sep));
                if f[i - 1] == sep {
                    assert(f.contains(sep));
                }
            }
        }
        if !s.contains(sep) {
            assert forall|i: int| 0 <= i < t.len() implies t[i] != sep by {
                if t[i] == sep {
                    assert(s[i + 1] == sep);
                    assert(s.contains(sep));
                }
            }
            assert(!t.contains(sep));
            assert(s =~= seq![s[0]] + t);
        }
    }
}

/// Splitting at the separator a second time changes nothing.
pub proof fn lemma_first_segment_idempotent(s: Seq<char>, sep: char)
    ensures
        first_segment(first_segment(s, sep), sep) == first_segment(s, sep),
{
    lemma_first_segment(s, sep);
    lemma_first_segment(first_segment(s, sep), sep);
}

/// The index of the first occurrence of `sep` in `s`, or the length of `s`.
fn first_separator_index(s: &str, sep: char) -> (i: usize)
    ensures
        i == first_segment(s@, sep).len(),
{
    proof {
        lemma_first_segment(s@, sep);
    }
    let n = s.unicode_len();
    let mut i: usize = 0;
    while i < n
        invariant
            n == s@.len(),
            i <= n,
            forall|j: int| 0 <= j < i ==> s@[j] != sep,
            first_segment(s@, sep).len() <= n,
            first_segment(s@, sep) =~= s@.take(first_segment(s@, sep).len() as int),
            !first_segment(s@, sep).contains(sep),
            first_segment(s@, sep).len() < n ==> s@[first_segment(s@, sep).len() as int] == sep,
        decreases n - i,
    {
        if s.get_char(i) == sep {
            proof {
                let f = first_segment(s@, sep);
                if f.len() > i {
                    assert(f[i as int] == s@[i as int]);
                    assert(f.contains(sep));
                }
            }
            return i;
        }
        i = i + 1;
    }
    i
}

/// The part of `s` before the first occurrence of `sep`.
pub fn first_segment_of(s: &str, sep: char) -> (seg: &str)
    ensures
        seg@ == first_segment(s@, sep),
{
    proof {
        lemma_first_segment(s@, sep);
    }
    let i = first_separator_index(s, sep);
    s.substring_char(0, i)
}

/// Tests whether two strings are equal.
pub fn same_text(a: &str, b: &str) -> (eq: bool)
    ensures
        eq == (a@ == b@),
{
    let n = a.unicode_len();
    let m = b.unicode_len();
    if n != m {
        return false;
    }
    let mut i: usize = 0;
    while i < n
        invariant
            n == a@.len(),
            m == b@.len(),
            n == m,
            i <= n,
            forall|j: int| 0 <= j < i ==> a@[j] == b@[j],
        decreases n - i,
    {
        if a.get_char(i) != b.get_char(i) {
            return false;
        }
        i = i + 1;
    }
    assert(a@ =~= b@);
    true
}

} // verus!
