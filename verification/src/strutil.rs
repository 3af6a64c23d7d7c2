//! Verified character-level string utilities: substring containment,
//! equality, and suffix tests over `Seq<char>` views.

use vstd::prelude::*;

verus! {

/// `pat` occurs as a contiguous subsequence of `text`.
pub open spec fn contains_seq(text: Seq<char>, pat: Seq<char>) -> bool {
    exists|i: int|
        0 <= i && i + pat.len() <= text.len() && #[trigger] text.subrange(
            i,
            i + pat.len() as int,
        ) == pat
}

/// `text` ends with the suffix `suf`.
pub open spec fn ends_with_seq(text: Seq<char>, suf: Seq<char>) -> bool {
    text.len() >= suf.len() && text.subrange(text.len() - suf.len(), text.len() as int) == suf
}

/// `pat` matches `text` exactly at offset `i`.
fn matches_at(text: &str, pat: &str, i: usize, pat_len: usize) -> (r: bool)
    requires
        pat_len == pat@.len(),
        i + pat_len <= text@.len(),
        text@.len() <= usize::MAX,
    ensures
        r == (text@.subrange(i as int, i + pat@.len()) == pat@),
{
    let mut j: usize = 0;
    while j < pat_len
        invariant
            pat_len == pat@.len(),
            i + pat_len <= text@.len(),
            text@.len() <= usize::MAX,
            0 <= j <= pat_len,
            forall|k: int| 0 <= k < j ==> text@[i + k] == pat@[k],
        decreases pat_len - j,
    {
        if text.get_char(i + j) != pat.get_char(j) {
            assert(text@.subrange(i as int, i + pat@.len()) != pat@) by {
                assert(text@.subrange(i as int, i + pat@.len())[j as int] == text@[i + j]);
            }
            return false;
        }
        j += 1;
    }
    assert(text@.subrange(i as int, i + pat@.len()) =~= pat@) by {
        assert(forall|k: int|
            0 <= k < pat@.len() ==> #[trigger] text@.subrange(i as int, i + pat@.len())[k]
                == text@[i + k]);
    }
    true
}

/// Whether `pat` occurs anywhere inside `text`, by character.
pub fn contains_str(text: &str, pat: &str) -> (r: bool)
    ensures
        r == contains_seq(text@, pat@),
{
    let text_len = text.unicode_len();
    let pat_len = pat.unicode_len();
    if pat_len > text_len {
        assert(!contains_seq(text@, pat@));
        return false;
    }
    if pat_len == 0 {
        assert(text@.subrange(0, 0 + pat@.len() as int) =~= pat@);
        assert(contains_seq(text@, pat@));
        return true;
    }
    let mut i: usize = 0;
    while i <= text_len - pat_len
        invariant
            text_len == text@.len(),
            pat_len == pat@.len(),
            0 < pat_len <= text_len,
            0 <= i <= text_len - pat_len + 1,
            forall|k: int|
                0 <= k < i ==> #[trigger] text@.subrange(k, k + pat@.len()) != pat@,
        decreases text_len - i,
    {
        if matches_at(text, pat, i, pat_len) {
            assert(contains_seq(text@, pat@));
            return true;
        }
        i += 1;
    }
    assert(!contains_seq(text@, pat@));
    false
}

/// Character-for-character string equality.
pub fn str_eq(a: &str, b: &str) -> (r: bool)
    ensures
        r == (a@ == b@),
{
    let a_len = a.unicode_len();
    let b_len = b.unicode_len();
    if a_len != b_len {
        assert(a@ != b@);
        return false;
    }
    let r = matches_at(a, b, 0, b_len);
    assert(a@.subrange(0, a@.len() as int) =~= a@);
    r
}

/// Whether `text` ends with `suf`, by character.
pub fn ends_with_str(text: &str, suf: &str) -> (r: bool)
    ensures
        r == ends_with_seq(text@, suf@),
{
    let text_len = text.unicode_len();
    let suf_len = suf.unicode_len();
    if suf_len > text_len {
        return false;
    }
    matches_at(text, suf, text_len - suf_len, suf_len)
}

} // verus!
