//! Verified text scanning: first-occurrence substring search over character
//! sequences, and conversions between `str`/`String` and character vectors.

use vstd::prelude::*;

verus! {

/// `pat` occurs in `text` starting at index `i`.
pub open spec fn match_at(text: Seq<char>, pat: Seq<char>, i: int) -> bool {
    0 <= i && i + pat.len() <= text.len() && text.subrange(i, i + pat.len() as int) == pat
}

/// `pat` occurs in `text` at or after index `from`.
pub open spec fn occurs_from(text: Seq<char>, pat: Seq<char>, from: int) -> bool {
    exists|i: int| from <= i && match_at(text, pat, i)
}

/// `i` is the first index at or after `from` at which `pat` occurs in `text`.
pub open spec fn first_match_from(text: Seq<char>, pat: Seq<char>, from: int, i: int) -> bool {
    &&& from <= i
    &&& match_at(text, pat, i)
    &&& forall|j: int| from <= j < i ==> !match_at(text, pat, j)
}

/// The first occurrence of `pat` in `text` at or after `from`, if any.
#[verifier::loop_isolation(false)]
pub fn find_from(text: &Vec<char>, pat: &Vec<char>, from: usize) -> (r: Option<usize>)
    ensures
        match r {
            Some(i) => first_match_from(text@, pat@, from as int, i as int),
            None => !occurs_from(text@, pat@, from as int),
        },
{
    if pat.len() > text.len() || from > text.len() - pat.len() {
        assert(forall|k: int| from <= k ==> !match_at(text@, pat@, k));
        return None;
    }
    let last: usize = text.len() - pat.len();
    let mut i: usize = from;
    while i <= last
        invariant
            from <= i <= last + 1,
            last == text@.len() - pat@.len(),
            pat@.len() <= text@.len(),
            forall|j: int| from <= j < i ==> !match_at(text@, pat@, j),
        decreases last + 1 - i,
    {
        let mut j: usize = 0;
        let mut is_match: bool = true;
        while j < pat.len() && is_match
            invariant
                0 <= j <= pat@.len(),
                i + pat@.len() <= text@.len(),
                is_match ==> forall|k: int| 0 <= k < j ==> text@[i + k] == pat@[k],
                !is_match ==> !match_at(text@, pat@, i as int),
                !is_match ==> pat@.len() > 0,
            decreases pat@.len() - j + (if is_match { 1int } else { 0int }),
        {
            if text[i + j] != pat[j] {
                assert(!match_at(text@, pat@, i as int)) by {
                    if match_at(text@, pat@, i as int) {
                        assert(text@.subrange(i as int, i + pat@.len() as int)[j as int]
                            == text@[i + j]);
                    }
                }
                is_match = false;
            } else {
                j += 1;
            }
        }
        if is_match {
            assert(text@.subrange(i as int, i + pat@.len() as int) =~= pat@);
            return Some(i);
        }
        i += 1;
    }
    assert forall|k: int| from <= k implies !match_at(text@, pat@, k) by {
        if i <= k {
            assert(k + pat@.len() > text@.len());
        }
    }
    None
}

/// The characters of `s`, in order.
pub fn chars_of(s: &str) -> (r: Vec<char>)
    ensures
        r@ == s@,
{
    let n = s.unicode_len();
    let mut v: Vec<char> = Vec::new();
    let mut k: usize = 0;
    while k < n
        invariant
            n == s@.len(),
            0 <= k <= n,
            v@ == s@.subrange(0, k as int),
        decreases n - k,
    {
        v.push(s.get_char(k));
        assert(v@ =~= s@.subrange(0, k + 1));
        k += 1;
    }
    assert(s@.subrange(0, n as int) =~= s@);
    v
}

/// Relies on `String::push`: appends the given character to the end of the
/// string.
#[verifier::external_body]
fn push_char(s: &mut String, c: char)
    ensures
        final(s)@ == old(s)@.push(c),
{
    s.push(c)
}

/// A `String` holding exactly the characters of `v`.
pub fn string_of(v: &Vec<char>) -> (r: String)
    ensures
        r@ == v@,
{
    let mut s = String::new();
    let mut k: usize = 0;
    while k < v.len()
        invariant
            0 <= k <= v@.len(),
            s@ == v@.subrange(0, k as int),
        decreases v@.len() - k,
    {
        push_char(&mut s, v[k]);
        assert(s@ =~= v@.subrange(0, k + 1));
        k += 1;
    }
    assert(v@.subrange(0, v@.len() as int) =~= v@);
    s
}

/// A copy of the characters of `v` from `lo` (inclusive) to `hi` (exclusive).
pub fn copy_range(v: &Vec<char>, lo: usize, hi: usize) -> (r: Vec<char>)
    requires
        lo <= hi <= v@.len(),
    ensures
        r@ == v@.subrange(lo as int, hi as int),
{
    let mut out: Vec<char> = Vec::new();
    let mut k: usize = lo;
    while k < hi
        invariant
            lo <= k <= hi <= v@.len(),
            out@ == v@.subrange(lo as int, k as int),
        decreases hi - k,
    {
        out.push(v[k]);
        assert(out@ =~= v@.subrange(lo as int, k + 1));
        k += 1;
    }
    out
}

} // verus!
