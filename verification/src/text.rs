//! Case folding and substring containment over character sequences.
//!
//! Completion queries are compared to reference entries case-insensitively:
//! both sides are folded to ASCII lower case and the query must occur as a
//! contiguous substring of the entry.

use vstd::prelude::*;

verus! {

/// ASCII lower-case fold of a single character: `'A'..='Z'` map to
/// `'a'..='z'`, every other character is unchanged.
pub open spec fn fold_char(c: char) -> char {
    if 65 <= c as u32 && c as u32 <= 90 {
        (c as u32 + 32) as char
    } else {
        c
    }
}

/// ASCII lower-case fold of a whole character sequence.
pub open spec fn fold(s: Seq<char>) -> Seq<char> {
    Seq::new(s.len(), |i: int| fold_char(s[i]))
}

/// `needle` occurs in `hay` starting at position `i`.
pub open spec fn matches_at(hay: Seq<char>, needle: Seq<char>, i: int) -> bool {
    &&& 0 <= i
    &&& i + needle.len() <= hay.len()
    &&& forall|j: int| 0 <= j < needle.len() ==> hay[i + j] == needle[j]
}

/// `needle` occurs somewhere in `hay` as a contiguous substring.
pub open spec fn contains_seq(hay: Seq<char>, needle: Seq<char>) -> bool {
    exists|i: int| matches_at(hay, needle, i)
}

/// A reference entry matches a query when the folded query is a substring
/// of the folded entry.
pub open spec fn matches_query(entry: Seq<char>, query: Seq<char>) -> bool {
    contains_seq(fold(entry), fold(query))
}

/// The empty sequence occurs in every sequence, at position zero.
pub proof fn lemma_empty_needle(hay: Seq<char>)
    ensures
        contains_seq(hay, Seq::<char>::empty()),
{
    assert(matches_at(hay, Seq::<char>::empty(), 0));
}

/// Executable ASCII lower-case fold of one character.
pub fn fold_char_exec(c: char) -> (r: char)
    ensures
        r == fold_char(c),
{
    let u = c as u32;
    if 65 <= u && u <= 90 {
        ((u + 32) as u8) as char
    } else {
        c
    }
}

/// Case-insensitive substring test: does the folded `needle` occur in the
/// folded `hay`?
pub fn contains_fold(hay: &str, needle: &str) -> (r: bool)
    ensures
        r == contains_seq(fold(hay@), fold(needle@)),
{
    let hay_len = hay.unicode_len();
    let needle_len = needle.unicode_len();
    if needle_len > hay_len {
        assert(forall|i: int| !matches_at(fold(hay@), fold(needle@), i));
        return false;
    }
    let mut i: usize = 0;
    while i <= hay_len - needle_len
        invariant
            needle_len <= hay_len,
            hay_len == hay@.len(),
            needle_len == needle@.len(),
            i <= hay_len - needle_len + 1,
            forall|k: int| 0 <= k < i ==> !matches_at(fold(hay@), fold(needle@), k),
        decreases hay_len - needle_len + 1 - i,
    {
        let mut j: usize = 0;
        let mut mismatch = false;
        while j < needle_len && !mismatch
            invariant
                needle_len <= hay_len,
                hay_len == hay@.len(),
                needle_len == needle@.len(),
                i + needle_len <= hay_len,
                j <= needle_len,
                !mismatch ==> forall|q: int| 0 <= q < j ==> fold(hay@)[i + q] == fold(needle@)[q],
                mismatch ==> !matches_at(fold(hay@), fold(needle@), i as int),
            decreases needle_len - j + if mismatch { 0int } else { 1int },
        {
            let hc = fold_char_exec(hay.get_char(i + j));
            let nc = fold_char_exec(needle.get_char(j));
            if hc != nc {
                assert(fold(hay@)[i + j] != fold(needle@)[j as int]);
                mismatch = true;
            } else {
                j += 1;
            }
        }
        if !mismatch {
            assert(matches_at(fold(hay@), fold(needle@), i as int));
            return true;
        }
        i += 1;
    }
    assert(forall|k: int| matches_at(fold(hay@), fold(needle@), k) ==> 0 <= k < i);
    false
}

} // verus!
