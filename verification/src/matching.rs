//! Case-insensitive substring matching: the semantics of a search query.
//!
//! A record matches a query when its title or its description contains the
//! query as a substring, ignoring ASCII letter case.

use vstd::prelude::*;

verus! {

/// Folds an ASCII upper-case letter to lower case; every other character is
/// left as it is.
pub open spec fn lower_char(c: char) -> char {
    if 65 <= c as u32 && c as u32 <= 90 {
        (((c as u32) + 32) as u32) as char
    } else {
        c
    }
}

/// A whole string, folded character by character.
pub open spec fn lower(s: Seq<char>) -> Seq<char> {
    s.map_values(|c: char| lower_char(c))
}

/// `needle` occurs in `hay` starting at position `i`.
pub open spec fn matches_at(hay: Seq<char>, needle: Seq<char>, i: int) -> bool {
    &&& 0 <= i
    &&& i + needle.len() <= hay.len()
    &&& hay.subrange(i, i + needle.len()) == needle
}

/// `needle` occurs somewhere in `hay`.
pub open spec fn contains_sub(hay: Seq<char>, needle: Seq<char>) -> bool {
    exists|i: int| matches_at(hay, needle, i)
}

/// Case-insensitive containment: the folded needle occurs in the folded hay.
pub open spec fn contains_ci(hay: Seq<char>, needle: Seq<char>) -> bool {
    contains_sub(lower(hay), lower(needle))
}

fn lower_char_exec(c: char) -> (r: char)
    ensures
        r == lower_char(c),
{
    let u = c as u32;
    if 65 <= u && u <= 90 {
        let b = (u + 32) as u8;
        b as char
    } else {
        c
    }
}

/// Decides case-insensitive containment of `needle` in `hay`.
pub fn str_contains_ci(hay: &str, needle: &str) -> (r: bool)
    ensures
        r == contains_ci(hay@, needle@),
{
    let hay_len = hay.unicode_len();
    let needle_len = needle.unicode_len();
    if needle_len > hay_len {
        assert(!contains_ci(hay@, needle@)) by {
            assert(lower(hay@).len() == hay@.len());
            assert(lower(needle@).len() == needle@.len());
        }
        return false;
    }
    let mut i: usize = 0;
    while i <= hay_len - needle_len
        invariant
            needle_len <= hay_len,
            hay_len == hay@.len(),
            needle_len == needle@.len(),
            0 <= i <= hay_len - needle_len + 1,
            forall|k: int| 0 <= k < i ==> !matches_at(lower(hay@), lower(needle@), k),
        decreases hay_len - needle_len - i + 1,
    {
        let mut j: usize = 0;
        let mut all_eq = true;
        while j < needle_len && all_eq
            invariant
                needle_len <= hay_len,
                hay_len == hay@.len(),
                needle_len == needle@.len(),
                0 <= i <= hay_len - needle_len,
                0 <= j <= needle_len,
                all_eq ==> forall|k: int|
                    0 <= k < j ==> lower(hay@)[i + k] == lower(needle@)[k],
                !all_eq ==> exists|k: int|
                    0 <= k < needle@.len() && lower(hay@)[i + k] != lower(needle@)[k],
            decreases needle_len - j + (if all_eq { 1int } else { 0int }),
        {
            let hc = lower_char_exec(hay.get_char(i + j));
            let nc = lower_char_exec(needle.get_char(j));
            if hc != nc {
                all_eq = false;
                assert(lower(hay@)[i + j] != lower(needle@)[j as int]);
            } else {
                assert(lower(hay@)[i + j] == lower(needle@)[j as int]);
                j += 1;
            }
        }
        if all_eq {
            assert(matches_at(lower(hay@), lower(needle@), i as int)) by {
                assert(lower(hay@).subrange(i as int, i + needle@.len())
                    =~= lower(needle@));
            }
            return true;
        }
        assert(!matches_at(lower(hay@), lower(needle@), i as int)) by {
            let k = choose|k: int|
                0 <= k < needle@.len() && lower(hay@)[i + k] != lower(needle@)[k];
            if matches_at(lower(hay@), lower(needle@), i as int) {
                assert(lower(hay@).subrange(i as int, i + needle@.len())[k]
                    == lower(hay@)[i + k]);
            }
        }
        i += 1;
    }
    assert(forall|k: int| matches_at(lower(hay@), lower(needle@), k)
        ==> 0 <= k <= hay@.len() - needle@.len());
    false
}

} // verus!
