//! Verified character-level text utilities.
//!
//! The decoder front-end of the service makes a handful of purely textual
//! decisions: lowercasing file extensions, comparing them against a table of
//! known container names, and searching a decoder's error message for
//! markers of a truncated file.  The helpers here carry those decisions with
//! exact contracts over the character sequences involved.
use vstd::assert_by_contradiction;
use vstd::prelude::*;
use vstd::string::StrSliceExecFns;

verus! {

/// ASCII-lowercases one character; any character outside `'A'..='Z'` is
/// returned unchanged.
pub open spec fn spec_lower_char(c: char) -> char {
    match c {
        'A' => 'a',
        'B' => 'b',
        'C' => 'c',
        'D' => 'd',
        'E' => 'e',
        'F' => 'f',
        'G' => 'g',
        'H' => 'h',
        'I' => 'i',
        'J' => 'j',
        'K' => 'k',
        'L' => 'l',
        'M' => 'm',
        'N' => 'n',
        'O' => 'o',
        'P' => 'p',
        'Q' => 'q',
        'R' => 'r',
        'S' => 's',
        'T' => 't',
        'U' => 'u',
        'V' => 'v',
        'W' => 'w',
        'X' => 'x',
        'Y' => 'y',
        'Z' => 'z',
        _ => c,
    }
}

/// ASCII-lowercases a whole character sequence.
pub open spec fn spec_lower(s: Seq<char>) -> Seq<char> {
    s.map_values(|c: char| spec_lower_char(c))
}

/// `needle` occurs as a contiguous run somewhere inside `haystack`.
pub open spec fn spec_contains(haystack: Seq<char>, needle: Seq<char>) -> bool {
    exists|i: int|
        0 <= i && i + needle.len() <= haystack.len() && #[trigger] haystack.subrange(
            i,
            i + needle.len() as int,
        ) == needle
}

/// The index of the last occurrence of `c` in `s`, or `-1` when `c` does not
/// occur.
pub open spec fn spec_last_index_of(s: Seq<char>, c: char) -> int
    decreases s.len(),
{
    if s.len() == 0 {
        -1
    } else if s.last() == c {
        s.len() - 1
    } else {
        spec_last_index_of(s.drop_last(), c)
    }
}

/// The last occurrence is in range, holds `c`, and nothing after it does.
pub proof fn lemma_last_index_of(s: Seq<char>, c: char)
    ensures
        -1 <= spec_last_index_of(s, c) < s.len(),
        spec_last_index_of(s, c) >= 0 ==> s[spec_last_index_of(s, c)] == c,
        forall|j: int| spec_last_index_of(s, c) < j < s.len() ==> s[j] != c,
    decreases s.len(),
{
    if s.len() > 0 && s.last() != c {
        lemma_last_index_of(s.drop_last(), c);
        assert(forall|j: int|
            0 <= j < s.len() - 1 ==> s[j] == s.drop_last()[j]);
    }
}

/// ASCII-lowercases one character.
pub fn lower_char(c: char) -> (r: char)
    ensures
        r == spec_lower_char(c),
{
    match c {
        'A' => 'a',
        'B' => 'b',
        'C' => 'c',
        'D' => 'd',
        'E' => 'e',
        'F' => 'f',
        'G' => 'g',
        'H' => 'h',
        'I' => 'i',
        'J' => 'j',
        'K' => 'k',
        'L' => 'l',
        'M' => 'm',
        'N' => 'n',
        'O' => 'o',
        'P' => 'p',
        'Q' => 'q',
        'R' => 'r',
        'S' => 's',
        'T' => 't',
        'U' => 'u',
        'V' => 'v',
        'W' => 'w',
        'X' => 'x',
        'Y' => 'y',
        'Z' => 'z',
        _ => c,
    }
}

/// Collects the characters of a string slice into a vector.
pub fn chars_of(s: &str) -> (v: Vec<char>)
    ensures
        v@ == s@,
{
    let n = s.unicode_len();
    let mut v: Vec<char> = Vec::new();
    let mut i: usize = 0;
    while i < n
        invariant
            i <= n,
            n == s@.len(),
            v@ == s@.subrange(0, i as int),
        decreases n - i,
    {
        let c = s.get_char(i);
        v.push(c);
        proof {
            assert(v@ =~= s@.subrange(0, i + 1));
        }
        i = i + 1;
    }
    proof {
        assert(v@ =~= s@);
    }
    v
}

/// ASCII-lowercases a vector of characters.
pub fn lower_chars(v: &Vec<char>) -> (r: Vec<char>)
    ensures
        r@ == spec_lower(v@),
{
    let mut r: Vec<char> = Vec::new();
    let mut i: usize = 0;
    while i < v.len()
        invariant
            i <= v@.len(),
            r@.len() == i,
            forall|j: int| 0 <= j < i ==> r@[j] == spec_lower_char(v@[j]),
        decreases v@.len() - i,
    {
        r.push(lower_char(v[i]));
        i = i + 1;
    }
    proof {
        assert(r@ =~= spec_lower(v@));
    }
    r
}

/// Compares a vector of characters against a string slice.
pub fn chars_eq_str(v: &Vec<char>, s: &str) -> (r: bool)
    ensures
        r == (v@ == s@),
{
    let n = s.unicode_len();
    if v.len() != n {
        proof {
            assert(v@ != s@);
        }
        return false;
    }
    let mut i: usize = 0;
    while i < n
        invariant
            i <= n,
            n == s@.len(),
            n == v@.len(),
            forall|j: int| 0 <= j < i ==> v@[j] == s@[j],
        decreases n - i,
    {
        if v[i] != s.get_char(i) {
            proof {
                assert(v@ != s@);
            }
            return false;
        }
        i = i + 1;
    }
    proof {
        assert(v@ =~= s@);
    }
    true
}

/// Reports whether `needle` occurs as a contiguous run inside `haystack`.
pub fn chars_contain(haystack: &Vec<char>, needle: &str) -> (r: bool)
    ensures
        r == spec_contains(haystack@, needle@),
{
    let m = needle.unicode_len();
    let n = haystack.len();
    if m == 0 {
        proof {
            assert(haystack@.subrange(0, 0 + needle@.len() as int) =~= needle@);
        }
        return true;
    }
    if m > n {
        proof {
            assert(!spec_contains(haystack@, needle@));
        }
        return false;
    }
    let mut i: usize = 0;
    while i <= n - m
        invariant
            0 < m <= n,
            i <= n - m + 1,
            m == needle@.len(),
            n == haystack@.len(),
            forall|j: int|
                0 <= j < i ==> #[trigger] haystack@.subrange(j, j + needle@.len() as int)
                    != needle@,
        decreases n - m + 1 - i,
    {
        let mut k: usize = 0;
        let mut mismatch = false;
        while k < m
            invariant
                0 < m <= n,
                i <= n - m,
                k <= m,
                m == needle@.len(),
                n == haystack@.len(),
                !mismatch ==> forall|t: int| 0 <= t < k ==> haystack@[i + t] == needle@[t],
                mismatch ==> haystack@.subrange(i as int, i + needle@.len() as int) != needle@,
            decreases m - k,
        {
            if haystack[i + k] != needle.get_char(k) {
                proof {
                    assert(haystack@.subrange(i as int, i + needle@.len() as int)[k as int]
                        == haystack@[i + k]);
                }
                mismatch = true;
                k = m;
            } else {
                k = k + 1;
            }
        }
        if !mismatch {
            proof {
                assert(haystack@.subrange(i as int, i + needle@.len() as int) =~= needle@);
            }
            return true;
        }
        i = i + 1;
    }
    proof {
        assert_by_contradiction!(!spec_contains(haystack@, needle@), {
            let w = choose|w: int|
                0 <= w && w + needle@.len() <= haystack@.len() && #[trigger] haystack@.subrange(
                    w,
                    w + needle@.len() as int,
                ) == needle@;
            assert(haystack@.subrange(w, w + needle@.len() as int) != needle@);
        });
    }
    false
}

/// Finds the last occurrence of `c` in `v`, if any.
pub fn last_index_of_char(v: &Vec<char>, c: char) -> (r: Option<usize>)
    ensures
        match r {
            Some(i) => spec_last_index_of(v@, c) == i,
            None => spec_last_index_of(v@, c) == -1,
        },
{
    let mut found: Option<usize> = None;
    let mut i: usize = 0;
    while i < v.len()
        invariant
            i <= v@.len(),
            match found {
                Some(j) => spec_last_index_of(v@.subrange(0, i as int), c) == j,
                None => spec_last_index_of(v@.subrange(0, i as int), c) == -1,
            },
        decreases v@.len() - i,
    {
        proof {
            assert(v@.subrange(0, i + 1).drop_last() =~= v@.subrange(0, i as int));
            assert(v@.subrange(0, i + 1).last() == v@[i as int]);
        }
        if v[i] == c {
            found = Some(i);
        }
        i = i + 1;
    }
    proof {
        assert(v@.subrange(0, v@.len() as int) =~= v@);
    }
    found
}

/// Relies on `String`'s `FromIterator` implementation: collecting an
/// iterator of characters yields the string of exactly those characters in
/// order.
#[verifier::external_body]
pub fn string_from_chars(v: &Vec<char>) -> (r: String)
    ensures
        r@ == v@,
{
    v.iter().collect()
}

} // verus!
