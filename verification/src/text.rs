//! Small helpers over `&str` and `Vec<char>`.
//!
//! The analysis logic works on sequences of characters; these helpers move
//! between `&str`/`String` and `Vec<char>` and provide the few primitive
//! string operations that the rest of the crate is proved against.

use vstd::prelude::*;

verus! {

/// True exactly when the two slices hold the same characters.
pub fn str_eq(a: &str, b: &str) -> (r: bool)
    ensures
        r == (a@ == b@),
{
    let va: Vec<char> = chars_vec(a);
    let vb: Vec<char> = chars_vec(b);
    seq_eq(va.as_slice(), vb.as_slice())
}

/// Relies on `str::chars` collected into a `Vec`: the characters of the
/// slice, in order.
#[verifier::external_body]
pub fn chars_vec(s: &str) -> (r: Vec<char>)
    ensures
        r@ == s@,
{
    s.chars().collect()
}

/// Relies on `Iterator::collect` for `String`: builds the string holding
/// exactly the given characters, in order.
#[verifier::external_body]
pub fn string_from_chars(v: &Vec<char>) -> (r: String)
    ensures
        r@ == v@,
{
    v.iter().collect()
}

/// Relies on `String::clone` (specified by vstd): the copy holds the same
/// characters.
pub fn clone_string(s: &String) -> (r: String)
    ensures
        r@ == s@,
{
    s.clone()
}

/// ASCII-lowercases a single character; everything outside `A`..`Z` is kept.
pub open spec fn spec_lower(c: char) -> char {
    if 'A' <= c && c <= 'Z' {
        ((c as u8) + 0x20) as char
    } else {
        c
    }
}

/// Executable ASCII lowercase for one character.
pub fn lower_char(c: char) -> (r: char)
    ensures
        r == spec_lower(c),
{
    if 'A' <= c && c <= 'Z' {
        ((c as u8) + 0x20) as char
    } else {
        c
    }
}

/// True when the two character slices are equal.
pub fn seq_eq(a: &[char], b: &[char]) -> (r: bool)
    ensures
        r == (a@ == b@),
{
    let n: usize = a.len();
    if n != b.len() {
        return false;
    }
    let mut i: usize = 0;
    while i < n
        invariant
            0 <= i <= n,
            n == a@.len(),
            n == b@.len(),
            forall|j: int| 0 <= j < i ==> a@[j] == b@[j],
        decreases n - i,
    {
        if a[i] != b[i] {
            return false;
        }
        i = i + 1;
    }
    assert(a@ =~= b@);
    true
}

/// `long` ends with `suffix`.
pub open spec fn spec_ends_with(long: Seq<char>, suffix: Seq<char>) -> bool {
    long.len() >= suffix.len() && long.skip(long.len() - suffix.len()) == suffix
}

/// `long` starts with `prefix`.
pub open spec fn spec_starts_with(long: Seq<char>, prefix: Seq<char>) -> bool {
    long.len() >= prefix.len() && long.take(prefix.len() as int) == prefix
}

/// True when the characters of `v` end with those of `suffix`.
pub fn ends_with(v: &[char], suffix: &[char]) -> (r: bool)
    ensures
        r == spec_ends_with(v@, suffix@),
{
    let n: usize = v.len();
    let m: usize = suffix.len();
    if n < m {
        return false;
    }
    let start: usize = n - m;
    let mut i: usize = 0;
    while i < m
        invariant
            0 <= i <= m,
            m <= n,
            n == v@.len(),
            m == suffix@.len(),
            start == n - m,
            forall|j: int| 0 <= j < i ==> v@[start + j] == suffix@[j],
        decreases m - i,
    {
        if v[start + i] != suffix[i] {
            assert(v@.skip(start as int)[i as int] != suffix@[i as int]);
            return false;
        }
        i = i + 1;
    }
    assert(v@.skip(start as int) =~= suffix@);
    true
}

/// True when the characters of `v` start with those of `prefix`.
pub fn starts_with(v: &[char], prefix: &[char]) -> (r: bool)
    ensures
        r == spec_starts_with(v@, prefix@),
{
    let n: usize = v.len();
    let m: usize = prefix.len();
    if n < m {
        return false;
    }
    let mut i: usize = 0;
    while i < m
        invariant
            0 <= i <= m,
            m <= n,
            n == v@.len(),
            m == prefix@.len(),
            forall|j: int| 0 <= j < i ==> v@[j] == prefix@[j],
        decreases m - i,
    {
        if v[i] != prefix[i] {
            assert(v@.take(m as int)[i as int] != prefix@[i as int]);
            return false;
        }
        i = i + 1;
    }
    assert(v@.take(m as int) =~= prefix@);
    true
}

/// `pat` occurs in `v` at some position.
pub open spec fn spec_contains_seq(v: Seq<char>, pat: Seq<char>) -> bool {
    exists|i: int|
        0 <= i && i + pat.len() <= v.len() && #[trigger] v.subrange(i, i + pat.len() as int)
            == pat
}

/// True when the characters of `pat` occur contiguously in `v`.
pub fn contains_seq(v: &[char], pat: &[char]) -> (r: bool)
    ensures
        r == spec_contains_seq(v@, pat@),
{
    let n: usize = v.len();
    let m: usize = pat.len();
    if m > n {
        return false;
    }
    if m == 0 {
        assert(v@.subrange(0, 0 + pat@.len() as int) =~= pat@);
        return true;
    }
    let mut i: usize = 0;
    while i <= n - m
        invariant
            0 <= i <= n - m + 1,
            0 < m <= n,
            n == v@.len(),
            m == pat@.len(),
            forall|k: int|
                0 <= k < i ==> #[trigger] v@.subrange(k, k + pat@.len() as int) != pat@,
        decreases n - m + 1 - i,
    {
        let mut j: usize = 0;
        let mut matched = true;
        while j < m && matched
            invariant
                0 <= j <= m,
                i + m <= n,
                n == v@.len(),
                m == pat@.len(),
                matched ==> forall|t: int| 0 <= t < j ==> v@[i + t] == pat@[t],
                !matched ==> v@.subrange(i as int, i + pat@.len() as int) != pat@,
            decreases m - j, if matched { 1int } else { 0int },
        {
            if v[i + j] != pat[j] {
                assert(v@.subrange(i as int, i + pat@.len() as int)[j as int] != pat@[
                    j as int
                ]);
                matched = false;
            } else {
                j = j + 1;
            }
        }
        if matched {
            assert(v@.subrange(i as int, i + pat@.len() as int) =~= pat@);
            return true;
        }
        i = i + 1;
    }
    assert forall|k: int| 0 <= k && k + pat@.len() <= v@.len() implies #[trigger] v@.subrange(
        k,
        k + pat@.len() as int,
    ) != pat@ by {
        assert(k < i);
    }
    false
}

} // verus!
