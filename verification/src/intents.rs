//! Test-file recognition and test-title extraction.
//!
//! A test file is recognised by naming convention.  Titles are extracted
//! by a small scanner per language: it walks the content left to right,
//! and at each position tries to match the language's test pattern; on a
//! match it records the title and resumes after the match, else it moves
//! one character on.  Word and whitespace classes are ASCII.

use vstd::prelude::*;

use crate::filter::{basename_chars, spec_after_last_slash};
use crate::text::{chars_vec, contains_seq, ends_with, spec_contains_seq, spec_ends_with,
    spec_starts_with, starts_with, string_from_chars};
use crate::types::TestIntent;

verus! {

/// At most this many titles are reported per file.
pub const MAX_INTENTS_PER_FILE: usize = 5;

/// Language classification for test-title extraction.
#[derive(Debug, Clone, Copy, PartialEq, Eq, Structural)]
pub enum TestLang {
    JsTs,
    Rust,
    Python,
    Go,
}

/// ASCII whitespace.
pub open spec fn spec_is_space(c: char) -> bool {
    c == ' ' || c == '\t' || c == '\n' || c == '\r' || c == '\u{b}' || c == '\u{c}'
}

/// ASCII word characters (letters, digits, underscore).
pub open spec fn spec_is_word(c: char) -> bool {
    ('a' <= c && c <= 'z') || ('A' <= c && c <= 'Z') || ('0' <= c && c <= '9') || c == '_'
}

fn is_space(c: char) -> (r: bool)
    ensures
        r == spec_is_space(c),
{
    c == ' ' || c == '\t' || c == '\n' || c == '\r' || c == '\u{b}' || c == '\u{c}'
}

fn is_word(c: char) -> (r: bool)
    ensures
        r == spec_is_word(c),
{
    ('a' <= c && c <= 'z') || ('A' <= c && c <= 'Z') || ('0' <= c && c <= '9') || c == '_'
}

/// First position at or after `p` that is not whitespace.
pub open spec fn spec_skip_spaces(s: Seq<char>, p: int) -> int
    decreases s.len() - p,
        when p <= s.len()
{
    if 0 <= p < s.len() && spec_is_space(s[p]) {
        spec_skip_spaces(s, p + 1)
    } else {
        p
    }
}

/// First position at or after `p` holding `c`, if any.
pub open spec fn spec_find_char(s: Seq<char>, p: int, c: char) -> Option<int>
    decreases s.len() - p,
        when p <= s.len()
{
    if !(0 <= p < s.len()) {
        None
    } else if s[p] == c {
        Some(p)
    } else {
        spec_find_char(s, p + 1, c)
    }
}

/// First position at or after `p` that is not a word character.
pub open spec fn spec_word_end(s: Seq<char>, p: int) -> int
    decreases s.len() - p,
        when p <= s.len()
{
    if 0 <= p < s.len() && spec_is_word(s[p]) {
        spec_word_end(s, p + 1)
    } else {
        p
    }
}

/// `pat` occurs in `s` at position `p`.
pub open spec fn spec_at(s: Seq<char>, p: int, pat: Seq<char>) -> bool {
    0 <= p && p + pat.len() <= s.len() && s.subrange(p, p + pat.len() as int) == pat
}

/// A test name made human-readable: the `test_` or `Test` prefix is
/// stripped and underscores become spaces.
pub open spec fn spec_humanize(n: Seq<char>) -> Seq<char> {
    let stripped = if spec_starts_with(n, "test_"@) {
        n.skip(5)
    } else if spec_starts_with(n, "Test"@) {
        n.skip(4)
    } else {
        n
    };
    stripped.map_values(|c: char| if c == '_' { ' ' } else { c })
}

/// One attempted match at position `p` of `s` (with `0 <= p < s.len()`):
/// the position just past the match and the reported title, or `None`.
///
/// JavaScript/TypeScript: `it(` or `test(`, at the start or after a
/// space, then optional spaces and a quoted title (single, double or
/// backtick quotes); the title is reported verbatim.  Rust: `#[test]`,
/// optional spaces, `fn`, at least one space, then the test name.
/// Python: `def`, spaces, a name starting `test_`, optional spaces, `(`.
/// Go: `func`, spaces, a name starting `Test`, optional spaces, `(`.
/// Rust, Python and Go names are reported human-readably.
pub open spec fn spec_match_at(lang: TestLang, s: Seq<char>, p: int) -> Option<(int, Seq<char>)> {
    match lang {
        TestLang::JsTs => {
            if !(p == 0 || spec_is_space(s[p - 1])) {
                None
            } else {
                let a = if spec_at(s, p, "it("@) {
                    p + 3
                } else if spec_at(s, p, "test("@) {
                    p + 5
                } else {
                    p
                };
                if a == p {
                    None
                } else {
                    let q = spec_skip_spaces(s, a);
                    if q < s.len() && (s[q] == '\'' || s[q] == '"' || s[q] == '`') {
                        match spec_find_char(s, q + 1, s[q]) {
                            Some(r) => Some((r + 1, s.subrange(q + 1, r))),
                            None => None,
                        }
                    } else {
                        None
                    }
                }
            }
        },
        TestLang::Rust => {
            if !spec_at(s, p, "#[test]"@) {
                None
            } else {
                let a = spec_skip_spaces(s, p + 7);
                if !spec_at(s, a, "fn"@) {
                    None
                } else {
                    let b = a + 2;
                    if !(b < s.len() && spec_is_space(s[b])) {
                        None
                    } else {
                        let q = spec_skip_spaces(s, b);
                        if !(q < s.len() && spec_is_word(s[q])) {
                            None
                        } else {
                            let e = spec_word_end(s, q);
                            Some((e, spec_humanize(s.subrange(q, e))))
                        }
                    }
                }
            }
        },
        TestLang::Python => {
            if !spec_at(s, p, "def"@) {
                None
            } else {
                let a = p + 3;
                if !(a < s.len() && spec_is_space(s[a])) {
                    None
                } else {
                    let q = spec_skip_spaces(s, a);
                    if !spec_at(s, q, "test_"@) {
                        None
                    } else {
                        let e = spec_word_end(s, q);
                        if e <= q + 5 {
                            None
                        } else {
                            let w = spec_skip_spaces(s, e);
                            if w < s.len() && s[w] == '(' {
                                Some((w + 1, spec_humanize(s.subrange(q, e))))
                            } else {
                                None
                            }
                        }
                    }
                }
            }
        },
        TestLang::Go => {
            if !spec_at(s, p, "func"@) {
                None
            } else {
                let a = p + 4;
                if !(a < s.len() && spec_is_space(s[a])) {
                    None
                } else {
                    let q = spec_skip_spaces(s, a);
                    if !spec_at(s, q, "Test"@) {
                        None
                    } else {
                        let e = spec_word_end(s, q);
                        if e <= q + 4 {
                            None
                        } else {
                            let w = spec_skip_spaces(s, e);
                            if w < s.len() && s[w] == '(' {
                                Some((w + 1, spec_humanize(s.subrange(q, e))))
                            } else {
                                None
                            }
                        }
                    }
                }
            }
        },
    }
}

/// The titles found scanning from position `p`: a match is recorded and
/// the scan resumes past it, otherwise the scan moves one character on.
pub open spec fn spec_titles_from(lang: TestLang, s: Seq<char>, p: int) -> Seq<Seq<char>>
    decreases s.len() - p,
        when 0 <= p
{
    if p >= s.len() {
        Seq::empty()
    } else {
        match spec_match_at(lang, s, p) {
            Some(m) => {
                if p < m.0 <= s.len() {
                    seq![m.1] + spec_titles_from(lang, s, m.0)
                } else {
                    seq![m.1]
                }
            },
            None => spec_titles_from(lang, s, p + 1),
        }
    }
}

/// All test titles of the content, in order.
pub open spec fn spec_titles(lang: TestLang, s: Seq<char>) -> Seq<Seq<char>> {
    spec_titles_from(lang, s, 0)
}

/// The language used to scan a file for tests, from its name.
pub open spec fn spec_detect_test_language(p: Seq<char>) -> Option<TestLang> {
    let f = spec_after_last_slash(p);
    if spec_ends_with(f, ".ts"@) || spec_ends_with(f, ".tsx"@) || spec_ends_with(f, ".js"@)
        || spec_ends_with(f, ".jsx"@) {
        Some(TestLang::JsTs)
    } else if spec_ends_with(f, ".rs"@) || spec_contains_seq(p, "/tests/"@) {
        Some(TestLang::Rust)
    } else if spec_ends_with(f, ".py"@) {
        Some(TestLang::Python)
    } else if spec_ends_with(f, ".go"@) {
        Some(TestLang::Go)
    } else {
        None
    }
}

/// A path names a test file: JS/TS `.test.`/`.spec.` files, Go `_test.go`
/// files, Python `test_*.py` / `*_test.py` files, JS files under a
/// `__tests__/` directory, or Rust files under a `tests/` directory.
pub open spec fn spec_is_test_file(p: Seq<char>) -> bool {
    let f = spec_after_last_slash(p);
    ||| spec_ends_with(f, ".test.ts"@)
    ||| spec_ends_with(f, ".spec.ts"@)
    ||| spec_ends_with(f, ".test.js"@)
    ||| spec_ends_with(f, ".spec.js"@)
    ||| spec_ends_with(f, ".test.tsx"@)
    ||| spec_ends_with(f, ".spec.tsx"@)
    ||| spec_ends_with(f, ".test.jsx"@)
    ||| spec_ends_with(f, ".spec.jsx"@)
    ||| spec_ends_with(f, "_test.go"@)
    ||| (spec_ends_with(f, ".py"@) && (spec_starts_with(f, "test_"@) || spec_ends_with(
        f,
        "_test.py"@,
    )))
    ||| (spec_contains_seq(p, "__tests__/"@) && (spec_ends_with(f, ".ts"@) || spec_ends_with(
        f,
        ".tsx"@,
    ) || spec_ends_with(f, ".js"@) || spec_ends_with(f, ".jsx"@)))
    ||| (spec_contains_seq(p, "/tests/"@) && spec_ends_with(f, ".rs"@))
}

/// First non-space position at or after `p`.
fn skip_spaces(v: &[char], p: usize) -> (r: usize)
    requires
        p <= v@.len(),
    ensures
        r as int == spec_skip_spaces(v@, p as int),
        p <= r <= v@.len(),
{
    let n: usize = v.len();
    let mut q: usize = p;
    while q < n && is_space(v[q])
        invariant
            p <= q <= n,
            n == v@.len(),
            spec_skip_spaces(v@, p as int) == spec_skip_spaces(v@, q as int),
        decreases n - q,
    {
        q = q + 1;
    }
    q
}

/// First position at or after `p` holding `c`, if any.
fn find_char(v: &[char], p: usize, c: char) -> (r: Option<usize>)
    requires
        p <= v@.len(),
    ensures
        match r {
            Some(idx) => spec_find_char(v@, p as int, c) == Some(idx as int) && p <= idx
                < v@.len(),
            None => spec_find_char(v@, p as int, c) is None,
        },
{
    let n: usize = v.len();
    let mut q: usize = p;
    while q < n && v[q] != c
        invariant
            p <= q <= n,
            n == v@.len(),
            spec_find_char(v@, p as int, c) == spec_find_char(v@, q as int, c),
        decreases n - q,
    {
        q = q + 1;
    }
    if q < n {
        Some(q)
    } else {
        None
    }
}

/// First non-word position at or after `p`.
fn word_end(v: &[char], p: usize) -> (r: usize)
    requires
        p <= v@.len(),
    ensures
        r as int == spec_word_end(v@, p as int),
        p <= r <= v@.len(),
{
    let n: usize = v.len();
    let mut q: usize = p;
    while q < n && is_word(v[q])
        invariant
            p <= q <= n,
            n == v@.len(),
            spec_word_end(v@, p as int) == spec_word_end(v@, q as int),
        decreases n - q,
    {
        q = q + 1;
    }
    q
}

/// The characters of `v` in `[a, b)`.
fn chars_range(v: &[char], a: usize, b: usize) -> (r: Vec<char>)
    requires
        a <= b <= v@.len(),
    ensures
        r@ == v@.subrange(a as int, b as int),
{
    let mut out: Vec<char> = Vec::new();
    let mut i: usize = a;
    while i < b
        invariant
            a <= i <= b,
            b <= v@.len(),
            out@ == v@.subrange(a as int, i as int),
        decreases b - i,
    {
        out.push(v[i]);
        assert(out@ =~= v@.subrange(a as int, i + 1));
        i = i + 1;
    }
    out
}

/// `pat` occurs in `v` at position `p`.
fn at(v: &[char], p: usize, pat: &[char]) -> (r: bool)
    requires
        p <= v@.len(),
    ensures
        r == spec_at(v@, p as int, pat@),
{
    let n: usize = v.len();
    let m: usize = pat.len();
    if m > n - p {
        return false;
    }
    let mut i: usize = 0;
    while i < m
        invariant
            0 <= i <= m,
            p + m <= n,
            n == v@.len(),
            m == pat@.len(),
            forall|j: int| 0 <= j < i ==> v@[p + j] == pat@[j],
        decreases m - i,
    {
        if v[p + i] != pat[i] {
            assert(v@.subrange(p as int, p + pat@.len() as int)[i as int] != pat@[i as int]);
            return false;
        }
        i = i + 1;
    }
    assert(v@.subrange(p as int, p + pat@.len() as int) =~= pat@);
    true
}

/// Human-readable test name, as characters.
fn humanize_chars(nm: &Vec<char>) -> (r: Vec<char>)
    ensures
        r@ == spec_humanize(nm@),
{
    proof {
        reveal_strlit("test_");
        reveal_strlit("Test");
        assert("test_"@.len() == 5);
        assert("Test"@.len() == 4);
    }
    let t5: Vec<char> = chars_vec("test_");
    let t4: Vec<char> = chars_vec("Test");
    let start: usize = if starts_with(nm.as_slice(), t5.as_slice()) {
        5
    } else if starts_with(nm.as_slice(), t4.as_slice()) {
        4
    } else {
        0
    };
    let ghost stripped = if spec_starts_with(nm@, "test_"@) {
        nm@.skip(5)
    } else if spec_starts_with(nm@, "Test"@) {
        nm@.skip(4)
    } else {
        nm@
    };
    let n: usize = nm.len();
    let mut out: Vec<char> = Vec::new();
    let mut i: usize = start;
    proof {
        assert(stripped =~= nm@.skip(start as int));
    }
    while i < n
        invariant
            start <= i <= n,
            n == nm@.len(),
            stripped == nm@.skip(start as int),
            out@ == stripped.take(i - start).map_values(
                |c: char| if c == '_' {
                    ' '
                } else {
                    c
                },
            ),
        decreases n - i,
    {
        let c: char = nm[i];
        if c == '_' {
            out.push(' ');
        } else {
            out.push(c);
        }
        assert(out@ =~= stripped.take(i + 1 - start).map_values(
            |c: char| if c == '_' {
                ' '
            } else {
                c
            },
        ));
        i = i + 1;
    }
    assert(stripped.take(n - start) =~= stripped);
    out
}

/// Humanize a test name: strip the `test_` or `Test` prefix and replace
/// underscores with spaces.
pub fn humanize(name: &str) -> (r: String)
    ensures
        r@ == spec_humanize(name@),
{
    let v: Vec<char> = chars_vec(name);
    let h: Vec<char> = humanize_chars(&v);
    string_from_chars(&h)
}

/// One attempted match at `p`; `Some((end, title))` exactly when the
/// language's pattern matches there.
fn match_at(lang: TestLang, v: &[char], p: usize) -> (r: Option<(usize, Vec<char>)>)
    requires
        p < v@.len(),
    ensures
        match r {
            Some(m) => spec_match_at(lang, v@, p as int) == Some((m.0 as int, m.1@)) && p < m.0
                <= v@.len(),
            None => spec_match_at(lang, v@, p as int) is None,
        },
{
    let vn: usize = v.len();
    proof {
        reveal_strlit("it(");
        reveal_strlit("test(");
        reveal_strlit("#[test]");
        reveal_strlit("fn");
        reveal_strlit("def");
        reveal_strlit("test_");
        reveal_strlit("func");
        reveal_strlit("Test");
        assert("it("@.len() == 3);
        assert("test("@.len() == 5);
        assert("#[test]"@.len() == 7);
        assert("fn"@.len() == 2);
        assert("def"@.len() == 3);
        assert("test_"@.len() == 5);
        assert("func"@.len() == 4);
        assert("Test"@.len() == 4);
    }
    match lang {
        TestLang::JsTs => {
            if !(p == 0 || is_space(v[p - 1])) {
                return None;
            }
            let itp: Vec<char> = chars_vec("it(");
            let testp: Vec<char> = chars_vec("test(");
            let a: usize = if at(v, p, itp.as_slice()) {
                p + 3
            } else if at(v, p, testp.as_slice()) {
                p + 5
            } else {
                return None;
            };
            let q: usize = skip_spaces(v, a);
            if q < v.len() && (v[q] == '\'' || v[q] == '"' || v[q] == '`') {
                match find_char(v, q + 1, v[q]) {
                    Some(rr) => Some((rr + 1, chars_range(v, q + 1, rr))),
                    None => None,
                }
            } else {
                None
            }
        },
        TestLang::Rust => {
            let tag: Vec<char> = chars_vec("#[test]");
            if !at(v, p, tag.as_slice()) {
                return None;
            }
            assert(p + 7 <= vn);
            let a: usize = skip_spaces(v, p + 7);
            let fnp: Vec<char> = chars_vec("fn");
            if !at(v, a, fnp.as_slice()) {
                return None;
            }
            let b: usize = a + 2;
            if !(b < v.len() && is_space(v[b])) {
                return None;
            }
            let q: usize = skip_spaces(v, b);
            if !(q < v.len() && is_word(v[q])) {
                return None;
            }
            let e: usize = word_end(v, q);
            let nm: Vec<char> = chars_range(v, q, e);
            Some((e, humanize_chars(&nm)))
        },
        TestLang::Python => {
            let defp: Vec<char> = chars_vec("def");
            if !at(v, p, defp.as_slice()) {
                return None;
            }
            assert(p + 3 <= vn);
            let a: usize = p + 3;
            if !(a < v.len() && is_space(v[a])) {
                return None;
            }
            let q: usize = skip_spaces(v, a);
            let tp: Vec<char> = chars_vec("test_");
            if !at(v, q, tp.as_slice()) {
                return None;
            }
            let e: usize = word_end(v, q);
            if e <= q + 5 {
                return None;
            }
            let w: usize = skip_spaces(v, e);
            if w < v.len() && v[w] == '(' {
                let nm: Vec<char> = chars_range(v, q, e);
                Some((w + 1, humanize_chars(&nm)))
            } else {
                None
            }
        },
        TestLang::Go => {
            let funcp: Vec<char> = chars_vec("func");
            if !at(v, p, funcp.as_slice()) {
                return None;
            }
            assert(p + 4 <= vn);
            let a: usize = p + 4;
            if !(a < v.len() && is_space(v[a])) {
                return None;
            }
            let q: usize = skip_spaces(v, a);
            let tp: Vec<char> = chars_vec("Test");
            if !at(v, q, tp.as_slice()) {
                return None;
            }
            let e: usize = word_end(v, q);
            if e <= q + 4 {
                return None;
            }
            let w: usize = skip_spaces(v, e);
            if w < v.len() && v[w] == '(' {
                let nm: Vec<char> = chars_range(v, q, e);
                Some((w + 1, humanize_chars(&nm)))
            } else {
                None
            }
        },
    }
}

/// All test titles of the content, in order of appearance.
fn scan_titles(lang: TestLang, v: &[char]) -> (r: Vec<String>)
    ensures
        r@.map_values(|s: String| s@) == spec_titles(lang, v@),
{
    let n: usize = v.len();
    let mut acc: Vec<String> = Vec::new();
    let mut p: usize = 0;
    proof {
        assert(acc@.map_values(|s: String| s@) =~= Seq::<Seq<char>>::empty());
    }
    while p < n
        invariant
            0 <= p,
            n == v@.len(),
            acc@.map_values(|s: String| s@) + spec_titles_from(lang, v@, p as int)
                =~= spec_titles(lang, v@),
        decreases n - p,
    {
        let ghost acc_before = acc@;
        match match_at(lang, v, p) {
            Some(m) => {
                let (end, title) = m;
                acc.push(string_from_chars(&title));
                proof {
                    assert(acc@ =~= acc_before.push(acc@.last()));
                    assert(acc@.map_values(|s: String| s@) =~= acc_before.map_values(
                        |s: String| s@,
                    ).push(title@));
                    assert(spec_titles_from(lang, v@, p as int) =~= seq![title@]
                        + spec_titles_from(lang, v@, end as int));
                }
                p = end;
            },
            None => {
                p = p + 1;
            },
        }
    }
    assert(spec_titles_from(lang, v@, p as int) =~= Seq::<Seq<char>>::empty());
    assert(acc@.map_values(|s: String| s@) =~= spec_titles(lang, v@));
    acc
}

/// The language used to scan a file for tests, from its path.
pub fn detect_test_language(path: &str) -> (r: Option<TestLang>)
    ensures
        r == spec_detect_test_language(path@),
{
    let v: Vec<char> = chars_vec(path);
    let f: Vec<char> = basename_chars(&v);
    let fs = f.as_slice();
    if suffix(fs, ".ts") || suffix(fs, ".tsx") || suffix(fs, ".js") || suffix(fs, ".jsx") {
        Some(TestLang::JsTs)
    } else if suffix(fs, ".rs") || infix(v.as_slice(), "/tests/") {
        Some(TestLang::Rust)
    } else if suffix(fs, ".py") {
        Some(TestLang::Python)
    } else if suffix(fs, ".go") {
        Some(TestLang::Go)
    } else {
        None
    }
}

/// Suffix test against a literal.
fn suffix(v: &[char], lit: &str) -> (r: bool)
    ensures
        r == spec_ends_with(v@, lit@),
{
    let l: Vec<char> = chars_vec(lit);
    ends_with(v, l.as_slice())
}

/// Prefix test against a literal.
fn prefix(v: &[char], lit: &str) -> (r: bool)
    ensures
        r == spec_starts_with(v@, lit@),
{
    let l: Vec<char> = chars_vec(lit);
    starts_with(v, l.as_slice())
}

/// Containment test against a literal.
fn infix(v: &[char], lit: &str) -> (r: bool)
    ensures
        r == spec_contains_seq(v@, lit@),
{
    let l: Vec<char> = chars_vec(lit);
    contains_seq(v, l.as_slice())
}

/// Whether the path names a test file, by naming convention.
pub fn is_test_file(path: &str) -> (r: bool)
    ensures
        r == spec_is_test_file(path@),
{
    let v: Vec<char> = chars_vec(path);
    let f: Vec<char> = basename_chars(&v);
    let fs = f.as_slice();
    if suffix(fs, ".test.ts") || suffix(fs, ".spec.ts") || suffix(fs, ".test.js") || suffix(
        fs,
        ".spec.js",
    ) || suffix(fs, ".test.tsx") || suffix(fs, ".spec.tsx") || suffix(fs, ".test.jsx")
        || suffix(fs, ".spec.jsx") {
        return true;
    }
    if suffix(fs, "_test.go") {
        return true;
    }
    if suffix(fs, ".py") && (prefix(fs, "test_") || suffix(fs, "_test.py")) {
        return true;
    }
    if infix(v.as_slice(), "__tests__/") && (suffix(fs, ".ts") || suffix(fs, ".tsx") || suffix(
        fs,
        ".js",
    ) || suffix(fs, ".jsx")) {
        return true;
    }
    if infix(v.as_slice(), "/tests/") && suffix(fs, ".rs") {
        return true;
    }
    false
}

/// The titles reported for a file: the first five found by the scanner
/// for the file's language, none for an unrecognised file.
pub open spec fn spec_reported_titles(path: Seq<char>, content: Seq<char>) -> Seq<Seq<char>> {
    match spec_detect_test_language(path) {
        Some(lang) => {
            let t = spec_titles(lang, content);
            if t.len() > MAX_INTENTS_PER_FILE {
                t.take(MAX_INTENTS_PER_FILE as int)
            } else {
                t
            }
        },
        None => Seq::empty(),
    }
}

/// Extract up to five test titles from file content.
pub fn extract_test_intents(content: &str, path: &str) -> (r: Vec<TestIntent>)
    ensures
        r@.map_values(|t: TestIntent| t.title@) == spec_reported_titles(path@, content@),
        r@.len() <= MAX_INTENTS_PER_FILE,
{
    let lang = match detect_test_language(path) {
        Some(l) => l,
        None => {
            let out: Vec<TestIntent> = Vec::new();
            assert(out@.map_values(|t: TestIntent| t.title@) =~= spec_reported_titles(
                path@,
                content@,
            ));
            return out;
        },
    };
    let v: Vec<char> = chars_vec(content);
    let mut titles: Vec<String> = scan_titles(lang, v.as_slice());
    let ghost full = titles@.map_values(|s: String| s@);
    if titles.len() > MAX_INTENTS_PER_FILE {
        titles.truncate(MAX_INTENTS_PER_FILE);
        assert(titles@.map_values(|s: String| s@) =~= full.take(MAX_INTENTS_PER_FILE as int));
    }
    let n: usize = titles.len();
    let mut out: Vec<TestIntent> = Vec::new();
    let mut i: usize = 0;
    while i < n
        invariant
            0 <= i <= n,
            n == titles@.len(),
            out@.map_values(|t: TestIntent| t.title@) =~= titles@.map_values(
                |s: String| s@,
            ).take(i as int),
        decreases n - i,
    {
        let ghost out_before = out@;
        out.push(TestIntent { title: crate::text::clone_string(&titles[i]) });
        proof {
            assert(out@ =~= out_before.push(out@.last()));
            assert(out@.map_values(|t: TestIntent| t.title@) =~= out_before.map_values(
                |t: TestIntent| t.title@,
            ).push(titles@[i as int]@));
            assert(titles@.map_values(|s: String| s@).take(i + 1) =~= titles@.map_values(
                |s: String| s@,
            ).take(i as int).push(titles@[i as int]@));
        }
        i = i + 1;
    }
    assert(titles@.map_values(|s: String| s@).take(n as int) =~= titles@.map_values(
        |s: String| s@,
    ));
    out
}

/// Count every test case in file content (no cap).  The count is exact up
/// to the counter's ceiling.
pub fn count_test_cases(content: &str, path: &str) -> (r: u32)
    ensures
        ({
            let t = match spec_detect_test_language(path@) {
                Some(lang) => spec_titles(lang, content@).len() as int,
                None => 0int,
            };
            r as int == if t <= u32::MAX as int {
                t
            } else {
                u32::MAX as int
            }
        }),
{
    let lang = match detect_test_language(path) {
        Some(l) => l,
        None => {
            return 0;
        },
    };
    let v: Vec<char> = chars_vec(content);
    let titles: Vec<String> = scan_titles(lang, v.as_slice());
    proof {
        assert(titles@.map_values(|s: String| s@).len() == titles@.len());
    }
    if titles.len() <= u32::MAX as usize {
        titles.len() as u32
    } else {
        u32::MAX
    }
}

/// No two entries hold the same characters.
pub open spec fn spec_distinct_strs(s: Seq<String>) -> bool {
    forall|a: int, b: int| 0 <= a < b < s.len() ==> #[trigger] s[a]@ != #[trigger] s[b]@
}

/// Where a test file for `source_path` may live, by naming convention:
/// the candidate paths checked on disk by the discovery step, without
/// duplicates, in the conventional order.  A test file itself gets none.
pub fn test_file_candidates(source_path: &str) -> (r: Vec<String>)
    ensures
        spec_is_test_file(source_path@) ==> r@.len() == 0,
        spec_distinct_strs(r@),
{
    if is_test_file(source_path) {
        return Vec::new();
    }
    let v: Vec<char> = chars_vec(source_path);
    let name: Vec<char> = basename_chars(&v);
    let parent: Vec<char> = parent_chars(&v, &name);

    proof {
        reveal_strlit(".tsx");
        reveal_strlit(".ts");
        reveal_strlit(".jsx");
        reveal_strlit(".js");
        reveal_strlit(".py");
        reveal_strlit(".go");
        reveal_strlit(".rs");
        assert(".tsx"@.len() == 4);
        assert(".ts"@.len() == 3);
        assert(".jsx"@.len() == 4);
        assert(".js"@.len() == 3);
        assert(".py"@.len() == 3);
        assert(".go"@.len() == 3);
        assert(".rs"@.len() == 3);
    }
    let mut cands: Vec<String> = Vec::new();
    let ns = name.as_slice();
    if suffix(ns, ".tsx") || suffix(ns, ".ts") || suffix(ns, ".jsx") || suffix(ns, ".js") {
        let cut: usize = if suffix(ns, ".tsx") {
            4
        } else if suffix(ns, ".ts") {
            3
        } else if suffix(ns, ".jsx") {
            4
        } else {
            3
        };
        let stem: Vec<char> = chars_range(ns, 0, name.len() - cut);
        push_js_candidates(&mut cands, &parent, &stem, ".tsx");
        push_js_candidates(&mut cands, &parent, &stem, ".ts");
        push_js_candidates(&mut cands, &parent, &stem, ".jsx");
        push_js_candidates(&mut cands, &parent, &stem, ".js");
    } else if suffix(ns, ".py") {
        let stem: Vec<char> = chars_range(ns, 0, name.len() - 3);
        push_candidate(&mut cands, &join3(&parent, "test_", &stem, ".py"));
        push_candidate(&mut cands, &join3(&parent, "", &stem, "_test.py"));
        let tests_dir: Vec<char> = join_dir(&parent, "tests");
        push_candidate(&mut cands, &join3(&tests_dir, "test_", &stem, ".py"));
        let root_tests: Vec<char> = chars_vec("tests");
        push_candidate(&mut cands, &join3(&root_tests, "test_", &stem, ".py"));
    } else if suffix(ns, ".go") {
        let stem: Vec<char> = chars_range(ns, 0, name.len() - 3);
        push_candidate(&mut cands, &join3(&parent, "", &stem, "_test.go"));
    } else if suffix(ns, ".rs") {
        let stem: Vec<char> = chars_range(ns, 0, name.len() - 3);
        let tests_dir: Vec<char> = join_dir(&parent, "tests");
        push_candidate(&mut cands, &join3(&tests_dir, "", &stem, ".rs"));
        let root_tests: Vec<char> = chars_vec("tests");
        push_candidate(&mut cands, &join3(&root_tests, "", &stem, ".rs"));
    }
    cands
}

/// Everything before the basename, without the trailing slash.
fn parent_chars(v: &Vec<char>, name: &Vec<char>) -> (r: Vec<char>)
{
    let vl: usize = v.len();
    let nl: usize = name.len();
    if nl >= vl {
        return Vec::new();
    }
    let cut: usize = vl - nl;
    if cut >= 1 {
        chars_range(v.as_slice(), 0, cut - 1)
    } else {
        Vec::new()
    }
}

/// `dir/name`, or `name` alone when `dir` is empty.
fn join_file(dir: &Vec<char>, name: &Vec<char>) -> (r: Vec<char>)
{
    let mut out: Vec<char> = Vec::new();
    if dir.len() > 0 {
        out.extend_from_slice(dir.as_slice());
        out.push('/');
    }
    out.extend_from_slice(name.as_slice());
    out
}

/// `dir/sub`, or `sub` alone when `dir` is empty.
fn join_dir(dir: &Vec<char>, sub: &str) -> (r: Vec<char>)
{
    let s: Vec<char> = chars_vec(sub);
    join_file(dir, &s)
}

/// `dir/` ++ `pre` ++ `stem` ++ `post`.
fn join3(dir: &Vec<char>, pre: &str, stem: &Vec<char>, post: &str) -> (r: Vec<char>)
{
    let mut nm: Vec<char> = chars_vec(pre);
    nm.extend_from_slice(stem.as_slice());
    let p: Vec<char> = chars_vec(post);
    nm.extend_from_slice(p.as_slice());
    join_file(dir, &nm)
}

/// The five JS/TS candidates for one extension.
fn push_js_candidates(cands: &mut Vec<String>, parent: &Vec<char>, stem: &Vec<char>, ext: &str)
    ensures
        spec_distinct_strs(old(cands)@) ==> spec_distinct_strs(final(cands)@),
{
    push_candidate(cands, &join3(parent, "", stem, &test_ext(".test", ext)));
    push_candidate(cands, &join3(parent, "", stem, &test_ext(".spec", ext)));
    let tests_dir: Vec<char> = join_dir(parent, "__tests__");
    push_candidate(cands, &join3(&tests_dir, "", stem, &test_ext(".test", ext)));
    push_candidate(cands, &join3(&tests_dir, "", stem, &test_ext(".spec", ext)));
    push_candidate(cands, &join3(&tests_dir, "", stem, ext));
}

/// `kind` ++ `ext` as one literal suffix.
fn test_ext(kind: &str, ext: &str) -> (r: String)
{
    let mut out: Vec<char> = chars_vec(kind);
    let e: Vec<char> = chars_vec(ext);
    out.extend_from_slice(e.as_slice());
    string_from_chars(&out)
}

/// Appends the candidate unless an equal one is already present, keeping
/// the list free of duplicates.
fn push_candidate(cands: &mut Vec<String>, cand: &Vec<char>)
    ensures
        spec_distinct_strs(old(cands)@) ==> spec_distinct_strs(final(cands)@),
{
    let n: usize = cands.len();
    let mut i: usize = 0;
    let mut present = false;
    while i < n && !present
        invariant
            0 <= i <= n,
            n == cands@.len(),
            present ==> exists|k: int| 0 <= k < n && #[trigger] cands@[k]@ == cand@,
            !present ==> forall|k: int| 0 <= k < i ==> #[trigger] cands@[k]@ != cand@,
        decreases n - i, if present { 0int } else { 1int },
    {
        let cv: Vec<char> = chars_vec(cands[i].as_str());
        if crate::text::seq_eq(cv.as_slice(), cand.as_slice()) {
            present = true;
        } else {
            i = i + 1;
        }
    }
    if !present {
        let ghost before = cands@;
        cands.push(string_from_chars(cand));
        proof {
            if spec_distinct_strs(before) {
                assert forall|a: int, b: int| 0 <= a < b < cands@.len() implies #[trigger] cands@[
                    a
                ]@ != #[trigger] cands@[b]@ by {
                    if b < before.len() {
                        assert(before[a]@ != before[b]@);
                    } else {
                        assert(cands@[b]@ == cand@);
                        assert(cands@[a]@ != cand@);
                    }
                }
            }
        }
    }
}

} // verus!
