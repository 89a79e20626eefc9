//! The file filter of the history walker.
//!
//! A path is worth indexing unless its basename is a well-known lock or
//! OS-metadata file, or its extension marks it as a binary or generated
//! asset.  Lock files and binaries co-change with everything and drown the
//! coupling signal, so the walker never writes rows for them.
//!
//! Basenames are matched case-sensitively; extensions are matched on the
//! ASCII-lowercased path.

use vstd::prelude::*;

use crate::text::{chars_vec, ends_with, seq_eq, spec_ends_with, spec_lower, lower_char};

verus! {

/// Everything after the last `/` of the path (the whole path when it has
/// no `/`; empty for a path that ends in `/`).
pub open spec fn spec_after_last_slash(p: Seq<char>) -> Seq<char>
    decreases p.len(),
{
    if p.len() == 0 {
        p
    } else if p.last() == '/' {
        Seq::empty()
    } else {
        spec_after_last_slash(p.drop_last()).push(p.last())
    }
}

/// The path, ASCII-lowercased character by character.
pub open spec fn spec_lower_seq(p: Seq<char>) -> Seq<char> {
    p.map_values(|c: char| spec_lower(c))
}

/// Basenames that are never indexed (exact, case-sensitive match).
pub open spec fn spec_denied_name(name: Seq<char>) -> bool {
    ||| name == "package-lock.json"@
    ||| name == "yarn.lock"@
    ||| name == "pnpm-lock.yaml"@
    ||| name == "Cargo.lock"@
    ||| name == "Gemfile.lock"@
    ||| name == "poetry.lock"@
    ||| name == "composer.lock"@
    ||| name == "go.sum"@
    ||| name == ".DS_Store"@
    ||| name == "Thumbs.db"@
}

/// Extensions that are never indexed (matched on the lowercased path).
pub open spec fn spec_denied_ext(low: Seq<char>) -> bool {
    ||| spec_ends_with(low, ".png"@)
    ||| spec_ends_with(low, ".jpg"@)
    ||| spec_ends_with(low, ".jpeg"@)
    ||| spec_ends_with(low, ".gif"@)
    ||| spec_ends_with(low, ".ico"@)
    ||| spec_ends_with(low, ".svg"@)
    ||| spec_ends_with(low, ".bmp"@)
    ||| spec_ends_with(low, ".webp"@)
    ||| spec_ends_with(low, ".woff"@)
    ||| spec_ends_with(low, ".woff2"@)
    ||| spec_ends_with(low, ".ttf"@)
    ||| spec_ends_with(low, ".eot"@)
    ||| spec_ends_with(low, ".otf"@)
    ||| spec_ends_with(low, ".zip"@)
    ||| spec_ends_with(low, ".tar"@)
    ||| spec_ends_with(low, ".gz"@)
    ||| spec_ends_with(low, ".bz2"@)
    ||| spec_ends_with(low, ".xz"@)
    ||| spec_ends_with(low, ".exe"@)
    ||| spec_ends_with(low, ".dll"@)
    ||| spec_ends_with(low, ".so"@)
    ||| spec_ends_with(low, ".dylib"@)
    ||| spec_ends_with(low, ".pdf"@)
    ||| spec_ends_with(low, ".doc"@)
    ||| spec_ends_with(low, ".docx"@)
    ||| spec_ends_with(low, ".pyc"@)
    ||| spec_ends_with(low, ".class"@)
    ||| spec_ends_with(low, ".o"@)
    ||| spec_ends_with(low, ".obj"@)
    ||| spec_ends_with(low, ".min.js"@)
    ||| spec_ends_with(low, ".min.css"@)
}

/// A path belongs in the temporal index iff neither its basename nor its
/// (lowercased) extension is on a deny list.
pub open spec fn spec_should_index(p: Seq<char>) -> bool {
    !spec_denied_name(spec_after_last_slash(p)) && !spec_denied_ext(spec_lower_seq(p))
}

/// The basename of the path as a character vector.
pub(crate) fn basename_chars(v: &Vec<char>) -> (r: Vec<char>)
    ensures
        r@ == spec_after_last_slash(v@),
{
    let n: usize = v.len();
    let mut name: Vec<char> = Vec::new();
    let mut i: usize = 0;
    while i < n
        invariant
            0 <= i <= n,
            n == v@.len(),
            name@ == spec_after_last_slash(v@.take(i as int)),
        decreases n - i,
    {
        let c: char = v[i];
        assert(v@.take(i + 1).drop_last() =~= v@.take(i as int));
        assert(v@.take(i + 1).last() == v@[i as int]);
        if c == '/' {
            name.clear();
        } else {
            name.push(c);
        }
        i = i + 1;
    }
    assert(v@.take(n as int) =~= v@);
    name
}

/// The path ASCII-lowercased, as a character vector.
fn lower_chars(v: &Vec<char>) -> (r: Vec<char>)
    ensures
        r@ == spec_lower_seq(v@),
{
    let n: usize = v.len();
    let mut low: Vec<char> = Vec::new();
    let mut i: usize = 0;
    while i < n
        invariant
            0 <= i <= n,
            n == v@.len(),
            low@ == spec_lower_seq(v@.take(i as int)),
        decreases n - i,
    {
        low.push(lower_char(v[i]));
        assert(low@ =~= spec_lower_seq(v@.take(i + 1)));
        i = i + 1;
    }
    assert(v@.take(n as int) =~= v@);
    low
}

/// One deny-listed basename compared against the candidate.
fn name_is(name: &Vec<char>, lit: &str) -> (r: bool)
    ensures
        r == (name@ == lit@),
{
    let l: Vec<char> = chars_vec(lit);
    seq_eq(name.as_slice(), l.as_slice())
}

/// One deny-listed extension checked against the lowercased path.
fn ext_is(low: &Vec<char>, lit: &str) -> (r: bool)
    ensures
        r == spec_ends_with(low@, lit@),
{
    let l: Vec<char> = chars_vec(lit);
    ends_with(low.as_slice(), l.as_slice())
}

/// Returns true when the file at `path` should appear in the temporal
/// index: its basename is not a known lock or OS-metadata file, and its
/// lowercased path does not end in a binary or generated-asset extension.
pub fn should_index_file(path: &str) -> (r: bool)
    ensures
        r == spec_should_index(path@),
{
    let v: Vec<char> = chars_vec(path);
    let name: Vec<char> = basename_chars(&v);

    let denied_name = name_is(&name, "package-lock.json") || name_is(&name, "yarn.lock")
        || name_is(&name, "pnpm-lock.yaml") || name_is(&name, "Cargo.lock") || name_is(
        &name,
        "Gemfile.lock",
    ) || name_is(&name, "poetry.lock") || name_is(&name, "composer.lock") || name_is(
        &name,
        "go.sum",
    ) || name_is(&name, ".DS_Store") || name_is(&name, "Thumbs.db");
    if denied_name {
        return false;
    }

    let low: Vec<char> = lower_chars(&v);
    let denied_ext = ext_is(&low, ".png") || ext_is(&low, ".jpg") || ext_is(&low, ".jpeg")
        || ext_is(&low, ".gif") || ext_is(&low, ".ico") || ext_is(&low, ".svg") || ext_is(
        &low,
        ".bmp",
    ) || ext_is(&low, ".webp") || ext_is(&low, ".woff") || ext_is(&low, ".woff2") || ext_is(
        &low,
        ".ttf",
    ) || ext_is(&low, ".eot") || ext_is(&low, ".otf") || ext_is(&low, ".zip") || ext_is(
        &low,
        ".tar",
    ) || ext_is(&low, ".gz") || ext_is(&low, ".bz2") || ext_is(&low, ".xz") || ext_is(
        &low,
        ".exe",
    ) || ext_is(&low, ".dll") || ext_is(&low, ".so") || ext_is(&low, ".dylib") || ext_is(
        &low,
        ".pdf",
    ) || ext_is(&low, ".doc") || ext_is(&low, ".docx") || ext_is(&low, ".pyc") || ext_is(
        &low,
        ".class",
    ) || ext_is(&low, ".o") || ext_is(&low, ".obj") || ext_is(&low, ".min.js") || ext_is(
        &low,
        ".min.css",
    );
    !denied_ext
}

} // verus!
