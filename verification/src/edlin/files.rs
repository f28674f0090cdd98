//! How the editor's files are named. A buffer is kept one file per line,
//! `name_line0`, `name_line1` and so on, in the dictionary `edlin`.

use vstd::prelude::*;
use vstd::string::{StrSliceExecFns, StringExecFns};
use crate::edlin::text::{replace, replace_first, spec_replace, spec_replace_first};

verus! {

/// Whether `text` starts with `prefix`.
pub open spec fn spec_has_prefix(text: Seq<char>, prefix: Seq<char>) -> bool {
    prefix.len() <= text.len() && text.take(prefix.len() as int) == prefix
}

/// Whether `text` ends with `suffix`.
pub open spec fn spec_has_suffix(text: Seq<char>, suffix: Seq<char>) -> bool {
    suffix.len() <= text.len() && text.skip(text.len() - suffix.len()) == suffix
}

/// The name under which a buffer is listed, from the path of its first
/// line; `None` for the path of any other file.
pub open spec fn spec_listed_name(path: Seq<char>) -> Option<Seq<char>> {
    if spec_has_suffix(path, "_line0"@) {
        Some(
            spec_replace(
                spec_replace_first(
                    spec_replace_first(path, "edlin:"@, Seq::empty()),
                    "edlin/"@,
                    Seq::empty(),
                ),
                "_line0"@,
                Seq::empty(),
            ),
        )
    } else {
        None
    }
}

/// Whether the file at `path` holds a line of the buffer `filename`.
pub open spec fn spec_belongs_to(path: Seq<char>, filename: Seq<char>) -> bool {
    spec_has_prefix(path, "edlin/"@ + filename + "_"@) || spec_has_prefix(
        path,
        "edlin:"@ + filename + "_"@,
    )
}

/// Whether `text` holds `part` from position `at` on.
fn holds_at(text: &str, at: usize, part: &str) -> (holds: bool)
    requires
        at + part@.len() <= text@.len(),
    ensures
        holds == (text@.subrange(at as int, at + part@.len()) == part@),
{
    let n = part.unicode_len();
    let total = text.unicode_len();
    let mut i: usize = 0;
    while i < n
        invariant
            i <= n == part@.len(),
            at + n <= text@.len() == total,
            forall|j: int| 0 <= j < i ==> text@[at + j] == part@[j],
        decreases n - i,
    {
        if text.get_char(at + i) != part.get_char(i) {
            assert(text@.subrange(at as int, at + n)[i as int] != part@[i as int]);
            return false;
        }
        i = i + 1;
    }
    assert(text@.subrange(at as int, at + n) =~= part@);
    true
}

/// Whether `text` starts with `prefix`.
pub fn has_prefix(text: &str, prefix: &str) -> (has: bool)
    ensures
        has == spec_has_prefix(text@, prefix@),
{
    let n = prefix.unicode_len();
    if n > text.unicode_len() {
        return false;
    }
    assert(text@.take(n as int) =~= text@.subrange(0, n as int));
    holds_at(text, 0, prefix)
}

/// Whether `text` ends with `suffix`.
pub fn has_suffix(text: &str, suffix: &str) -> (has: bool)
    ensures
        has == spec_has_suffix(text@, suffix@),
{
    let n = suffix.unicode_len();
    let total = text.unicode_len();
    if n > total {
        return false;
    }
    assert(text@.skip(total - n) =~= text@.subrange(total - n, total as int));
    holds_at(text, total - n, suffix)
}

/// The name under which a buffer is listed, from the path of a file.
pub fn listed_name(path: &str) -> (name: Option<String>)
    ensures
        match name {
            Some(n) => spec_listed_name(path@) == Some(n@),
            None => spec_listed_name(path@).is_none(),
        },
{
    proof {
        reveal_strlit("");
        reveal_strlit("edlin:");
        reveal_strlit("edlin/");
        reveal_strlit("_line0");
        assert(""@ =~= Seq::<char>::empty());
    }
    if has_suffix(path, "_line0") {
        let bare = replace_first(replace_first(path, "edlin:", "").as_str(), "edlin/", "");
        Some(replace(bare.as_str(), "_line0", ""))
    } else {
        None
    }
}

/// Whether the file at `path` holds a line of the buffer `filename`.
pub fn belongs_to(path: &str, filename: &str) -> (belongs: bool)
    ensures
        belongs == spec_belongs_to(path@, filename@),
{
    let mut with_slash = String::from_str("edlin/");
    with_slash.append(filename);
    with_slash.append("_");
    let mut with_colon = String::from_str("edlin:");
    with_colon.append(filename);
    with_colon.append("_");
    has_prefix(path, with_slash.as_str()) || has_prefix(path, with_colon.as_str())
}

} // verus!
