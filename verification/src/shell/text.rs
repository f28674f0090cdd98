//! Small helpers on strings.

use vstd::prelude::*;
use vstd::string::{StrSliceExecFns, StringExecFns};

verus! {

/// The part of `text` in front of the first `stop`; all of it where it has
/// none.
pub open spec fn spec_until(text: Seq<char>, stop: char) -> Seq<char>
    decreases text.len(),
{
    if text.len() == 0 || text[0] == stop {
        Seq::empty()
    } else {
        seq![text[0]] + spec_until(text.skip(1), stop)
    }
}

/// The part of `line` in front of its first space; all of it where it has
/// none.
pub open spec fn spec_first_token(line: Seq<char>) -> Seq<char> {
    spec_until(line, ' ')
}

/// The part of `line` behind its first space; nothing where it has none.
pub open spec fn spec_after_first_token(line: Seq<char>) -> Seq<char> {
    if spec_first_token(line).len() < line.len() {
        line.skip(spec_first_token(line).len() as int + 1)
    } else {
        Seq::empty()
    }
}

/// The part in front of the first `stop` is a prefix without a `stop` in
/// it, and where the text goes on behind it, a `stop` follows.
pub proof fn lemma_until(text: Seq<char>, stop: char)
    ensures
        spec_until(text, stop).len() <= text.len(),
        spec_until(text, stop) == text.take(spec_until(text, stop).len() as int),
        forall|i: int| 0 <= i < spec_until(text, stop).len() ==> text[i] != stop,
        spec_until(text, stop).len() < text.len() ==> text[spec_until(text, stop).len() as int]
            == stop,
    decreases text.len(),
{
    if text.len() == 0 || text[0] == stop {
        assert(spec_until(text, stop) =~= text.take(0));
    } else {
        let rest = text.skip(1);
        lemma_until(rest, stop);
        let n = spec_until(rest, stop).len() as int;
        assert(spec_until(text, stop) =~= text.take(n + 1));
        assert forall|i: int| 0 <= i < n + 1 implies text[i] != stop by {
            if i > 0 {
                assert(rest[i - 1] == text[i]);
            }
        }
        if n + 1 < text.len() {
            assert(rest[n] == text[n + 1]);
        }
    }
}

/// A prefix without a `stop` that ends the text or is followed by a `stop`
/// is the part in front of the first `stop`.
pub proof fn lemma_until_is(text: Seq<char>, stop: char, n: int)
    requires
        0 <= n <= text.len(),
        forall|i: int| 0 <= i < n ==> text[i] != stop,
        n < text.len() ==> text[n] == stop,
    ensures
        spec_until(text, stop) == text.take(n),
    decreases n,
{
    if n == 0 {
        assert(spec_until(text, stop) =~= text.take(0));
    } else {
        let rest = text.skip(1);
        assert forall|i: int| 0 <= i < n - 1 implies rest[i] != stop by {
            assert(rest[i] == text[i + 1]);
        }
        lemma_until_is(rest, stop, n - 1);
        assert(spec_until(text, stop) =~= text.take(n));
    }
}

/// The first token has no space in it, and where the line goes on behind
/// it, a space follows.
pub proof fn lemma_first_token(line: Seq<char>)
    ensures
        spec_first_token(line).len() <= line.len(),
        spec_first_token(line) == line.take(spec_first_token(line).len() as int),
        forall|i: int| 0 <= i < spec_first_token(line).len() ==> line[i] != ' ',
        spec_first_token(line).len() < line.len() ==> line[spec_first_token(line).len() as int]
            == ' ',
{
    lemma_until(line, ' ');
}

/// Number of characters of `text` from position `from` up to the next
/// `stop`, or to the end.
pub fn until_len(text: &str, from: usize, stop: char) -> (n: usize)
    requires
        from <= text@.len(),
    ensures
        n == spec_until(text@.skip(from as int), stop).len(),
        from + n <= text@.len(),
{
    let total = text.unicode_len();
    let mut at: usize = from;
    while at < total && text.get_char(at) != stop
        invariant
            from <= at <= total == text@.len(),
            forall|i: int| from <= i < at ==> text@[i] != stop,
        decreases total - at,
    {
        at = at + 1;
    }
    proof {
        let tail = text@.skip(from as int);
        assert forall|i: int| 0 <= i < at - from implies tail[i] != stop by {
            assert(tail[i] == text@[from + i]);
        }
        if at - from < tail.len() {
            assert(tail[at - from] == text@[at as int]);
        }
        lemma_until_is(tail, stop, at - from);
    }
    at - from
}

/// Number of characters in front of the first space of `line`.
pub fn first_token_len(line: &str) -> (n: usize)
    ensures
        n == spec_first_token(line@).len(),
{
    assert(line@.skip(0) =~= line@);
    until_len(line, 0, ' ')
}

/// The part of `line` in front of its first space.
pub fn first_token(line: &str) -> (token: &str)
    ensures
        token@ == spec_first_token(line@),
{
    let n = first_token_len(line);
    proof {
        lemma_first_token(line@);
    }
    line.substring_char(0, n)
}

/// `text` without the spaces at its front.
pub open spec fn spec_skip_spaces(text: Seq<char>) -> Seq<char>
    decreases text.len(),
{
    if text.len() > 0 && text[0] == ' ' {
        spec_skip_spaces(text.skip(1))
    } else {
        text
    }
}

/// What is left of `line` once its first token and the spaces behind it
/// are taken away.
pub open spec fn spec_rest(line: Seq<char>) -> Seq<char> {
    spec_skip_spaces(line.skip(spec_first_token(line).len() as int))
}

/// A run of spaces followed by a character that is none, or by the end,
/// is what `spec_skip_spaces` skips.
pub proof fn lemma_skip_spaces_is(text: Seq<char>, n: int)
    requires
        0 <= n <= text.len(),
        forall|i: int| 0 <= i < n ==> text[i] == ' ',
        n < text.len() ==> text[n] != ' ',
    ensures
        spec_skip_spaces(text) == text.skip(n),
    decreases n,
{
    if n == 0 {
        assert(text.skip(0) =~= text);
    } else {
        let rest = text.skip(1);
        assert forall|i: int| 0 <= i < n - 1 implies rest[i] == ' ' by {
            assert(rest[i] == text[i + 1]);
        }
        if n - 1 < rest.len() {
            assert(rest[n - 1] == text[n]);
        }
        lemma_skip_spaces_is(rest, n - 1);
        assert(rest.skip(n - 1) =~= text.skip(n));
    }
}

/// Takes the first token off `line`, together with the spaces behind it,
/// and returns it; `None` where the line starts with a space or is empty.
pub fn tokenize(line: &mut String) -> (token: Option<String>)
    ensures
        final(line)@ == spec_rest(old(line)@),
        match token {
            Some(t) => t@ == spec_first_token(old(line)@) && t@.len() > 0,
            None => spec_first_token(old(line)@).len() == 0,
        },
{
    let text = line.as_str();
    let total = text.unicode_len();
    let n = first_token_len(text);
    proof {
        lemma_first_token(text@);
    }
    let mut at = n;
    while at < total && text.get_char(at) == ' '
        invariant
            n <= at <= total == text@.len(),
            forall|i: int| n <= i < at ==> text@[i] == ' ',
        decreases total - at,
    {
        at = at + 1;
    }
    proof {
        let tail = text@.skip(n as int);
        assert forall|i: int| 0 <= i < at - n implies tail[i] == ' ' by {
            assert(tail[i] == text@[n + i]);
        }
        if at - n < tail.len() {
            assert(tail[at - n] == text@[at as int]);
        }
        lemma_skip_spaces_is(tail, at - n);
        assert(tail.skip(at - n) =~= text@.subrange(at as int, total as int));
    }
    let token = String::from_str(text.substring_char(0, n));
    let rest = String::from_str(text.substring_char(at, total));
    *line = rest;
    if n > 0 {
        Some(token)
    } else {
        None
    }
}

/// Whether two strings hold the same characters.
pub fn same_text(a: &str, b: &str) -> (same: bool)
    ensures
        same == (a@ == b@),
{
    let n = a.unicode_len();
    if n != b.unicode_len() {
        return false;
    }
    let mut i: usize = 0;
    while i < n
        invariant
            i <= n == a@.len() == b@.len(),
            forall|j: int| 0 <= j < i ==> a@[j] == b@[j],
        decreases n - i,
    {
        if a.get_char(i) != b.get_char(i) {
            return false;
        }
        i = i + 1;
    }
    assert(a@ =~= b@);
    true
}

} // verus!
