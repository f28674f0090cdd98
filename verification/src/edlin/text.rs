//! What the line editor needs of strings.

use vstd::prelude::*;
use vstd::string::{StrSliceExecFns, StringExecFns};
use vstd::utf8::encode_utf8;

verus! {

/// `text` without the white space at its ends, as Unicode defines white
/// space. It stands for `str::trim`.
pub uninterp spec fn trimmed(text: Seq<char>) -> Seq<char>;

/// Whether `c` is a number, as Unicode defines numbers. It stands for
/// `char::is_numeric`.
pub uninterp spec fn numeric(c: char) -> bool;

/// `text` in lower case, as Unicode defines it. It stands for
/// `str::to_lowercase`.
pub uninterp spec fn lowercased(text: Seq<char>) -> Seq<char>;

/// Whether `c` is one of the ten digits.
pub open spec fn is_digit(c: char) -> bool {
    '0' <= c <= '9'
}

/// The number that a run of digits writes in base ten.
pub open spec fn decimal_value(digits: Seq<char>) -> int
    decreases digits.len(),
{
    if digits.len() == 0 {
        0
    } else {
        10 * decimal_value(digits.drop_last()) + (digits.last() as int - '0' as int)
    }
}

/// `text` without a plus sign at its front.
pub open spec fn unsigned_part(text: Seq<char>) -> Seq<char> {
    if text.len() > 0 && text[0] == '+' {
        text.skip(1)
    } else {
        text
    }
}

/// The number that `text` writes, if it is at most `max`: digits only,
/// at least one, with or without a plus sign in front.
pub open spec fn spec_parse(text: Seq<char>, max: int) -> Option<int> {
    let digits = unsigned_part(text);
    if digits.len() == 0 || (exists|i: int| 0 <= i < digits.len() && !is_digit(digits[i]))
        || decimal_value(digits) > max {
        None
    } else {
        Some(decimal_value(digits))
    }
}

/// The number that `text` writes, where it fits the machine's word.
pub open spec fn spec_parse_usize(text: Seq<char>) -> Option<usize> {
    match spec_parse(text, usize::MAX as int) {
        Some(n) => Some(n as usize),
        None => None,
    }
}

/// The number that `text` writes, where it fits a byte.
pub open spec fn spec_parse_u8(text: Seq<char>) -> Option<u8> {
    match spec_parse(text, u8::MAX as int) {
        Some(n) => Some(n as u8),
        None => None,
    }
}

/// `text` with every occurrence of `from` replaced by `to`, found from the
/// left and not overlapping.
pub open spec fn spec_replace(text: Seq<char>, from: Seq<char>, to: Seq<char>) -> Seq<char>
    decreases text.len(),
{
    if from.len() == 0 || text.len() < from.len() {
        text
    } else if text.take(from.len() as int) == from {
        to + spec_replace(text.skip(from.len() as int), from, to)
    } else {
        seq![text[0]] + spec_replace(text.skip(1), from, to)
    }
}

/// `text` with the first `count` occurrences of `from` replaced by `to`.
pub open spec fn spec_replacen(
    text: Seq<char>,
    from: Seq<char>,
    to: Seq<char>,
    count: nat,
) -> Seq<char>
    decreases text.len(),
{
    if count == 0 || from.len() == 0 || text.len() < from.len() {
        text
    } else if text.take(from.len() as int) == from {
        to + spec_replacen(text.skip(from.len() as int), from, to, (count - 1) as nat)
    } else {
        seq![text[0]] + spec_replacen(text.skip(1), from, to, count)
    }
}

/// `text` with the first occurrence of `from` replaced by `to`.
pub open spec fn spec_replace_first(text: Seq<char>, from: Seq<char>, to: Seq<char>) -> Seq<
    char,
> {
    spec_replacen(text, from, to, 1)
}

/// The numbers among the characters of `text`, in their order.
pub open spec fn spec_digits(text: Seq<char>) -> Seq<char>
    decreases text.len(),
{
    if text.len() == 0 {
        Seq::empty()
    } else if numeric(text.last()) {
        spec_digits(text.drop_last()).push(text.last())
    } else {
        spec_digits(text.drop_last())
    }
}

/// Whether every character of `text` is a number.
pub open spec fn all_numeric(text: Seq<char>) -> bool {
    forall|i: int| 0 <= i < text.len() ==> numeric(#[trigger] text[i])
}

/// The lines one after the other, with `sep` between each two.
pub open spec fn spec_join(lines: Seq<Seq<char>>, sep: Seq<char>) -> Seq<char>
    decreases lines.len(),
{
    if lines.len() == 0 {
        Seq::empty()
    } else if lines.len() == 1 {
        lines[0]
    } else {
        spec_join(lines.drop_last(), sep) + sep + lines.last()
    }
}

/// The views of a list of strings.
pub open spec fn lines_view(lines: Seq<String>) -> Seq<Seq<char>> {
    Seq::new(lines.len(), |i: int| lines[i]@)
}

/// Number of bytes that `text` takes.
pub open spec fn byte_len(text: Seq<char>) -> usize {
    encode_utf8(text).len() as usize
}

/// Calls `str::trim`, which strips white space from both ends.
#[verifier::external_body]
pub(crate) fn trim(text: &str) -> (stripped: &str)
    ensures
        stripped@ == trimmed(text@),
{
    text.trim()
}

/// Calls `char::is_numeric`.
#[verifier::external_body]
pub(crate) fn is_numeric(c: char) -> (number: bool)
    ensures
        number == numeric(c),
{
    c.is_numeric()
}

/// Calls `str::to_lowercase`.
#[verifier::external_body]
pub(crate) fn to_lowercase(text: &str) -> (lower: String)
    ensures
        lower@ == lowercased(text@),
{
    text.to_lowercase()
}

/// Calls `str::parse` for `usize`. The contract claims what the function
/// documents: an optional plus sign and digits, nothing else, and an
/// error where the number does not fit.
#[verifier::external_body]
pub(crate) fn parse_usize(text: &str) -> (number: Option<usize>)
    ensures
        number == spec_parse_usize(text@),
{
    text.parse::<usize>().ok()
}

/// Calls `str::parse` for `u8`, with the same claim.
#[verifier::external_body]
pub(crate) fn parse_u8(text: &str) -> (number: Option<u8>)
    ensures
        number == spec_parse_u8(text@),
{
    text.parse::<u8>().ok()
}

/// Calls `str::replace`. The contract claims that the matches are found
/// from the left and do not overlap.
#[verifier::external_body]
pub(crate) fn replace(text: &str, from: &str, to: &str) -> (replaced: String)
    requires
        from@.len() > 0,
    ensures
        replaced@ == spec_replace(text@, from@, to@),
{
    text.replace(from, to)
}

/// Calls `str::replacen`. The contract claims that the matches are found
/// from the left and do not overlap, and that no more than `count` are
/// replaced.
#[verifier::external_body]
pub(crate) fn replacen(text: &str, from: &str, to: &str, count: usize) -> (replaced: String)
    requires
        from@.len() > 0,
    ensures
        replaced@ == spec_replacen(text@, from@, to@, count as nat),
{
    text.replacen(from, to, count)
}

/// `text` with the first occurrence of `from` replaced by `to`.
pub fn replace_first(text: &str, from: &str, to: &str) -> (replaced: String)
    requires
        from@.len() > 0,
    ensures
        replaced@ == spec_replace_first(text@, from@, to@),
{
    replacen(text, from, to, 1)
}

/// Whether `text` starts with `c`.
pub fn starts_with(text: &str, c: char) -> (starts: bool)
    ensures
        starts == (text@.len() > 0 && text@[0] == c),
{
    text.unicode_len() > 0 && text.get_char(0) == c
}

/// Whether `text` ends with `c`.
pub fn ends_with(text: &str, c: char) -> (ends: bool)
    ensures
        ends == (text@.len() > 0 && text@.last() == c),
{
    let n = text.unicode_len();
    n > 0 && text.get_char(n - 1) == c
}

/// Whether `c` occurs in `text`.
pub fn contains(text: &str, c: char) -> (found: bool)
    ensures
        found == text@.contains(c),
{
    let n = text.unicode_len();
    let mut i: usize = 0;
    while i < n
        invariant
            i <= n == text@.len(),
            forall|j: int| 0 <= j < i ==> text@[j] != c,
        decreases n - i,
    {
        if text.get_char(i) == c {
            return true;
        }
        i = i + 1;
    }
    false
}

/// Whether every character of `text` is a number.
pub fn is_string_numeric(text: &str) -> (numbers: bool)
    ensures
        numbers == all_numeric(text@),
{
    let n = text.unicode_len();
    let mut i: usize = 0;
    while i < n
        invariant
            i <= n == text@.len(),
            forall|j: int| 0 <= j < i ==> numeric(#[trigger] text@[j]),
        decreases n - i,
    {
        if !is_numeric(text.get_char(i)) {
            return false;
        }
        i = i + 1;
    }
    true
}

/// The numbers among the characters of `text`.
pub fn digits(text: &str) -> (found: String)
    ensures
        found@ == spec_digits(text@),
{
    let n = text.unicode_len();
    let mut found = String::new();
    let mut i: usize = 0;
    assert(text@.take(0) =~= Seq::<char>::empty());
    while i < n
        invariant
            i <= n == text@.len(),
            found@ == spec_digits(text@.take(i as int)),
        decreases n - i,
    {
        assert(text@.take(i + 1).drop_last() =~= text@.take(i as int));
        if is_numeric(text.get_char(i)) {
            found.append(text.substring_char(i, i + 1));
            assert(found@ =~= spec_digits(text@.take(i as int)).push(text@[i as int]));
        }
        i = i + 1;
    }
    assert(text@.take(n as int) =~= text@);
    found
}

/// The lines from `from` up to `upto`, joined with `sep`.
pub fn join(lines: &Vec<String>, from: usize, upto: usize, sep: &str) -> (joined: String)
    requires
        from <= upto <= lines@.len(),
    ensures
        joined@ == spec_join(lines_view(lines@).subrange(from as int, upto as int), sep@),
{
    let ghost part = lines_view(lines@).subrange(from as int, upto as int);
    let mut joined = String::new();
    let mut i: usize = from;
    assert(part.take(0) =~= Seq::<Seq<char>>::empty());
    while i < upto
        invariant
            from <= i <= upto <= lines@.len(),
            part == lines_view(lines@).subrange(from as int, upto as int),
            joined@ == spec_join(part.take(i - from), sep@),
        decreases upto - i,
    {
        assert(part.take(i - from + 1).drop_last() =~= part.take(i - from));
        assert(part.take(i - from + 1).last() == lines@[i as int]@);
        if i != from {
            joined.append(sep);
        }
        joined.append(lines[i].as_str());
        i = i + 1;
        assert(joined@ =~= spec_join(part.take(i - from), sep@));
    }
    assert(part.take(upto - from) =~= part);
    joined
}

} // verus!
