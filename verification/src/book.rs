//! The book reader: what a key press asks for and which page to fetch.

use vstd::prelude::*;
use vstd::string::{StrSliceExecFns, StringExecFns};
use crate::shell::text::{lemma_until, spec_until, until_len};

verus! {

/// Backlight level for reading in the dark.
pub const DIM_BACKLIGHT_SETTING: u8 = 20;

/// Backlight level at full brightness.
pub const FULL_BACKLIGHT_SETTING: u8 = 255;

/// The character that the backspace key sends.
pub const BACKSPACE: char = '\u{8}';

/// What to ask the server for.
#[derive(Clone, Copy, Debug, PartialEq, Eq, Structural)]
pub enum Direction {
    /// The page before.
    Prev,
    /// The same text in smaller pieces.
    Less,
    /// The same text in larger pieces.
    More,
    /// The first page of the book that was just chosen.
    List,
    /// The page after.
    Next,
}

/// What a key press leads to.
#[derive(Clone, Copy, Debug, PartialEq, Eq, Structural)]
pub struct KeyDecision {
    pub direction: Direction,
    /// The book that a digit key chose, if one was pressed.
    pub book: Option<u8>,
    /// The backlight level from now on.
    pub backlight: u8,
}

/// Whether `c` is among the keys.
pub open spec fn has_key(keys: Seq<char>, c: char) -> bool {
    exists|i: int| 0 <= i < keys.len() && keys[i] == c
}

/// The lowest digit among the keys, if any, as a number.
pub open spec fn lowest_digit(keys: Seq<char>, from: int) -> Option<u8>
    decreases 10 - from,
{
    if from < 0 || from >= 10 {
        None
    } else if has_key(keys, (48u8 + from as u8) as char) {
        Some(from as u8)
    } else {
        lowest_digit(keys, from + 1)
    }
}

/// The other of the two backlight levels: full where it is dim, dim
/// otherwise.
pub open spec fn toggled(backlight: u8) -> u8 {
    if backlight == DIM_BACKLIGHT_SETTING {
        FULL_BACKLIGHT_SETTING
    } else {
        DIM_BACKLIGHT_SETTING
    }
}

/// What the keys pressed together ask for. Backspace goes back, minus or
/// `g` and plus or `h` change the size of the pieces, a digit chooses a
/// book, and the exclamation mark toggles the backlight on the way to the
/// next page; where several are pressed, the first in this order counts.
/// Any other key goes to the next page.
pub open spec fn spec_rawkeys(keys: Seq<char>, backlight: u8) -> KeyDecision {
    if has_key(keys, BACKSPACE) {
        KeyDecision { direction: Direction::Prev, book: None, backlight }
    } else if has_key(keys, '-') || has_key(keys, 'g') {
        KeyDecision { direction: Direction::Less, book: None, backlight }
    } else if has_key(keys, '+') || has_key(keys, 'h') {
        KeyDecision { direction: Direction::More, book: None, backlight }
    } else if lowest_digit(keys, 0) is Some {
        KeyDecision { direction: Direction::List, book: lowest_digit(keys, 0), backlight }
    } else if has_key(keys, '!') {
        KeyDecision { direction: Direction::Next, book: None, backlight: toggled(backlight) }
    } else {
        KeyDecision { direction: Direction::Next, book: None, backlight }
    }
}

/// The word for a direction in the address of a page.
pub open spec fn spec_direction_word(direction: Direction) -> Seq<char> {
    match direction {
        Direction::Prev => "prev"@,
        Direction::Less => "less"@,
        Direction::More => "more"@,
        Direction::List => "list"@,
        Direction::Next => "next"@,
    }
}

fn contains(keys: &[char; 4], c: char) -> (found: bool)
    ensures
        found == has_key(keys@, c),
{
    let found = keys[0] == c || keys[1] == c || keys[2] == c || keys[3] == c;
    proof {
        if found {
            let i = if keys[0] == c {
                0int
            } else if keys[1] == c {
                1int
            } else if keys[2] == c {
                2int
            } else {
                3int
            };
            assert(0 <= i < keys@.len() && keys@[i] == c);
        }
    }
    found
}

fn digit_key(keys: &[char; 4]) -> (digit: Option<u8>)
    ensures
        digit == lowest_digit(keys@, 0),
{
    let mut d: u8 = 0;
    while d < 10
        invariant
            d <= 10,
            lowest_digit(keys@, 0) == lowest_digit(keys@, d as int),
        decreases 10 - d,
    {
        if contains(keys, (48u8 + d) as char) {
            return Some(d);
        }
        d = d + 1;
    }
    None
}

/// Reads a key press.
pub fn rawkeys(keys: &[char; 4], backlight: u8) -> (decision: KeyDecision)
    ensures
        decision == spec_rawkeys(keys@, backlight),
{
    if contains(keys, BACKSPACE) {
        return KeyDecision { direction: Direction::Prev, book: None, backlight };
    }
    if contains(keys, '-') || contains(keys, 'g') {
        return KeyDecision { direction: Direction::Less, book: None, backlight };
    }
    if contains(keys, '+') || contains(keys, 'h') {
        return KeyDecision { direction: Direction::More, book: None, backlight };
    }
    let digit = digit_key(keys);
    if digit.is_some() {
        return KeyDecision { direction: Direction::List, book: digit, backlight };
    }
    if contains(keys, '!') {
        let toggled = if backlight == DIM_BACKLIGHT_SETTING {
            FULL_BACKLIGHT_SETTING
        } else {
            DIM_BACKLIGHT_SETTING
        };
        return KeyDecision { direction: Direction::Next, book: None, backlight: toggled };
    }
    KeyDecision { direction: Direction::Next, book: None, backlight }
}

/// The word for a direction in the address of a page.
pub fn direction_word(direction: Direction) -> (word: &'static str)
    ensures
        word@ == spec_direction_word(direction),
{
    match direction {
        Direction::Prev => "prev",
        Direction::Less => "less",
        Direction::More => "more",
        Direction::List => "list",
        Direction::Next => "next",
    }
}

/// The address of a page on the server: the direction and the book.
pub fn getpage(direction: Direction, bookindex: &str) -> (path: String)
    ensures
        path@ == "book/"@ + spec_direction_word(direction) + "?bookindex="@ + bookindex@,
{
    let mut path = String::from_str("book/");
    path.append(direction_word(direction));
    path.append("?bookindex=");
    path.append(bookindex);
    path
}

/// The first line of `text`, without its line ending. A carriage return
/// in front of the line feed belongs to the ending.
pub open spec fn spec_first_line(text: Seq<char>) -> Seq<char> {
    let raw = spec_until(text, '\n');
    if raw.len() < text.len() && raw.len() > 0 && raw.last() == '\r' {
        raw.drop_last()
    } else {
        raw
    }
}

/// What follows the first line of `text` and its line feed.
pub open spec fn spec_after_first_line(text: Seq<char>) -> Seq<char> {
    if spec_until(text, '\n').len() < text.len() {
        text.skip(spec_until(text, '\n').len() as int + 1)
    } else {
        Seq::empty()
    }
}

/// The lines of `text`, one after the other without their endings, from
/// the line behind the first empty line on; with `found_blank`, from the
/// first line on.
pub open spec fn spec_page_text(text: Seq<char>, found_blank: bool) -> Seq<char>
    decreases text.len(),
{
    if text.len() == 0 {
        Seq::empty()
    } else {
        let line = spec_first_line(text);
        let shown = if found_blank {
            line
        } else {
            Seq::empty()
        };
        shown + spec_page_text(spec_after_first_line(text), found_blank || line.len() == 0)
    }
}

/// The text of a page from the server's answer: what follows the first
/// empty line, which ends the headers, with the line endings taken out.
pub fn page_text(message: &str) -> (text: String)
    ensures
        text@ == spec_page_text(message@, false),
{
    let total = message.unicode_len();
    let mut text = String::new();
    let mut found_blank = false;
    let mut start: usize = 0;
    assert(message@.skip(0) =~= message@);
    assert(text@ + spec_page_text(message@, false) =~= spec_page_text(message@, false));
    while start < total
        invariant
            start <= total == message@.len(),
            spec_page_text(message@, false) == text@ + spec_page_text(
                message@.skip(start as int),
                found_blank,
            ),
        decreases total - start,
    {
        let ghost rest = message@.skip(start as int);
        let n = until_len(message, start, '\n');
        let end = start + n;
        proof {
            lemma_until(rest, '\n');
            assert(spec_until(rest, '\n') =~= message@.subrange(start as int, end as int));
        }
        let mut line_end = end;
        if end < total && n > 0 && message.get_char(end - 1) == '\r' {
            line_end = end - 1;
        }
        assert(spec_first_line(rest) =~= message@.subrange(start as int, line_end as int));
        let ghost before = text@;
        if found_blank {
            text.append(message.substring_char(start, line_end));
        }
        let ghost was_blank = found_blank;
        if line_end == start {
            found_blank = true;
        }
        let next = if end < total {
            end + 1
        } else {
            total
        };
        proof {
            assert(spec_after_first_line(rest) =~= message@.skip(next as int));
            let shown = if was_blank {
                spec_first_line(rest)
            } else {
                Seq::empty()
            };
            assert(spec_page_text(rest, was_blank) == shown + spec_page_text(
                message@.skip(next as int),
                found_blank,
            ));
            assert(text@ =~= before + shown);
            assert(text@ + spec_page_text(message@.skip(next as int), found_blank) =~= before + (
            shown + spec_page_text(message@.skip(next as int), found_blank)));
        }
        start = next;
    }
    assert(text@ + spec_page_text(message@.skip(start as int), found_blank) =~= text@);
    text
}

} // verus!
