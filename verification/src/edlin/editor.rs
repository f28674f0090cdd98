//! The editor's state and what a line does to it.
//!
//! A line is text in the inserting and the editing mode and a command in
//! the command mode. The editor changes its buffer and says what is to be
//! shown or done; fetching, posting, files and the backlight are the
//! caller's.

use vstd::prelude::*;
use vstd::string::{StrSliceExecFns, StringExecFns};
use crate::edlin::text::{
    all_numeric,
    byte_len,
    contains,
    digits,
    ends_with,
    is_string_numeric,
    join,
    lines_view,
    lowercased,
    parse_u8,
    parse_usize,
    replace,
    replace_first,
    spec_digits,
    spec_join,
    spec_parse_u8,
    spec_parse_usize,
    spec_replace,
    spec_replace_first,
    starts_with,
    to_lowercase,
    trim,
    trimmed,
};
use crate::shell::text::{lemma_until, same_text, spec_until, until_len};

verus! {

/// Longest line, in bytes, that can be typed out for editing.
pub const MAX_EDIT_BYTES: usize = 127;

/// Width, in bytes, to which lines are wrapped where no width is given.
pub const DEFAULT_WRAP: usize = 35;

/// Lines shown at once.
pub const NUM_LINES_PER_PAGE: usize = 5;

/// Backlight level at the start.
pub const INITIAL_BACKLIGHT: u8 = 254;

/// What the next line is taken for.
#[derive(Clone, Copy, Debug, PartialEq, Eq, Structural)]
pub enum EdlinMode {
    /// A line of text to insert at the cursor.
    Inserting,
    /// A command.
    Command,
    /// A line of text to put in place of the one at the cursor.
    Editing,
}

/// The commands that name a file.
#[derive(Clone, Copy, Debug, PartialEq, Eq, Structural)]
pub enum FileCommand {
    Write,
    Read,
    Remove,
}

/// Why a line cannot be carried out.
#[derive(Clone, Copy, Debug, PartialEq, Eq, Structural)]
pub enum EdlinPanic {
    /// A number was expected and none was found, or it is too large.
    BadNumber,
    /// The buffer has no line of that number.
    NoSuchLine,
    /// The command needs a line and the buffer is empty.
    EmptyBuffer,
    /// The cursor would pass the largest number.
    CursorOverflow,
}

/// What is to be shown or done after a line. `S` is a text and `L` a list
/// of texts.
#[derive(Debug, PartialEq, Eq)]
pub enum EdlinStep<S, L> {
    /// Show a dot: the editor takes commands again.
    Dot,
    /// Show the text as line `at`, which it now is.
    Inserted { at: usize, text: S },
    /// Say that the line is too long to edit.
    TooLong,
    /// Type the text out for editing and show a question mark.
    TypeLine { text: S },
    /// Fetch the address and hand what comes back to `grabbed`.
    FetchUrl { url: S },
    /// Post the body to the address and show the answer.
    PostJson { url: S, body: S },
    /// Set the backlight and say so.
    SetBacklight { level: u8 },
    /// Run the program and show its result.
    RunBasic { program: S },
    /// Say that the buffer was wrapped to this many lines.
    Wrapped { count: usize },
    /// Write, read or remove the file. A file that was read is handed to
    /// `load`.
    File { command: FileCommand, filename: S },
    /// Ask for a file name after the command.
    NeedFilename { command: FileCommand },
    /// Show the help and the number of lines.
    Help { count: usize },
    /// Show the cursor as the prompt.
    Prompt { cursor: usize },
    /// Say that the lines from `from` to `to` were deleted.
    Deleted { from: usize, to: usize },
    /// Show these lines.
    Lines { lines: L },
    /// Show the names of the files.
    ListFiles,
    /// Show every line with its number, the one at `cursor` marked.
    Listing { cursor: usize },
    /// Show the lines from `from` up to `upto` with their numbers.
    Page { from: usize, upto: usize },
    /// Show the text.
    PrintPage { text: S },
    /// Show nothing.
    Nothing,
    /// Stop: the line cannot be carried out. The editor is as it was.
    Panic(EdlinPanic),
}

/// A step with its texts as characters.
pub type StepView = EdlinStep<Seq<char>, Seq<Seq<char>>>;

/// The step with its texts as characters.
pub open spec fn step_view(step: EdlinStep<String, Vec<String>>) -> StepView {
    match step {
        EdlinStep::Dot => EdlinStep::Dot,
        EdlinStep::Inserted { at, text } => EdlinStep::Inserted { at, text: text@ },
        EdlinStep::TooLong => EdlinStep::TooLong,
        EdlinStep::TypeLine { text } => EdlinStep::TypeLine { text: text@ },
        EdlinStep::FetchUrl { url } => EdlinStep::FetchUrl { url: url@ },
        EdlinStep::PostJson { url, body } => EdlinStep::PostJson { url: url@, body: body@ },
        EdlinStep::SetBacklight { level } => EdlinStep::SetBacklight { level },
        EdlinStep::RunBasic { program } => EdlinStep::RunBasic { program: program@ },
        EdlinStep::Wrapped { count } => EdlinStep::Wrapped { count },
        EdlinStep::File { command, filename } => EdlinStep::File { command, filename: filename@ },
        EdlinStep::NeedFilename { command } => EdlinStep::NeedFilename { command },
        EdlinStep::Help { count } => EdlinStep::Help { count },
        EdlinStep::Prompt { cursor } => EdlinStep::Prompt { cursor },
        EdlinStep::Deleted { from, to } => EdlinStep::Deleted { from, to },
        EdlinStep::Lines { lines } => EdlinStep::Lines { lines: lines_view(lines@) },
        EdlinStep::ListFiles => EdlinStep::ListFiles,
        EdlinStep::Listing { cursor } => EdlinStep::Listing { cursor },
        EdlinStep::Page { from, upto } => EdlinStep::Page { from, upto },
        EdlinStep::PrintPage { text } => EdlinStep::PrintPage { text: text@ },
        EdlinStep::Nothing => EdlinStep::Nothing,
        EdlinStep::Panic(why) => EdlinStep::Panic(why),
    }
}

/// The line editor.
pub struct Edlin {
    /// The lines of the buffer.
    pub data: Vec<String>,
    pub mode: EdlinMode,
    /// The line that the next text goes to.
    pub line_cursor: usize,
    pub current_backlight_setting: u8,
}

/// The editor as plain values.
pub struct EdlinView {
    pub data: Seq<Seq<char>>,
    pub mode: EdlinMode,
    pub line_cursor: usize,
    pub backlight: u8,
}

impl View for Edlin {
    type V = EdlinView;

    open spec fn view(&self) -> EdlinView {
        EdlinView {
            data: lines_view(self.data@),
            mode: self.mode,
            line_cursor: self.line_cursor,
            backlight: self.current_backlight_setting,
        }
    }
}

/// The smaller of two numbers.
pub open spec fn least(a: int, b: int) -> int {
    if a <= b {
        a
    } else {
        b
    }
}

/// A line in the inserting mode: a dot, with or without white space
/// around it, ends the mode; any other line goes in at the cursor, or at
/// the end where the cursor lies behind it, and the cursor moves on.
pub open spec fn spec_insert_line(s: EdlinView, line: Seq<char>) -> (EdlinView, StepView) {
    if trimmed(line) == "."@ {
        (EdlinView { mode: EdlinMode::Command, ..s }, EdlinStep::Dot)
    } else {
        let at = least(s.line_cursor as int, s.data.len() as int);
        (
            EdlinView { data: s.data.insert(at, line), line_cursor: (at + 1) as usize, ..s },
            EdlinStep::Inserted { at: at as usize, text: line },
        )
    }
}

/// A line in the editing mode takes the place of the line at the cursor.
pub open spec fn spec_edit_line(s: EdlinView, line: Seq<char>) -> (EdlinView, StepView) {
    if s.line_cursor >= s.data.len() {
        (s, EdlinStep::Panic(EdlinPanic::NoSuchLine))
    } else {
        (
            EdlinView {
                data: s.data.update(s.line_cursor as int, line),
                mode: EdlinMode::Command,
                ..s
            },
            EdlinStep::Dot,
        )
    }
}

/// A number alone selects that line for editing, unless it is too long.
pub open spec fn spec_select(s: EdlinView, line: Seq<char>) -> (EdlinView, StepView) {
    match spec_parse_usize(line) {
        None => (s, EdlinStep::Panic(EdlinPanic::BadNumber)),
        Some(cursor) => if cursor >= s.data.len() {
            (s, EdlinStep::Panic(EdlinPanic::NoSuchLine))
        } else if byte_len(s.data[cursor as int]) > MAX_EDIT_BYTES {
            (
                EdlinView { mode: EdlinMode::Command, line_cursor: cursor, ..s },
                EdlinStep::TooLong,
            )
        } else {
            (
                EdlinView { mode: EdlinMode::Editing, line_cursor: cursor, ..s },
                EdlinStep::TypeLine { text: s.data[cursor as int] },
            )
        },
    }
}

/// The words of `text`, each followed by a space, gathered into lines: a
/// line is closed as soon as it is longer than `limit` bytes, and what is
/// left at the end makes the last line.
pub open spec fn spec_wrap(
    text: Seq<char>,
    limit: usize,
    current: Seq<char>,
    lines: Seq<Seq<char>>,
) -> Seq<Seq<char>>
    decreases text.len(),
{
    let word = spec_until(text, ' ');
    let grown = current + word + seq![' '];
    let full = byte_len(grown) > limit;
    let closed = if full {
        lines.push(grown)
    } else {
        lines
    };
    let open = if full {
        Seq::empty()
    } else {
        grown
    };
    if word.len() < text.len() {
        spec_wrap(text.skip(word.len() as int + 1), limit, open, closed)
    } else if byte_len(open) > 0 {
        closed.push(open)
    } else {
        closed
    }
}

/// The number that a command carries: the numbers among its characters,
/// read as one.
pub open spec fn spec_number(line: Seq<char>) -> Option<usize> {
    spec_parse_usize(spec_digits(line))
}

/// The wrap command: the buffer is joined with spaces, double spaces are
/// made single, and the words are gathered into lines of the width that
/// the command carries, or of the usual width where it is a hash alone.
pub open spec fn spec_wrap_command(s: EdlinView, line: Seq<char>) -> (EdlinView, StepView) {
    let limit = if line[0] == '#' {
        Some(DEFAULT_WRAP)
    } else {
        spec_number(line)
    };
    match limit {
        None => (s, EdlinStep::Panic(EdlinPanic::BadNumber)),
        Some(width) => {
            let wrapped = spec_wrap(
                spec_replace(spec_join(s.data, " "@), "  "@, " "@),
                width,
                Seq::empty(),
                Seq::empty(),
            );
            (EdlinView { data: wrapped, ..s }, EdlinStep::Wrapped { count: wrapped.len() as usize })
        },
    }
}

/// A command that names a file: the name is what is left of the line
/// once the letter and the space behind it are taken out.
pub open spec fn spec_file_command(
    s: EdlinView,
    line: Seq<char>,
    command: FileCommand,
    small: Seq<char>,
    capital: Seq<char>,
) -> (EdlinView, StepView) {
    let filename = spec_replace_first(
        spec_replace_first(line, small, Seq::empty()),
        capital,
        Seq::empty(),
    );
    if filename.len() > 0 {
        (s, EdlinStep::File { command, filename })
    } else {
        (s, EdlinStep::NeedFilename { command })
    }
}

/// The insert command: with a number in front, the cursor goes to that
/// line, or to the end where the buffer is shorter.
pub open spec fn spec_insert_command(s: EdlinView, line: Seq<char>) -> (EdlinView, StepView) {
    let lower = lowercased(line);
    if lower.len() > 0 && lower[0] == 'i' {
        (
            EdlinView { mode: EdlinMode::Inserting, ..s },
            EdlinStep::Prompt { cursor: s.line_cursor },
        )
    } else {
        match spec_number(line) {
            None => (s, EdlinStep::Panic(EdlinPanic::BadNumber)),
            Some(n) => {
                let cursor = least(n as int, s.data.len() as int) as usize;
                (
                    EdlinView { mode: EdlinMode::Inserting, line_cursor: cursor, ..s },
                    EdlinStep::Prompt { cursor },
                )
            },
        }
    }
}

/// The two numbers of a delete command: what stands in front of the first
/// comma and behind it, or one number twice, or the cursor where there is
/// no number.
pub open spec fn spec_delete_range(s: EdlinView, line: Seq<char>) -> Option<(usize, usize)> {
    let without_d = spec_replace(lowercased(line), "d"@, Seq::empty());
    if without_d.contains(',') {
        let first = spec_until(without_d, ',');
        let second = spec_until(without_d.skip(first.len() as int + 1), ',');
        match (spec_parse_usize(first), spec_parse_usize(second)) {
            (Some(from), Some(to)) => Some((from, to)),
            _ => None,
        }
    } else if without_d.len() > 0 {
        match spec_parse_usize(without_d) {
            Some(n) => Some((n, n)),
            None => None,
        }
    } else {
        Some((s.line_cursor, s.line_cursor))
    }
}

/// The delete command. The end is brought back to the last line and the
/// start to the end. One number deletes that line; two delete the lines
/// from the first up to but not including the second. The cursor stays
/// within the buffer.
pub open spec fn spec_delete(s: EdlinView, line: Seq<char>) -> (EdlinView, StepView) {
    match spec_delete_range(s, line) {
        None => (s, EdlinStep::Panic(EdlinPanic::BadNumber)),
        Some((from, to)) => if s.data.len() == 0 {
            (s, EdlinStep::Panic(EdlinPanic::EmptyBuffer))
        } else {
            let cease = least(to as int, s.data.len() - 1);
            let start = least(from as int, cease);
            let data = if start == cease {
                s.data.remove(start)
            } else {
                s.data.subrange(0, start) + s.data.subrange(cease, s.data.len() as int)
            };
            (
                EdlinView {
                    data,
                    line_cursor: least(s.line_cursor as int, data.len() as int) as usize,
                    ..s
                },
                EdlinStep::Deleted { from: start as usize, to: cease as usize },
            )
        },
    }
}

/// The next-page command: a page of lines from the cursor, or from the
/// number that the command carries, and the cursor moves a page on but
/// not behind the last line.
pub open spec fn spec_next(s: EdlinView, line: Seq<char>) -> (EdlinView, StepView) {
    let lower = lowercased(line);
    let from = if lower.len() > 0 && lower[0] == 'n' {
        Some(s.line_cursor)
    } else {
        spec_number(line)
    };
    match from {
        None => (s, EdlinStep::Panic(EdlinPanic::BadNumber)),
        Some(cursor) => if cursor + NUM_LINES_PER_PAGE > usize::MAX {
            (s, EdlinStep::Panic(EdlinPanic::CursorOverflow))
        } else if cursor > s.data.len() {
            (s, EdlinStep::Panic(EdlinPanic::NoSuchLine))
        } else if s.data.len() == 0 {
            (s, EdlinStep::Panic(EdlinPanic::EmptyBuffer))
        } else {
            (
                EdlinView {
                    line_cursor: least(cursor + NUM_LINES_PER_PAGE, s.data.len() - 1) as usize,
                    ..s
                },
                EdlinStep::Page {
                    from: cursor,
                    upto: least(cursor + NUM_LINES_PER_PAGE, s.data.len() as int) as usize,
                },
            )
        },
    }
}

/// The print command: a page of lines from the cursor, or from the number
/// that the command carries, as one text, and the cursor moves a page on
/// but not behind the last line.
pub open spec fn spec_print(s: EdlinView, line: Seq<char>) -> (EdlinView, StepView) {
    let lower = lowercased(line);
    let from = if !(lower.len() > 0 && lower[0] == 'p') && line.len() != 0 {
        spec_number(line)
    } else {
        Some(s.line_cursor)
    };
    match from {
        None => (s, EdlinStep::Panic(EdlinPanic::BadNumber)),
        Some(cursor) => if cursor + NUM_LINES_PER_PAGE > usize::MAX {
            (s, EdlinStep::Panic(EdlinPanic::CursorOverflow))
        } else if s.data.len() == 0 {
            (s, EdlinStep::Panic(EdlinPanic::EmptyBuffer))
        } else {
            let upto = least(cursor + NUM_LINES_PER_PAGE, s.data.len() as int);
            let start = least(cursor as int, s.data.len() as int);
            (
                EdlinView {
                    line_cursor: least(start + NUM_LINES_PER_PAGE, s.data.len() - 1) as usize,
                    ..s
                },
                EdlinStep::PrintPage {
                    text: spec_replace(
                        spec_join(s.data.subrange(start, upto), " "@),
                        "  "@,
                        " "@,
                    ),
                },
            )
        },
    }
}

/// A line in the command mode. The first of these that fits decides:
/// a number; the letters `u`, `t`, `b` or `z` in front; a hash behind;
/// `w`, `r`, `x` or a question mark in front, in either case; `i` in
/// front or behind; `d` behind; then `v`, a star, `l`, `n` or `p`
/// anywhere, or an empty line.
pub open spec fn spec_command(s: EdlinView, line: Seq<char>) -> (EdlinView, StepView) {
    let lower = lowercased(line);
    if line.len() > 0 && all_numeric(line) {
        spec_select(s, line)
    } else if line.len() > 0 && line[0] == 'u' {
        (s, EdlinStep::FetchUrl { url: spec_replace(line, "u "@, Seq::empty()) })
    } else if line.len() > 0 && line[0] == 't' {
        (
            s,
            EdlinStep::PostJson {
                url: spec_replace(line, "t "@, Seq::empty()),
                body: spec_join(s.data, "\n"@),
            },
        )
    } else if line.len() > 0 && line[0] == 'b' {
        match spec_parse_u8(spec_digits(line)) {
            None => (s, EdlinStep::Panic(EdlinPanic::BadNumber)),
            Some(level) => (EdlinView { backlight: level, ..s }, EdlinStep::SetBacklight { level }),
        }
    } else if line.len() > 0 && line[0] == 'z' {
        (s, EdlinStep::RunBasic { program: spec_join(s.data, "\n"@) + "\n"@ })
    } else if line.len() > 0 && line.last() == '#' {
        spec_wrap_command(s, line)
    } else if lower.len() > 0 && lower[0] == 'w' {
        spec_file_command(s, line, FileCommand::Write, "w "@, "W "@)
    } else if lower.len() > 0 && lower[0] == 'r' {
        spec_file_command(s, line, FileCommand::Read, "r "@, "R "@)
    } else if lower.len() > 0 && lower[0] == 'x' {
        spec_file_command(s, line, FileCommand::Remove, "x "@, "X "@)
    } else if lower.len() > 0 && lower[0] == '?' {
        (s, EdlinStep::Help { count: s.data.len() as usize })
    } else if lower.len() > 0 && (lower[0] == 'i' || lower.last() == 'i') {
        spec_insert_command(s, line)
    } else if lower.len() > 0 && lower.last() == 'd' {
        spec_delete(s, line)
    } else if line.contains('v') {
        (s, EdlinStep::Lines { lines: s.data })
    } else if line.contains('*') {
        (s, EdlinStep::ListFiles)
    } else if line.contains('l') || line.contains('L') {
        (s, EdlinStep::Listing { cursor: s.line_cursor })
    } else if line.contains('n') || line.contains('N') {
        spec_next(s, line)
    } else if line.contains('p') || line.contains('P') || line.len() == 0 {
        spec_print(s, line)
    } else {
        (s, EdlinStep::Nothing)
    }
}

/// What a line does to the editor, and what is to be shown or done.
pub open spec fn spec_process(s: EdlinView, line: Seq<char>) -> (EdlinView, StepView) {
    match s.mode {
        EdlinMode::Inserting => spec_insert_line(s, line),
        EdlinMode::Editing => spec_edit_line(s, line),
        EdlinMode::Command => spec_command(s, line),
    }
}

/// A line that cannot be carried out leaves the editor as it was.
pub proof fn lemma_panic_changes_nothing(s: EdlinView, line: Seq<char>)
    requires
        spec_process(s, line).1 is Panic,
    ensures
        spec_process(s, line).0 == s,
{
}

/// Text is taken as text: in the inserting mode a line that is no dot
/// makes the buffer one line longer and is found at the place that the
/// step names, with the cursor behind it; in the editing mode a line
/// takes the place of the line at the cursor and the buffer keeps its
/// length.
pub proof fn lemma_text_goes_into_the_buffer(s: EdlinView, line: Seq<char>)
    requires
        s.mode is Inserting || s.mode is Editing,
        s.data.len() < usize::MAX,
        !(spec_process(s, line).1 is Panic),
        !(spec_process(s, line).1 is Dot) || s.mode is Editing,
    ensures
        ({
            let after = spec_process(s, line).0;
            let step = spec_process(s, line).1;
            &&& s.mode is Inserting ==> {
                &&& step matches EdlinStep::Inserted { at, text }
                &&& text == line
                &&& at <= s.data.len()
                &&& after.data.len() == s.data.len() + 1
                &&& after.data[at as int] == line
                &&& after.line_cursor == at + 1
                &&& after.mode is Inserting
            }
            &&& s.mode is Editing ==> {
                &&& after.data == s.data.update(s.line_cursor as int, line)
                &&& after.data.len() == s.data.len()
                &&& after.mode is Command
            }
        }),
{
}

impl Edlin {
    /// An empty buffer in the command mode.
    pub fn new() -> (edlin: Edlin)
        ensures
            edlin@ == (EdlinView {
                data: Seq::empty(),
                mode: EdlinMode::Command,
                line_cursor: 0,
                backlight: INITIAL_BACKLIGHT,
            }),
    {
        let edlin = Edlin {
            data: Vec::new(),
            mode: EdlinMode::Command,
            line_cursor: 0,
            current_backlight_setting: INITIAL_BACKLIGHT,
        };
        assert(edlin@.data =~= Seq::empty());
        edlin
    }

    fn insert_line(&mut self, line: &str) -> (step: EdlinStep<String, Vec<String>>)
        ensures
            (final(self)@, step_view(step)) == spec_insert_line(old(self)@, line@),
    {
        if same_text(trim(line), ".") {
            self.mode = EdlinMode::Command;
            return EdlinStep::Dot;
        }
        if self.line_cursor >= self.data.len() {
            self.line_cursor = self.data.len();
        }
        let at = self.line_cursor;
        self.data.insert(at, String::from_str(line));
        let grown = self.data.len();
        assert(lines_view(self.data@) =~= lines_view(old(self).data@).insert(at as int, line@));
        self.line_cursor = at + 1;
        EdlinStep::Inserted { at, text: String::from_str(line) }
    }

    fn edit_line(&mut self, line: &str) -> (step: EdlinStep<String, Vec<String>>)
        ensures
            (final(self)@, step_view(step)) == spec_edit_line(old(self)@, line@),
    {
        if self.line_cursor >= self.data.len() {
            return EdlinStep::Panic(EdlinPanic::NoSuchLine);
        }
        let at = self.line_cursor;
        let _ = self.data.remove(at);
        self.data.insert(at, String::from_str(line));
        assert(lines_view(self.data@) =~= lines_view(old(self).data@).update(at as int, line@));
        self.mode = EdlinMode::Command;
        EdlinStep::Dot
    }

    fn select(&mut self, line: &str) -> (step: EdlinStep<String, Vec<String>>)
        ensures
            (final(self)@, step_view(step)) == spec_select(old(self)@, line@),
    {
        match parse_usize(line) {
            None => EdlinStep::Panic(EdlinPanic::BadNumber),
            Some(cursor) => {
                if cursor >= self.data.len() {
                    return EdlinStep::Panic(EdlinPanic::NoSuchLine);
                }
                self.line_cursor = cursor;
                if self.data[cursor].as_str().len() > MAX_EDIT_BYTES {
                    self.mode = EdlinMode::Command;
                    EdlinStep::TooLong
                } else {
                    self.mode = EdlinMode::Editing;
                    EdlinStep::TypeLine { text: self.data[cursor].clone() }
                }
            },
        }
    }

    fn wrap_command(&mut self, line: &str) -> (step: EdlinStep<String, Vec<String>>)
        requires
            line@.len() > 0,
        ensures
            (final(self)@, step_view(step)) == spec_wrap_command(old(self)@, line@),
    {
        let limit = if starts_with(line, '#') {
            Some(DEFAULT_WRAP)
        } else {
            parse_usize(digits(line).as_str())
        };
        match limit {
            None => EdlinStep::Panic(EdlinPanic::BadNumber),
            Some(width) => {
                proof {
                    reveal_strlit("  ");
                }
                assert(lines_view(self.data@).subrange(0, self.data@.len() as int) =~= lines_view(
                    self.data@,
                ));
                let one_long_string = join(&self.data, 0, self.data.len(), " ");
                let remove_dup_spaces = replace(one_long_string.as_str(), "  ", " ");
                self.data = wrap(remove_dup_spaces.as_str(), width);
                EdlinStep::Wrapped { count: self.data.len() }
            },
        }
    }

    fn insert_command(&mut self, line: &str) -> (step: EdlinStep<String, Vec<String>>)
        ensures
            (final(self)@, step_view(step)) == spec_insert_command(old(self)@, line@),
    {
        let lower = to_lowercase(line);
        if starts_with(lower.as_str(), 'i') {
            self.mode = EdlinMode::Inserting;
            return EdlinStep::Prompt { cursor: self.line_cursor };
        }
        match parse_usize(digits(line).as_str()) {
            None => EdlinStep::Panic(EdlinPanic::BadNumber),
            Some(n) => {
                let mut line_to_insert_before = n;
                if line_to_insert_before >= self.data.len() {
                    line_to_insert_before = self.data.len();
                }
                self.mode = EdlinMode::Inserting;
                self.line_cursor = line_to_insert_before;
                EdlinStep::Prompt { cursor: line_to_insert_before }
            },
        }
    }

    fn delete_range(&self, line: &str) -> (range: Option<(usize, usize)>)
        ensures
            range == spec_delete_range(self@, line@),
    {
        proof {
            reveal_strlit("d");
            reveal_strlit("");
            assert(""@ =~= Seq::<char>::empty());
        }
        let lower = to_lowercase(line);
        let without_d = replace(lower.as_str(), "d", "");
        let text = without_d.as_str();
        let total = text.unicode_len();
        if contains(text, ',') {
            assert(text@.skip(0) =~= text@);
            let n = until_len(text, 0, ',');
            proof {
                lemma_until(text@, ',');
                if n == total {
                    let at = choose|i: int| 0 <= i < text@.len() && text@[i] == ',';
                    assert(text@[at] != ',');
                }
                assert(spec_until(text@, ',') =~= text@.subrange(0, n as int));
            }
            let first = text.substring_char(0, n);
            let m = until_len(text, n + 1, ',');
            proof {
                lemma_until(text@.skip(n + 1), ',');
                assert(spec_until(text@.skip(n + 1), ',') =~= text@.subrange(n + 1, n + 1 + m));
            }
            let second = text.substring_char(n + 1, n + 1 + m);
            match (parse_usize(first), parse_usize(second)) {
                (Some(from), Some(to)) => Some((from, to)),
                _ => None,
            }
        } else if total > 0 {
            match parse_usize(text) {
                Some(n) => Some((n, n)),
                None => None,
            }
        } else {
            Some((self.line_cursor, self.line_cursor))
        }
    }

    fn delete(&mut self, line: &str) -> (step: EdlinStep<String, Vec<String>>)
        ensures
            (final(self)@, step_view(step)) == spec_delete(old(self)@, line@),
    {
        let (from, to) = match self.delete_range(line) {
            None => {
                return EdlinStep::Panic(EdlinPanic::BadNumber);
            },
            Some(range) => range,
        };
        let total = self.data.len();
        if total == 0 {
            return EdlinStep::Panic(EdlinPanic::EmptyBuffer);
        }
        let mut del_cease = to;
        if del_cease > total - 1 {
            del_cease = total - 1;
        }
        let mut del_start = from;
        if del_start > del_cease {
            del_start = del_cease;
        }
        let ghost before = self.data@;
        if del_start == del_cease {
            let _ = self.data.remove(del_start);
            assert(lines_view(self.data@) =~= lines_view(before).remove(del_start as int));
        } else {
            let mut k: usize = del_cease;
            assert(self.data@ =~= before.subrange(0, k as int) + before.subrange(
                del_cease as int,
                total as int,
            ));
            while k > del_start
                invariant
                    del_start <= k <= del_cease < total == before.len(),
                    self.data@ == before.subrange(0, k as int) + before.subrange(
                        del_cease as int,
                        total as int,
                    ),
                    self.mode == old(self).mode,
                    self.line_cursor == old(self).line_cursor,
                    self.current_backlight_setting == old(self).current_backlight_setting,
                decreases k,
            {
                k = k - 1;
                let _ = self.data.remove(k);
                assert(self.data@ =~= before.subrange(0, k as int) + before.subrange(
                    del_cease as int,
                    total as int,
                ));
            }
            assert(lines_view(self.data@) =~= lines_view(before).subrange(0, del_start as int)
                + lines_view(before).subrange(del_cease as int, total as int));
        }
        if self.line_cursor > self.data.len() {
            self.line_cursor = self.data.len();
        }
        EdlinStep::Deleted { from: del_start, to: del_cease }
    }

    fn next(&mut self, line: &str) -> (step: EdlinStep<String, Vec<String>>)
        ensures
            (final(self)@, step_view(step)) == spec_next(old(self)@, line@),
    {
        let lower = to_lowercase(line);
        let from = if starts_with(lower.as_str(), 'n') {
            Some(self.line_cursor)
        } else {
            parse_usize(digits(line).as_str())
        };
        match from {
            None => EdlinStep::Panic(EdlinPanic::BadNumber),
            Some(cursor) => {
                if cursor > usize::MAX - NUM_LINES_PER_PAGE {
                    return EdlinStep::Panic(EdlinPanic::CursorOverflow);
                }
                let total = self.data.len();
                if cursor > total {
                    return EdlinStep::Panic(EdlinPanic::NoSuchLine);
                }
                if total == 0 {
                    return EdlinStep::Panic(EdlinPanic::EmptyBuffer);
                }
                let mut upto = cursor + NUM_LINES_PER_PAGE;
                if upto > total {
                    upto = total;
                }
                self.line_cursor = cursor + NUM_LINES_PER_PAGE;
                if self.line_cursor > total - 1 {
                    self.line_cursor = total - 1;
                }
                EdlinStep::Page { from: cursor, upto }
            },
        }
    }

    fn print(&mut self, line: &str) -> (step: EdlinStep<String, Vec<String>>)
        ensures
            (final(self)@, step_view(step)) == spec_print(old(self)@, line@),
    {
        let lower = to_lowercase(line);
        let from = if !starts_with(lower.as_str(), 'p') && line.unicode_len() != 0 {
            parse_usize(digits(line).as_str())
        } else {
            Some(self.line_cursor)
        };
        match from {
            None => EdlinStep::Panic(EdlinPanic::BadNumber),
            Some(cursor) => {
                if cursor > usize::MAX - NUM_LINES_PER_PAGE {
                    return EdlinStep::Panic(EdlinPanic::CursorOverflow);
                }
                let total = self.data.len();
                if total == 0 {
                    return EdlinStep::Panic(EdlinPanic::EmptyBuffer);
                }
                let mut upto = cursor + NUM_LINES_PER_PAGE;
                if upto > total {
                    upto = total;
                }
                let mut start = cursor;
                if start > total {
                    start = total;
                }
                proof {
                    reveal_strlit("  ");
                }
                let one_long_string = join(&self.data, start, upto, " ");
                let remove_dup_spaces = replace(one_long_string.as_str(), "  ", " ");
                self.line_cursor = start + NUM_LINES_PER_PAGE;
                if self.line_cursor > total - 1 {
                    self.line_cursor = total - 1;
                }
                EdlinStep::PrintPage { text: remove_dup_spaces }
            },
        }
    }

    fn file_command(
        &self,
        line: &str,
        command: FileCommand,
        small: &str,
        capital: &str,
    ) -> (step: EdlinStep<String, Vec<String>>)
        requires
            small@.len() > 0,
            capital@.len() > 0,
        ensures
            (self@, step_view(step)) == spec_file_command(
                self@,
                line@,
                command,
                small@,
                capital@,
            ),
    {
        proof {
            reveal_strlit("");
            assert(""@ =~= Seq::<char>::empty());
        }
        let filename = replace_first(replace_first(line, small, "").as_str(), capital, "");
        if filename.as_str().unicode_len() > 0 {
            EdlinStep::File { command, filename }
        } else {
            EdlinStep::NeedFilename { command }
        }
    }

    fn command(&mut self, line: &str) -> (step: EdlinStep<String, Vec<String>>)
        ensures
            (final(self)@, step_view(step)) == spec_command(old(self)@, line@),
    {
        proof {
            reveal_strlit("");
            assert(""@ =~= Seq::<char>::empty());
            reveal_strlit("u ");
            reveal_strlit("t ");
            reveal_strlit("w ");
            reveal_strlit("W ");
            reveal_strlit("r ");
            reveal_strlit("R ");
            reveal_strlit("x ");
            reveal_strlit("X ");
        }
        let lower = to_lowercase(line);
        let total = self.data.len();
        assert(lines_view(self.data@).subrange(0, total as int) =~= lines_view(self.data@));
        if line.unicode_len() > 0 && is_string_numeric(line) {
            self.select(line)
        } else if starts_with(line, 'u') {
            EdlinStep::FetchUrl { url: replace(line, "u ", "") }
        } else if starts_with(line, 't') {
            EdlinStep::PostJson {
                url: replace(line, "t ", ""),
                body: join(&self.data, 0, total, "\n"),
            }
        } else if starts_with(line, 'b') {
            match parse_u8(digits(line).as_str()) {
                None => EdlinStep::Panic(EdlinPanic::BadNumber),
                Some(level) => {
                    self.current_backlight_setting = level;
                    EdlinStep::SetBacklight { level }
                },
            }
        } else if starts_with(line, 'z') {
            let mut program = join(&self.data, 0, total, "\n");
            program.append("\n");
            EdlinStep::RunBasic { program }
        } else if ends_with(line, '#') {
            self.wrap_command(line)
        } else if starts_with(lower.as_str(), 'w') {
            self.file_command(line, FileCommand::Write, "w ", "W ")
        } else if starts_with(lower.as_str(), 'r') {
            self.file_command(line, FileCommand::Read, "r ", "R ")
        } else if starts_with(lower.as_str(), 'x') {
            self.file_command(line, FileCommand::Remove, "x ", "X ")
        } else if starts_with(lower.as_str(), '?') {
            EdlinStep::Help { count: total }
        } else if starts_with(lower.as_str(), 'i') || ends_with(lower.as_str(), 'i') {
            self.insert_command(line)
        } else if ends_with(lower.as_str(), 'd') {
            self.delete(line)
        } else if contains(line, 'v') {
            EdlinStep::Lines { lines: self.data.clone() }
        } else if contains(line, '*') {
            EdlinStep::ListFiles
        } else if contains(line, 'l') || contains(line, 'L') {
            EdlinStep::Listing { cursor: self.line_cursor }
        } else if contains(line, 'n') || contains(line, 'N') {
            self.next(line)
        } else if contains(line, 'p') || contains(line, 'P') || line.unicode_len() == 0 {
            self.print(line)
        } else {
            EdlinStep::Nothing
        }
    }

    /// Takes a line: text in the inserting and the editing mode, a command
    /// in the command mode. Returns what is to be shown or done.
    pub fn process(&mut self, line: &str) -> (step: EdlinStep<String, Vec<String>>)
        ensures
            (final(self)@, step_view(step)) == spec_process(old(self)@, line@),
    {
        match self.mode {
            EdlinMode::Inserting => self.insert_line(line),
            EdlinMode::Editing => self.edit_line(line),
            EdlinMode::Command => self.command(line),
        }
    }

    /// Takes what was fetched from an address: it goes in as one line at
    /// the cursor, or at the end where the cursor lies behind it.
    pub fn grabbed(&mut self, body: String)
        ensures
            final(self)@ == (EdlinView {
                data: old(self)@.data.insert(
                    least(old(self)@.line_cursor as int, old(self)@.data.len() as int),
                    body@,
                ),
                line_cursor: least(
                    old(self)@.line_cursor as int,
                    old(self)@.data.len() as int,
                ) as usize,
                ..old(self)@
            }),
    {
        if self.line_cursor >= self.data.len() {
            self.line_cursor = self.data.len();
        }
        let at = self.line_cursor;
        let ghost text = body@;
        self.data.insert(at, body);
        assert(lines_view(self.data@) =~= lines_view(old(self).data@).insert(at as int, text));
    }

    /// Takes the lines of a file that was read: they become the buffer,
    /// and the cursor stands behind them. Where there is no place to read
    /// files from, `None`, the buffer is emptied and the cursor stays.
    pub fn load(&mut self, lines: Option<Vec<String>>)
        ensures
            final(self)@ == (match lines {
                Some(read) => EdlinView {
                    data: lines_view(read@),
                    line_cursor: read@.len() as usize,
                    ..old(self)@
                },
                None => EdlinView { data: Seq::empty(), ..old(self)@ },
            }),
    {
        match lines {
            Some(read) => {
                self.line_cursor = read.len();
                self.data = read;
            },
            None => {
                self.data = Vec::new();
                assert(lines_view(self.data@) =~= Seq::empty());
            },
        }
    }
}

/// Gathers the words of `text` into lines that are closed as soon as they
/// are longer than `limit` bytes.
fn wrap(text: &str, limit: usize) -> (lines: Vec<String>)
    ensures
        lines_view(lines@) == spec_wrap(text@, limit, Seq::empty(), Seq::empty()),
{
    proof {
        reveal_strlit(" ");
    }
    let total = text.unicode_len();
    let mut lines: Vec<String> = Vec::new();
    let mut current = String::new();
    let mut start: usize = 0;
    let mut done = false;
    assert(text@.skip(0) =~= text@);
    assert(lines_view(lines@) =~= Seq::empty());
    while !done
        invariant
            start <= total == text@.len(),
            " "@ == seq![' '],
            !done ==> spec_wrap(text@, limit, Seq::empty(), Seq::empty()) == spec_wrap(
                text@.skip(start as int),
                limit,
                current@,
                lines_view(lines@),
            ),
            done ==> lines_view(lines@) == spec_wrap(text@, limit, Seq::empty(), Seq::empty()),
        decreases
                (if done {
                    0int
                } else {
                    total - start + 1
                }),
    {
        let ghost rest = text@.skip(start as int);
        let ghost closed_before = lines_view(lines@);
        let ghost open_before = current@;
        let n = until_len(text, start, ' ');
        proof {
            lemma_until(rest, ' ');
            assert(spec_until(rest, ' ') =~= text@.subrange(start as int, start + n));
        }
        current.append(text.substring_char(start, start + n));
        current.append(" ");
        assert(current@ =~= open_before + spec_until(rest, ' ') + seq![' ']);
        if current.as_str().len() > limit {
            let ghost grown = current@;
            lines.push(current);
            current = String::new();
            assert(lines_view(lines@) =~= closed_before.push(grown));
        }
        if start + n < total {
            assert(rest.skip(n + 1) =~= text@.skip(start + n + 1));
            start = start + n + 1;
        } else {
            if current.as_str().len() > 0 {
                let ghost last = current@;
                let ghost closed = lines_view(lines@);
                lines.push(current);
                current = String::new();
                assert(lines_view(lines@) =~= closed.push(last));
            }
            done = true;
        }
    }
    lines
}

} // verus!
