use xous_core::edlin::editor::{Edlin, EdlinMode, EdlinPanic, EdlinStep, FileCommand};
use xous_core::edlin::files::{belongs_to, has_prefix, has_suffix, listed_name};
use xous_core::edlin::text::{contains, digits, ends_with, is_string_numeric, join, starts_with};

type Step = EdlinStep<String, Vec<String>>;

fn text(s: &str) -> String {
    String::from(s)
}

fn editor(lines: &[&str]) -> Edlin {
    let mut edlin = Edlin::new();
    edlin.data = lines.iter().map(|l| text(l)).collect();
    edlin
}

fn lines(edlin: &Edlin) -> Vec<&str> {
    edlin.data.iter().map(|l| l.as_str()).collect()
}

#[test]
fn new_editor_takes_commands() {
    let edlin = Edlin::new();
    assert!(edlin.data.is_empty());
    assert_eq!(edlin.mode, EdlinMode::Command);
    assert_eq!(edlin.line_cursor, 0);
    assert_eq!(edlin.current_backlight_setting, 254);
}

#[test]
fn inserting_adds_lines_at_the_cursor() {
    let mut edlin = Edlin::new();
    assert_eq!(edlin.process("i"), Step::Prompt { cursor: 0 });
    assert_eq!(edlin.mode, EdlinMode::Inserting);
    assert_eq!(edlin.process("first"), Step::Inserted { at: 0, text: text("first") });
    assert_eq!(edlin.process("second"), Step::Inserted { at: 1, text: text("second") });
    assert_eq!(edlin.process(" . "), Step::Dot);
    assert_eq!(edlin.mode, EdlinMode::Command);
    assert_eq!(lines(&edlin), vec!["first", "second"]);
    assert_eq!(edlin.line_cursor, 2);
    assert_eq!(edlin.process("1i"), Step::Prompt { cursor: 1 });
    assert_eq!(edlin.process("between"), Step::Inserted { at: 1, text: text("between") });
    assert_eq!(edlin.process("."), Step::Dot);
    assert_eq!(lines(&edlin), vec!["first", "between", "second"]);
    assert_eq!(edlin.line_cursor, 2);
}

#[test]
fn inserting_behind_the_end_appends() {
    let mut edlin = editor(&["a"]);
    edlin.mode = EdlinMode::Inserting;
    edlin.line_cursor = 9;
    assert_eq!(edlin.process("b"), Step::Inserted { at: 1, text: text("b") });
    assert_eq!(edlin.line_cursor, 2);
    assert_eq!(edlin.process("."), Step::Dot);
    assert_eq!(edlin.process("99i"), Step::Prompt { cursor: 2 });
    edlin.mode = EdlinMode::Command;
    assert_eq!(edlin.process("go i"), Step::Panic(EdlinPanic::BadNumber));
    assert_eq!(edlin.mode, EdlinMode::Command);
}

#[test]
fn a_number_selects_a_line_for_editing() {
    let mut edlin = editor(&["a", "b", "c"]);
    assert_eq!(edlin.process("1"), Step::TypeLine { text: text("b") });
    assert_eq!(edlin.mode, EdlinMode::Editing);
    assert_eq!(edlin.line_cursor, 1);
    assert_eq!(edlin.process("B"), Step::Dot);
    assert_eq!(edlin.mode, EdlinMode::Command);
    assert_eq!(lines(&edlin), vec!["a", "B", "c"]);
    assert_eq!(edlin.process("3"), Step::Panic(EdlinPanic::NoSuchLine));
    assert_eq!(edlin.mode, EdlinMode::Command);
    assert_eq!(edlin.line_cursor, 1);
    assert_eq!(edlin.process("99999999999999999999999"), Step::Panic(EdlinPanic::BadNumber));
    // A number that is none of the ten digits.
    assert_eq!(edlin.process("\u{b2}"), Step::Panic(EdlinPanic::BadNumber));
    assert_eq!(edlin.process("007"), Step::Panic(EdlinPanic::NoSuchLine));
    assert_eq!(edlin.process("002"), Step::TypeLine { text: text("c") });
}

#[test]
fn long_lines_are_not_edited() {
    let long = "x".repeat(128);
    let fits = "x".repeat(127);
    let mut edlin = editor(&[&long, &fits, &"\u{e4}".repeat(64)]);
    assert_eq!(edlin.process("0"), Step::TooLong);
    assert_eq!(edlin.mode, EdlinMode::Command);
    assert_eq!(edlin.line_cursor, 0);
    assert_eq!(edlin.process("2"), Step::TooLong);
    assert_eq!(edlin.process("1"), Step::TypeLine { text: fits.clone() });
    edlin.line_cursor = 7;
    assert_eq!(edlin.process("new"), Step::Panic(EdlinPanic::NoSuchLine));
}

#[test]
fn addresses_are_fetched_and_posted() {
    let mut edlin = editor(&["a", "b"]);
    assert_eq!(edlin.process("u http://x/u y"), Step::FetchUrl { url: text("http://x/y") });
    assert_eq!(edlin.process("u"), Step::FetchUrl { url: text("u") });
    edlin.line_cursor = 1;
    edlin.grabbed(text("page"));
    assert_eq!(lines(&edlin), vec!["a", "page", "b"]);
    assert_eq!(edlin.line_cursor, 1);
    edlin.line_cursor = 50;
    edlin.grabbed(text("end"));
    assert_eq!(lines(&edlin), vec!["a", "page", "b", "end"]);
    assert_eq!(edlin.line_cursor, 3);
    assert_eq!(
        edlin.process("t http://x"),
        Step::PostJson { url: text("http://x"), body: text("a\npage\nb\nend") }
    );
    assert_eq!(Edlin::new().process("t x"), Step::PostJson { url: text("x"), body: text("") });
}

#[test]
fn brightness_is_set_from_the_digits() {
    let mut edlin = Edlin::new();
    assert_eq!(edlin.process("b 1 2 0"), Step::SetBacklight { level: 120 });
    assert_eq!(edlin.current_backlight_setting, 120);
    assert_eq!(edlin.process("b255"), Step::SetBacklight { level: 255 });
    assert_eq!(edlin.process("b256"), Step::Panic(EdlinPanic::BadNumber));
    assert_eq!(edlin.process("b"), Step::Panic(EdlinPanic::BadNumber));
    assert_eq!(edlin.current_backlight_setting, 255);
}

#[test]
fn programs_are_run_with_a_line_feed_at_the_end() {
    let mut edlin = editor(&["10 PRINT 1", "20 END"]);
    assert_eq!(edlin.process("z"), Step::RunBasic { program: text("10 PRINT 1\n20 END\n") });
    assert_eq!(Edlin::new().process("z"), Step::RunBasic { program: text("\n") });
}

#[test]
fn wrapping_gathers_words_into_lines() {
    let mut edlin = editor(&["aaa bbb", "ccc  ddd", "e"]);
    assert_eq!(edlin.process("8#"), Step::Wrapped { count: 2 });
    assert_eq!(lines(&edlin), vec!["aaa bbb ccc ", "ddd e "]);
    let mut edlin = editor(&["one two three four five six seven eight nine ten eleven twelve"]);
    assert_eq!(edlin.process("#"), Step::Wrapped { count: 2 });
    assert_eq!(lines(&edlin), vec!["one two three four five six seven eight ", "nine ten eleven twelve "]);
    let mut edlin = Edlin::new();
    assert_eq!(edlin.process("#"), Step::Wrapped { count: 1 });
    assert_eq!(lines(&edlin), vec![" "]);
    assert_eq!(edlin.process("x#"), Step::Panic(EdlinPanic::BadNumber));
    let mut edlin = editor(&["\u{e4}\u{e4} b"]);
    assert_eq!(edlin.process("4#"), Step::Wrapped { count: 2 });
    assert_eq!(lines(&edlin), vec!["\u{e4}\u{e4} ", "b "]);
    let mut edlin = editor(&["a b"]);
    assert_eq!(edlin.process("0#"), Step::Wrapped { count: 2 });
    assert_eq!(lines(&edlin), vec!["a ", "b "]);
}

#[test]
fn files_are_named_behind_the_letter() {
    let mut edlin = editor(&["a"]);
    assert_eq!(edlin.process("w notes"), Step::File { command: FileCommand::Write, filename: text("notes") });
    assert_eq!(edlin.process("W notes"), Step::File { command: FileCommand::Write, filename: text("notes") });
    assert_eq!(edlin.process("w "), Step::NeedFilename { command: FileCommand::Write });
    assert_eq!(edlin.process("w"), Step::File { command: FileCommand::Write, filename: text("w") });
    assert_eq!(edlin.process("r my file"), Step::File { command: FileCommand::Read, filename: text("my file") });
    assert_eq!(edlin.process("R "), Step::NeedFilename { command: FileCommand::Read });
    assert_eq!(edlin.process("x old"), Step::File { command: FileCommand::Remove, filename: text("old") });
    assert_eq!(edlin.process("X "), Step::NeedFilename { command: FileCommand::Remove });
    assert_eq!(edlin.process("w aw b"), Step::File { command: FileCommand::Write, filename: text("aw b") });
    assert_eq!(lines(&edlin), vec!["a"]);
}

#[test]
fn loading_replaces_the_buffer() {
    let mut edlin = editor(&["old"]);
    edlin.load(Some(vec![text("x"), text("y")]));
    assert_eq!(lines(&edlin), vec!["x", "y"]);
    assert_eq!(edlin.line_cursor, 2);
    edlin.load(None);
    assert!(edlin.data.is_empty());
    assert_eq!(edlin.line_cursor, 2);
}

#[test]
fn help_counts_the_lines() {
    assert_eq!(editor(&["a", "b"]).process("?"), Step::Help { count: 2 });
}

#[test]
fn deleting_one_line_or_a_range() {
    let mut edlin = editor(&["0", "1", "2", "3", "4", "5"]);
    edlin.line_cursor = 6;
    assert_eq!(edlin.process("1d"), Step::Deleted { from: 1, to: 1 });
    assert_eq!(lines(&edlin), vec!["0", "2", "3", "4", "5"]);
    assert_eq!(edlin.line_cursor, 5);
    // Two numbers delete up to, not including, the second.
    assert_eq!(edlin.process("1,3d"), Step::Deleted { from: 1, to: 3 });
    assert_eq!(lines(&edlin), vec!["0", "4", "5"]);
    assert_eq!(edlin.line_cursor, 3);
    // The end is brought back to the last line, the start to the end.
    assert_eq!(edlin.process("7,9D"), Step::Deleted { from: 2, to: 2 });
    assert_eq!(lines(&edlin), vec!["0", "4"]);
    assert_eq!(edlin.line_cursor, 2);
    edlin.line_cursor = 0;
    assert_eq!(edlin.process("d"), Step::Deleted { from: 0, to: 0 });
    assert_eq!(lines(&edlin), vec!["4"]);
    assert_eq!(edlin.process("0,0,5d"), Step::Deleted { from: 0, to: 0 });
    assert!(edlin.data.is_empty());
    assert_eq!(edlin.process("d"), Step::Panic(EdlinPanic::EmptyBuffer));
}

#[test]
fn deleting_needs_numbers() {
    let mut edlin = editor(&["0", "1"]);
    assert_eq!(edlin.process("a,1d"), Step::Panic(EdlinPanic::BadNumber));
    assert_eq!(edlin.process("1,d"), Step::Panic(EdlinPanic::BadNumber));
    assert_eq!(edlin.process("1 d"), Step::Panic(EdlinPanic::BadNumber));
    assert_eq!(edlin.process(",d"), Step::Panic(EdlinPanic::BadNumber));
    assert_eq!(lines(&edlin), vec!["0", "1"]);
}

#[test]
fn buffer_is_shown_whole_or_listed() {
    let mut edlin = editor(&["a", "b"]);
    edlin.line_cursor = 1;
    assert_eq!(edlin.process("v"), Step::Lines { lines: vec![text("a"), text("b")] });
    assert_eq!(edlin.process("*"), Step::ListFiles);
    assert_eq!(edlin.process("l"), Step::Listing { cursor: 1 });
    assert_eq!(edlin.process("L"), Step::Listing { cursor: 1 });
    assert_eq!(edlin.process("k"), Step::Nothing);
    assert_eq!(edlin.process("   "), Step::Nothing);
}

#[test]
fn next_page_moves_the_cursor_on() {
    let names: Vec<String> = (0..12).map(|i| i.to_string()).collect();
    let refs: Vec<&str> = names.iter().map(|s| s.as_str()).collect();
    let mut edlin = editor(&refs);
    assert_eq!(edlin.process("n"), Step::Page { from: 0, upto: 5 });
    assert_eq!(edlin.line_cursor, 5);
    assert_eq!(edlin.process("n"), Step::Page { from: 5, upto: 10 });
    assert_eq!(edlin.process("n"), Step::Page { from: 10, upto: 12 });
    assert_eq!(edlin.line_cursor, 11);
    assert_eq!(edlin.process("3n"), Step::Page { from: 3, upto: 8 });
    assert_eq!(edlin.line_cursor, 8);
    assert_eq!(edlin.process("12N"), Step::Page { from: 12, upto: 12 });
    assert_eq!(edlin.line_cursor, 11);
    assert_eq!(edlin.process("13N"), Step::Panic(EdlinPanic::NoSuchLine));
    assert_eq!(edlin.process("N"), Step::Page { from: 11, upto: 12 });
    assert_eq!(edlin.process(" N"), Step::Panic(EdlinPanic::BadNumber));
    assert_eq!(edlin.process(&format!("{}N", usize::MAX)), Step::Panic(EdlinPanic::CursorOverflow));
    assert_eq!(Edlin::new().process("n"), Step::Panic(EdlinPanic::EmptyBuffer));
    assert_eq!(Edlin::new().process("1N"), Step::Panic(EdlinPanic::NoSuchLine));
}

#[test]
fn printing_joins_a_page() {
    let mut edlin = editor(&["a ", " b", "c", "d", "e", "f", "g"]);
    assert_eq!(edlin.process("p"), Step::PrintPage { text: text("a  b c d e") });
    assert_eq!(edlin.line_cursor, 5);
    assert_eq!(edlin.process(""), Step::PrintPage { text: text("f g") });
    assert_eq!(edlin.line_cursor, 6);
    assert_eq!(edlin.process("1P"), Step::PrintPage { text: text(" b c d e f") });
    assert_eq!(edlin.line_cursor, 6);
    assert_eq!(edlin.process("40P"), Step::PrintPage { text: text("") });
    assert_eq!(edlin.line_cursor, 6);
    assert_eq!(edlin.process("P"), Step::PrintPage { text: text("g") });
    assert_eq!(edlin.process(" P"), Step::Panic(EdlinPanic::BadNumber));
    assert_eq!(Edlin::new().process(""), Step::Panic(EdlinPanic::EmptyBuffer));
}

#[test]
fn commands_are_tried_in_order() {
    let mut edlin = editor(&["a", "b"]);
    // A `u` in front wins over a `d` behind.
    assert_eq!(edlin.process("u d"), Step::FetchUrl { url: text("d") });
    // `i` behind wins over `l` inside.
    assert_eq!(edlin.process("l 1i"), Step::Prompt { cursor: 1 });
    edlin.mode = EdlinMode::Command;
    // `d` behind wins over `v` inside.
    assert_eq!(edlin.process("v0d"), Step::Panic(EdlinPanic::BadNumber));
    assert_eq!(edlin.process("vn"), Step::Lines { lines: vec![text("a"), text("b")] });
}

#[test]
fn text_helpers() {
    assert!(starts_with("abc", 'a'));
    assert!(!starts_with("", 'a'));
    assert!(ends_with("abc", 'c'));
    assert!(!ends_with("abc", 'b'));
    assert!(contains("abc", 'b'));
    assert!(!contains("abc", 'd'));
    assert!(is_string_numeric("0123"));
    assert!(is_string_numeric("\u{b2}\u{bd}"));
    assert!(is_string_numeric(""));
    assert!(!is_string_numeric("12a"));
    assert_eq!(digits("a1b22c\u{b2}"), "122\u{b2}");
    let v = vec![text("a"), text("b"), text("c")];
    assert_eq!(join(&v, 0, 3, ", "), "a, b, c");
    assert_eq!(join(&v, 1, 2, ", "), "b");
    assert_eq!(join(&v, 2, 2, ", "), "");
}

#[test]
fn buffers_are_listed_by_their_first_line() {
    assert_eq!(listed_name("edlin/notes_line0"), Some(text("notes")));
    assert_eq!(listed_name("edlin:notes_line0"), Some(text("notes")));
    assert_eq!(listed_name("edlin/notes_line1"), None);
    assert_eq!(listed_name("edlin/a_line0b_line0"), Some(text("ab")));
    assert_eq!(listed_name("_line0"), Some(text("")));
    assert_eq!(listed_name("line0"), None);
    assert_eq!(listed_name("edlin/edlin/x_line0"), Some(text("edlin/x")));
}

#[test]
fn files_belong_to_a_buffer_by_their_prefix() {
    assert!(belongs_to("edlin/notes_line0", "notes"));
    assert!(belongs_to("edlin:notes_line12", "notes"));
    assert!(belongs_to("edlin/notes_", "notes"));
    assert!(!belongs_to("edlin/notes2_line0", "notes"));
    assert!(!belongs_to("edlin/note", "notes"));
    assert!(!belongs_to("other/notes_line0", "notes"));
    assert!(belongs_to("edlin/_x", ""));
    assert!(has_prefix("abc", "ab"));
    assert!(has_prefix("abc", ""));
    assert!(!has_prefix("ab", "abc"));
    assert!(has_suffix("abc", "bc"));
    assert!(has_suffix("abc", ""));
    assert!(!has_suffix("bc", "abc"));
    assert!(!has_suffix("abd", "bc"));
}
