use minus::pager::TerminalSize;
use minus::text::{
    clone_lines, clone_rows, contains_newline, flatten_rows, join_rows, split_complete,
    split_lines, string_from_chars,
};
use minus::Pager;

fn strings(rows: &[&str]) -> Vec<String> {
    rows.iter().map(|row| row.to_string()).collect()
}

fn pager() -> Pager {
    Pager::new(TerminalSize::Known { cols: 80, rows: 10 }).unwrap()
}

#[test]
fn split_lines_splits_at_line_feeds() {
    assert_eq!(split_lines("A line\nAnother line"), strings(&["A line", "Another line"]));
    assert_eq!(split_lines("one\ntwo\n"), strings(&["one", "two"]));
    assert_eq!(split_lines("one\n\ntwo"), strings(&["one", "", "two"]));
}

#[test]
fn split_lines_of_empty_text_is_empty() {
    assert_eq!(split_lines(""), Vec::<String>::new());
}

#[test]
fn split_lines_of_a_single_line_feed_is_one_empty_line() {
    assert_eq!(split_lines("\n"), strings(&[""]));
    assert_eq!(split_lines("\n\n"), strings(&["", ""]));
}

#[test]
fn split_lines_drops_the_carriage_return_of_a_line_ending() {
    assert_eq!(split_lines("one\r\ntwo\r\n"), strings(&["one", "two"]));
    // Only one carriage return belongs to the line ending.
    assert_eq!(split_lines("one\r\r\ntwo"), strings(&["one\r", "two"]));
    // A carriage return inside a line stays.
    assert_eq!(split_lines("o\rne\ntwo"), strings(&["o\rne", "two"]));
}

#[test]
fn split_lines_keeps_a_carriage_return_at_the_end_of_the_tail() {
    assert_eq!(split_lines("one\ntwo\r"), strings(&["one", "two\r"]));
}

#[test]
fn split_lines_agrees_with_the_standard_library() {
    for text in [
        "",
        "\n",
        "a",
        "a\n",
        "a\nb",
        "a\r\nb\r\n",
        "\r",
        "\r\n",
        "a\r",
        "a\n\r",
        "\n\r\n",
        "x\ny\n\nz\r\n\r",
        "caf\u{e9}\n\u{1f600}\r\n\u{4e2d}",
    ] {
        let expected: Vec<String> = text.lines().map(|line| line.to_string()).collect();
        assert_eq!(split_lines(text), expected, "text {:?}", text);
    }
}

#[test]
fn split_complete_holds_the_tail_back() {
    let (lines, tail) = split_complete("one\ntwo\nthr");
    assert_eq!(lines, strings(&["one", "two"]));
    assert_eq!(tail, "thr");

    let (lines, tail) = split_complete("one\n");
    assert_eq!(lines, strings(&["one"]));
    assert_eq!(tail, "");

    let (lines, tail) = split_complete("no line feed");
    assert_eq!(lines, Vec::<String>::new());
    assert_eq!(tail, "no line feed");

    let (lines, tail) = split_complete("");
    assert_eq!(lines, Vec::<String>::new());
    assert_eq!(tail, "");
}

#[test]
fn contains_newline_finds_a_line_feed_anywhere() {
    assert!(contains_newline("\n"));
    assert!(contains_newline("a\nb"));
    assert!(contains_newline("ab\n"));
    assert!(!contains_newline(""));
    assert!(!contains_newline("ab\r"));
}

#[test]
fn join_rows_puts_the_separator_between_rows() {
    assert_eq!(join_rows(&strings(&["a", "b", "c"]), " "), "a b c");
    assert_eq!(join_rows(&strings(&["a", "b"]), "\n\r"), "a\n\rb");
    assert_eq!(join_rows(&strings(&["only"]), ", "), "only");
    assert_eq!(join_rows(&strings(&[]), ", "), "");
    assert_eq!(join_rows(&strings(&["", ""]), "-"), "-");
}

#[test]
fn string_from_chars_copies_every_character() {
    assert_eq!(string_from_chars(&vec!['a', '\u{e9}', '\n', '\u{1f600}']), "a\u{e9}\n\u{1f600}");
    assert_eq!(string_from_chars(&Vec::new()), "");
}

#[test]
fn clones_and_flatten_keep_every_row() {
    let lines = vec![strings(&["a", "b"]), strings(&[]), strings(&["c"])];
    assert_eq!(clone_rows(&lines[0]), lines[0]);
    assert_eq!(clone_lines(&lines), lines);
    assert_eq!(flatten_rows(&lines), strings(&["a", "b", "c"]));
    assert_eq!(flatten_rows(&Vec::new()), Vec::<String>::new());
}

#[test]
fn push_str_holds_back_the_unterminated_tail() {
    let mut pager = pager();
    pager.push_str("one");
    assert_eq!(pager.get_flattened_lines(), Vec::<String>::new());
    pager.push_str(" more\ntwo");
    assert_eq!(pager.get_flattened_lines(), strings(&["one more"]));
    pager.push_str("\n");
    assert_eq!(pager.get_flattened_lines(), strings(&["one more", "two"]));
    pager.push_str("three\nfour\n");
    assert_eq!(
        pager.get_flattened_lines(),
        strings(&["one more", "two", "three", "four"])
    );
    assert_eq!(pager.num_lines(), 4);
}

#[test]
fn push_str_in_pieces_equals_push_str_of_the_whole() {
    let text = "first line\r\nsecond\n\nfourth line is here\nunfinished";
    let mut whole = pager();
    whole.push_str(text);
    let expected = whole.get_lines();
    assert_eq!(
        whole.get_flattened_lines(),
        strings(&["first line", "second", "", "fourth line is here"])
    );

    let chars: Vec<char> = text.chars().collect();
    // Every way to cut the text into two pieces.
    for cut in 0..=chars.len() {
        let mut pieces = pager();
        pieces.push_str(&chars[..cut].iter().collect::<String>());
        pieces.push_str(&chars[cut..].iter().collect::<String>());
        assert_eq!(pieces.get_lines(), expected, "cut at {}", cut);
    }
    // One character at a time.
    let mut single = pager();
    for c in &chars {
        single.push_str(&c.to_string());
    }
    assert_eq!(single.get_lines(), expected);
    // The tail is still pending: a line feed completes it.
    single.push_str("\n");
    assert_eq!(single.num_lines(), 5);
    assert_eq!(single.get_flattened_lines()[4], "unfinished");
}

#[test]
fn set_text_replaces_the_lines() {
    let mut pager = pager();
    pager.push_str("old\n");
    pager.set_text("A line\nAnother line");
    assert_eq!(
        pager.get_lines(),
        vec![strings(&["A line"]), strings(&["Another line"])]
    );
    pager.set_text("");
    assert_eq!(pager.get_lines(), Vec::<Vec<String>>::new());
    assert_eq!(pager.num_lines(), 0);
}

#[test]
fn set_text_discards_the_pending_part() {
    let mut pager = pager();
    pager.push_str("pending");
    pager.set_text("shown");
    assert_eq!(pager.get_flattened_lines(), strings(&["shown"]));
    pager.push_str(" text\n");
    assert_eq!(pager.get_flattened_lines(), strings(&["shown", " text"]));
}

#[test]
fn set_text_twice_is_set_text_once() {
    let mut once = pager();
    once.push_str("old\npending");
    once.set_text("one\ntwo");
    let mut twice = pager();
    twice.push_str("other");
    twice.set_text("one\ntwo");
    twice.set_text("one\ntwo");
    assert_eq!(once.get_lines(), twice.get_lines());
    once.push_str("\n");
    twice.push_str("\n");
    assert_eq!(once.get_lines(), twice.get_lines());
    assert_eq!(once.get_flattened_lines(), strings(&["one", "two", ""]));
}
