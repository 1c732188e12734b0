use minus::pager::TerminalSize;
use minus::wrap::{rewrap, rewrap_lines, wrap_all};
use minus::Pager;

fn strings(rows: &[&str]) -> Vec<String> {
    rows.iter().map(|row| row.to_string()).collect()
}

#[test]
fn lines_are_wrapped_at_the_terminal_width() {
    let mut pager = Pager::new(TerminalSize::Known { cols: 10, rows: 5 }).unwrap();
    pager.set_text("To be, or not to be: that is the question");
    assert_eq!(
        pager.get_flattened_lines(),
        strings(&["To be, or", "not to be:", "that is", "the", "question"])
    );
}

#[test]
fn wrap_all_wraps_each_line_on_its_own() {
    let lines = strings(&["aaaa bbbb", "", "cc"]);
    assert_eq!(
        wrap_all(&lines, 4),
        vec![strings(&["aaaa", "bbbb"]), strings(&[""]), strings(&["cc"])]
    );
    assert_eq!(wrap_all(&Vec::new(), 4), Vec::<Vec<String>>::new());
}

#[test]
fn long_words_are_broken() {
    let lines = strings(&["abcdefghij"]);
    assert_eq!(wrap_all(&lines, 4), vec![strings(&["abcd", "efgh", "ij"])]);
}

#[test]
fn rewrap_joins_the_rows_and_wraps_them() {
    let mut line = strings(&["aaaa", "bbbb", "cc"]);
    rewrap(&mut line, 80);
    assert_eq!(line, strings(&["aaaa bbbb cc"]));
    rewrap(&mut line, 7);
    assert_eq!(line, strings(&["aaaa", "bbbb cc"]));
    rewrap(&mut line, 4);
    assert_eq!(line, strings(&["aaaa", "bbbb", "cc"]));
}

#[test]
fn rewrap_at_the_same_width_yields_the_same_rows() {
    for cols in [1usize, 2, 3, 5, 8, 10, 13, 40, 80] {
        for text in [
            "To be, or not to be: that is the question",
            "",
            "word",
            "a b c d e f g h i j k l m n o p",
            "abcdefghijklmnopqrstuvwxyz abc",
            "hyphen-ated words-are split-here",
        ] {
            let mut line = wrap_all(&strings(&[text]), cols).remove(0);
            let first = line.clone();
            rewrap(&mut line, cols);
            assert_eq!(line, first, "text {:?} at {} columns", text, cols);
        }
    }
}

#[test]
fn rewrap_puts_one_space_between_rows() {
    // The rows do not record how many spaces stood at a break.
    let mut line = wrap_all(&strings(&["two  spaces   three"]), 10).remove(0);
    assert_eq!(line, strings(&["two", "spaces", "three"]));
    rewrap(&mut line, 10);
    assert_eq!(line, strings(&["two spaces", "three"]));
    rewrap(&mut line, 10);
    assert_eq!(line, strings(&["two spaces", "three"]));
}

#[test]
fn rewrap_lines_keeps_the_lines_and_their_order() {
    let mut lines = vec![
        strings(&["first line of text"]),
        strings(&[""]),
        strings(&["third", "line"]),
    ];
    rewrap_lines(&mut lines, 6);
    assert_eq!(
        lines,
        vec![
            strings(&["first", "line", "of", "text"]),
            strings(&[""]),
            strings(&["third", "line"]),
        ]
    );
    rewrap_lines(&mut lines, 80);
    assert_eq!(
        lines,
        vec![
            strings(&["first line of text"]),
            strings(&[""]),
            strings(&["third line"]),
        ]
    );
    let mut none: Vec<Vec<String>> = Vec::new();
    rewrap_lines(&mut none, 6);
    assert!(none.is_empty());
}

#[test]
fn wrapping_takes_every_text_and_width() {
    let texts = [
        "",
        " ",
        "   leading and trailing   ",
        "tab\tseparated\twords",
        "caf\u{e9} na\u{ef}ve \u{4e2d}\u{6587}\u{5b57}\u{7b26} \u{1f600}\u{1f600}\u{1f600}",
        "\x1b[31mred\x1b[0m and \x1b[1mbold text that is long\x1b[0m",
        "\x1b[unfinished escape",
        "--double--hyphens-- and-single-hyphens -",
        "a\u{301}e\u{301}o\u{301} combining marks here",
        "averyveryverylongwordwithoutanyspacesatall",
    ];
    for cols in [0usize, 1, 2, 3, 7, 80, usize::MAX] {
        let lines = wrap_all(&strings(&texts), cols);
        assert_eq!(lines.len(), texts.len());
        for (text, rows) in texts.iter().zip(&lines) {
            assert!(!rows.is_empty(), "text {:?} at {} columns", text, cols);
            // Wrapping drops spaces at breaks and nothing else.
            let kept: String = rows.concat().chars().filter(|c| *c != ' ').collect();
            let given: String = text.chars().filter(|c| *c != ' ').collect();
            assert_eq!(kept, given, "text {:?} at {} columns", text, cols);
            let mut again = rows.clone();
            rewrap(&mut again, cols);
            assert!(!again.is_empty());
        }
    }
}

#[test]
fn a_pager_without_columns_still_wraps_and_draws() {
    let mut pager = Pager::new(TerminalSize::Known { cols: 0, rows: 0 }).unwrap();
    pager.set_text("some text\nmore");
    pager.set_line_numbers(minus::LineNumbers::Enabled);
    let frame = minus::render::draw(&mut pager);
    assert!(frame.starts_with("\x1b[2J\x1b[1;1H\r\n"));
    assert_eq!(pager.num_lines(), 12);
    // Every character was a row of its own; rows are joined by spaces.
    pager.resize(5, 3);
    assert_eq!(
        pager.get_flattened_lines(),
        strings(&["s o", "m e", "t e", "x t", "m o", "r e"])
    );
}
