use termite::history::HistoryPool;
use termite::store::{entry_line, is_storable, parse_entries};

fn strings(lines: &[&str]) -> Vec<String> {
    lines.iter().map(|line| line.to_string()).collect()
}

#[test]
fn an_empty_file_has_no_entries() {
    assert_eq!(parse_entries(""), Vec::<String>::new());
}

#[test]
fn each_line_is_an_entry() {
    assert_eq!(parse_entries("ls -la\ncd /tmp\n"), strings(&["ls -la", "cd /tmp"]));
}

#[test]
fn the_last_line_needs_no_terminator() {
    assert_eq!(parse_entries("one\ntwo"), strings(&["one", "two"]));
    assert_eq!(parse_entries("one"), strings(&["one"]));
}

#[test]
fn empty_lines_are_entries() {
    assert_eq!(parse_entries("\n"), strings(&[""]));
    assert_eq!(parse_entries("one\n\ntwo\n"), strings(&["one", "", "two"]));
    assert_eq!(parse_entries("\n\n"), strings(&["", ""]));
}

#[test]
fn a_carriage_return_before_the_line_feed_is_dropped() {
    assert_eq!(parse_entries("one\r\ntwo\r\n"), strings(&["one", "two"]));
    assert_eq!(parse_entries("\r\n"), strings(&[""]));
    assert_eq!(parse_entries("one\r\r\n"), strings(&["one\r"]));
}

#[test]
fn other_carriage_returns_stay() {
    assert_eq!(parse_entries("a\rb\n"), strings(&["a\rb"]));
    assert_eq!(parse_entries("one\ntwo\r"), strings(&["one", "two\r"]));
    assert_eq!(parse_entries("\r"), strings(&["\r"]));
}

#[test]
fn nothing_else_is_trimmed() {
    assert_eq!(parse_entries("  ls  \n\tcd\t\n"), strings(&["  ls  ", "\tcd\t"]));
}

#[test]
fn characters_beyond_ascii_are_kept() {
    assert_eq!(parse_entries("grüß\n日本\n"), strings(&["grüß", "日本"]));
}

#[test]
fn an_entry_line_ends_in_a_line_feed() {
    assert_eq!(entry_line("ls -la"), "ls -la\n");
    assert_eq!(entry_line(""), "\n");
    assert_eq!(entry_line("日本"), "日本\n");
}

#[test]
fn what_can_be_stored() {
    assert!(is_storable("ls -la"));
    assert!(is_storable(""));
    assert!(is_storable("a\rb"));
    assert!(!is_storable("a\nb"));
    assert!(!is_storable("\n"));
    assert!(!is_storable("ab\n"));
    assert!(!is_storable("ab\r"));
    assert!(!is_storable("\r"));
}

#[test]
fn an_appended_entry_is_read_back() {
    let mut contents = String::new();
    for text in ["ls -la", "cd /tmp", "echo  hi "] {
        let mut expected = parse_entries(&contents);
        expected.push(text.to_string());
        contents.push_str(&entry_line(text));
        let entries = parse_entries(&contents);
        assert_eq!(entries.last().map(String::as_str), Some(text));
        assert_eq!(entries, expected);
    }
    assert_eq!(contents, "ls -la\ncd /tmp\necho  hi \n");
}

#[test]
fn a_restart_finds_what_was_appended() {
    let mut pool = HistoryPool::new();
    pool.load(parse_entries("one\n"));
    pool.append("two".to_string());
    let contents = "one\n".to_string() + &entry_line("two");
    let mut restarted = HistoryPool::new();
    restarted.load(parse_entries(&contents));
    assert_eq!(restarted.entries(), pool.entries());
    assert_eq!(restarted.entries().last().map(String::as_str), Some("two"));
    assert_eq!(restarted.cursor(), 2);
}

#[test]
fn a_line_feed_in_an_entry_splits_it() {
    let contents = entry_line("a\nb");
    assert_eq!(parse_entries(&contents), strings(&["a", "b"]));
}
