use termite::history::HistoryPool;

fn pool_of(lines: &[&str]) -> HistoryPool {
    let mut pool = HistoryPool::new();
    pool.load(lines.iter().map(|line| line.to_string()).collect());
    pool
}

#[test]
fn new_pool_is_empty_and_live() {
    let pool = HistoryPool::new();
    assert_eq!(pool.len(), 0);
    assert!(pool.is_empty());
    assert_eq!(pool.cursor(), 0);
    assert!(pool.is_live());
    assert_eq!(pool.scratch(), "");
}

#[test]
fn load_replaces_the_entries() {
    let mut pool = pool_of(&["one", "two", "three"]);
    assert_eq!(pool.len(), 3);
    assert_eq!(pool.cursor(), 3);
    assert!(pool.is_live());
    pool.navigate_up("typing");
    pool.load(vec!["four".to_string()]);
    assert_eq!(pool.entries(), &vec!["four".to_string()]);
    assert_eq!(pool.cursor(), 1);
    assert_eq!(pool.scratch(), "");
}

#[test]
fn browsing_two_entries() {
    let mut pool = pool_of(&["ls -la", "cd /tmp"]);
    assert_eq!(pool.cursor(), 2);
    assert_eq!(pool.navigate_up(""), Some("cd /tmp".to_string()));
    assert_eq!(pool.cursor(), 1);
    assert_eq!(pool.navigate_up("cd /tmp"), Some("ls -la".to_string()));
    assert_eq!(pool.cursor(), 0);
    assert_eq!(pool.navigate_up("ls -la"), None);
    assert_eq!(pool.cursor(), 0);
    assert_eq!(pool.navigate_down(), Some("cd /tmp".to_string()));
    assert_eq!(pool.cursor(), 1);
    assert_eq!(pool.navigate_down(), Some("".to_string()));
    assert_eq!(pool.cursor(), 2);
    assert!(pool.is_live());
    assert_eq!(pool.entries(), &vec!["ls -la".to_string(), "cd /tmp".to_string()]);
}

#[test]
fn leaving_the_live_position_keeps_the_line() {
    let mut pool = pool_of(&["one", "two"]);
    assert_eq!(pool.navigate_up("half a thou"), Some("two".to_string()));
    assert_eq!(pool.scratch(), "half a thou");
    assert_eq!(pool.navigate_up("two"), Some("one".to_string()));
    assert_eq!(pool.scratch(), "half a thou");
    assert_eq!(pool.navigate_down(), Some("two".to_string()));
    assert_eq!(pool.navigate_down(), Some("half a thou".to_string()));
    assert_eq!(pool.navigate_down(), None);
    assert_eq!(pool.cursor(), 2);
    assert_eq!(pool.scratch(), "half a thou");
}

#[test]
fn navigating_an_empty_pool_does_nothing() {
    let mut pool = HistoryPool::new();
    assert_eq!(pool.navigate_up("typed"), None);
    assert_eq!(pool.cursor(), 0);
    assert_eq!(pool.scratch(), "");
    assert_eq!(pool.navigate_down(), None);
    assert_eq!(pool.cursor(), 0);
}

#[test]
fn an_edit_while_browsing_returns_to_live() {
    let mut pool = pool_of(&["one", "two", "three"]);
    pool.navigate_up("");
    pool.navigate_up("three");
    assert_eq!(pool.cursor(), 1);
    pool.record_live_edit("twos");
    assert_eq!(pool.cursor(), 3);
    assert!(pool.is_live());
    assert_eq!(pool.scratch(), "twos");
    assert_eq!(pool.len(), 3);
    assert_eq!(pool.navigate_up("twos"), Some("three".to_string()));
    assert_eq!(pool.navigate_down(), Some("twos".to_string()));
}

#[test]
fn an_edit_at_the_live_position_is_mirrored() {
    let mut pool = pool_of(&["one"]);
    pool.record_live_edit("a");
    pool.record_live_edit("ab");
    assert_eq!(pool.scratch(), "ab");
    assert_eq!(pool.cursor(), 1);
}

#[test]
fn append_adds_the_newest_entry() {
    let mut pool = pool_of(&["one"]);
    pool.navigate_up("two");
    assert_eq!(pool.cursor(), 0);
    pool.append("two".to_string());
    assert_eq!(pool.entries(), &vec!["one".to_string(), "two".to_string()]);
    assert_eq!(pool.len(), 2);
    assert_eq!(pool.cursor(), 2);
    assert_eq!(pool.scratch(), "");
    assert!(!pool.is_empty());
}

#[test]
fn the_same_text_can_be_appended_twice() {
    let mut pool = HistoryPool::new();
    pool.append("ls".to_string());
    pool.append("ls".to_string());
    assert_eq!(pool.entries(), &vec!["ls".to_string(), "ls".to_string()]);
}

#[test]
fn up_and_down_the_same_number_of_times() {
    for times in 0..6 {
        let mut pool = pool_of(&["one", "two", "three"]);
        let mut shown = "being typed".to_string();
        for _ in 0..times {
            if let Some(text) = pool.navigate_up(&shown) {
                shown = text;
            }
        }
        for _ in 0..times {
            if let Some(text) = pool.navigate_down() {
                shown = text;
            }
        }
        assert_eq!(shown, "being typed");
        assert_eq!(pool.cursor(), 3);
        assert_eq!(pool.len(), 3);
    }
}
