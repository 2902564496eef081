use comic_universe::text::{characters, contains, has_suffix, join, last_position, same_text};

#[test]
fn same_text_compares_characters() {
    assert!(same_text("", ""));
    assert!(same_text("amanhã", "amanhã"));
    assert!(!same_text("a", "b"));
    assert!(!same_text("a", "ab"));
    assert!(!same_text("ab", "a"));
}

#[test]
fn join_puts_one_text_behind_the_other() {
    assert_eq!(join("ab", "cd"), "abcd");
    assert_eq!(join("", "x"), "x");
    assert_eq!(join("x", ""), "x");
}

#[test]
fn has_suffix_looks_at_the_end() {
    assert!(has_suffix("plugin.tgz", ".tgz"));
    assert!(has_suffix(".tgz", ".tgz"));
    assert!(has_suffix("anything", ""));
    assert!(!has_suffix("tgz", ".tgz"));
    assert!(!has_suffix("plugin.tgz.bak", ".tgz"));
    assert!(has_suffix("amanhã.tgz", ".tgz"));
}

#[test]
fn contains_finds_a_run_of_characters() {
    assert!(contains("the batman returns", "batman"));
    assert!(contains("batman", "batman"));
    assert!(contains("xbatman", "batman"));
    assert!(contains("abc", ""));
    assert!(contains("", ""));
    assert!(!contains("", "a"));
    assert!(!contains("batma", "batman"));
    assert!(!contains("bat man", "batman"));
    assert!(contains("amanhã é", "ã "));
}

#[test]
fn last_position_counts_characters() {
    assert_eq!(last_position("foo-plugin-2.3.1", '-'), Some(10));
    assert_eq!(last_position("-", '-'), Some(0));
    assert_eq!(last_position("plain", '-'), None);
    assert_eq!(last_position("", '-'), None);
    assert_eq!(last_position("ãã-x", '-'), Some(2));
}

#[test]
fn characters_are_the_chars_of_a_text() {
    assert_eq!(characters("aã-"), vec!['a', 'ã', '-']);
    assert_eq!(characters(""), Vec::<char>::new());
}
