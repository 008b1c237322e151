use reiter::sattel::text::{after_prefix, copy_option, join, same_text, starts_with};

#[test]
fn text_helpers_count_characters() {
    assert!(same_text("abc", "abc"));
    assert!(!same_text("abc", "abd"));
    assert!(!same_text("abc", "ab"));
    assert!(starts_with("crawl:x", "crawl:"));
    assert!(starts_with("crawl:", "crawl:"));
    assert!(!starts_with("crawl", "crawl:"));
    assert!(!starts_with("Crawl:x", "crawl:"));
    assert!(starts_with("äöü", "ä"));
    assert!(starts_with("anything", ""));
    assert_eq!(after_prefix("crawl:äx", 6), "äx");
    assert_eq!(after_prefix("äöü", 1), "öü");
    assert_eq!(after_prefix("abc", 3), "");
    assert_eq!(after_prefix("abc", 4), "");
    assert_eq!(after_prefix("abc", 0), "abc");
    assert_eq!(join("ab", "cd"), "abcd");
    assert_eq!(join("", ""), "");
}

#[test]
fn optional_strings_are_copied() {
    assert_eq!(copy_option(&Some("a".to_owned())), Some("a".to_owned()));
    assert_eq!(copy_option(&None), None);
}
