use oxybot::setup::{client_name, default_log_filter, session_file_name};
use oxybot::text::{clone_text, same_text, starts_with};

#[test]
fn starts_with_compares_the_first_characters() {
    assert!(starts_with("!oxy hi", "!oxy"));
    assert!(starts_with("!oxy", "!oxy"));
    assert!(starts_with("anything", ""));
    assert!(starts_with("", ""));
    assert!(!starts_with("", "!"));
    assert!(!starts_with("!ox", "!oxy"));
    assert!(!starts_with("?oxy", "!oxy"));
    assert!(!starts_with("!oxY", "!oxy"));
    assert!(starts_with("\u{e4}\u{f6}\u{fc}", "\u{e4}\u{f6}"));
    assert!(!starts_with("\u{e4}\u{f6}\u{fc}", "\u{e4}o"));
}

#[test]
fn same_text_is_equality() {
    assert!(same_text("", ""));
    assert!(same_text("@bot:example.org", "@bot:example.org"));
    assert!(!same_text("@bot:example.org", "@bot:example.or"));
    assert!(!same_text("@bot", "@bot:example.org"));
    assert!(!same_text("a", "b"));
}

#[test]
fn clone_text_copies() {
    assert_eq!(clone_text(&None), None);
    assert_eq!(clone_text(&Some("s1".to_string())), Some("s1".to_string()));
}

#[test]
fn names_of_the_client() {
    assert_eq!(client_name(), "oxybot");
    assert_eq!(session_file_name(), "session");
}

#[test]
fn default_filter_is_info_for_the_target() {
    assert_eq!(default_log_filter("oxybot"), "oxybot=info");
    assert_eq!(default_log_filter(client_name()), "oxybot=info");
    assert_eq!(default_log_filter(""), "=info");
}
