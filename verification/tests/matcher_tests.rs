use hn_search::text::str_eq;
use hn_search::matcher::{build_haystack, contains_substring, story_matches, tokenize_query};
use hn_search::model::Story;
use hn_search::text::split_whitespace_terms;

fn story(title: &str, text: Option<&str>, by: &str) -> Story {
    Story {
        id: 1,
        title: title.to_string(),
        url: None,
        text: text.map(|t| t.to_string()),
        by: by.to_string(),
        score: None,
        descendants: None,
        time: 0,
        item_type: "story".to_string(),
        kids: None,
    }
}

#[test]
fn tokenize_lowercases_and_splits() {
    let terms = tokenize_query("Rust  ASYNC patterns");
    assert_eq!(
        terms,
        vec!["rust".to_string(), "async".to_string(), "patterns".to_string()]
    );
}

#[test]
fn split_discards_empty_terms() {
    assert_eq!(
        split_whitespace_terms("  a \t b  "),
        vec!["a".to_string(), "b".to_string()]
    );
    assert_eq!(split_whitespace_terms(""), Vec::<String>::new());
    assert_eq!(split_whitespace_terms(" \t\n "), Vec::<String>::new());
    assert_eq!(split_whitespace_terms("solo"), vec!["solo".to_string()]);
}

#[test]
fn substring_search_is_containment() {
    assert!(contains_substring("rust async patterns", "async"));
    assert!(contains_substring("rust async patterns", "ust"));
    assert!(contains_substring("rust", ""));
    assert!(!contains_substring("rust", "rusty"));
    assert!(!contains_substring("rust async", "sync p"));
    assert!(contains_substring("rust async", "nc"));
}

#[test]
fn string_equality_is_by_characters() {
    assert!(str_eq("top", "top"));
    assert!(!str_eq("top", "Top"));
    assert!(!str_eq("top", "topp"));
    assert!(str_eq("", ""));
}

#[test]
fn haystack_joins_lowercased_fields_with_spaces() {
    let h = build_haystack(&story("A Title", Some("Body Text"), "Carol"));
    assert_eq!(h, "a title body text carol");
    let h2 = build_haystack(&story("A Title", None, "Carol"));
    assert_eq!(h2, "a title  carol");
}

#[test]
fn matching_is_case_insensitive_or_semantics() {
    let s = story("Rust Async Patterns", None, "alice");
    assert!(story_matches(&s, &tokenize_query("RUST")));
    assert!(story_matches(&s, &tokenize_query("zzz rust")));
    assert!(!story_matches(&s, &tokenize_query("zzz qqq")));
    assert!(story_matches(&s, &tokenize_query("alice")));
    let with_body = story("Plain", Some("Deep Dive Into Traits"), "bob");
    assert!(story_matches(&with_body, &tokenize_query("traits")));
    assert!(!story_matches(&with_body, &tokenize_query("lifetimes")));
}

#[test]
fn partial_word_matches_are_accepted() {
    let s = story("Rustaceans gather", None, "carol");
    assert!(story_matches(&s, &tokenize_query("rust")));
}
