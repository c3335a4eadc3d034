use hn_search::model::{Comment, Hit, Story};
use hn_search::render::{format_hn_results, i32_string, truncated_title, u64_string};

fn story(id: u32, title: &str, by: &str) -> Story {
    Story {
        id,
        title: title.to_string(),
        url: Some("https://example.org/post".to_string()),
        text: Some("Body of the story".to_string()),
        by: by.to_string(),
        score: Some(42),
        descendants: Some(7),
        time: 0,
        item_type: "story".to_string(),
        kids: None,
    }
}

fn comment(id: u32, text: Option<&str>, by: &str) -> Comment {
    Comment {
        id,
        text: text.map(|t| t.to_string()),
        by: by.to_string(),
        time: 0,
        parent: 0,
        item_type: "comment".to_string(),
        kids: None,
    }
}

#[test]
fn decimal_strings_are_exact() {
    assert_eq!(i32_string(0), "0");
    assert_eq!(i32_string(-5), "-5");
    assert_eq!(i32_string(12345), "12345");
    assert_eq!(i32_string(-2147483648), "-2147483648");
    assert_eq!(u64_string(100), "100");
    assert_eq!(u64_string(0), "0");
}

#[test]
fn title_of_47_characters_is_kept_whole() {
    let title = "a".repeat(47);
    assert_eq!(truncated_title(&title), title);
}

#[test]
fn title_of_48_characters_is_cut_to_47_plus_ellipsis() {
    let title = "b".repeat(48);
    let expected = format!("{}...", "b".repeat(47));
    assert_eq!(truncated_title(&title), expected);
    assert_eq!(truncated_title(&title).chars().count(), 50);
}

#[test]
fn rendering_twice_gives_identical_text() {
    let results = vec![Hit {
        story: story(2, "Rust async patterns", "alice"),
        comments: vec![comment(10, Some("nice read"), "bob"), comment(11, None, "carol")],
    }];
    let first = format_hn_results(&results);
    let second = format_hn_results(&results);
    assert_eq!(first, second);
}

#[test]
fn report_layout_matches_the_reference_format() {
    let results = vec![Hit {
        story: story(2, "Rust async patterns", "alice"),
        comments: vec![comment(10, Some("nice read"), "bob"), comment(11, None, "carol")],
    }];
    let out = format_hn_results(&results);

    let banner = format!("\n{:-^120}\n", " Hacker News Discussions ");
    assert!(out.starts_with(&banner));
    let header = format!(
        "{:<50} | {:<15} | {:<10} | {:<20}\n",
        "Title", "Author", "Points", "Comments"
    );
    assert!(out.contains(&header));
    let row = format!(
        "{:<50} | {:<15} | {:<10} | {:<20}\n",
        "Rust async patterns", "alice", 42, 7
    );
    assert!(out.contains(&row));
    let divider = format!("{:-<120}\n", "");
    assert!(out.contains(&divider));
    let detail_banner = format!("\n{:-^120}\n", " Detailed Discussion View ");
    assert!(out.contains(&detail_banner));
    assert!(out.contains("\n1. Rust async patterns\n"));
    assert!(out.contains("By: alice | Points: 42 | ID: 2\n"));
    assert!(out.contains("URL: https://example.org/post\n"));
    assert!(out.contains("\nText:\nBody of the story\n"));
    assert!(out.contains("\nTop Comments:\n"));
    assert!(out.contains("\n1.1 by bob:\nnice read\n"));
    assert!(out.contains("\n1.2 by carol:\n[Comment text not available]\n"));
}

#[test]
fn absent_score_and_count_render_as_zero() {
    let mut s = story(3, "quiet", "dana");
    s.score = None;
    s.descendants = None;
    s.url = None;
    s.text = None;
    let results = vec![Hit { story: s, comments: Vec::new() }];
    let out = format_hn_results(&results);
    let row = format!("{:<50} | {:<15} | {:<10} | {:<20}\n", "quiet", "dana", 0, 0);
    assert!(out.contains(&row));
    assert!(out.contains("By: dana | Points: 0 | ID: 3\n"));
    assert!(!out.contains("URL:"));
    assert!(!out.contains("Top Comments:"));
}
