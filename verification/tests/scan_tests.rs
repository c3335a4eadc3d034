use hn_search::errors::SearchError;
use hn_search::matcher::tokenize_query;
use hn_search::model::{Comment, Hit, Story};
use hn_search::scan::Scan;

fn story(id: u32, title: &str, by: &str, kids: Option<Vec<u32>>) -> Story {
    Story {
        id,
        title: title.to_string(),
        url: None,
        text: None,
        by: by.to_string(),
        score: None,
        descendants: None,
        time: 0,
        item_type: "story".to_string(),
        kids,
    }
}

fn comment(id: u32, text: Option<&str>, by: &str) -> Comment {
    Comment {
        id,
        text: text.map(|t| t.to_string()),
        by: by.to_string(),
        time: 0,
        parent: 0,
        item_type: "comment".to_string(),
        kids: None,
    }
}

/// Drives a scan against a synthetic corpus: each id maps to a story (or to
/// a failed fetch), every requested comment fetch succeeds. Returns the
/// finished result and how many ids were examined.
fn drive(
    mut scan: Scan,
    fetch: impl Fn(u32) -> Option<Story>,
) -> (Result<Vec<Hit>, SearchError>, usize) {
    let mut examined = 0usize;
    while let Some(id) = scan.next_story_id() {
        examined += 1;
        if let Some(kids) = scan.offer_story(fetch(id)) {
            let fetched: Vec<Option<Comment>> = kids
                .iter()
                .map(|&k| Some(comment(k, Some("a reply"), "carol")))
                .collect();
            scan.attach_comments(fetched);
        }
    }
    (scan.finish(), examined)
}

#[test]
fn single_match_end_to_end() {
    let terms = tokenize_query("rust");
    let scan = Scan::new(vec![1, 2, 3], terms, 5).ok().unwrap();
    let (result, examined) = drive(scan, |id| {
        if id == 2 {
            Some(story(2, "Rust async patterns", "alice", Some(vec![10, 11, 12, 13])))
        } else {
            Some(story(id, "unrelated entry", "bob", None))
        }
    });
    let hits = result.ok().unwrap();
    assert_eq!(examined, 3);
    assert_eq!(hits.len(), 1);
    assert_eq!(hits[0].story.id, 2);
    assert_eq!(hits[0].story.by, "alice");
    let ids: Vec<u32> = hits[0].comments.iter().map(|c| c.id).collect();
    assert_eq!(ids, vec![10, 11, 12]);
}

#[test]
fn no_textual_match_is_no_results() {
    let terms = tokenize_query("zzzzz_no_match");
    let scan = Scan::new(vec![5, 6, 7], terms, 5).ok().unwrap();
    let (result, examined) = drive(scan, |id| Some(story(id, "daily news", "dan", None)));
    assert_eq!(examined, 3);
    assert!(matches!(result, Err(SearchError::NoResults)));
}

#[test]
fn empty_id_list_is_no_results_without_fetches() {
    let terms = tokenize_query("rust");
    match Scan::new(Vec::new(), terms, 5) {
        Err(e) => assert_eq!(e, SearchError::NoResults),
        Ok(_) => panic!("an empty id list must be refused"),
    }
}

#[test]
fn result_cap_stops_the_scan() {
    let terms = tokenize_query("rust");
    let ids: Vec<u32> = (1..=10).collect();
    let scan = Scan::new(ids, terms, 2).ok().unwrap();
    let (result, examined) = drive(scan, |id| Some(story(id, "rust everywhere", "eve", None)));
    let hits = result.ok().unwrap();
    assert_eq!(hits.len(), 2);
    assert_eq!(examined, 2);
    assert_eq!(hits[0].story.id, 1);
    assert_eq!(hits[1].story.id, 2);
}

#[test]
fn scan_ceiling_bounds_the_ids_examined() {
    let terms = tokenize_query("rust");
    let ids: Vec<u32> = (1..=150).collect();
    let scan = Scan::new(ids, terms, 5).ok().unwrap();
    let (result, examined) = drive(scan, |id| Some(story(id, "quiet day", "frank", None)));
    assert_eq!(examined, 100);
    assert!(matches!(result, Err(SearchError::NoResults)));
}

#[test]
fn failed_story_fetches_are_skipped_not_fatal() {
    let terms = tokenize_query("rust");
    let scan = Scan::new(vec![1, 2, 3], terms, 5).ok().unwrap();
    let (result, examined) = drive(scan, |id| {
        if id == 1 {
            None
        } else if id == 3 {
            Some(story(3, "rust rises", "gail", None))
        } else {
            Some(story(id, "nothing here", "hal", None))
        }
    });
    let hits = result.ok().unwrap();
    assert_eq!(examined, 3);
    assert_eq!(hits.len(), 1);
    assert_eq!(hits[0].story.id, 3);
}

#[test]
fn failed_comment_fetches_are_omitted_not_replaced() {
    let terms = tokenize_query("rust");
    let mut scan = Scan::new(vec![9], terms, 5).ok().unwrap();
    let id = scan.next_story_id().unwrap();
    assert_eq!(id, 9);
    let kids = scan
        .offer_story(Some(story(9, "rust story", "ada", Some(vec![7, 8, 9, 10, 11]))))
        .unwrap();
    assert_eq!(kids, vec![7, 8, 9]);
    scan.attach_comments(vec![
        Some(comment(7, Some("first"), "u1")),
        None,
        Some(comment(9, None, "u3")),
    ]);
    assert!(scan.next_story_id().is_none());
    let hits = scan.finish().ok().unwrap();
    assert_eq!(hits.len(), 1);
    let ids: Vec<u32> = hits[0].comments.iter().map(|c| c.id).collect();
    assert_eq!(ids, vec![7, 9]);
}

#[test]
fn matching_story_with_empty_kid_list_gets_empty_sample() {
    let terms = tokenize_query("rust");
    let mut scan = Scan::new(vec![4], terms, 5).ok().unwrap();
    assert_eq!(scan.next_story_id(), Some(4));
    let kids = scan.offer_story(Some(story(4, "rust again", "ida", Some(Vec::new()))));
    assert_eq!(kids, Some(Vec::new()));
    scan.attach_comments(Vec::new());
    let hits = scan.finish().ok().unwrap();
    assert_eq!(hits.len(), 1);
    assert!(hits[0].comments.is_empty());
}
