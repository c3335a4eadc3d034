//! Data model: stories, comments, search requests and result entries.

use vstd::prelude::*;

use crate::DEFAULT_MAX_RESULTS;

verus! {

/// A top-level discussion item as decoded from the remote API.
///
/// Absent and null fields of the wire form both map to `None` here.
pub struct Story {
    pub id: u32,
    pub title: String,
    pub url: Option<String>,
    pub text: Option<String>,
    pub by: String,
    pub score: Option<i32>,
    pub descendants: Option<i32>,
    pub time: i64,
    pub item_type: String,
    pub kids: Option<Vec<u32>>,
}

/// A reply item attached to a story or another comment. The body text is
/// absent when the comment was deleted or removed upstream.
pub struct Comment {
    pub id: u32,
    pub text: Option<String>,
    pub by: String,
    pub time: i64,
    pub parent: u32,
    pub item_type: String,
    pub kids: Option<Vec<u32>>,
}

/// One search result: a matching story together with its sampled comments.
pub struct Hit {
    pub story: Story,
    pub comments: Vec<Comment>,
}

/// Caller input for one search invocation.
pub struct SearchRequest {
    pub query: String,
    pub story_type: Option<String>,
    pub max_results: Option<usize>,
}

/// The result cap a request asks for: its own value, or the default when
/// it gives none.
pub open spec fn spec_effective_cap(max_results: Option<usize>) -> nat {
    match max_results {
        None => DEFAULT_MAX_RESULTS as nat,
        Some(m) => m as nat,
    }
}

impl SearchRequest {
    /// Whether the request is fit for use: the query text is non-empty.
    pub fn is_valid(&self) -> (r: bool)
        ensures
            r == (self.query@.len() != 0),
    {
        !self.query.as_str().is_empty()
    }

    /// The result cap this request asks for.
    pub fn effective_cap(&self) -> (r: usize)
        ensures
            r as nat == spec_effective_cap(self.max_results),
    {
        match self.max_results {
            None => DEFAULT_MAX_RESULTS,
            Some(m) => m,
        }
    }
}

/// The ordered child-comment ids of a story; empty when the field is absent.
pub open spec fn spec_kid_ids(s: Story) -> Seq<u32> {
    match s.kids {
        None => Seq::<u32>::empty(),
        Some(k) => k@,
    }
}

} // verus!
