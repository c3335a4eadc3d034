//! Resolution of a category token to the identifier-list endpoint to query.

use vstd::prelude::*;

use crate::errors::SearchError;
use crate::text::str_eq;

verus! {

/// One of the fixed story-listing buckets offered by the remote API.
#[derive(Debug, Clone, Copy, PartialEq, Eq, Structural)]
pub enum Category {
    Top,
    Best,
    New,
    Ask,
    Show,
    Job,
}

/// View of an optional category token as an optional character sequence.
pub open spec fn token_view(token: Option<String>) -> Option<Seq<char>> {
    match token {
        None => None,
        Some(t) => Some(t@),
    }
}

/// What `resolve_category` returns for a given token: an absent token or
/// `"top"` selects the top list, the five other known tokens select their
/// lists, and any other token is rejected.
pub open spec fn spec_resolve(token: Option<Seq<char>>) -> Result<Category, SearchError> {
    match token {
        None => Ok(Category::Top),
        Some(t) => if t == "top"@ {
            Ok(Category::Top)
        } else if t == "best"@ {
            Ok(Category::Best)
        } else if t == "new"@ {
            Ok(Category::New)
        } else if t == "ask"@ {
            Ok(Category::Ask)
        } else if t == "show"@ {
            Ok(Category::Show)
        } else if t == "job"@ {
            Ok(Category::Job)
        } else {
            Err(SearchError::InvalidCategory)
        },
    }
}

/// Maps a category token (or its absence) to the listing bucket to query;
/// rejects unknown tokens with `InvalidCategory`. No side effects.
pub fn resolve_category(token: &Option<String>) -> (r: Result<Category, SearchError>)
    ensures
        r == spec_resolve(token_view(*token)),
{
    match token {
        None => Ok(Category::Top),
        Some(t) => {
            if str_eq(t.as_str(), "top") {
                Ok(Category::Top)
            } else if str_eq(t.as_str(), "best") {
                Ok(Category::Best)
            } else if str_eq(t.as_str(), "new") {
                Ok(Category::New)
            } else if str_eq(t.as_str(), "ask") {
                Ok(Category::Ask)
            } else if str_eq(t.as_str(), "show") {
                Ok(Category::Show)
            } else if str_eq(t.as_str(), "job") {
                Ok(Category::Job)
            } else {
                Err(SearchError::InvalidCategory)
            }
        },
    }
}

/// The file name of the id-list route for each bucket.
pub open spec fn spec_list_route(c: Category) -> Seq<char> {
    match c {
        Category::Top => "topstories.json"@,
        Category::Best => "beststories.json"@,
        Category::New => "newstories.json"@,
        Category::Ask => "askstories.json"@,
        Category::Show => "showstories.json"@,
        Category::Job => "jobstories.json"@,
    }
}

impl Category {
    /// The final path component of this bucket's id-list endpoint.
    pub fn list_route(&self) -> (r: &'static str)
        ensures
            r@ == spec_list_route(*self),
    {
        match self {
            Category::Top => "topstories.json",
            Category::Best => "beststories.json",
            Category::New => "newstories.json",
            Category::Ask => "askstories.json",
            Category::Show => "showstories.json",
            Category::Job => "jobstories.json",
        }
    }
}

} // verus!
