//! Bounded search-and-aggregate client over a public discussion-forum API.
//!
//! The verified core walks an ordered list of story identifiers under a fixed
//! scan ceiling, tests each fetched story against a multi-term query, expands
//! each match with a small comment sample, and renders the collected results
//! as a plain-text report. Network transport is left to the caller, which
//! drives the [`scan::Scan`] state machine with fetched values.

use vstd::prelude::*;

pub mod errors;
pub mod category;
pub mod model;
pub mod text;
pub mod matcher;
pub mod scan;
pub mod render;

verus! {

/// Ceiling on how many candidate ids one search call may examine.
pub const MAX_STORIES_TO_SEARCH: usize = 100;

/// How many of a matching story's child comments are sampled.
pub const COMMENT_SAMPLE_LIMIT: usize = 3;

/// Result cap used when a request does not give one.
pub const DEFAULT_MAX_RESULTS: usize = 5;

} // verus!
