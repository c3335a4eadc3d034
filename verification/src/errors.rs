//! Error taxonomy of the search pipeline.

use vstd::prelude::*;

verus! {

/// Outcome classification for a failed search call.
///
/// `Transport` covers network or connectivity failures reaching the remote
/// API; `Decode` covers responses that do not match the expected shape;
/// `InvalidCategory` rejects an unrecognized category token; `NoResults`
/// reports a search that completed without error but found nothing.
#[derive(Debug, Clone, Copy, PartialEq, Eq, Structural)]
pub enum SearchError {
    Transport,
    Decode,
    InvalidCategory,
    NoResults,
}

} // verus!
