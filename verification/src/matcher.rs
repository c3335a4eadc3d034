//! The search matcher: does a story's text satisfy a multi-term query?

use vstd::prelude::*;
use vstd::string::{StrSliceExecFns, StringExecFns};

use crate::model::Story;
use crate::text::{lower_of, lowercase, split_ws, split_whitespace_terms, views_of};

verus! {

/// Whether `needle` occurs contiguously inside `hay`.
pub open spec fn is_substring_of(needle: Seq<char>, hay: Seq<char>) -> bool {
    exists|k: int|
        0 <= k <= hay.len() - needle.len() && #[trigger] hay.subrange(k, k + needle.len())
            == needle
}

/// Substring search: whether `needle`'s characters occur contiguously in
/// `hay`.
pub fn contains_substring(hay: &str, needle: &str) -> (r: bool)
    ensures
        r == is_substring_of(needle@, hay@),
{
    let nlen = needle.unicode_len();
    let hlen = hay.unicode_len();
    if nlen > hlen {
        return false;
    }
    if nlen == 0 {
        proof {
            assert(hay@.subrange(0int, 0int + needle@.len() as int) =~= needle@);
        }
        return true;
    }
    let mut k: usize = 0;
    while k <= hlen - nlen
        invariant
            1 <= nlen <= hlen,
            nlen == needle@.len(),
            hlen == hay@.len(),
            0 <= k <= hlen - nlen + 1,
            forall|j: int|
                0 <= j < k ==> #[trigger] hay@.subrange(j, j + needle@.len()) != needle@,
        decreases hlen - nlen - k + 1,
    {
        let mut m: usize = 0;
        let mut eq = true;
        while eq && m < nlen
            invariant
                nlen == needle@.len(),
                hlen == hay@.len(),
                k + nlen <= hlen,
                0 <= m <= nlen,
                eq ==> forall|t: int| 0 <= t < m ==> hay@[k + t] == needle@[t],
                !eq ==> hay@.subrange(k as int, k + needle@.len()) != needle@,
            decreases nlen - m, (if eq { 1int } else { 0int }),
        {
            if hay.get_char(k + m) != needle.get_char(m) {
                proof {
                    assert(hay@.subrange(k as int, k + needle@.len())[m as int] == hay@[k + m]);
                }
                eq = false;
            } else {
                m = m + 1;
            }
        }
        if eq {
            proof {
                assert(hay@.subrange(k as int, k + needle@.len()) =~= needle@);
            }
            return true;
        }
        k = k + 1;
    }
    false
}

/// The text a story is matched against: the lowercased title, body text (or
/// nothing when absent) and author handle, joined by single spaces.
pub open spec fn spec_haystack(s: Story) -> Seq<char> {
    lower_of(s.title@) + " "@ + (match s.text {
        None => Seq::<char>::empty(),
        Some(t) => lower_of(t@),
    }) + " "@ + lower_of(s.by@)
}

/// Builds the matching haystack of a story.
pub fn build_haystack(story: &Story) -> (r: String)
    ensures
        r@ == spec_haystack(*story),
{
    let mut h = lowercase(story.title.as_str());
    h.append(" ");
    match &story.text {
        Some(t) => {
            let lt = lowercase(t.as_str());
            h.append(lt.as_str());
        },
        None => {},
    }
    h.append(" ");
    let lb = lowercase(story.by.as_str());
    h.append(lb.as_str());
    h
}

/// Whether any of the terms occurs in the haystack: OR semantics over the
/// terms, by deliberate low-precision/high-recall policy.
pub open spec fn spec_any_term_matches(terms: Seq<Seq<char>>, hay: Seq<char>) -> bool {
    exists|i: int| 0 <= i < terms.len() && is_substring_of(terms[i], hay)
}

/// Whether a story satisfies the query terms: at least one term is a
/// substring of the story's haystack.
pub open spec fn spec_story_matches(terms: Seq<Seq<char>>, s: Story) -> bool {
    spec_any_term_matches(terms, spec_haystack(s))
}

/// Decides whether a fetched story's concatenated textual fields satisfy
/// the query terms. Case folding happens when the terms are made
/// (`tokenize_query`) and when the haystack is built; matching itself is
/// plain substring containment.
pub fn story_matches(story: &Story, terms: &Vec<String>) -> (r: bool)
    ensures
        r == spec_story_matches(views_of(terms@), *story),
{
    let hay = build_haystack(story);
    let mut i: usize = 0;
    while i < terms.len()
        invariant
            0 <= i <= terms@.len(),
            hay@ == spec_haystack(*story),
            forall|j: int| 0 <= j < i ==> !is_substring_of(views_of(terms@)[j], hay@),
        decreases terms@.len() - i,
    {
        if contains_substring(hay.as_str(), terms[i].as_str()) {
            proof {
                assert(is_substring_of(views_of(terms@)[i as int], spec_haystack(*story)));
            }
            return true;
        }
        i = i + 1;
    }
    false
}

/// A term found in a piece of text is still found after more text is
/// appended to its right.
pub proof fn lemma_substring_extends_right(needle: Seq<char>, a: Seq<char>, b: Seq<char>)
    requires
        is_substring_of(needle, a),
    ensures
        is_substring_of(needle, a + b),
{
    let k = choose|k: int|
        0 <= k <= a.len() - needle.len() && #[trigger] a.subrange(k, k + needle.len()) == needle;
    assert((a + b).subrange(k, k + needle.len() as int) =~= a.subrange(
        k,
        k + needle.len() as int,
    ));
}

/// A query term that occurs in a story's lowercased title occurs in the
/// story's whole haystack, so the story satisfies the query: a search that
/// examines such a story always finds a match.
pub proof fn lemma_title_match_implies_story_match(terms: Seq<Seq<char>>, i: int, s: Story)
    requires
        0 <= i < terms.len(),
        is_substring_of(terms[i], lower_of(s.title@)),
    ensures
        spec_story_matches(terms, s),
{
    let t = lower_of(s.title@);
    let mid = match s.text {
        None => Seq::<char>::empty(),
        Some(tx) => lower_of(tx@),
    };
    lemma_substring_extends_right(terms[i], t, " "@);
    lemma_substring_extends_right(terms[i], t + " "@, mid);
    lemma_substring_extends_right(terms[i], t + " "@ + mid, " "@);
    lemma_substring_extends_right(terms[i], t + " "@ + mid + " "@, lower_of(s.by@));
    assert(is_substring_of(terms[i], spec_haystack(s)));
}

/// Splits the query on whitespace into lowercase terms, empty terms
/// discarded.
pub fn tokenize_query(query: &str) -> (terms: Vec<String>)
    ensures
        views_of(terms@) == split_ws(lower_of(query@)),
{
    let lowered = lowercase(query);
    split_whitespace_terms(lowered.as_str())
}

} // verus!
