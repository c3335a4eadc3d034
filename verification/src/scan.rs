//! The discussion aggregator: a state machine that drives the bounded
//! fetch/filter/aggregate pipeline.
//!
//! The caller owns the transport. It resolves the category, fetches the id
//! list, and then drives a [`Scan`]: as long as [`Scan::next_story_id`]
//! yields an id, the caller fetches that item and reports the outcome
//! through [`Scan::offer_story`] (`None` for a failed fetch or decode, which
//! skips the id without aborting the scan). When a story matches,
//! `offer_story` answers with the comment ids to fetch; the caller reports
//! those outcomes through [`Scan::attach_comments`]. [`Scan::finish`] closes
//! the scan.

use vstd::prelude::*;

use crate::COMMENT_SAMPLE_LIMIT;
use crate::MAX_STORIES_TO_SEARCH;
use crate::errors::SearchError;
use crate::matcher::{spec_story_matches, story_matches, tokenize_query};
use crate::model::{Comment, Hit, SearchRequest, Story, spec_effective_cap, spec_kid_ids};
use crate::text::{lower_of, split_ws, views_of};

verus! {

/// The comment ids sampled for a matching story: the first up-to-three
/// entries of its child list, in list order.
pub open spec fn spec_comment_ids(s: Story) -> Seq<u32> {
    let kids = spec_kid_ids(s);
    if kids.len() <= COMMENT_SAMPLE_LIMIT as nat {
        kids
    } else {
        kids.take(COMMENT_SAMPLE_LIMIT as int)
    }
}

/// The present values of a sequence of fetch outcomes, in order: failed
/// fetches are omitted, not replaced.
pub open spec fn somes<T>(s: Seq<Option<T>>) -> Seq<T>
    decreases s.len(),
{
    if s.len() == 0 {
        Seq::<T>::empty()
    } else {
        match s.last() {
            None => somes(s.drop_last()),
            Some(x) => somes(s.drop_last()).push(x),
        }
    }
}

/// How many of the fetch outcomes are present.
pub open spec fn count_somes<T>(s: Seq<Option<T>>) -> nat
    decreases s.len(),
{
    if s.len() == 0 {
        0
    } else {
        count_somes(s.drop_last()) + (if s.last() is Some {
            1nat
        } else {
            0nat
        })
    }
}

/// The attached comments are exactly as many as the fetches that succeeded.
pub proof fn lemma_comment_sample_count<T>(s: Seq<Option<T>>)
    ensures
        somes(s).len() == count_somes(s),
        count_somes(s) <= s.len(),
    decreases s.len(),
{
    if s.len() > 0 {
        lemma_comment_sample_count(s.drop_last());
    }
}

/// A matching story whose comment sample is still being fetched.
pub struct Pending {
    pub story: Story,
    pub kid_count: usize,
}

/// One search invocation's scan over a category's id list.
pub struct Scan {
    pub ids: Vec<u32>,
    pub terms: Vec<String>,
    pub max_results: usize,
    pub examined: usize,
    pub results: Vec<Hit>,
    pub pending: Option<Pending>,
}

impl Scan {
    /// Well-formedness: the dual bound (result cap and scan ceiling) holds,
    /// every accumulated story matches the query, and every attached comment
    /// sample respects the per-story limit.
    pub open spec fn wf(self) -> bool {
        &&& self.examined <= MAX_STORIES_TO_SEARCH
        &&& self.examined <= self.ids@.len()
        &&& self.results@.len() <= self.max_results as nat
        &&& forall|i: int|
            0 <= i < self.results@.len() ==> spec_story_matches(
                views_of(self.terms@),
                (#[trigger] self.results@[i]).story,
            )
        &&& forall|i: int|
            0 <= i < self.results@.len() ==> (#[trigger] self.results@[i]).comments@.len()
                <= COMMENT_SAMPLE_LIMIT as nat
        &&& match self.pending {
            None => true,
            Some(p) => {
                &&& spec_story_matches(views_of(self.terms@), p.story)
                &&& p.kid_count as nat == spec_comment_ids(p.story).len()
                &&& self.results@.len() < self.max_results as nat
            },
        }
    }

    /// Whether the scan still wants a story fetched: no comment sample is
    /// outstanding, the ceiling and the id list are not exhausted, and the
    /// result cap is not reached.
    pub open spec fn wants_story(self) -> bool {
        &&& self.pending is None
        &&& self.examined < MAX_STORIES_TO_SEARCH
        &&& self.examined < self.ids@.len()
        &&& self.results@.len() < self.max_results as nat
    }

    /// Opens a scan over a category's ordered id list. An empty list is
    /// itself a no-results condition, reported before any item fetch.
    pub fn new(ids: Vec<u32>, terms: Vec<String>, max_results: usize) -> (r: Result<
        Scan,
        SearchError,
    >)
        ensures
            ids@.len() == 0 <==> r == Err::<Scan, SearchError>(SearchError::NoResults),
            ids@.len() > 0 ==> r is Ok && {
                let s = r->Ok_0;
                &&& s.wf()
                &&& s.ids == ids
                &&& s.terms == terms
                &&& s.max_results == max_results
                &&& s.examined == 0
                &&& s.results@.len() == 0
                &&& s.pending is None
            },
    {
        if ids.len() == 0 {
            return Err(SearchError::NoResults);
        }
        Ok(
            Scan {
                ids,
                terms,
                max_results,
                examined: 0,
                results: Vec::new(),
                pending: None,
            },
        )
    }

    /// Opens a scan for a whole request: the query is tokenized into
    /// lowercase terms and the result cap defaulted, then the scan starts
    /// over the id list as [`Scan::new`] says.
    pub fn for_request(req: &SearchRequest, ids: Vec<u32>) -> (r: Result<Scan, SearchError>)
        ensures
            ids@.len() == 0 <==> r == Err::<Scan, SearchError>(SearchError::NoResults),
            ids@.len() > 0 ==> r is Ok && {
                let s = r->Ok_0;
                &&& s.wf()
                &&& s.ids == ids
                &&& views_of(s.terms@) == split_ws(lower_of(req.query@))
                &&& s.max_results as nat == spec_effective_cap(req.max_results)
                &&& s.examined == 0
                &&& s.results@.len() == 0
                &&& s.pending is None
            },
    {
        let terms = tokenize_query(req.query.as_str());
        Scan::new(ids, terms, req.effective_cap())
    }

    /// The next candidate id to fetch, in id-list order, or `None` once the
    /// scan is over.
    pub fn next_story_id(&self) -> (r: Option<u32>)
        ensures
            r is Some <==> self.wants_story(),
            r is Some ==> r->0 == self.ids@[self.examined as int],
    {
        if self.pending.is_none() && self.examined < MAX_STORIES_TO_SEARCH && self.examined
            < self.ids.len() && self.results.len() < self.max_results {
            Some(self.ids[self.examined])
        } else {
            None
        }
    }

    /// Reports the outcome of fetching the current candidate id. A failed
    /// fetch (`None`) is skipped: a single bad item never aborts the scan. A
    /// story that matches the query becomes pending and its comment-id
    /// sample is returned for the caller to fetch; any other story is
    /// passed over. Either way one more id counts as examined.
    pub fn offer_story(&mut self, story: Option<Story>) -> (kid_request: Option<Vec<u32>>)
        requires
            old(self).wf(),
            old(self).wants_story(),
        ensures
            final(self).wf(),
            final(self).ids == old(self).ids,
            final(self).terms == old(self).terms,
            final(self).max_results == old(self).max_results,
            final(self).examined == old(self).examined + 1,
            final(self).results == old(self).results,
            match story {
                None => final(self).pending is None && kid_request is None,
                Some(s) => if spec_story_matches(views_of(old(self).terms@), s) {
                    &&& kid_request is Some
                    &&& kid_request->0@ == spec_comment_ids(s)
                    &&& final(self).pending is Some
                    &&& final(self).pending->0.story == s
                    &&& final(self).pending->0.kid_count as nat == spec_comment_ids(s).len()
                } else {
                    final(self).pending is None && kid_request is None
                },
            },
    {
        self.examined = self.examined + 1;
        match story {
            None => None,
            Some(s) => {
                if story_matches(&s, &self.terms) {
                    let kid_ids = comment_ids(&s);
                    let kid_count = kid_ids.len();
                    self.pending = Some(Pending { story: s, kid_count });
                    Some(kid_ids)
                } else {
                    None
                }
            },
        }
    }

    /// Attaches the pending story's fetched comment sample and appends the
    /// finished entry to the results, in discovery order. `fetched` holds
    /// one outcome per requested comment id, in request order; failures are
    /// dropped, not replaced.
    pub fn attach_comments(&mut self, fetched: Vec<Option<Comment>>)
        requires
            old(self).wf(),
            old(self).pending is Some,
            fetched@.len() == old(self).pending->0.kid_count,
        ensures
            final(self).wf(),
            final(self).ids == old(self).ids,
            final(self).terms == old(self).terms,
            final(self).max_results == old(self).max_results,
            final(self).examined == old(self).examined,
            final(self).pending is None,
            final(self).results@.len() == old(self).results@.len() + 1,
            final(self).results@.subrange(0, old(self).results@.len() as int) == old(
                self,
            ).results@,
            final(self).results@.last().story == old(self).pending->0.story,
            final(self).results@.last().comments@ == somes(fetched@),
    {
        let p = self.pending.take().unwrap();
        proof {
            lemma_comment_sample_count(fetched@);
        }
        let mut remaining = fetched;
        let ghost all: Seq<Option<Comment>> = remaining@;
        let mut comments: Vec<Comment> = Vec::new();
        let ghost mut done: int = 0;
        while remaining.len() > 0
            invariant
                0 <= done <= all.len(),
                remaining@ =~= all.skip(done),
                comments@ =~= somes(all.take(done)),
            decreases remaining@.len(),
        {
            proof {
                assert(all.take(done + 1).drop_last() =~= all.take(done));
                assert(all.take(done + 1).last() == all[done]);
            }
            let item = remaining.remove(0);
            match item {
                Some(c) => comments.push(c),
                None => {},
            }
            proof {
                done = done + 1;
            }
        }
        proof {
            assert(all.take(done) =~= all);
            lemma_comment_sample_count(all);
        }
        let hit = Hit { story: p.story, comments };
        let ghost before = self.results@;
        self.results.push(hit);
        proof {
            assert(self.results@.subrange(0, before.len() as int) =~= before);
            assert forall|i: int| 0 <= i < self.results@.len() implies spec_story_matches(
                views_of(self.terms@),
                (#[trigger] self.results@[i]).story,
            ) && (#[trigger] self.results@[i]).comments@.len() <= COMMENT_SAMPLE_LIMIT as nat by {
                if i < before.len() {
                    assert(self.results@[i] == before[i]);
                }
            }
        }
    }

    /// Closes a completed scan: a non-empty accumulation is the result, an
    /// empty one is the distinguished `NoResults` outcome.
    pub fn finish(self) -> (r: Result<Vec<Hit>, SearchError>)
        requires
            self.wf(),
            !self.wants_story(),
            self.pending is None,
        ensures
            self.results@.len() == 0 <==> r == Err::<Vec<Hit>, SearchError>(SearchError::NoResults),
            self.results@.len() > 0 ==> r is Ok && r->Ok_0 == self.results,
    {
        if self.results.len() == 0 {
            Err(SearchError::NoResults)
        } else {
            Ok(self.results)
        }
    }
}

/// The first up-to-three child-comment ids of a story, in list order.
pub fn comment_ids(story: &Story) -> (r: Vec<u32>)
    ensures
        r@ == spec_comment_ids(*story),
{
    let mut out: Vec<u32> = Vec::new();
    match &story.kids {
        None => {
            proof {
                assert(out@ =~= spec_comment_ids(*story));
            }
        },
        Some(kids) => {
            let lim = if kids.len() <= COMMENT_SAMPLE_LIMIT {
                kids.len()
            } else {
                COMMENT_SAMPLE_LIMIT
            };
            let mut t: usize = 0;
            while t < lim
                invariant
                    0 <= t <= lim,
                    lim <= kids@.len(),
                    story.kids == Some(*kids),
                    out@ =~= kids@.take(t as int),
                decreases lim - t,
            {
                out.push(kids[t]);
                proof {
                    assert(out@ =~= kids@.take(t as int + 1));
                }
                t = t + 1;
            }
            proof {
                assert(out@ =~= spec_comment_ids(*story));
            }
        },
    }
    out
}

/// Bounds law: a well-formed scan never holds more results than its cap and
/// never examines more ids than the scan ceiling.
pub proof fn lemma_scan_bounds(s: Scan)
    requires
        s.wf(),
    ensures
        s.results@.len() <= s.max_results as nat,
        s.examined <= MAX_STORIES_TO_SEARCH,
{
}

/// Match law: every accumulated result of a well-formed scan satisfies the
/// query, and carries at most the per-story comment sample.
pub proof fn lemma_results_match(s: Scan, i: int)
    requires
        s.wf(),
        0 <= i < s.results@.len(),
    ensures
        spec_story_matches(views_of(s.terms@), s.results@[i].story),
        s.results@[i].comments@.len() <= COMMENT_SAMPLE_LIMIT as nat,
{
}

} // verus!
