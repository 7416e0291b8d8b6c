//! Updating one feed from what was read for it, and summing up a pass over
//! all feeds.

use vstd::prelude::*;
use crate::error::RacerError;
use crate::feed::{Document, DocumentView};
use crate::reconcile::{differs, source, Reconciled, RssFile, Source};
use crate::state::{FeedRacer, RacerView};
use crate::update::updated;

verus! {

/// How many feeds are updated at the same time in a pass over all feeds.
pub const PARALLEL_UPDATES: usize = 5;

/// What one update of a feed gives back.
#[derive(Debug)]
pub struct Updated {
    /// The record, with its schedule made anew.
    pub racer: FeedRacer,
    /// The derived document, to be handed to listeners.
    pub document: Document,
    /// The upstream document that the update worked on.
    pub upstream: Document,
    /// Whether the upstream document is to be written over the cached copy.
    pub overwrite_cache: bool,
    /// Whether the upstream document brought entries the cache did not have.
    pub had_new_entries: bool,
    /// `UpstreamFetchFailed` where a fetch was due and brought nothing, so
    /// that the cached copy stood in.
    pub soft_failure: Option<RacerError>,
}

/// The sum of a pass over all feeds.
#[derive(Clone, Copy, Debug, PartialEq, Eq, Structural)]
pub struct UpdateMetadata {
    /// How many feeds the pass went through, updated or not.
    pub num_updated: u64,
    /// How long the pass took, in milliseconds.
    pub time: u64,
    /// How many feeds had new entries.
    pub num_with_new_eps: u64,
}

/// The view of a document that may be absent.
pub open spec fn opt_document(document: Option<Document>) -> Option<DocumentView> {
    match document {
        Some(d) => Some(d@),
        None => None,
    }
}

/// The upstream document that an update works on, `None` where there is
/// neither a cached copy nor a fetched document.
pub open spec fn settled(
    preferred: RssFile,
    cached: Option<DocumentView>,
    fetched: Option<DocumentView>,
) -> Option<DocumentView> {
    match source(preferred, cached.is_some(), fetched.is_some()) {
        Source::Fetched => fetched,
        Source::Cached => cached,
        Source::CachedAfterFailure => cached,
        Source::Neither => None,
    }
}

/// What updating one feed gives: `NotFound` without a record, `IOFailure`
/// for a record that is not consistent, `NotFound` without any upstream
/// document, else what the update of the record gives.
pub open spec fn feed_updated(
    racer: Option<RacerView>,
    preferred: RssFile,
    cached: Option<DocumentView>,
    fetched: Option<DocumentView>,
    now: i64,
) -> Result<(RacerView, DocumentView), RacerError> {
    match racer {
        None => Err(RacerError::NotFound),
        Some(s) => if !s.wf() {
            Err(RacerError::IOFailure)
        } else {
            match settled(preferred, cached, fetched) {
                None => Err(RacerError::NotFound),
                Some(doc) => updated(s, doc, now),
            }
        },
    }
}

/// Updates one feed from what was read for it: its record, the cached copy
/// of the upstream document and what a fetch brought, each `None` where
/// there is none.
pub fn update_racer_at_path(
    racer: Option<FeedRacer>,
    preferred_mode: RssFile,
    cached: Option<Document>,
    fetched: Option<Document>,
    now: i64,
) -> (r: Result<Updated, RacerError>)
    ensures
        match feed_updated(
            match racer {
                Some(s) => Some(s@),
                None => None,
            },
            preferred_mode,
            opt_document(cached),
            opt_document(fetched),
            now,
        ) {
            Ok((record, document)) => {
                &&& r.is_ok()
                &&& r.unwrap().racer@ == record
                &&& r.unwrap().racer.wf()
                &&& r.unwrap().document@ == document
                &&& Some(r.unwrap().upstream@) == settled(
                    preferred_mode,
                    opt_document(cached),
                    opt_document(fetched),
                )
                &&& r.unwrap().had_new_entries == (source(
                    preferred_mode,
                    cached.is_some(),
                    fetched.is_some(),
                ) == Source::Fetched && differs(opt_document(cached), fetched.unwrap()@))
                &&& r.unwrap().overwrite_cache == r.unwrap().had_new_entries
                &&& r.unwrap().soft_failure == (if source(
                    preferred_mode,
                    cached.is_some(),
                    fetched.is_some(),
                ) == Source::CachedAfterFailure {
                    Some(RacerError::UpstreamFetchFailed)
                } else {
                    None::<RacerError>
                })
            },
            Err(e) => r.is_err() && r.unwrap_err() == e,
        },
{
    let mut racer: FeedRacer = match racer {
        Some(s) => s,
        None => {
            return Err(RacerError::NotFound);
        },
    };
    if !racer.is_well_formed() {
        return Err(RacerError::IOFailure);
    }
    let settled: Reconciled = match racer.get_original_rss(preferred_mode, cached, fetched) {
        Ok(s) => s,
        Err(e) => {
            return Err(e);
        },
    };
    let document: Document = match racer.update(&settled.document, now) {
        Ok(d) => d,
        Err(e) => {
            return Err(e);
        },
    };
    Ok(
        Updated {
            racer,
            document,
            upstream: settled.document,
            overwrite_cache: settled.overwrite_cache,
            had_new_entries: settled.had_new_entries,
            soft_failure: settled.soft_failure,
        },
    )
}

/// How many of the outcomes report new entries.
pub open spec fn count_new(outcomes: Seq<Result<bool, RacerError>>) -> nat
    decreases outcomes.len(),
{
    if outcomes.len() == 0 {
        0
    } else {
        count_new(outcomes.drop_last()) + if outcomes.last() == Ok::<bool, RacerError>(true) {
            1nat
        } else {
            0nat
        }
    }
}

/// Sums up a pass over all feeds from the outcome of each update: every feed
/// counts as gone through, a failed one too, and the feeds with new entries
/// are counted among them.
pub fn update_all(outcomes: &Vec<Result<bool, RacerError>>, time: u64) -> (r: UpdateMetadata)
    ensures
        r.num_updated == outcomes.len(),
        r.num_with_new_eps == count_new(outcomes@),
        r.time == time,
{
    let mut counter: u64 = 0;
    let mut with_new: u64 = 0;
    let mut i: usize = 0;
    while i < outcomes.len()
        invariant
            i <= outcomes.len(),
            counter == i,
            with_new == count_new(outcomes@.take(i as int)),
            with_new <= i,
        decreases outcomes.len() - i,
    {
        proof {
            assert(outcomes@.take(i + 1).drop_last() =~= outcomes@.take(i as int));
            assert(outcomes@.take(i + 1).last() == outcomes[i as int]);
        }
        match outcomes[i] {
            Ok(true) => {
                with_new = with_new + 1;
            },
            _ => {},
        }
        counter = counter + 1;
        i = i + 1;
    }
    assert(outcomes@.take(i as int) =~= outcomes@);
    UpdateMetadata { num_updated: counter, time, num_with_new_eps: with_new }
}

} // verus!
