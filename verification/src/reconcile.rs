//! Settling which upstream document an update works on: the one fetched or
//! the cached one, and whether the cache is to be overwritten.

use vstd::prelude::*;
use crate::error::RacerError;
use crate::feed::{Document, DocumentView};
use crate::state::FeedRacer;

verus! {

/// Where the upstream document is to come from.
#[derive(Clone, Copy, Debug, PartialEq, Eq, Structural)]
pub enum RssFile {
    /// Fetch it from its source.
    Download,
    /// Take the cached copy.
    FromStorage,
}

/// What is settled: the document to work on, whether it brought entries the
/// cache did not have, whether the cache is to be overwritten with it, and
/// what went wrong on the way without stopping the update.
#[derive(Debug)]
pub struct Reconciled {
    /// The document that the update works on.
    pub document: Document,
    /// Whether the document has another number of entries than the cache.
    pub had_new_entries: bool,
    /// Whether the document is to be written over the cached copy.
    pub overwrite_cache: bool,
    /// `UpstreamFetchFailed` where a fetch was due and brought nothing, so
    /// that the cached copy stands in.
    pub soft_failure: Option<RacerError>,
}

/// Whether a fetched document counts as changed against the cache: there is
/// no cached copy, or the two differ in their number of entries.
pub open spec fn differs(cached: Option<DocumentView>, fetched: DocumentView) -> bool {
    match cached {
        Some(c) => c.entries.len() != fetched.entries.len(),
        None => fetched.entries.len() > 0,
    }
}

impl RssFile {
    /// What is done in the end: a fetch where there is no cached copy,
    /// whatever was preferred; else what was preferred.
    pub fn functional_mode(preferred: RssFile, has_cached: bool) -> (r: RssFile)
        ensures
            r == (if has_cached {
                preferred
            } else {
                RssFile::Download
            }),
    {
        if has_cached {
            preferred
        } else {
            RssFile::Download
        }
    }

    /// Whether a fetch is to be made.
    pub fn is_download(&self) -> (r: bool)
        ensures
            r == (*self == RssFile::Download),
    {
        match self {
            RssFile::Download => true,
            RssFile::FromStorage => false,
        }
    }
}

/// Which document is settled on.
pub enum Source {
    /// The fetched document.
    Fetched,
    /// The cached copy, as was asked for.
    Cached,
    /// The cached copy, because the fetch that was due brought nothing.
    CachedAfterFailure,
    /// None: there is no cached copy and the fetch brought nothing.
    Neither,
}

/// Which document is settled on. Without a cached copy a fetch is due
/// whatever was preferred. Where a fetch is due, what it brought is taken,
/// and the cached copy where it brought nothing. Where none is due, the
/// cached copy is taken and what may have been fetched is left aside.
pub open spec fn source(preferred: RssFile, has_cached: bool, has_fetched: bool) -> Source {
    if !has_cached {
        if has_fetched {
            Source::Fetched
        } else {
            Source::Neither
        }
    } else if preferred == RssFile::FromStorage {
        Source::Cached
    } else if has_fetched {
        Source::Fetched
    } else {
        Source::CachedAfterFailure
    }
}

impl FeedRacer {
    /// Settles the upstream document. `cached` is the cached copy, `None`
    /// where there is none that can be read; `fetched` is what a fetch
    /// brought, `None` where none was made or it failed. A fetched document
    /// that is taken is to overwrite the cache exactly if it counts as
    /// changed. A failed fetch is made up for by the cached copy and noted;
    /// with neither the update fails with `NotFound`.
    pub fn get_original_rss(
        &self,
        preferred_mode: RssFile,
        cached: Option<Document>,
        fetched: Option<Document>,
    ) -> (r: Result<Reconciled, RacerError>)
        ensures
            match source(preferred_mode, cached.is_some(), fetched.is_some()) {
                Source::Fetched => {
                    &&& r.is_ok()
                    &&& r.unwrap().document == fetched.unwrap()
                    &&& r.unwrap().had_new_entries == differs(
                        match cached {
                            Some(c) => Some(c@),
                            None => None,
                        },
                        fetched.unwrap()@,
                    )
                    &&& r.unwrap().overwrite_cache == r.unwrap().had_new_entries
                    &&& r.unwrap().soft_failure.is_none()
                },
                Source::Cached => {
                    &&& r.is_ok()
                    &&& r.unwrap().document == cached.unwrap()
                    &&& !r.unwrap().had_new_entries
                    &&& !r.unwrap().overwrite_cache
                    &&& r.unwrap().soft_failure.is_none()
                },
                Source::CachedAfterFailure => {
                    &&& r.is_ok()
                    &&& r.unwrap().document == cached.unwrap()
                    &&& !r.unwrap().had_new_entries
                    &&& !r.unwrap().overwrite_cache
                    &&& r.unwrap().soft_failure == Some(RacerError::UpstreamFetchFailed)
                },
                Source::Neither => r.is_err() && r.unwrap_err() == RacerError::NotFound,
            },
    {
        let mode: RssFile = RssFile::functional_mode(preferred_mode, cached.is_some());
        match mode {
            RssFile::FromStorage => match cached {
                Some(c) => Ok(
                    Reconciled {
                        document: c,
                        had_new_entries: false,
                        overwrite_cache: false,
                        soft_failure: None,
                    },
                ),
                None => Err(RacerError::NotFound),
            },
            RssFile::Download => match fetched {
                Some(f) => {
                    let changed: bool = match &cached {
                        Some(c) => c.entries.len() != f.entries.len(),
                        None => f.entries.len() > 0,
                    };
                    Ok(
                        Reconciled {
                            document: f,
                            had_new_entries: changed,
                            overwrite_cache: changed,
                            soft_failure: None,
                        },
                    )
                },
                None => match cached {
                    Some(c) => Ok(
                        Reconciled {
                            document: c,
                            had_new_entries: false,
                            overwrite_cache: false,
                            soft_failure: Some(RacerError::UpstreamFetchFailed),
                        },
                    ),
                    None => Err(RacerError::NotFound),
                },
            },
        }
    }
}

} // verus!
