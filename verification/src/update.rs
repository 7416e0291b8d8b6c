//! Bringing a feed up to date: the upstream entries are dated and put in
//! order, the schedule is made anew, and the derived document is written
//! with the entries that are due.

use vstd::prelude::*;
use crate::error::RacerError;
use crate::feed::{copy_links, entry_views, Document, DocumentView, Entry, EntryView};
use crate::intake::{arrange_entries, arrange_instants, arranged_entries, dated, lemma_dated_each, read_instants};
use crate::order::{arranged, ascending, ascending_order};
use crate::pace::{derived, Pace};
use crate::rewrite::{
    correct_known_rss_issues,
    corrected,
    derived_description,
    derived_title,
    make_description,
    make_status_line,
    make_title,
    rewrite_entry,
    rewritten_entry,
    status_line,
};
use crate::schedule::{all_derivable, episode_views, plan, planned, EpisodeView, RacerEpisode};
use crate::state::{FeedRacer, RacerView};
use crate::time::{instant_in_range, is_instant};

verus! {

/// The release instant of the first episode that is withheld at `now`, where
/// one is.
pub open spec fn next_release(s: RacerView, now: i64) -> Option<i64> {
    if s.due(now) < s.release_dates.len() {
        Some(s.release_dates[s.due(now) as int].date)
    } else {
        None
    }
}

/// The derived document of a feed whose schedule was made from `entries`,
/// which are in ascending order and were first published at `originals`: the
/// channel with its title and description rewritten and the due entries,
/// each as it is released, and all of it with the known flaws mended.
pub open spec fn derived_document(
    s: RacerView,
    doc: DocumentView,
    entries: Seq<EntryView>,
    originals: Seq<i64>,
    now: i64,
) -> DocumentView {
    corrected(
        DocumentView {
            title: derived_title(doc.title),
            description: derived_description(
                doc.description,
                status_line(s.paused(), next_release(s, now), s.uuid),
            ),
            image_title: match doc.image_title {
                Some(t) => Some(derived_title(t)),
                None => None,
            },
            directory_block: doc.directory_block,
            links: doc.links,
            entries: Seq::new(
                s.due(now),
                |i: int| rewritten_entry(entries[i], originals[i], s.release_dates[i].date, s.uuid),
            ),
        },
        s.subscribe_url,
    )
}

/// The record with its schedule made anew from `entries`.
pub open spec fn rescheduled(s: RacerView, entries: Seq<EntryView>, originals: Seq<i64>) -> RacerView {
    RacerView {
        release_dates: planned(entries, originals, s.first_pubdate, s.anchor_date, s.effective_pace()),
        ..s
    }
}

/// What an update at `now` makes of a record and an upstream document: the
/// record with its new schedule and the derived document. It fails, and
/// changes nothing, where `now` or a derived instant is outside the range the
/// library works on (`OutOfRange`), or an entry cannot be dated.
pub open spec fn updated(s: RacerView, doc: DocumentView, now: i64) -> Result<
    (RacerView, DocumentView),
    RacerError,
> {
    if !is_instant(now as int) {
        Err(RacerError::OutOfRange)
    } else {
        match dated(doc.entries) {
            Err(e) => Err(e),
            Ok(instants) => {
                let order: Seq<usize> = ascending(instants);
                let entries: Seq<EntryView> = arranged_entries(doc.entries, order);
                let originals: Seq<i64> = arranged(instants, order);
                if all_derivable(originals, s.first_pubdate, s.anchor_date, s.effective_pace()) {
                    let after: RacerView = rescheduled(s, entries, originals);
                    Ok((after, derived_document(after, doc, entries, originals, now)))
                } else {
                    Err(RacerError::OutOfRange)
                }
            },
        }
    }
}

/// The due entries, rewritten.
fn rewrite_due(
    entries: &Vec<Entry>,
    originals: &Vec<i64>,
    episodes: &Vec<RacerEpisode>,
    due: usize,
    uuid: &str,
) -> (r: Vec<Entry>)
    requires
        due <= entries.len(),
        entries.len() == originals.len(),
        entries.len() == episodes.len(),
        forall|i: int| 0 <= i < originals.len() ==> is_instant(#[trigger] originals[i] as int),
        forall|i: int| 0 <= i < episodes.len() ==> is_instant((#[trigger] episodes[i]).date as int),
    ensures
        entry_views(r@) == Seq::new(
            due as nat,
            |i: int| rewritten_entry(entries[i]@, originals[i], episodes[i].date, uuid@),
        ),
{
    let mut out: Vec<Entry> = Vec::new();
    let mut i: usize = 0;
    while i < due
        invariant
            i <= due,
            due <= entries.len(),
            entries.len() == originals.len(),
            entries.len() == episodes.len(),
            forall|k: int| 0 <= k < originals.len() ==> is_instant(#[trigger] originals[k] as int),
            forall|k: int| 0 <= k < episodes.len() ==> is_instant((#[trigger] episodes[k]).date as int),
            out.len() == i,
            forall|k: int|
                0 <= k < i ==> (#[trigger] out[k])@ == rewritten_entry(
                    entries[k]@,
                    originals[k],
                    episodes[k].date,
                    uuid@,
                ),
        decreases due - i,
    {
        out.push(rewrite_entry(&entries[i], originals[i], episodes[i].date, uuid));
        i = i + 1;
    }
    assert(entry_views(out@) =~= Seq::new(
        due as nat,
        |i: int| rewritten_entry(entries[i]@, originals[i], episodes[i].date, uuid@),
    ));
    out
}

impl FeedRacer {
    /// Brings the feed up to date at `now`: makes the schedule anew from the
    /// upstream document and returns the derived document. On failure the
    /// record is as it was.
    pub fn update(&mut self, upstream: &Document, now: i64) -> (r: Result<Document, RacerError>)
        requires
            old(self).wf(),
        ensures
            final(self).wf(),
            match updated(old(self)@, upstream@, now) {
                Ok((after, document)) => r.is_ok() && r.unwrap()@ == document && final(self)@ == after,
                Err(e) => r.is_err() && r.unwrap_err() == e && final(self)@ == old(self)@,
            },
    {
        if !instant_in_range(now) {
            return Err(RacerError::OutOfRange);
        }
        let instants: Vec<i64> = match read_instants(&upstream.entries) {
            Ok(v) => v,
            Err(e) => {
                return Err(e);
            },
        };
        proof {
            lemma_dated_each(entry_views(upstream.entries@));
        }
        let order: Vec<usize> = ascending_order(&instants);
        let entries: Vec<Entry> = arrange_entries(&upstream.entries, &order);
        let originals: Vec<i64> = arrange_instants(&instants, &order);
        assert(entry_views(entries@).len() == order@.len());
        assert(originals@.len() == order@.len());
        let pace: Pace = self.effective_pace();
        let episodes: Vec<RacerEpisode> = match plan(
            &entries,
            &originals,
            self.first_pubdate,
            self.anchor_date,
            pace,
        ) {
            Ok(v) => v,
            Err(e) => {
                return Err(e);
            },
        };
        proof {
            let plan_view: Seq<EpisodeView> = planned(
                entry_views(entries@),
                originals@,
                self.first_pubdate,
                self.anchor_date,
                pace,
            );
            assert forall|i: int| 0 <= i < episodes.len() implies {
                &&& (#[trigger] episodes[i])@.ep_num == i + 1
                &&& is_instant(episodes[i].date as int)
            } by {
                assert(episode_views(episodes@)[i] == episodes[i]@);
                assert(plan_view[i].date == episodes[i].date);
                assert(is_instant(
                    derived(
                        originals@[i] as int,
                        self.first_pubdate as int,
                        self.anchor_date as int,
                        pace,
                    ),
                ));
            }
        }
        self.release_dates = episodes;
        let due: usize = self.get_num_to_publish(now);
        let next: Option<i64> = if due < self.release_dates.len() {
            Some(self.release_dates[due].date)
        } else {
            None
        };
        let status: String = make_status_line(self.pause_date.is_some(), next, self.uuid.as_str());
        let rewritten: Vec<Entry> = rewrite_due(
            &entries,
            &originals,
            &self.release_dates,
            due,
            self.uuid.as_str(),
        );
        let mut document: Document = Document {
            title: make_title(upstream.title.as_str()),
            description: make_description(upstream.description.as_str(), status.as_str()),
            image_title: match &upstream.image_title {
                Some(t) => Some(make_title(t.as_str())),
                None => None,
            },
            directory_block: upstream.directory_block,
            links: copy_links(&upstream.links),
            entries: rewritten,
        };
        let ghost released: DocumentView = document@;
        correct_known_rss_issues(&mut document, self.subscribe_url.as_str());
        proof {
            let after: RacerView = self@;
            let ghost_entries: Seq<EntryView> = arranged_entries(entry_views(upstream.entries@), order@);
            assert(after == rescheduled(old(self)@, ghost_entries, originals@));
            assert(released.entries =~= Seq::new(
                after.due(now),
                |i: int|
                    rewritten_entry(
                        ghost_entries[i],
                        originals@[i],
                        after.release_dates[i].date,
                        after.uuid,
                    ),
            ));
        }
        Ok(document)
    }
}

/// Updating twice gives what updating once gives: with the same upstream
/// document and at the same instant, the second update leaves the record as
/// the first left it and returns the same derived document.
pub proof fn lemma_update_idempotent(s: RacerView, doc: DocumentView, now: i64)
    requires
        updated(s, doc, now).is_ok(),
    ensures
        updated(updated(s, doc, now).unwrap().0, doc, now) == updated(s, doc, now),
{
    let first: (RacerView, DocumentView) = updated(s, doc, now).unwrap();
    let instants: Seq<i64> = dated(doc.entries).unwrap();
    let order: Seq<usize> = ascending(instants);
    let entries: Seq<EntryView> = arranged_entries(doc.entries, order);
    let originals: Seq<i64> = arranged(instants, order);
    assert(first.0.effective_pace() == s.effective_pace());
    assert(rescheduled(first.0, entries, originals) == first.0);
}

/// When an update succeeds: exactly where `now` is an instant the library
/// works on, every entry of the document can be dated, and every derived
/// release instant is one the library works on.
pub proof fn lemma_update_succeeds_when(s: RacerView, doc: DocumentView, now: i64)
    ensures
        updated(s, doc, now).is_ok() <==> {
            &&& is_instant(now as int)
            &&& dated(doc.entries).is_ok()
            &&& all_derivable(
                arranged(dated(doc.entries).unwrap(), ascending(dated(doc.entries).unwrap())),
                s.first_pubdate,
                s.anchor_date,
                s.effective_pace(),
            )
        },
{
}

/// An update changes the schedule and nothing else of the record.
pub proof fn lemma_update_keeps_identity(s: RacerView, doc: DocumentView, now: i64)
    requires
        updated(s, doc, now).is_ok(),
    ensures
        updated(s, doc, now).unwrap().0 == (RacerView {
            release_dates: updated(s, doc, now).unwrap().0.release_dates,
            ..s
        }),
{
}

/// After an update the schedule holds one episode for every entry of the
/// upstream document.
pub proof fn lemma_update_counts(s: RacerView, doc: DocumentView, now: i64)
    requires
        doc.entries.len() <= usize::MAX,
        updated(s, doc, now).is_ok(),
    ensures
        updated(s, doc, now).unwrap().0.release_dates.len() == doc.entries.len(),
        updated(s, doc, now).unwrap().1.entries.len() <= doc.entries.len(),
{
    lemma_dated_each(doc.entries);
    let instants: Seq<i64> = dated(doc.entries).unwrap();
    crate::order::lemma_ascending_exists(instants);
    let after: RacerView = updated(s, doc, now).unwrap().0;
    crate::schedule::lemma_due_count_bound(crate::schedule::release_instants(after.release_dates), after.clock(now));
}

} // verus!
