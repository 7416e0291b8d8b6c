//! What holds of the operations taken together.

use vstd::prelude::*;
use crate::arith::{ceil_div, floor_div, lemma_div_bounds};
use crate::batch::{feed_updated, settled};
use crate::control::{
    anchored,
    pause_candidate,
    paused_at,
    published,
    repace_candidate,
    repaced,
    repaced_anchor,
    resume_candidate,
    resumed_at,
    slid,
    wait_of,
};
use crate::error::{failure, RacerError};
use crate::feed::{DocumentView, EntryView};
use crate::intake::{arranged_entries, dated, lemma_dated_each};
use crate::order::{arranged, ascending, is_ascending, lemma_arranged_ascends, lemma_ascending_exists};
use crate::pace::{derived, Pace};
use crate::reconcile::{differs, source, RssFile, Source};
use crate::schedule::{
    all_derivable,
    due_count,
    lemma_due_is_prefix,
    lemma_planned_ascends,
    release_instants,
};
use crate::state::RacerView;
use crate::time::is_instant;
use crate::update::{lemma_update_counts, lemma_update_idempotent, rescheduled, updated};

verus! {

/// A change of pace takes nothing back: an entry whose derived instant was
/// before `clock` at the old pace has a derived instant before `clock` at
/// the new pace, once the anchor is moved for the change.
pub proof fn lemma_repace_keeps_released(
    original: int,
    reference: int,
    anchor: i64,
    clock: i64,
    old: Pace,
    new: Pace,
)
    requires
        old.is_positive(),
        new.is_positive(),
        derived(original, reference, anchor as int, old) < clock,
    ensures
        derived(original, reference, repaced_anchor(anchor, clock, old, new), new) < clock,
{
    let e: int = original - reference;
    let gone: int = clock - anchor;
    let a: int = old.num as int;
    let b: int = old.den as int;
    let c: int = new.num as int;
    let d: int = new.den as int;
    let before: int = floor_div(e * b, a);
    let after: int = floor_div(e * d, c);
    let moved: int = ceil_div(gone * (a * d), b * c);
    assert(b * c > 0) by (nonlinear_arith)
        requires
            b > 0,
            c > 0,
    ;
    lemma_div_bounds(e * b, a);
    lemma_div_bounds(e * d, c);
    lemma_div_bounds(gone * (a * d), b * c);
    assert(before + 1 <= gone);
    assert(e * b < gone * a) by (nonlinear_arith)
        requires
            e * b < (before + 1) * a,
            before + 1 <= gone,
            a > 0,
    ;
    assert(after * (b * c) < moved * (b * c)) by (nonlinear_arith)
        requires
            after * c <= e * d,
            e * b < gone * a,
            gone * (a * d) <= moved * (b * c),
            b > 0,
            c > 0,
            d > 0,
    ;
    assert(after < moved) by (nonlinear_arith)
        requires
            after * (b * c) < moved * (b * c),
            b * c > 0,
    ;
}

/// Where every instant of one list that is before `at` has its counterpart
/// in another list before `at` too, the other list has no fewer due.
pub proof fn lemma_due_count_follows(first: Seq<i64>, second: Seq<i64>, at: i64)
    requires
        first.len() == second.len(),
        forall|i: int| 0 <= i < first.len() && first[i] < at ==> second[i] < at,
    ensures
        due_count(first, at) <= due_count(second, at),
    decreases first.len(),
{
    if first.len() > 0 {
        assert forall|i: int| 0 <= i < first.drop_last().len() && first.drop_last()[i] < at implies second.drop_last()[i]
            < at by {
            assert(first.drop_last()[i] == first[i]);
            assert(second.drop_last()[i] == second[i]);
        }
        lemma_due_count_follows(first.drop_last(), second.drop_last(), at);
        assert(first.last() == first[first.len() - 1]);
        assert(second.last() == second[second.len() - 1]);
    }
}

/// A change of pace un-publishes nothing: set against the feed brought up to
/// date at the old pace, every episode that was due is due at the new pace,
/// and so no fewer episodes are.
pub proof fn lemma_set_rate_keeps_due(s: RacerView, new: Pace, doc: DocumentView, now: i64)
    requires
        s.wf(),
        updated(s, doc, now).is_ok(),
        repaced(s, new, doc, now).is_ok(),
    ensures
        updated(s, doc, now).unwrap().0.release_dates.len() == repaced(
            s,
            new,
            doc,
            now,
        ).unwrap().0.release_dates.len(),
        forall|i: int|
            0 <= i < updated(s, doc, now).unwrap().0.release_dates.len() && (#[trigger] updated(
                s,
                doc,
                now,
            ).unwrap().0.release_dates[i]).date < s.clock(now) ==> repaced(
                s,
                new,
                doc,
                now,
            ).unwrap().0.release_dates[i].date < s.clock(now),
        updated(s, doc, now).unwrap().0.due(now) <= repaced(s, new, doc, now).unwrap().0.due(now),
{
    let kept: RacerView = updated(s, doc, now).unwrap().0;
    let changed: RacerView = repaced(s, new, doc, now).unwrap().0;
    let candidate: RacerView = repace_candidate(s, new, now);
    let instants: Seq<i64> = dated(doc.entries).unwrap();
    let order: Seq<usize> = ascending(instants);
    let entries: Seq<EntryView> = arranged_entries(doc.entries, order);
    let originals: Seq<i64> = arranged(instants, order);
    let clock: i64 = s.clock(now);
    assert(candidate.effective_pace() == new);
    assert(candidate.clock(now) == clock);
    assert(kept == rescheduled(s, entries, originals));
    assert(changed == rescheduled(candidate, entries, originals));
    assert forall|i: int| 0 <= i < kept.release_dates.len() && (#[trigger] kept.release_dates[i]).date
        < clock implies changed.release_dates[i].date < clock by {
        assert(is_instant(
            derived(
                originals[i] as int,
                s.first_pubdate as int,
                s.anchor_date as int,
                s.effective_pace(),
            ),
        ));
        assert(is_instant(
            derived(
                originals[i] as int,
                candidate.first_pubdate as int,
                candidate.anchor_date as int,
                new,
            ),
        ));
        lemma_repace_keeps_released(
            originals[i] as int,
            s.first_pubdate as int,
            s.anchor_date,
            clock,
            s.effective_pace(),
            new,
        );
    }
    let first: Seq<i64> = release_instants(kept.release_dates);
    let second: Seq<i64> = release_instants(changed.release_dates);
    assert forall|i: int| 0 <= i < first.len() && first[i] < clock implies second[i] < clock by {
        assert(first[i] == kept.release_dates[i].date);
        assert(second[i] == changed.release_dates[i].date);
    }
    lemma_due_count_follows(first, second, clock);
}

/// A change of pace leaves the identity of a feed alone: its identifier, its
/// names and addresses and the instant elapsed time is counted from.
pub proof fn lemma_set_rate_keeps_identity(s: RacerView, new: Pace, doc: DocumentView, now: i64)
    requires
        repaced(s, new, doc, now).is_ok(),
    ensures
        repaced(s, new, doc, now).unwrap().0.uuid == s.uuid,
        repaced(s, new, doc, now).unwrap().0.schema_version == s.schema_version,
        repaced(s, new, doc, now).unwrap().0.podcast_title == s.podcast_title,
        repaced(s, new, doc, now).unwrap().0.racer_path == s.racer_path,
        repaced(s, new, doc, now).unwrap().0.source_url == s.source_url,
        repaced(s, new, doc, now).unwrap().0.subscribe_url == s.subscribe_url,
        repaced(s, new, doc, now).unwrap().0.first_pubdate == s.first_pubdate,
        repaced(s, new, doc, now).unwrap().0.pause_date == s.pause_date,
{
}

/// A pause followed by a resumption is a slide by the time in between. For
/// a running feed that can be brought up to date: the pause succeeds; the
/// resumption gives what a slide of the feed, never paused, by the time it
/// was paused gives, and so fails only where that slide leaves the range of
/// instants; where it succeeds the pace is the one from before the pause,
/// nothing of the pause is left, and the anchor and every release are later
/// by exactly the time the feed was paused. A feed resumed at the instant of
/// its pause is as it was, up to date.
pub proof fn lemma_pause_then_resume(s: RacerView, doc: DocumentView, paused_on: i64, resumed_on: i64)
    requires
        s.wf(),
        !s.paused(),
        updated(s, doc, paused_on).is_ok(),
        is_instant(resumed_on as int),
    ensures
        paused_at(s, doc, paused_on).is_ok(),
        paused_at(s, doc, paused_on).unwrap().0.pause_date == Some(paused_on),
        paused_at(s, doc, paused_on).unwrap().0.old_rate == Some(s.rate),
        resumed_at(paused_at(s, doc, paused_on).unwrap().0, doc, resumed_on) == slid(
            s,
            resumed_on - paused_on,
            doc,
            resumed_on,
        ),
        resumed_on == paused_on ==> resumed_at(paused_at(s, doc, paused_on).unwrap().0, doc, resumed_on)
            == updated(s, doc, paused_on),
        resumed_at(paused_at(s, doc, paused_on).unwrap().0, doc, resumed_on).is_ok() ==> {
            let before = updated(s, doc, paused_on).unwrap().0;
            let after = resumed_at(paused_at(s, doc, paused_on).unwrap().0, doc, resumed_on).unwrap().0;
            &&& after.rate == s.rate
            &&& after.old_rate.is_none()
            &&& after.pause_date.is_none()
            &&& after.anchor_date == s.anchor_date + (resumed_on - paused_on)
            &&& after.release_dates.len() == before.release_dates.len()
            &&& forall|i: int|
                0 <= i < before.release_dates.len() ==> (#[trigger] after.release_dates[i]).date
                    == before.release_dates[i].date + (resumed_on - paused_on)
        },
{
    let by: int = resumed_on - paused_on;
    let instants: Seq<i64> = dated(doc.entries).unwrap();
    let order: Seq<usize> = ascending(instants);
    let entries: Seq<EntryView> = arranged_entries(doc.entries, order);
    let originals: Seq<i64> = arranged(instants, order);
    let candidate: RacerView = pause_candidate(s, paused_on);
    assert(candidate.effective_pace() == s.effective_pace());
    let held: RacerView = paused_at(s, doc, paused_on).unwrap().0;
    assert(held == rescheduled(candidate, entries, originals));
    let back: RacerView = resume_candidate(held, resumed_on);
    if is_instant(s.anchor_date + by) {
        let moved: RacerView = anchored(s, (s.anchor_date + by) as i64);
        assert(back.effective_pace() == moved.effective_pace());
        assert(rescheduled(back, entries, originals) == rescheduled(moved, entries, originals));
    }
    assert(anchored(s, s.anchor_date) == s);
    if resumed_at(held, doc, resumed_on).is_ok() {
        let before: RacerView = updated(s, doc, paused_on).unwrap().0;
        assert(before == rescheduled(s, entries, originals));
        assert(before.effective_pace() == s.effective_pace());
        assert(rescheduled(before, entries, originals) == before);
        lemma_update_keeps_wf(s, doc, paused_on);
        assert(updated(before, doc, resumed_on).unwrap().0 == before);
        let moved: RacerView = anchored(s, (s.anchor_date + by) as i64);
        let moved_before: RacerView = anchored(before, (before.anchor_date + by) as i64);
        assert(rescheduled(moved_before, entries, originals) == rescheduled(moved, entries, originals));
        lemma_slide_moves_every_release(before, by, doc, resumed_on);
    }
}

/// Upstream growth is taken in: where a fetch is preferred and brings more
/// entries than the cached copy holds, the fetched document counts as
/// changed, so that it is reported as new and written over the cache; the
/// update works on it and succeeds exactly where the update of the record
/// with the fetched document does; and the schedule then holds one episode
/// for each of its entries, numbered from 1, in ascending order of release.
pub proof fn lemma_growth_is_taken_in(s: RacerView, cached: DocumentView, fetched: DocumentView, now: i64)
    requires
        s.wf(),
        fetched.entries.len() <= usize::MAX,
        cached.entries.len() < fetched.entries.len(),
    ensures
        source(RssFile::Download, true, true) == Source::Fetched,
        differs(Some(cached), fetched),
        settled(RssFile::Download, Some(cached), Some(fetched)) == Some(fetched),
        feed_updated(Some(s), RssFile::Download, Some(cached), Some(fetched), now) == updated(
            s,
            fetched,
            now,
        ),
        updated(s, fetched, now).is_ok() ==> {
            &&& updated(s, fetched, now).unwrap().0.release_dates.len() == fetched.entries.len()
            &&& forall|i: int|
                0 <= i < fetched.entries.len() ==> (#[trigger] updated(
                    s,
                    fetched,
                    now,
                ).unwrap().0.release_dates[i]).ep_num == i + 1
            &&& is_ascending(release_instants(updated(s, fetched, now).unwrap().0.release_dates))
        },
{
    if updated(s, fetched, now).is_ok() {
        lemma_update_counts(s, fetched, now);
        lemma_update_ascends(s, fetched, now);
    }
}

/// After an update the schedule ascends: no episode is released before one
/// that comes earlier in it, and the entries are scheduled in the ascending
/// order of their original instants.
pub proof fn lemma_update_ascends(s: RacerView, doc: DocumentView, now: i64)
    requires
        s.wf(),
        doc.entries.len() <= usize::MAX,
        updated(s, doc, now).is_ok(),
    ensures
        is_ascending(arranged(dated(doc.entries).unwrap(), ascending(dated(doc.entries).unwrap()))),
        is_ascending(release_instants(updated(s, doc, now).unwrap().0.release_dates)),
{
    lemma_dated_each(doc.entries);
    let instants: Seq<i64> = dated(doc.entries).unwrap();
    lemma_ascending_exists(instants);
    let order: Seq<usize> = ascending(instants);
    lemma_arranged_ascends(instants, order);
    lemma_planned_ascends(
        arranged_entries(doc.entries, order),
        arranged(instants, order),
        s.first_pubdate,
        s.anchor_date,
        s.effective_pace(),
    );
}

/// An update keeps a consistent record consistent.
pub proof fn lemma_update_keeps_wf(s: RacerView, doc: DocumentView, now: i64)
    requires
        s.wf(),
        updated(s, doc, now).is_ok(),
    ensures
        updated(s, doc, now).unwrap().0.wf(),
{
    let after: RacerView = updated(s, doc, now).unwrap().0;
    let instants: Seq<i64> = dated(doc.entries).unwrap();
    let order: Seq<usize> = ascending(instants);
    let originals: Seq<i64> = arranged(instants, order);
    assert forall|i: int| 0 <= i < after.release_dates.len() implies {
        &&& (#[trigger] after.release_dates[i]).ep_num == i + 1
        &&& is_instant(after.release_dates[i].date as int)
    } by {
        assert(is_instant(
            derived(
                originals[i] as int,
                s.first_pubdate as int,
                s.anchor_date as int,
                s.effective_pace(),
            ),
        ));
    }
}

/// Updating from the cached copy twice gives what updating once gives:
/// where the cached copy is preferred nothing is to be written over the
/// cache, whatever a fetch may have brought, and with the cached copy
/// unchanged the second update, made at the same instant, leaves the record
/// as the first left it and gives the same derived document.
pub proof fn lemma_cached_update_idempotent(
    s: RacerView,
    cached: DocumentView,
    fetched: Option<DocumentView>,
    again: Option<DocumentView>,
    now: i64,
)
    requires
        feed_updated(Some(s), RssFile::FromStorage, Some(cached), fetched, now).is_ok(),
    ensures
        source(RssFile::FromStorage, true, fetched.is_some()) == Source::Cached,
        settled(RssFile::FromStorage, Some(cached), fetched) == Some(cached),
        feed_updated(
            Some(feed_updated(Some(s), RssFile::FromStorage, Some(cached), fetched, now).unwrap().0),
            RssFile::FromStorage,
            Some(cached),
            again,
            now,
        ) == feed_updated(Some(s), RssFile::FromStorage, Some(cached), fetched, now),
{
    lemma_update_keeps_wf(s, cached, now);
    lemma_update_idempotent(s, cached, now);
}

/// A slide moves every release alike: for a feed that is up to date, every
/// episode is then released later by the seconds of the slide, or earlier
/// for a slide backwards.
pub proof fn lemma_slide_moves_every_release(s: RacerView, by: int, doc: DocumentView, now: i64)
    requires
        s.wf(),
        updated(s, doc, now).is_ok(),
        updated(s, doc, now).unwrap().0 == s,
        slid(s, by, doc, now).is_ok(),
    ensures
        slid(s, by, doc, now).unwrap().0.anchor_date == s.anchor_date + by,
        slid(s, by, doc, now).unwrap().0.release_dates.len() == s.release_dates.len(),
        forall|i: int|
            0 <= i < s.release_dates.len() ==> (#[trigger] slid(
                s,
                by,
                doc,
                now,
            ).unwrap().0.release_dates[i]).date == s.release_dates[i].date + by,
{
    let moved: RacerView = anchored(s, (s.anchor_date + by) as i64);
    let after: RacerView = slid(s, by, doc, now).unwrap().0;
    let instants: Seq<i64> = dated(doc.entries).unwrap();
    let order: Seq<usize> = ascending(instants);
    let entries: Seq<EntryView> = arranged_entries(doc.entries, order);
    let originals: Seq<i64> = arranged(instants, order);
    let pace: Pace = s.effective_pace();
    assert(moved.effective_pace() == pace);
    assert(s == rescheduled(s, entries, originals));
    assert(after == rescheduled(moved, entries, originals));
    assert forall|i: int| 0 <= i < s.release_dates.len() implies (#[trigger] after.release_dates[i]).date
        == s.release_dates[i].date + by by {
        assert(is_instant(
            derived(originals[i] as int, s.first_pubdate as int, s.anchor_date as int, pace),
        ));
        assert(is_instant(
            derived(
                originals[i] as int,
                moved.first_pubdate as int,
                moved.anchor_date as int,
                pace,
            ),
        ));
    }
}

/// When a slide succeeds: for a feed that is up to date, exactly where the
/// anchor and every release, moved by the seconds of the slide, are instants
/// the library works on. A resumption and a release at once are slides, and
/// succeed where their slide does.
pub proof fn lemma_slide_succeeds_when(s: RacerView, by: int, doc: DocumentView, now: i64)
    requires
        s.wf(),
        updated(s, doc, now).is_ok(),
        updated(s, doc, now).unwrap().0 == s,
    ensures
        slid(s, by, doc, now).is_ok() <==> {
            &&& is_instant(s.anchor_date + by)
            &&& forall|i: int|
                0 <= i < s.release_dates.len() ==> is_instant((#[trigger] s.release_dates[i]).date + by)
        },
        failure(slid(s, by, doc, now)).is_none() || failure(slid(s, by, doc, now)) == Some(
            RacerError::OutOfRange,
        ),
{
    let instants: Seq<i64> = dated(doc.entries).unwrap();
    let order: Seq<usize> = ascending(instants);
    let entries: Seq<EntryView> = arranged_entries(doc.entries, order);
    let originals: Seq<i64> = arranged(instants, order);
    let pace: Pace = s.effective_pace();
    assert(s == rescheduled(s, entries, originals));
    assert(s.release_dates.len() == originals.len());
    assert forall|i: int| 0 <= i < originals.len() implies (#[trigger] s.release_dates[i]).date == derived(
        originals[i] as int,
        s.first_pubdate as int,
        s.anchor_date as int,
        pace,
    ) by {
        assert(is_instant(
            derived(originals[i] as int, s.first_pubdate as int, s.anchor_date as int, pace),
        ));
    }
    if is_instant(s.anchor_date + by) {
        let moved: RacerView = anchored(s, (s.anchor_date + by) as i64);
        assert(moved.effective_pace() == pace);
        if forall|i: int|
            0 <= i < s.release_dates.len() ==> is_instant((#[trigger] s.release_dates[i]).date + by) {
            assert forall|i: int| 0 <= i < originals.len() implies is_instant(
                derived(
                    #[trigger] originals[i] as int,
                    moved.first_pubdate as int,
                    moved.anchor_date as int,
                    pace,
                ),
            ) by {
                assert(is_instant(s.release_dates[i].date + by));
            }
            assert(all_derivable(originals, moved.first_pubdate, moved.anchor_date, pace));
        }
        if slid(s, by, doc, now).is_ok() {
            assert forall|i: int| 0 <= i < s.release_dates.len() implies is_instant(
                (#[trigger] s.release_dates[i]).date + by,
            ) by {
                assert(is_instant(
                    derived(
                        originals[i] as int,
                        moved.first_pubdate as int,
                        moved.anchor_date as int,
                        pace,
                    ),
                ));
            }
        }
    }
}

/// Releasing an episode at once releases it. For a feed that is up to date:
/// the anchor and every release come earlier by the time the episode was
/// still to wait, so that the time between two releases stays; the episode
/// is then released at `now` where it was still to wait, and when it was
/// released before where it was not; at every later instant a running feed
/// has that episode and all before it due; and the derived document that the
/// operation gives holds them. It fails, once the number is one of the
/// schedule and `now` an instant, only by leaving the range of instants.
pub proof fn lemma_publish_releases(s: RacerView, num: int, doc: DocumentView, now: i64)
    requires
        s.wf(),
        doc.entries.len() <= usize::MAX,
        updated(s, doc, now).is_ok(),
        updated(s, doc, now).unwrap().0 == s,
        1 <= num <= s.release_dates.len(),
    ensures
        failure(published(s, num, doc, now)).is_none() || failure(published(s, num, doc, now)) == Some(
            RacerError::OutOfRange,
        ),
        published(s, num, doc, now).is_ok() ==> {
            &&& published(s, num, doc, now).unwrap().0.anchor_date == s.anchor_date - wait_of(
                s,
                num,
                now,
            )
            &&& published(s, num, doc, now).unwrap().0.release_dates.len() == s.release_dates.len()
            &&& forall|i: int|
                0 <= i < s.release_dates.len() ==> (#[trigger] published(
                    s,
                    num,
                    doc,
                    now,
                ).unwrap().0.release_dates[i]).date == s.release_dates[i].date - wait_of(s, num, now)
            &&& published(s, num, doc, now).unwrap().0.release_dates[num - 1].date == (
            if s.release_dates[num - 1].date > now {
                now
            } else {
                s.release_dates[num - 1].date
            })
            &&& published(s, num, doc, now).unwrap().0.release_dates[num - 1].date <= now
            &&& forall|later: i64|
                now < later && !s.paused() ==> #[trigger] published(s, num, doc, now).unwrap().0.due(
                    later,
                ) >= num
            &&& !s.paused() ==> published(s, num, doc, now).unwrap().1.entries.len() >= num
        },
{
    if published(s, num, doc, now).is_ok() {
        let wait: int = wait_of(s, num, now);
        let next: i64 = (now + 1) as i64;
        lemma_slide_moves_every_release(s, -wait, doc, now);
        let moved: RacerView = anchored(s, (s.anchor_date - wait) as i64);
        let after: RacerView = published(s, num, doc, now).unwrap().0;
        assert(after == slid(s, -wait, doc, now).unwrap().0);
        lemma_update_ascends(moved, doc, next);
        let dates: Seq<i64> = release_instants(after.release_dates);
        assert(dates[num - 1] == after.release_dates[num - 1].date);
        assert forall|later: i64| now < later && !s.paused() implies #[trigger] after.due(later)
            >= num by {
            lemma_due_is_prefix(dates, later);
            assert(after.clock(later) == later);
            assert(dates[num - 1] < later);
        }
        if !s.paused() {
            assert(after.due(next) >= num);
        }
    }
}

} // verus!
