//! The operations that steer a feed: changing its pace, sliding its
//! timeline, releasing an episode at once, pausing and resuming. Each one
//! changes the record, brings the feed up to date and returns the derived
//! document; where any step fails the record is left as it was.

use vstd::prelude::*;
use crate::arith::{ceil_div, div_ceil};
use crate::error::RacerError;
use crate::feed::{Document, DocumentView};
use crate::pace::Pace;
use crate::schedule::release_instants;
use crate::state::{FeedRacer, RacerView};
use crate::time::{instant_in_range, is_instant, MAX_INSTANT, MIN_INSTANT, SECONDS_PER_DAY};
use crate::update::updated;

verus! {

/// The record with another anchor.
pub open spec fn anchored(s: RacerView, anchor: i64) -> RacerView {
    RacerView { anchor_date: anchor, ..s }
}

/// What sliding the timeline by `by` seconds makes of a record: every release
/// comes `by` seconds later (earlier, for a negative `by`). `OutOfRange`
/// where the anchor would leave the range the library works on.
pub open spec fn slid(s: RacerView, by: int, doc: DocumentView, now: i64) -> Result<
    (RacerView, DocumentView),
    RacerError,
> {
    if is_instant(s.anchor_date + by) {
        updated(anchored(s, (s.anchor_date + by) as i64), doc, now)
    } else {
        Err(RacerError::OutOfRange)
    }
}

/// Whether an operation did to the record `before` what `outcome` says: on
/// success the record is the new one and the document the derived one, on
/// failure the record is unchanged.
pub open spec fn carried_out(
    before: RacerView,
    after: RacerView,
    r: Result<Document, RacerError>,
    outcome: Result<(RacerView, DocumentView), RacerError>,
) -> bool {
    match outcome {
        Ok((record, document)) => r.is_ok() && r.unwrap()@ == document && after == record,
        Err(e) => r.is_err() && r.unwrap_err() == e && after == before,
    }
}

/// The anchor that a change of pace moves the timeline to. Seen from
/// `clock`, the time gone by since the anchor is scaled by `old / new`,
/// rounded up, so that nothing released before `clock` is taken back.
pub open spec fn repaced_anchor(anchor: i64, clock: i64, old: Pace, new: Pace) -> int
    recommends
        old.is_positive(),
        new.is_positive(),
{
    clock - ceil_div((clock - anchor) * (old.num * new.den), old.den * new.num)
}

/// The record as a change of pace leaves it, before the schedule is made
/// anew: a running feed takes the new pace, a paused one keeps it for its
/// resumption.
pub open spec fn repace_candidate(s: RacerView, new: Pace, now: i64) -> RacerView {
    let anchor: i64 = repaced_anchor(s.anchor_date, s.clock(now), s.effective_pace(), new) as i64;
    if s.paused() {
        RacerView { anchor_date: anchor, old_rate: Some(new), ..s }
    } else {
        RacerView { anchor_date: anchor, rate: new, ..s }
    }
}

/// What a change of pace makes of a record. `InvalidParameter` where the new
/// pace is not positive, `OutOfRange` where `now` or the new anchor is
/// outside the range the library works on.
pub open spec fn repaced(s: RacerView, new: Pace, doc: DocumentView, now: i64) -> Result<
    (RacerView, DocumentView),
    RacerError,
> {
    if !new.is_positive() {
        Err(RacerError::InvalidParameter)
    } else if !is_instant(now as int) {
        Err(RacerError::OutOfRange)
    } else if !is_instant(repaced_anchor(s.anchor_date, s.clock(now), s.effective_pace(), new)) {
        Err(RacerError::OutOfRange)
    } else {
        updated(repace_candidate(s, new, now), doc, now)
    }
}

/// The place in the schedule, at or after `from`, of the first episode
/// released after `at`; the length of the schedule where there is none.
pub open spec fn upcoming(dates: Seq<i64>, at: i64, from: int) -> int
    decreases dates.len() - from,
{
    if from < 0 || from >= dates.len() {
        dates.len() as int
    } else if dates[from] > at {
        from
    } else {
        upcoming(dates, at, from + 1)
    }
}

/// The place in the schedule of the next episode to be released.
pub open spec fn next_episode(s: RacerView, now: i64) -> int {
    upcoming(release_instants(s.release_dates), now, 0)
}

/// How long episode `num` is still to wait at `now`; nothing for an episode
/// that is released already.
pub open spec fn wait_of(s: RacerView, num: int, now: i64) -> int
    recommends
        1 <= num <= s.release_dates.len(),
{
    if s.release_dates[num - 1].date > now {
        s.release_dates[num - 1].date - now
    } else {
        0
    }
}

/// What releasing episode `num` at once makes of a record: the timeline is
/// advanced by the time the episode was still to wait, so that the episode
/// is released at `now`; the derived document is the one of the instant
/// after `now`, which is the first to show the episode. `InvalidParameter`
/// where the schedule has no episode of that number.
pub open spec fn published(s: RacerView, num: int, doc: DocumentView, now: i64) -> Result<
    (RacerView, DocumentView),
    RacerError,
> {
    if !(1 <= num <= s.release_dates.len()) {
        Err(RacerError::InvalidParameter)
    } else if !is_instant(now as int) {
        Err(RacerError::OutOfRange)
    } else {
        slid(s, -wait_of(s, num, now), doc, (now + 1) as i64)
    }
}

/// What advancing the timeline by `count` episodes makes of a record: the
/// timeline is advanced by the time between the next episode and the one
/// `count` places after it. `InvalidParameter` where the schedule has no
/// such two episodes.
pub open spec fn advanced(s: RacerView, count: int, doc: DocumentView, now: i64) -> Result<
    (RacerView, DocumentView),
    RacerError,
> {
    let next: int = next_episode(s, now);
    if count < 0 || next + count >= s.release_dates.len() {
        Err(RacerError::InvalidParameter)
    } else {
        slid(s, -(s.release_dates[next + count].date - s.release_dates[next].date), doc, now)
    }
}

/// What setting the timeline back by `count` episodes makes of a record: the
/// timeline is delayed by the time between the next episode and the one
/// `count` places before it. `InvalidParameter` where the schedule has no
/// such two episodes.
pub open spec fn set_back(s: RacerView, count: int, doc: DocumentView, now: i64) -> Result<
    (RacerView, DocumentView),
    RacerError,
> {
    let next: int = next_episode(s, now);
    if count < 0 || next >= s.release_dates.len() || count > next {
        Err(RacerError::InvalidParameter)
    } else {
        slid(s, s.release_dates[next].date - s.release_dates[next - count].date, doc, now)
    }
}

/// The record as a pause at `now` leaves it, before the schedule is made
/// anew.
pub open spec fn pause_candidate(s: RacerView, now: i64) -> RacerView {
    RacerView { rate: Pace { num: 0, den: 1 }, old_rate: Some(s.rate), pause_date: Some(now), ..s }
}

/// What a pause at `now` makes of a record. `InvalidParameter` where the feed
/// is paused already.
pub open spec fn paused_at(s: RacerView, doc: DocumentView, now: i64) -> Result<
    (RacerView, DocumentView),
    RacerError,
> {
    if s.paused() {
        Err(RacerError::InvalidParameter)
    } else if !is_instant(now as int) {
        Err(RacerError::OutOfRange)
    } else {
        updated(pause_candidate(s, now), doc, now)
    }
}

/// The record as a resumption at `now` leaves it, before the schedule is
/// made anew: the anchor moves on by the time the feed was paused.
pub open spec fn resume_candidate(s: RacerView, now: i64) -> RacerView
    recommends
        s.paused(),
{
    RacerView {
        rate: s.old_rate.unwrap(),
        old_rate: None,
        pause_date: None,
        anchor_date: (s.anchor_date + (now - s.pause_date.unwrap())) as i64,
        ..s
    }
}

/// What a resumption at `now` makes of a record. `InvalidParameter` where the
/// feed is not paused.
pub open spec fn resumed_at(s: RacerView, doc: DocumentView, now: i64) -> Result<
    (RacerView, DocumentView),
    RacerError,
> {
    if !s.paused() {
        Err(RacerError::InvalidParameter)
    } else if !is_instant(now as int) {
        Err(RacerError::OutOfRange)
    } else if !is_instant(s.anchor_date + (now - s.pause_date.unwrap())) {
        Err(RacerError::OutOfRange)
    } else {
        updated(resume_candidate(s, now), doc, now)
    }
}

/// What a resumption returns.
#[derive(Debug)]
pub struct Resumed {
    /// For how many seconds the feed was paused.
    pub paused_for: i64,
    /// The derived document.
    pub document: Document,
}

impl FeedRacer {
    /// Puts the given anchor, pace and pause into the record and brings the
    /// feed up to date; puts the old ones back where that fails.
    fn commit(
        &mut self,
        anchor: i64,
        rate: Pace,
        old_rate: Option<Pace>,
        pause_date: Option<i64>,
        upstream: &Document,
        now: i64,
    ) -> (r: Result<Document, RacerError>)
        requires
            old(self).wf(),
            (RacerView { anchor_date: anchor, rate, old_rate, pause_date, ..old(self)@ }).wf(),
        ensures
            final(self).wf(),
            carried_out(
                old(self)@,
                final(self)@,
                r,
                updated(
                    RacerView { anchor_date: anchor, rate, old_rate, pause_date, ..old(self)@ },
                    upstream@,
                    now,
                ),
            ),
    {
        let saved_anchor: i64 = self.anchor_date;
        let saved_rate: Pace = self.rate;
        let saved_old_rate: Option<Pace> = self.old_rate;
        let saved_pause: Option<i64> = self.pause_date;
        self.anchor_date = anchor;
        self.rate = rate;
        self.old_rate = old_rate;
        self.pause_date = pause_date;
        match self.update(upstream, now) {
            Ok(document) => Ok(document),
            Err(e) => {
                self.anchor_date = saved_anchor;
                self.rate = saved_rate;
                self.old_rate = saved_old_rate;
                self.pause_date = saved_pause;
                Err(e)
            },
        }
    }

    /// Slides the timeline by `by` seconds: later for a positive `by`,
    /// earlier for a negative one.
    pub fn slide(&mut self, by: i64, upstream: &Document, now: i64) -> (r: Result<Document, RacerError>)
        requires
            old(self).wf(),
        ensures
            final(self).wf(),
            carried_out(old(self)@, final(self)@, r, slid(old(self)@, by as int, upstream@, now)),
    {
        let anchor: i64 = match crate::time::shift(self.anchor_date, by) {
            Some(a) => a,
            None => {
                return Err(RacerError::OutOfRange);
            },
        };
        self.commit(anchor, self.rate, self.old_rate, self.pause_date, upstream, now)
    }

    /// Delays every release by `days` days.
    pub fn rewind_by_days(&mut self, days: usize, upstream: &Document, now: i64) -> (r: Result<
        Document,
        RacerError,
    >)
        requires
            old(self).wf(),
        ensures
            final(self).wf(),
            carried_out(
                old(self)@,
                final(self)@,
                r,
                slid(old(self)@, days * SECONDS_PER_DAY, upstream@, now),
            ),
    {
        if days > 10_000_000 {
            return Err(RacerError::OutOfRange);
        }
        let by: i64 = (days as i64) * SECONDS_PER_DAY;
        self.slide(by, upstream, now)
    }

    /// Advances every release by `days` days.
    pub fn fastforward_by_days(&mut self, days: usize, upstream: &Document, now: i64) -> (r: Result<
        Document,
        RacerError,
    >)
        requires
            old(self).wf(),
        ensures
            final(self).wf(),
            carried_out(
                old(self)@,
                final(self)@,
                r,
                slid(old(self)@, -(days * SECONDS_PER_DAY), upstream@, now),
            ),
    {
        if days > 10_000_000 {
            return Err(RacerError::OutOfRange);
        }
        let by: i64 = -((days as i64) * SECONDS_PER_DAY);
        self.slide(by, upstream, now)
    }
    /// The place in the schedule of the next episode to be released: the
    /// first one released after `now`.
    pub fn get_next_episode_num(&self, now: i64) -> (r: usize)
        ensures
            r == next_episode(self@, now),
            r <= self@.release_dates.len(),
    {
        let ghost dates: Seq<i64> = release_instants(self@.release_dates);
        let mut i: usize = 0;
        while i < self.release_dates.len()
            invariant
                i <= self.release_dates.len(),
                dates == release_instants(self@.release_dates),
                upcoming(dates, now, 0) == upcoming(dates, now, i as int),
            decreases self.release_dates.len() - i,
        {
            assert(dates[i as int] == self.release_dates[i as int].date);
            if self.release_dates[i].date > now {
                return i;
            }
            i = i + 1;
        }
        i
    }

    /// When the next episode is released; `now` where none is left.
    pub fn get_next_episode_pub_date(&self, now: i64) -> (r: i64)
        ensures
            r == (if next_episode(self@, now) < self@.release_dates.len() {
                self@.release_dates[next_episode(self@, now)].date
            } else {
                now
            }),
    {
        let next: usize = self.get_next_episode_num(now);
        if next < self.release_dates.len() {
            self.release_dates[next].date
        } else {
            now
        }
    }

    /// When the episode at place `index` of the schedule is released; `now`
    /// where it is released already.
    pub fn get_episode_pub_date(&self, index: usize, now: i64) -> (r: i64)
        requires
            index < self@.release_dates.len(),
        ensures
            r == (if self@.release_dates[index as int].date > now {
                self@.release_dates[index as int].date
            } else {
                now
            }),
    {
        if self.release_dates[index].date > now {
            self.release_dates[index].date
        } else {
            now
        }
    }

    /// Changes the pace. What was released before stays released: the anchor
    /// moves so that the time gone by counts the same at the new pace.
    pub fn set_rate(&mut self, new_rate: Pace, upstream: &Document, now: i64) -> (r: Result<
        Document,
        RacerError,
    >)
        requires
            old(self).wf(),
        ensures
            final(self).wf(),
            carried_out(old(self)@, final(self)@, r, repaced(old(self)@, new_rate, upstream@, now)),
    {
        if !new_rate.positive() {
            return Err(RacerError::InvalidParameter);
        }
        if !instant_in_range(now) {
            return Err(RacerError::OutOfRange);
        }
        let clock: i64 = self.clock(now);
        let old: Pace = self.effective_pace();
        let gone: i128 = (clock as i128) - (self.anchor_date as i128);
        assert(0 < (old.num as int) * (new_rate.den as int) <= 0x1_0000_0000_0000_0000
            && 0 < (old.den as int) * (new_rate.num as int) <= 0x1_0000_0000_0000_0000)
            by (nonlinear_arith)
            requires
                0 < old.num <= 0xffff_ffff,
                0 < old.den <= 0xffff_ffff,
                0 < new_rate.num <= 0xffff_ffff,
                0 < new_rate.den <= 0xffff_ffff,
        ;
        let up: i128 = (old.num as i128) * (new_rate.den as i128);
        let down: i128 = (old.den as i128) * (new_rate.num as i128);
        assert(-0x1_0000_0000_0000_0000_0000_0000_0000 <= (gone as int) * (up as int)
            <= 0x1_0000_0000_0000_0000_0000_0000_0000) by (nonlinear_arith)
            requires
                -0x1_0000_0000_0000 <= gone <= 0x1_0000_0000_0000,
                0 < up <= 0x1_0000_0000_0000_0000,
        ;
        let scaled: i128 = div_ceil(gone * up, down);
        proof {
            crate::arith::lemma_div_bounds((gone * up) as int, down as int);
            assert(-0x1_0000_0000_0000_0000_0000_0000_0000 <= scaled
                <= 0x1_0000_0000_0000_0000_0000_0000_0000) by (nonlinear_arith)
                requires
                    ((scaled as int) - 1) * (down as int) < (gone as int) * (up as int),
                    (gone as int) * (up as int) <= (scaled as int) * (down as int),
                    down >= 1,
                    -0x1_0000_0000_0000_0000_0000_0000_0000 <= (gone as int) * (up as int)
                        <= 0x1_0000_0000_0000_0000_0000_0000_0000,
            ;
        }
        let anchor: i128 = (clock as i128) - scaled;
        if !((MIN_INSTANT as i128) <= anchor && anchor <= (MAX_INSTANT as i128)) {
            return Err(RacerError::OutOfRange);
        }
        if self.pause_date.is_some() {
            self.commit(anchor as i64, self.rate, Some(new_rate), self.pause_date, upstream, now)
        } else {
            self.commit(anchor as i64, new_rate, self.old_rate, self.pause_date, upstream, now)
        }
    }

    /// Releases episode `num` at once: the timeline is advanced by the time
    /// the episode was still to wait, so that it is released at `now` and
    /// the spacing of the episodes after it stays. The document returned is
    /// the one of the instant after `now`, the first to show the episode.
    pub fn publish_episode_num(&mut self, num: usize, upstream: &Document, now: i64) -> (r: Result<
        Document,
        RacerError,
    >)
        requires
            old(self).wf(),
        ensures
            final(self).wf(),
            carried_out(old(self)@, final(self)@, r, published(old(self)@, num as int, upstream@, now)),
    {
        if num < 1 || num > self.release_dates.len() {
            return Err(RacerError::InvalidParameter);
        }
        if !instant_in_range(now) {
            return Err(RacerError::OutOfRange);
        }
        let target: i64 = self.release_dates[num - 1].date;
        assert(is_instant(self@.release_dates[num - 1].date as int));
        let wait: i64 = if target > now {
            target - now
        } else {
            0
        };
        self.slide(-wait, upstream, now + 1)
    }

    /// Releases the next episode at once. `InvalidParameter` where none is
    /// left to release.
    pub fn publish_next_ep_now(&mut self, upstream: &Document, now: i64) -> (r: Result<
        Document,
        RacerError,
    >)
        requires
            old(self).wf(),
        ensures
            final(self).wf(),
            carried_out(
                old(self)@,
                final(self)@,
                r,
                published(old(self)@, next_episode(old(self)@, now) + 1, upstream@, now),
            ),
    {
        let next: usize = self.get_next_episode_num(now);
        if next >= self.release_dates.len() {
            return Err(RacerError::InvalidParameter);
        }
        self.publish_episode_num(next + 1, upstream, now)
    }

    /// Advances the timeline by `count` episodes.
    pub fn fastforward_by_episodes(&mut self, count: usize, upstream: &Document, now: i64) -> (r: Result<
        Document,
        RacerError,
    >)
        requires
            old(self).wf(),
        ensures
            final(self).wf(),
            carried_out(old(self)@, final(self)@, r, advanced(old(self)@, count as int, upstream@, now)),
    {
        let next: usize = self.get_next_episode_num(now);
        let len: usize = self.release_dates.len();
        if next >= len || count >= len - next {
            return Err(RacerError::InvalidParameter);
        }
        assert(is_instant(self@.release_dates[next as int].date as int));
        assert(is_instant(self@.release_dates[next + count].date as int));
        let gap: i64 = self.release_dates[next + count].date - self.release_dates[next].date;
        self.slide(-gap, upstream, now)
    }

    /// Sets the timeline back by `count` episodes.
    pub fn rewind_by_episodes(&mut self, count: usize, upstream: &Document, now: i64) -> (r: Result<
        Document,
        RacerError,
    >)
        requires
            old(self).wf(),
        ensures
            final(self).wf(),
            carried_out(old(self)@, final(self)@, r, set_back(old(self)@, count as int, upstream@, now)),
    {
        let next: usize = self.get_next_episode_num(now);
        if next >= self.release_dates.len() || count > next {
            return Err(RacerError::InvalidParameter);
        }
        assert(is_instant(self@.release_dates[next as int].date as int));
        assert(is_instant(self@.release_dates[next - count].date as int));
        let gap: i64 = self.release_dates[next].date - self.release_dates[next - count].date;
        self.slide(gap, upstream, now)
    }

    /// Pauses the feed: from `now` on nothing more falls due, until the feed
    /// is resumed.
    pub fn pause_feed(&mut self, upstream: &Document, now: i64) -> (r: Result<Document, RacerError>)
        requires
            old(self).wf(),
        ensures
            final(self).wf(),
            carried_out(old(self)@, final(self)@, r, paused_at(old(self)@, upstream@, now)),
    {
        if self.pause_date.is_some() {
            return Err(RacerError::InvalidParameter);
        }
        if !instant_in_range(now) {
            return Err(RacerError::OutOfRange);
        }
        self.commit(self.anchor_date, Pace::paused_mark(), Some(self.rate), Some(now), upstream, now)
    }

    /// Resumes a paused feed: the anchor moves on by the time the feed was
    /// paused, so that the pause does not count. Returns that time with the
    /// derived document.
    pub fn unpause_feed(&mut self, upstream: &Document, now: i64) -> (r: Result<Resumed, RacerError>)
        requires
            old(self).wf(),
        ensures
            final(self).wf(),
            match resumed_at(old(self)@, upstream@, now) {
                Ok((record, document)) => r.is_ok() && r.unwrap().document@ == document && r.unwrap().paused_for
                    == now - old(self)@.pause_date.unwrap() && final(self)@ == record,
                Err(e) => r.is_err() && r.unwrap_err() == e && final(self)@ == old(self)@,
            },
    {
        let since: i64 = match self.pause_date {
            Some(t) => t,
            None => {
                return Err(RacerError::InvalidParameter);
            },
        };
        if !instant_in_range(now) {
            return Err(RacerError::OutOfRange);
        }
        let paused_for: i64 = now - since;
        let anchor: i64 = match crate::time::shift(self.anchor_date, paused_for) {
            Some(a) => a,
            None => {
                return Err(RacerError::OutOfRange);
            },
        };
        let rate: Pace = match self.old_rate {
            Some(p) => p,
            None => Pace::unit(),
        };
        match self.commit(anchor, rate, None, None, upstream, now) {
            Ok(document) => Ok(Resumed { paused_for, document }),
            Err(e) => Err(e),
        }
    }
}

} // verus!
