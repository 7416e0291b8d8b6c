//! The record kept for one feed: its identity, its pace, the anchor of its
//! derived timeline and its schedule.

use vstd::prelude::*;
use crate::dates::{instant_text, make_instant_text};
use crate::pace::{make_pace_text, pace_text, Pace};
use crate::schedule::{
    count_due,
    due_count,
    episode_text,
    episode_views,
    release_instants,
    EpisodeView,
    RacerEpisode,
};
use crate::text::opt_view;
use crate::time::{instant_in_range, is_instant};

verus! {

/// The record of one feed.
#[derive(Debug)]
pub struct FeedRacer {
    /// The version of the record's layout.
    pub schema_version: String,
    /// The podcast's title, once it is known.
    pub podcast_title: Option<String>,
    /// The feed's identifier, given once.
    pub uuid: String,
    /// The pace, or the mark of a paused feed.
    pub rate: Pace,
    /// The pace to go back to, while the feed is paused.
    pub old_rate: Option<Pace>,
    /// The directory that holds the feed's files.
    pub racer_path: String,
    /// Where the upstream document is fetched from.
    pub source_url: String,
    /// Where listeners fetch the derived document.
    pub subscribe_url: String,
    /// The origin of the derived timeline.
    pub anchor_date: i64,
    /// Since when the feed is paused.
    pub pause_date: Option<i64>,
    /// The original instant that elapsed time is counted from.
    pub first_pubdate: i64,
    /// The schedule, oldest episode first.
    pub release_dates: Vec<RacerEpisode>,
}

/// What a `FeedRacer` holds.
pub struct RacerView {
    pub schema_version: Seq<char>,
    pub podcast_title: Option<Seq<char>>,
    pub uuid: Seq<char>,
    pub rate: Pace,
    pub old_rate: Option<Pace>,
    pub racer_path: Seq<char>,
    pub source_url: Seq<char>,
    pub subscribe_url: Seq<char>,
    pub anchor_date: i64,
    pub pause_date: Option<i64>,
    pub first_pubdate: i64,
    pub release_dates: Seq<EpisodeView>,
}

impl View for FeedRacer {
    type V = RacerView;

    open spec fn view(&self) -> RacerView {
        RacerView {
            schema_version: self.schema_version@,
            podcast_title: opt_view(self.podcast_title),
            uuid: self.uuid@,
            rate: self.rate,
            old_rate: self.old_rate,
            racer_path: self.racer_path@,
            source_url: self.source_url@,
            subscribe_url: self.subscribe_url@,
            anchor_date: self.anchor_date,
            pause_date: self.pause_date,
            first_pubdate: self.first_pubdate,
            release_dates: episode_views(self.release_dates@),
        }
    }
}

impl RacerView {
    /// Whether the record is consistent: a running feed has a positive pace
    /// and no saved one; a paused feed carries the paused mark, the pace to
    /// go back to and the instant of the pause; every instant is one the
    /// library works on; the episodes are numbered from 1.
    pub open spec fn wf(self) -> bool {
        &&& self.rate.den > 0
        &&& self.pause_date.is_some() <==> self.old_rate.is_some()
        &&& self.pause_date.is_none() ==> self.rate.is_positive()
        &&& self.pause_date.is_some() ==> self.rate.is_paused_mark()
        &&& self.old_rate.is_some() ==> self.old_rate.unwrap().is_positive()
        &&& is_instant(self.anchor_date as int)
        &&& is_instant(self.first_pubdate as int)
        &&& self.pause_date.is_some() ==> is_instant(self.pause_date.unwrap() as int)
        &&& forall|i: int|
            0 <= i < self.release_dates.len() ==> {
                &&& (#[trigger] self.release_dates[i]).ep_num == i + 1
                &&& is_instant(self.release_dates[i].date as int)
            }
    }

    /// Whether the feed is paused.
    pub open spec fn paused(self) -> bool {
        self.pause_date.is_some()
    }

    /// The pace that release instants are derived with: the pace of a
    /// running feed, the saved pace of a paused one.
    pub open spec fn effective_pace(self) -> Pace {
        if self.rate.is_positive() {
            self.rate
        } else {
            match self.old_rate {
                Some(p) => p,
                None => Pace { num: 1, den: 1 },
            }
        }
    }

    /// The instant that decides what is due: the instant of the pause for a
    /// paused feed, else `now`.
    pub open spec fn clock(self, now: i64) -> i64 {
        match self.pause_date {
            Some(t) => t,
            None => now,
        }
    }

    /// How many episodes are due at `now`.
    pub open spec fn due(self, now: i64) -> nat {
        due_count(release_instants(self.release_dates), self.clock(now))
    }
}

/// The episodes of a schedule as text: a line for each, set in by a tab and
/// closed by a comma.
pub open spec fn schedule_text(episodes: Seq<EpisodeView>) -> Seq<char>
    decreases episodes.len(),
{
    if episodes.len() == 0 {
        Seq::empty()
    } else {
        schedule_text(episodes.drop_last()) + "\t"@ + episode_text(episodes.last()) + ",\n"@
    }
}

/// A record as text: a line for each of its fields, then its schedule.
pub open spec fn racer_text(s: RacerView) -> Seq<char> {
    "schema_version: "@ + s.schema_version + "\n"@ + "racer_path: "@ + s.racer_path + "\n"@
        + "source_url: "@ + s.source_url + "\n"@ + "subscribe_url: "@ + s.subscribe_url + "\n"@
        + "anchor_date: "@ + instant_text(s.anchor_date) + "\n"@ + "first_pubdate: "@ + instant_text(
        s.first_pubdate,
    ) + "\n"@ + "rate: "@ + pace_text(s.rate) + "\n"@ + "release_dates {\n"@ + schedule_text(
        s.release_dates,
    ) + "}\n"@
}

impl FeedRacer {
    /// The record as text.
    pub fn to_string(&self) -> (r: String)
        ensures
            r@ == racer_text(self@),
    {
        let anchor: String = make_instant_text(self.anchor_date);
        let first: String = make_instant_text(self.first_pubdate);
        let rate: String = make_pace_text(self.rate);
        let mut schedule: String = String::new();
        let ghost views: Seq<EpisodeView> = self@.release_dates;
        let mut i: usize = 0;
        assert(views.take(0) =~= Seq::<EpisodeView>::empty());
        while i < self.release_dates.len()
            invariant
                i <= self.release_dates.len(),
                views == self@.release_dates,
                schedule@ == schedule_text(views.take(i as int)),
            decreases self.release_dates.len() - i,
        {
            proof {
                assert(views.take(i + 1).drop_last() =~= views.take(i as int));
                assert(views.take(i + 1).last() == self.release_dates[i as int]@);
            }
            let line: String = self.release_dates[i].to_string();
            schedule.append("\t");
            schedule.append(line.as_str());
            schedule.append(",\n");
            i = i + 1;
        }
        assert(views.take(i as int) =~= views);
        let mut out: String = String::from_str("schema_version: ");
        out.append(self.schema_version.as_str());
        out.append("\n");
        out.append("racer_path: ");
        out.append(self.racer_path.as_str());
        out.append("\n");
        out.append("source_url: ");
        out.append(self.source_url.as_str());
        out.append("\n");
        out.append("subscribe_url: ");
        out.append(self.subscribe_url.as_str());
        out.append("\n");
        out.append("anchor_date: ");
        out.append(anchor.as_str());
        out.append("\n");
        out.append("first_pubdate: ");
        out.append(first.as_str());
        out.append("\n");
        out.append("rate: ");
        out.append(rate.as_str());
        out.append("\n");
        out.append("release_dates {\n");
        out.append(schedule.as_str());
        out.append("}\n");
        out
    }

    /// Whether the record is consistent.
    pub open spec fn wf(&self) -> bool {
        self@.wf()
    }

    /// Whether the record is consistent.
    pub fn is_well_formed(&self) -> (r: bool)
        ensures
            r == self.wf(),
    {
        let paused: bool = self.pause_date.is_some();
        if self.rate.den == 0 || paused != self.old_rate.is_some() {
            return false;
        }
        if !paused && !self.rate.positive() {
            return false;
        }
        if paused && self.rate.num != 0 {
            return false;
        }
        match self.old_rate {
            Some(p) => if !p.positive() {
                return false;
            },
            None => {},
        }
        match self.pause_date {
            Some(t) => if !instant_in_range(t) {
                return false;
            },
            None => {},
        }
        if !instant_in_range(self.anchor_date) || !instant_in_range(self.first_pubdate) {
            return false;
        }
        let mut i: usize = 0;
        while i < self.release_dates.len()
            invariant
                i <= self.release_dates.len(),
                forall|k: int|
                    0 <= k < i ==> {
                        &&& (#[trigger] self@.release_dates[k]).ep_num == k + 1
                        &&& is_instant(self@.release_dates[k].date as int)
                    },
            decreases self.release_dates.len() - i,
        {
            assert(self@.release_dates[i as int] == self.release_dates[i as int]@);
            if self.release_dates[i].ep_num != (i as u64) + 1 || !instant_in_range(
                self.release_dates[i].date,
            ) {
                return false;
            }
            i = i + 1;
        }
        true
    }

    /// The pace that release instants are derived with.
    pub fn effective_pace(&self) -> (r: Pace)
        requires
            self.wf(),
        ensures
            r == self@.effective_pace(),
            r.is_positive(),
    {
        if self.rate.positive() {
            self.rate
        } else {
            match self.old_rate {
                Some(p) => p,
                None => Pace::unit(),
            }
        }
    }

    /// The instant that decides what is due.
    pub fn clock(&self, now: i64) -> (r: i64)
        ensures
            r == self@.clock(now),
    {
        match self.pause_date {
            Some(t) => t,
            None => now,
        }
    }

    /// The original instant that elapsed time is counted from.
    pub fn get_first_pubdate(&self) -> (r: i64)
        ensures
            r == self@.first_pubdate,
    {
        self.first_pubdate
    }

    /// Where listeners fetch the derived document.
    pub fn get_subscribe_url(&self) -> (r: &str)
        ensures
            r@ == self@.subscribe_url,
    {
        self.subscribe_url.as_str()
    }

    /// The origin of the derived timeline.
    pub fn get_anchor_date(&self) -> (r: i64)
        ensures
            r == self@.anchor_date,
    {
        self.anchor_date
    }

    /// The directory that holds the feed's files.
    pub fn get_racer_path(&self) -> (r: &str)
        ensures
            r@ == self@.racer_path,
    {
        self.racer_path.as_str()
    }

    /// The podcast's title, or `NONE` while it is not known.
    pub fn get_podcast_title(&self) -> (r: String)
        ensures
            r@ == (match self@.podcast_title {
                Some(t) => t,
                None => "NONE"@,
            }),
    {
        match &self.podcast_title {
            Some(t) => t.clone(),
            None => String::from_str("NONE"),
        }
    }

    /// Where the upstream document is fetched from.
    pub fn get_source_url(&self) -> (r: &str)
        ensures
            r@ == self@.source_url,
    {
        self.source_url.as_str()
    }

    /// The pace, or the mark of a paused feed.
    pub fn get_rate(&self) -> (r: Pace)
        ensures
            r == self@.rate,
    {
        self.rate
    }

    /// The pace to go back to, while the feed is paused.
    pub fn get_old_rate(&self) -> (r: Option<Pace>)
        ensures
            r == self@.old_rate,
    {
        self.old_rate
    }

    /// Since when the feed is paused.
    pub fn get_pause_date(&self) -> (r: Option<i64>)
        ensures
            r == self@.pause_date,
    {
        self.pause_date
    }

    /// The feed's identifier.
    pub fn get_uuid(&self) -> (r: &String)
        ensures
            r@ == self@.uuid,
    {
        &self.uuid
    }

    /// The feed's identifier, as a text of its own.
    pub fn get_uuid_string(&self) -> (r: String)
        ensures
            r@ == self@.uuid,
    {
        self.uuid.clone()
    }

    /// How many episodes the schedule holds.
    pub fn get_num_episodes(&self) -> (r: usize)
        ensures
            r == self@.release_dates.len(),
    {
        self.release_dates.len()
    }

    /// How many episodes are due at `now`: released strictly before it, or
    /// before the pause for a paused feed.
    pub fn get_num_to_publish(&self, now: i64) -> (r: usize)
        ensures
            r == self@.due(now),
            r <= self@.release_dates.len(),
    {
        count_due(&self.release_dates, self.clock(now))
    }
}

} // verus!
