//! The schedule of a feed: one episode per entry, in ascending order, each
//! with its number and its derived release instant; and the choice of the
//! episodes that are due at an instant.

use vstd::prelude::*;
use crate::dates::{instant_text, make_instant_text};
use crate::error::RacerError;
use crate::feed::{entry_views, Entry, EntryView};
use crate::order::is_ascending;
use crate::pace::{derive_instant, derived, lemma_derived_monotone, Pace};
use crate::text::{decimal, decimal_text, join};
use crate::time::is_instant;

verus! {

/// When one episode is released.
#[derive(Debug)]
pub struct RacerEpisode {
    /// The episode's number; the oldest entry is number 1.
    pub ep_num: u64,
    /// The derived release instant.
    pub date: i64,
    /// The entry's title.
    pub title: String,
}

/// What a `RacerEpisode` holds.
pub struct EpisodeView {
    pub ep_num: nat,
    pub date: i64,
    pub title: Seq<char>,
}

impl View for RacerEpisode {
    type V = EpisodeView;

    open spec fn view(&self) -> EpisodeView {
        EpisodeView { ep_num: self.ep_num as nat, date: self.date, title: self.title@ }
    }
}

/// An episode as a line of text.
pub open spec fn episode_text(episode: EpisodeView) -> Seq<char> {
    "ep_num: "@ + decimal(episode.ep_num) + ", date: "@ + instant_text(episode.date) + ", title: "@
        + episode.title
}

impl RacerEpisode {
    /// The episode as a line of text: its number, its release and its title.
    pub fn to_string(&self) -> (r: String)
        ensures
            r@ == episode_text(self@),
    {
        let number: String = decimal_text(self.ep_num);
        let date: String = make_instant_text(self.date);
        let mut out: String = join("ep_num: ", number.as_str());
        out.append(", date: ");
        out.append(date.as_str());
        out.append(", title: ");
        out.append(self.title.as_str());
        out
    }

    /// A copy of the episode.
    pub fn copy(&self) -> (r: RacerEpisode)
        ensures
            r@ == self@,
    {
        RacerEpisode { ep_num: self.ep_num, date: self.date, title: self.title.clone() }
    }
}

/// The views of a sequence of episodes.
pub open spec fn episode_views(episodes: Seq<RacerEpisode>) -> Seq<EpisodeView> {
    Seq::new(episodes.len(), |i: int| episodes[i]@)
}

/// The release instants of a schedule.
pub open spec fn release_instants(episodes: Seq<EpisodeView>) -> Seq<i64> {
    Seq::new(episodes.len(), |i: int| episodes[i].date)
}

/// The title an episode is listed under: the entry's own, or a stand-in.
pub open spec fn listed_title(title: Option<Seq<char>>) -> Seq<char> {
    match title {
        Some(t) => t,
        None => "[no title]"@,
    }
}

/// Whether every entry's derived release instant is one the library works on.
pub open spec fn all_derivable(originals: Seq<i64>, reference: i64, anchor: i64, pace: Pace) -> bool {
    forall|i: int|
        0 <= i < originals.len() ==> is_instant(
            derived(#[trigger] originals[i] as int, reference as int, anchor as int, pace),
        )
}

/// The schedule of the given entries: episode `i + 1` is entry `i`, released
/// at its derived instant.
pub open spec fn planned(
    entries: Seq<EntryView>,
    originals: Seq<i64>,
    reference: i64,
    anchor: i64,
    pace: Pace,
) -> Seq<EpisodeView>
    recommends
        entries.len() == originals.len(),
{
    Seq::new(
        originals.len(),
        |i: int|
            EpisodeView {
                ep_num: (i + 1) as nat,
                date: derived(originals[i] as int, reference as int, anchor as int, pace) as i64,
                title: listed_title(entries[i].title),
            },
    )
}

/// A schedule made from ascending instants ascends.
pub proof fn lemma_planned_ascends(
    entries: Seq<EntryView>,
    originals: Seq<i64>,
    reference: i64,
    anchor: i64,
    pace: Pace,
)
    requires
        pace.is_positive(),
        is_ascending(originals),
        all_derivable(originals, reference, anchor, pace),
    ensures
        is_ascending(release_instants(planned(entries, originals, reference, anchor, pace))),
{
    let dates: Seq<i64> = release_instants(planned(entries, originals, reference, anchor, pace));
    assert forall|i: int, j: int| 0 <= i < j < dates.len() implies dates[i] <= dates[j] by {
        lemma_derived_monotone(
            originals[i] as int,
            originals[j] as int,
            reference as int,
            anchor as int,
            pace,
        );
        assert(is_instant(derived(originals[i] as int, reference as int, anchor as int, pace)));
        assert(is_instant(derived(originals[j] as int, reference as int, anchor as int, pace)));
    }
}

/// Makes the schedule of the given entries, which the caller hands over in
/// ascending order of their original instants. Fails with `OutOfRange` where
/// a derived instant leaves the range the library works on.
pub fn plan(
    entries: &Vec<Entry>,
    originals: &Vec<i64>,
    reference: i64,
    anchor: i64,
    pace: Pace,
) -> (r: Result<Vec<RacerEpisode>, RacerError>)
    requires
        pace.is_positive(),
        entries.len() == originals.len(),
        is_instant(reference as int),
        is_instant(anchor as int),
        forall|i: int| 0 <= i < originals.len() ==> is_instant(#[trigger] originals[i] as int),
    ensures
        all_derivable(originals@, reference, anchor, pace) ==> r.is_ok() && episode_views(
            r.unwrap()@,
        ) == planned(entry_views(entries@), originals@, reference, anchor, pace),
        !all_derivable(originals@, reference, anchor, pace) ==> r == Err::<
            Vec<RacerEpisode>,
            RacerError,
        >(RacerError::OutOfRange),
{
    let mut episodes: Vec<RacerEpisode> = Vec::new();
    let mut i: usize = 0;
    while i < originals.len()
        invariant
            pace.is_positive(),
            entries.len() == originals.len(),
            is_instant(reference as int),
            is_instant(anchor as int),
            forall|k: int| 0 <= k < originals.len() ==> is_instant(#[trigger] originals[k] as int),
            i <= originals.len(),
            episodes.len() == i,
            forall|k: int|
                0 <= k < i ==> is_instant(
                    derived(#[trigger] originals[k] as int, reference as int, anchor as int, pace),
                ),
            forall|k: int|
                0 <= k < i ==> (#[trigger] episodes[k])@ == planned(
                    entry_views(entries@),
                    originals@,
                    reference,
                    anchor,
                    pace,
                )[k],
        decreases originals.len() - i,
    {
        let date: i64 = match derive_instant(originals[i], reference, anchor, pace) {
            Some(t) => t,
            None => {
                return Err(RacerError::OutOfRange);
            },
        };
        let title: String = match &entries[i].title {
            Some(t) => t.clone(),
            None => String::from_str("[no title]"),
        };
        assert(entry_views(entries@)[i as int] == entries[i as int]@);
        episodes.push(RacerEpisode { ep_num: (i as u64) + 1, date, title });
        i = i + 1;
    }
    assert(episode_views(episodes@) =~= planned(
        entry_views(entries@),
        originals@,
        reference,
        anchor,
        pace,
    ));
    Ok(episodes)
}

/// How many of the instants are strictly before `at`.
pub open spec fn due_count(dates: Seq<i64>, at: i64) -> nat
    decreases dates.len(),
{
    if dates.len() == 0 {
        0
    } else {
        due_count(dates.drop_last(), at) + if dates.last() < at {
            1nat
        } else {
            0nat
        }
    }
}

/// No more instants are due than there are.
pub proof fn lemma_due_count_bound(dates: Seq<i64>, at: i64)
    ensures
        due_count(dates, at) <= dates.len(),
    decreases dates.len(),
{
    if dates.len() > 0 {
        lemma_due_count_bound(dates.drop_last(), at);
    }
}

/// In an ascending schedule the due instants are the first ones: an instant
/// is due exactly if its position is below the count.
pub proof fn lemma_due_is_prefix(dates: Seq<i64>, at: i64)
    requires
        is_ascending(dates),
    ensures
        due_count(dates, at) <= dates.len(),
        forall|i: int| 0 <= i < dates.len() ==> ((#[trigger] dates[i]) < at <==> i < due_count(dates, at)),
    decreases dates.len(),
{
    if dates.len() > 0 {
        let front: Seq<i64> = dates.drop_last();
        assert(is_ascending(front)) by {
            assert forall|i: int, j: int| 0 <= i < j < front.len() implies front[i] <= front[j] by {
                assert(front[i] == dates[i] && front[j] == dates[j]);
            }
        }
        lemma_due_is_prefix(front, at);
        assert forall|i: int| 0 <= i < dates.len() implies ((#[trigger] dates[i]) < at <==> i < due_count(
            dates,
            at,
        )) by {
            if i < front.len() {
                assert(front[i] == dates[i]);
                assert(dates[i] <= dates.last());
            }
            if front.len() > 0 {
                assert(front[front.len() - 1] == dates[front.len() - 1]);
                assert(dates[front.len() - 1] <= dates.last());
            }
        }
    }
}

/// A later instant never has fewer episodes due.
pub proof fn lemma_due_count_monotone(dates: Seq<i64>, earlier: i64, later: i64)
    requires
        earlier <= later,
    ensures
        due_count(dates, earlier) <= due_count(dates, later),
    decreases dates.len(),
{
    if dates.len() > 0 {
        lemma_due_count_monotone(dates.drop_last(), earlier, later);
    }
}

/// How many episodes of the schedule are due at `at`: released strictly
/// before it.
pub fn count_due(episodes: &Vec<RacerEpisode>, at: i64) -> (r: usize)
    ensures
        r == due_count(release_instants(episode_views(episodes@)), at),
        r <= episodes.len(),
{
    let ghost dates: Seq<i64> = release_instants(episode_views(episodes@));
    let mut count: usize = 0;
    let mut i: usize = 0;
    while i < episodes.len()
        invariant
            i <= episodes.len(),
            count <= i,
            dates == release_instants(episode_views(episodes@)),
            count == due_count(dates.take(i as int), at),
        decreases episodes.len() - i,
    {
        proof {
            assert(dates.take(i + 1).drop_last() =~= dates.take(i as int));
            assert(dates.take(i + 1).last() == episodes[i as int].date);
        }
        if episodes[i].date < at {
            count = count + 1;
        }
        i = i + 1;
    }
    assert(dates.take(i as int) =~= dates);
    count
}

} // verus!
