//! What the web layer asks of the library: the settings of a server, the
//! forms of its pages and the texts it answers with.

use vstd::prelude::*;
use crate::arith::div_floor;
use crate::control::next_episode;
use crate::dates::{format_rfc2822, instant_text, make_instant_text, rfc2822_text};
use crate::error::RacerError;
use crate::feed::{Document, DocumentView};
use crate::intake::{entry_instant, read_entry_instant};
use crate::lookup::{racer_name, racer_views};
use crate::pace::{make_pace_text, pace_text, Pace};
use crate::state::{FeedRacer, RacerView};
use crate::text::{decimal, decimal_text, join};
use crate::time::{instant_in_range, is_instant, SECONDS_PER_DAY};

verus! {

/// The settings of a server.
#[derive(Debug)]
pub struct RocketConfig {
    /// The directory of the files served as they are.
    pub static_file_dir: String,
    /// The directory that holds one directory per feed.
    pub podracer_dir: String,
    /// The name under which the server is reached.
    pub host: String,
    /// The port under which the server is reached.
    pub port: u32,
}

/// How many minutes lie between two passes over all feeds.
#[derive(Clone, Copy, Debug, PartialEq, Eq, Structural)]
pub struct UpdateFactor(pub u32);

/// What the page of a feed can ask for.
#[derive(Clone, Copy, Debug, PartialEq, Eq, Structural)]
pub enum FeedAction {
    EditFeed,
    EditRate,
    EditRateDays,
    Pause,
    Unpause,
    FastForwardDays,
    RewindDays,
    FastForwardEps,
    RewindEps,
    PublishNextEp,
}

/// How a pace is given: as a ratio, or as the number of days in which the
/// backlog is to be worked through.
#[derive(Clone, Copy, Debug, PartialEq, Eq, Structural)]
pub enum RacerType {
    Ratio(Pace),
    Days(u32),
}

/// The seconds between two passes over all feeds where no factor is set.
pub const DEFAULT_UPDATE_SECONDS: u32 = 3540;

impl UpdateFactor {
    /// The seconds between two passes over all feeds: sixty for each minute
    /// of the factor, as far as that can be counted; the default where no
    /// factor is set.
    pub fn interval_seconds(factor: Option<UpdateFactor>) -> (r: u32)
        ensures
            r == (match factor {
                Some(f) => if f.0 * 60 <= u32::MAX {
                    f.0 * 60
                } else {
                    u32::MAX as int
                },
                None => DEFAULT_UPDATE_SECONDS as int,
            }),
    {
        match factor {
            Some(f) => if f.0 <= u32::MAX / 60 {
                f.0 * 60
            } else {
                u32::MAX
            },
            None => DEFAULT_UPDATE_SECONDS,
        }
    }
}

/// The pace that a form gives, which names it either as a ratio or in days:
/// `InvalidParameter` where it names both or neither, or one that is not
/// positive.
pub open spec fn validated_rate(rate_ratio: Option<Pace>, rate_days: Option<u32>) -> Result<
    RacerType,
    RacerError,
> {
    match (rate_ratio, rate_days) {
        (Some(ratio), None) => if ratio.is_positive() {
            Ok(RacerType::Ratio(ratio))
        } else {
            Err(RacerError::InvalidParameter)
        },
        (None, Some(days)) => if days > 0 {
            Ok(RacerType::Days(days))
        } else {
            Err(RacerError::InvalidParameter)
        },
        _ => Err(RacerError::InvalidParameter),
    }
}

/// The pace that a form gives.
pub fn rate_validator(rate_ratio: &Option<Pace>, rate_days: &Option<u32>) -> (r: Result<
    RacerType,
    RacerError,
>)
    ensures
        r == validated_rate(*rate_ratio, *rate_days),
{
    match (rate_ratio, rate_days) {
        (Some(ratio), None) => if ratio.positive() {
            Ok(RacerType::Ratio(*ratio))
        } else {
            Err(RacerError::InvalidParameter)
        },
        (None, Some(days)) => if *days > 0 {
            Ok(RacerType::Days(*days))
        } else {
            Err(RacerError::InvalidParameter)
        },
        _ => Err(RacerError::InvalidParameter),
    }
}

/// The address of a server: scheme, name and port.
pub open spec fn server_address(host: Seq<char>, port: u32) -> Seq<char> {
    "http://"@ + host + ":"@ + decimal(port as nat)
}

/// The address of the server.
pub fn get_hostname_and_port(config: &RocketConfig) -> (r: Option<String>)
    ensures
        r.is_some(),
        r.unwrap()@ == server_address(config.host@, config.port),
{
    let mut out: String = join("http://", config.host.as_str());
    out.append(":");
    let port: String = decimal_text(config.port as u64);
    out.append(port.as_str());
    Some(out)
}

/// What the list of feeds says of one feed.
pub open spec fn listed(s: RacerView) -> Seq<char> {
    "Podcast: "@ + (match s.podcast_title {
        Some(t) => t,
        None => "NONE"@,
    }) + "\tpodcast folder: \""@ + racer_name(s.racer_path) + "\"\n"@ + "\tsubscribe_url: "@
        + s.subscribe_url + "\n"@ + "\tsource_url: "@ + s.source_url + "\n"@ + "\tfirst_pubdate: "@
        + instant_text(s.first_pubdate) + "\n"@ + "\tanchor_date: "@ + instant_text(s.anchor_date)
        + "\n"@ + "\trate: "@ + pace_text(s.rate) + "\n"@ + "\n"@
}

/// The list of feeds: what is said of each, one after the other.
pub open spec fn listing(racers: Seq<RacerView>) -> Seq<char>
    decreases racers.len(),
{
    if racers.len() == 0 {
        Seq::empty()
    } else {
        listing(racers.drop_last()) + listed(racers.last())
    }
}

/// What the list of feeds says of one feed.
pub fn list_feed(racer: &FeedRacer) -> (r: String)
    ensures
        r@ == listed(racer@),
{
    let title: String = racer.get_podcast_title();
    let name: String = racer.get_racer_name();
    let first: String = make_instant_text(racer.first_pubdate);
    let anchor: String = make_instant_text(racer.anchor_date);
    let rate: String = make_pace_text(racer.rate);
    let mut out: String = join("Podcast: ", title.as_str());
    out.append("\tpodcast folder: \"");
    out.append(name.as_str());
    out.append("\"\n");
    out.append("\tsubscribe_url: ");
    out.append(racer.subscribe_url.as_str());
    out.append("\n");
    out.append("\tsource_url: ");
    out.append(racer.source_url.as_str());
    out.append("\n");
    out.append("\tfirst_pubdate: ");
    out.append(first.as_str());
    out.append("\n");
    out.append("\tanchor_date: ");
    out.append(anchor.as_str());
    out.append("\n");
    out.append("\trate: ");
    out.append(rate.as_str());
    out.append("\n");
    out.append("\n");
    out
}

/// The list of the feeds of a server.
pub fn list_feeds_handler(racers: &Vec<FeedRacer>) -> (r: String)
    ensures
        r@ == listing(racer_views(racers@)),
{
    let ghost views: Seq<RacerView> = racer_views(racers@);
    let mut out: String = String::new();
    let mut i: usize = 0;
    assert(views.take(0) =~= Seq::<RacerView>::empty());
    while i < racers.len()
        invariant
            i <= racers.len(),
            views == racer_views(racers@),
            out@ == listing(views.take(i as int)),
        decreases racers.len() - i,
    {
        proof {
            assert(views.take(i + 1).drop_last() =~= views.take(i as int));
            assert(views.take(i + 1).last() == racers[i as int]@);
        }
        let one: String = list_feed(&racers[i]);
        out.append(one.as_str());
        i = i + 1;
    }
    assert(views.take(i as int) =~= views);
    out
}

/// What a listener is told when a feed is set up.
#[derive(Debug)]
pub struct FeedFunFacts {
    /// How many episodes wait after the first one.
    pub num_items: usize,
    /// How many whole weeks lie between the first release and now.
    pub weeks_behind: i64,
    /// How many weeks it takes to work through them at the feed's pace.
    pub weeks_to_catch_up: u32,
    /// How many days it takes to work through the backlog at the feed's pace.
    pub days_to_catch_up: u32,
    /// The instant at which the listener has caught up.
    pub catch_up_date: i64,
    /// Where listeners fetch the derived document.
    pub subscribe_url: String,
    /// The feed's identifier.
    pub uuid: String,
}

/// The seconds in one week.
pub const SECONDS_PER_WEEK: i64 = 604_800;

/// The time between two instants, in whole units of `unit` seconds.
pub open spec fn whole_units(first: i64, now: i64, unit: int) -> int
    recommends
        unit > 0,
{
    if now >= first {
        (now - first) / unit
    } else {
        (first - now) / unit
    }
}

/// How long `behind` units take at the given pace, in whole units; nothing
/// at a pace that is not positive, and no more than can be counted.
pub open spec fn catch_up_units(behind: int, pace: Pace) -> int {
    if pace.is_positive() && behind >= 0 {
        if (behind * pace.den) / (pace.num as int) <= u32::MAX {
            (behind * pace.den) / (pace.num as int)
        } else {
            u32::MAX as int
        }
    } else {
        0
    }
}

/// The time between two instants, in whole units of `unit` seconds.
fn units_between(first: i64, now: i64, unit: i64) -> (r: i64)
    requires
        is_instant(first as int),
        is_instant(now as int),
        unit > 0,
    ensures
        r == whole_units(first, now, unit as int),
        0 <= r <= 0x1_0000_0000_0000,
{
    let gap: i64 = if now >= first {
        now - first
    } else {
        first - now
    };
    let r: i64 = gap / unit;
    assert(0 <= (gap as int) / (unit as int) <= gap) by (nonlinear_arith)
        requires
            gap >= 0,
            unit > 0,
    ;
    r
}

/// How long `behind` units take at the given pace.
fn units_to_catch_up(behind: i64, pace: Pace) -> (r: u32)
    requires
        0 <= behind <= 0x1_0000_0000_0000,
    ensures
        r == catch_up_units(behind as int, pace),
{
    if !pace.positive() {
        return 0;
    }
    assert(0 <= (behind as int) * (pace.den as int) <= 0x1_0000_0000_0000_0000_0000) by (nonlinear_arith)
        requires
            0 <= behind <= 0x1_0000_0000_0000,
            0 < pace.den <= 0xffff_ffff,
    ;
    let q: i128 = div_floor((behind as i128) * (pace.den as i128), pace.num as i128);
    if q <= 0xffff_ffff {
        proof {
            crate::arith::lemma_div_bounds((behind as int) * (pace.den as int), pace.num as int);
            assert(q >= 0) by (nonlinear_arith)
                requires
                    (behind as int) * (pace.den as int) < ((q as int) + 1) * (pace.num as int),
                    (behind as int) * (pace.den as int) >= 0,
                    pace.num > 0,
            ;
        }
        q as u32
    } else {
        u32::MAX
    }
}

/// What a listener is told when a feed is set up, from the number of entries
/// of the upstream document and the number of the first episode.
pub fn fun_facts(racer: &FeedRacer, item_count: usize, start_ep: usize, now: i64) -> (r: FeedFunFacts)
    requires
        racer.wf(),
        is_instant(now as int),
    ensures
        r.num_items == (if start_ep <= item_count {
            item_count - start_ep
        } else {
            0
        }),
        r.weeks_behind == whole_units(racer@.first_pubdate, now, SECONDS_PER_WEEK as int),
        r.weeks_to_catch_up == catch_up_units(r.weeks_behind as int, racer@.rate),
        r.days_to_catch_up == catch_up_units(
            whole_units(racer@.first_pubdate, now, SECONDS_PER_DAY as int),
            racer@.rate,
        ),
        r.catch_up_date == now + r.weeks_to_catch_up * SECONDS_PER_WEEK,
        r.subscribe_url@ == racer@.subscribe_url,
        r.uuid@ == racer@.uuid,
{
    let weeks_behind: i64 = units_between(racer.first_pubdate, now, SECONDS_PER_WEEK);
    let days_behind: i64 = units_between(racer.first_pubdate, now, SECONDS_PER_DAY);
    let weeks_to_catch_up: u32 = units_to_catch_up(weeks_behind, racer.rate);
    let days_to_catch_up: u32 = units_to_catch_up(days_behind, racer.rate);
    FeedFunFacts {
        num_items: if start_ep <= item_count {
            item_count - start_ep
        } else {
            0
        },
        weeks_behind,
        weeks_to_catch_up,
        days_to_catch_up,
        catch_up_date: now + (weeks_to_catch_up as i64) * SECONDS_PER_WEEK,
        subscribe_url: racer.subscribe_url.clone(),
        uuid: racer.uuid.clone(),
    }
}

/// The whole weeks from `now` to `instant`: negative for an instant that is
/// past, and rounded towards nothing.
pub open spec fn weeks_until(instant: i64, now: i64) -> int {
    if instant >= now {
        (instant - now) / (SECONDS_PER_WEEK as int)
    } else {
        -((now - instant) / (SECONDS_PER_WEEK as int))
    }
}

/// How far the last entry of a document lies from `now`, in whole weeks.
/// `InvalidParameter` for a document without entries.
pub open spec fn time_behind(doc: DocumentView, now: i64) -> Result<i64, RacerError> {
    if doc.entries.len() == 0 {
        Err(RacerError::InvalidParameter)
    } else if !is_instant(now as int) {
        Err(RacerError::OutOfRange)
    } else {
        match entry_instant(doc.entries.last()) {
            Ok(t) => Ok(weeks_until(t, now) as i64),
            Err(e) => Err(e),
        }
    }
}

/// How far the last entry of a document lies from `now`, in whole weeks.
pub fn get_time_behind(doc: &Document, now: i64) -> (r: Result<i64, RacerError>)
    ensures
        r == time_behind(doc@, now),
{
    let count: usize = doc.entries.len();
    if count == 0 {
        return Err(RacerError::InvalidParameter);
    }
    if !instant_in_range(now) {
        return Err(RacerError::OutOfRange);
    }
    assert(doc@.entries.last() == doc.entries[count - 1]@);
    match read_entry_instant(&doc.entries[count - 1]) {
        Ok(t) => {
            if t >= now {
                Ok((t - now) / SECONDS_PER_WEEK)
            } else {
                Ok(-((now - t) / SECONDS_PER_WEEK))
            }
        },
        Err(e) => Err(e),
    }
}

/// What the page of a feed says of the next release: that the feed has
/// caught up, that it is paused, or when the next episode is released.
pub open spec fn next_release_text(s: RacerView, now: i64) -> Seq<char> {
    if next_episode(s, now) >= s.release_dates.len() {
        "Caught up, whenever they publish another one"@
    } else if s.paused() {
        "Feed paused, unpause to publish next episode"@
    } else {
        rfc2822_text(s.release_dates[next_episode(s, now)].date)
    }
}

/// What the page of a feed says of the next release.
pub fn next_pub_date_string(racer: &FeedRacer, now: i64) -> (r: String)
    requires
        racer.wf(),
    ensures
        r@ == next_release_text(racer@, now),
{
    let next: usize = racer.get_next_episode_num(now);
    if next >= racer.release_dates.len() {
        String::from_str("Caught up, whenever they publish another one")
    } else if racer.pause_date.is_some() {
        String::from_str("Feed paused, unpause to publish next episode")
    } else {
        assert(is_instant(racer@.release_dates[next as int].date as int));
        format_rfc2822(racer.release_dates[next].date)
    }
}

} // verus!
