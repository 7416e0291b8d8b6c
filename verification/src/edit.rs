//! Carrying out what the page of a feed asks for, and saying what was done.

use vstd::prelude::*;
use crate::control::{advanced, next_episode, paused_at, published, repaced, resumed_at, set_back, slid};
use crate::error::RacerError;
use crate::feed::{Document, DocumentView};
use crate::pace::{make_pace_text, pace_text, Pace};
use crate::server::FeedAction;
use crate::state::{FeedRacer, RacerView};
use crate::text::{decimal, decimal_text, join};
use crate::time::{instant_in_range, is_instant, SECONDS_PER_DAY};

verus! {

/// What the form of a new feed holds.
#[derive(Debug)]
pub struct CreateFeedForm {
    /// The address of the upstream document.
    pub url: String,
    /// The pace as a ratio, where it is given so.
    pub rate_ratio: Option<Pace>,
    /// The pace in days, where it is given so.
    pub rate_days: Option<u32>,
    /// The number of the episode that is released first.
    pub start_ep: usize,
}

/// What the form on the page of a feed holds.
#[derive(Debug)]
pub struct EditFeedForm {
    /// The feed's identifier.
    pub uuid: String,
    /// What is asked for.
    pub racer_action: FeedAction,
    /// By how many days or episodes the timeline is to slide.
    pub slide_units: Option<usize>,
    /// The new pace in days.
    pub rate_days: Option<u32>,
    /// The new pace as a ratio.
    pub rate_ratio: Option<Pace>,
    /// The number of the episode to release at once.
    pub next_episode_num: Option<usize>,
}

/// What carrying out a request gives back.
#[derive(Debug)]
pub struct Edited {
    /// The derived document, where the request changed the feed.
    pub document: Option<Document>,
    /// What the page says was done.
    pub top_text: Option<String>,
}

/// What carrying out a request gives.
pub struct EditOutcome {
    pub record: RacerView,
    pub document: Option<DocumentView>,
    pub top_text: Option<Seq<char>>,
}

/// The whole days between the instant elapsed time is counted from and `now`.
pub open spec fn backlog_days(first: i64, now: i64) -> int {
    if now >= first {
        (now - first) / (SECONDS_PER_DAY as int)
    } else {
        (first - now) / (SECONDS_PER_DAY as int)
    }
}

/// The pace that works through the backlog of a feed in `days` days.
/// `InvalidParameter` where the backlog is less than a day or `days` is 0.
pub open spec fn days_pace(first: i64, days: u32, now: i64) -> Result<Pace, RacerError> {
    if 0 < backlog_days(first, now) <= u32::MAX && days > 0 {
        Ok(Pace { num: backlog_days(first, now) as u32, den: days })
    } else {
        Err(RacerError::InvalidParameter)
    }
}

/// What the page says after a change of pace.
pub open spec fn rate_text(old: Pace, new: Pace) -> Seq<char> {
    "Rate has been changed. Old rate: "@ + pace_text(old) + ", new rate: "@ + pace_text(new) + "."@
}

/// What the page says after a pause.
pub open spec fn pause_text() -> Seq<char> {
    "Feed has been paused. No new episodes will be published until you unpause this feed."@
}

/// What the page says after a resumption.
pub open spec fn unpause_text(paused_for: int) -> Seq<char> {
    "Feed has been unpaused (paused for "@ + decimal(
        if paused_for > 0 {
            (paused_for / (SECONDS_PER_DAY as int)) as nat
        } else {
            0nat
        },
    ) + " days)."@
}

/// What the page says after an episode was released at once.
pub open spec fn publish_text() -> Seq<char> {
    "Feed has been fast forwarded to the next episode."@
}

/// What the page says after the timeline slid: `done` names the direction,
/// `unit` what was counted.
pub open spec fn slide_text(done: Seq<char>, count: nat, unit: Seq<char>) -> Seq<char> {
    "Feed has been "@ + done + " "@ + decimal(count) + " "@ + unit + (if count == 1 {
        ""@
    } else {
        "s"@
    }) + "."@
}

/// The outcome of an operation with what the page says of it.
pub open spec fn reported(outcome: Result<(RacerView, DocumentView), RacerError>, text: Seq<char>) -> Result<
    EditOutcome,
    RacerError,
> {
    match outcome {
        Ok((record, document)) => Ok(
            EditOutcome { record, document: Some(document), top_text: Some(text) },
        ),
        Err(e) => Err(e),
    }
}

/// The outcome of a change of pace with what the page says of it.
pub open spec fn rate_reported(old: Pace, outcome: Result<(RacerView, DocumentView), RacerError>) -> Result<
    EditOutcome,
    RacerError,
> {
    match outcome {
        Ok((record, document)) => Ok(
            EditOutcome {
                record,
                document: Some(document),
                top_text: Some(rate_text(old, record.rate)),
            },
        ),
        Err(e) => Err(e),
    }
}

/// What carrying out a request gives. A request that lacks what it needs
/// fails with `InvalidParameter`; else it gives what its operation gives.
pub open spec fn edited(
    s: RacerView,
    action: FeedAction,
    slide_units: Option<usize>,
    rate_days: Option<u32>,
    rate_ratio: Option<Pace>,
    next_episode_num: Option<usize>,
    doc: DocumentView,
    now: i64,
) -> Result<EditOutcome, RacerError> {
    match action {
        FeedAction::EditFeed => Ok(EditOutcome { record: s, document: None, top_text: None }),
        FeedAction::EditRate => match rate_ratio {
            Some(pace) => rate_reported(s.rate, repaced(s, pace, doc, now)),
            None => Err(RacerError::InvalidParameter),
        },
        FeedAction::EditRateDays => match rate_days {
            Some(days) => if !is_instant(now as int) {
                Err(RacerError::OutOfRange)
            } else {
                match days_pace(s.first_pubdate, days, now) {
                    Ok(pace) => rate_reported(s.rate, repaced(s, pace, doc, now)),
                    Err(e) => Err(e),
                }
            },
            None => Err(RacerError::InvalidParameter),
        },
        FeedAction::Pause => reported(paused_at(s, doc, now), pause_text()),
        FeedAction::Unpause => reported(
            resumed_at(s, doc, now),
            unpause_text(now - s.pause_date.unwrap()),
        ),
        FeedAction::PublishNextEp => reported(
            match next_episode_num {
                Some(num) => published(s, num as int, doc, now),
                None => published(s, next_episode(s, now) + 1, doc, now),
            },
            publish_text(),
        ),
        FeedAction::RewindDays => match slide_units {
            Some(days) => reported(
                slid(s, days * SECONDS_PER_DAY, doc, now),
                slide_text("rewound"@, days as nat, "day"@),
            ),
            None => Err(RacerError::InvalidParameter),
        },
        FeedAction::FastForwardDays => match slide_units {
            Some(days) => reported(
                slid(s, -(days * SECONDS_PER_DAY), doc, now),
                slide_text("fast forwarded"@, days as nat, "day"@),
            ),
            None => Err(RacerError::InvalidParameter),
        },
        FeedAction::RewindEps => match slide_units {
            Some(count) => reported(
                set_back(s, count as int, doc, now),
                slide_text("rewound"@, count as nat, "episode"@),
            ),
            None => Err(RacerError::InvalidParameter),
        },
        FeedAction::FastForwardEps => match slide_units {
            Some(count) => reported(
                advanced(s, count as int, doc, now),
                slide_text("fast forwarded"@, count as nat, "episode"@),
            ),
            None => Err(RacerError::InvalidParameter),
        },
    }
}

/// Whether a request did to the record `before` what `outcome` says.
pub open spec fn request_done(
    before: RacerView,
    after: RacerView,
    r: Result<Edited, RacerError>,
    outcome: Result<EditOutcome, RacerError>,
) -> bool {
    match outcome {
        Ok(o) => {
            &&& r.is_ok()
            &&& after == o.record
            &&& (match r.unwrap().document {
                Some(d) => Some(d@),
                None => None,
            }) == o.document
            &&& (match r.unwrap().top_text {
                Some(t) => Some(t@),
                None => None,
            }) == o.top_text
        },
        Err(e) => r.is_err() && r.unwrap_err() == e && after == before,
    }
}

/// The pace that works through the backlog of a feed in `days` days.
pub fn pace_for_days(first: i64, days: u32, now: i64) -> (r: Result<Pace, RacerError>)
    requires
        is_instant(first as int),
        is_instant(now as int),
    ensures
        r == days_pace(first, days, now),
{
    let gap: i64 = if now >= first {
        now - first
    } else {
        first - now
    };
    let backlog: i64 = gap / SECONDS_PER_DAY;
    if backlog > 0 && backlog <= 0xffff_ffff && days > 0 {
        Ok(Pace { num: backlog as u32, den: days })
    } else {
        Err(RacerError::InvalidParameter)
    }
}

/// What the page says after a change of pace.
pub fn make_rate_text(old: Pace, new: Pace) -> (r: String)
    ensures
        r@ == rate_text(old, new),
{
    let was: String = make_pace_text(old);
    let is: String = make_pace_text(new);
    let mut out: String = join("Rate has been changed. Old rate: ", was.as_str());
    out.append(", new rate: ");
    out.append(is.as_str());
    out.append(".");
    out
}

/// What the page says after a resumption.
pub fn make_unpause_text(paused_for: i64) -> (r: String)
    ensures
        r@ == unpause_text(paused_for as int),
{
    let days: u64 = if paused_for > 0 {
        (paused_for / SECONDS_PER_DAY) as u64
    } else {
        0
    };
    let count: String = decimal_text(days);
    let mut out: String = join("Feed has been unpaused (paused for ", count.as_str());
    out.append(" days).");
    out
}

/// What the page says after the timeline slid.
pub fn make_slide_text(done: &str, count: usize, unit: &str) -> (r: String)
    ensures
        r@ == slide_text(done@, count as nat, unit@),
{
    let number: String = decimal_text(count as u64);
    let mut out: String = join("Feed has been ", done);
    out.append(" ");
    out.append(number.as_str());
    out.append(" ");
    out.append(unit);
    if count == 1 {
        out.append("");
    } else {
        out.append("s");
    }
    out.append(".");
    out
}

/// Puts what the page says beside the derived document of an operation.
fn report(outcome: Result<Document, RacerError>, text: String) -> (r: Result<Edited, RacerError>)
    ensures
        match outcome {
            Ok(d) => r.is_ok() && r.unwrap().document == Some(d) && r.unwrap().top_text == Some(text),
            Err(e) => r.is_err() && r.unwrap_err() == e,
        },
{
    match outcome {
        Ok(document) => Ok(Edited { document: Some(document), top_text: Some(text) }),
        Err(e) => Err(e),
    }
}

/// Carries out what the form on the page of a feed asks for.
pub fn edit_feed_post_handler_uri(
    racer: &mut FeedRacer,
    form: &EditFeedForm,
    upstream: &Document,
    now: i64,
) -> (r: Result<Edited, RacerError>)
    requires
        old(racer).wf(),
    ensures
        final(racer).wf(),
        request_done(
            old(racer)@,
            final(racer)@,
            r,
            edited(
                old(racer)@,
                form.racer_action,
                form.slide_units,
                form.rate_days,
                form.rate_ratio,
                form.next_episode_num,
                upstream@,
                now,
            ),
        ),
{
    match form.racer_action {
        FeedAction::EditFeed => Ok(Edited { document: None, top_text: None }),
        FeedAction::EditRate => {
            let pace: Pace = match form.rate_ratio {
                Some(p) => p,
                None => {
                    return Err(RacerError::InvalidParameter);
                },
            };
            let old_rate: Pace = racer.get_rate();
            match racer.set_rate(pace, upstream, now) {
                Ok(document) => {
                    let text: String = make_rate_text(old_rate, racer.get_rate());
                    Ok(Edited { document: Some(document), top_text: Some(text) })
                },
                Err(e) => Err(e),
            }
        },
        FeedAction::EditRateDays => {
            let days: u32 = match form.rate_days {
                Some(d) => d,
                None => {
                    return Err(RacerError::InvalidParameter);
                },
            };
            if !instant_in_range(now) {
                return Err(RacerError::OutOfRange);
            }
            let pace: Pace = match pace_for_days(racer.first_pubdate, days, now) {
                Ok(p) => p,
                Err(e) => {
                    return Err(e);
                },
            };
            let old_rate: Pace = racer.get_rate();
            match racer.set_rate(pace, upstream, now) {
                Ok(document) => {
                    let text: String = make_rate_text(old_rate, racer.get_rate());
                    Ok(Edited { document: Some(document), top_text: Some(text) })
                },
                Err(e) => Err(e),
            }
        },
        FeedAction::Pause => {
            let outcome: Result<Document, RacerError> = racer.pause_feed(upstream, now);
            report(
                outcome,
                String::from_str(
                    "Feed has been paused. No new episodes will be published until you unpause this feed.",
                ),
            )
        },
        FeedAction::Unpause => match racer.unpause_feed(upstream, now) {
            Ok(resumed) => {
                let text: String = make_unpause_text(resumed.paused_for);
                Ok(Edited { document: Some(resumed.document), top_text: Some(text) })
            },
            Err(e) => Err(e),
        },
        FeedAction::PublishNextEp => {
            let outcome: Result<Document, RacerError> = match form.next_episode_num {
                Some(num) => racer.publish_episode_num(num, upstream, now),
                None => racer.publish_next_ep_now(upstream, now),
            };
            report(outcome, String::from_str("Feed has been fast forwarded to the next episode."))
        },
        FeedAction::RewindDays => match form.slide_units {
            Some(days) => {
                let outcome: Result<Document, RacerError> = racer.rewind_by_days(days, upstream, now);
                report(outcome, make_slide_text("rewound", days, "day"))
            },
            None => Err(RacerError::InvalidParameter),
        },
        FeedAction::FastForwardDays => match form.slide_units {
            Some(days) => {
                let outcome: Result<Document, RacerError> = racer.fastforward_by_days(days, upstream, now);
                report(outcome, make_slide_text("fast forwarded", days, "day"))
            },
            None => Err(RacerError::InvalidParameter),
        },
        FeedAction::RewindEps => match form.slide_units {
            Some(count) => {
                let outcome: Result<Document, RacerError> = racer.rewind_by_episodes(count, upstream, now);
                report(outcome, make_slide_text("rewound", count, "episode"))
            },
            None => Err(RacerError::InvalidParameter),
        },
        FeedAction::FastForwardEps => match form.slide_units {
            Some(count) => {
                let outcome: Result<Document, RacerError> = racer.fastforward_by_episodes(count, upstream, now);
                report(outcome, make_slide_text("fast forwarded", count, "episode"))
            },
            None => Err(RacerError::InvalidParameter),
        },
    }
}

} // verus!
