//! Setting up a feed from the form of a new feed: the pace is settled, the
//! feed is made, and the listener is told what to expect.

use vstd::prelude::*;
use crate::control::repaced;
use crate::create::{
    create_feed,
    created,
    lemma_created_under_any_uuid,
    source_address,
    Created,
    RacerCreationParams,
};
use crate::edit::{days_pace, pace_for_days, CreateFeedForm};
use crate::error::{failure, RacerError};
use crate::feed::{Document, DocumentView};
use crate::pace::Pace;
use crate::server::{
    catch_up_units,
    fun_facts,
    rate_validator,
    validated_rate,
    whole_units,
    FeedFunFacts,
    RacerType,
    RocketConfig,
    SECONDS_PER_WEEK,
};
use crate::state::{FeedRacer, RacerView};
use crate::time::{is_instant, SECONDS_PER_DAY};
use crate::update::{lemma_update_keeps_identity, updated};

verus! {

/// A feed set up from a form.
#[derive(Debug)]
pub struct NewFeed {
    /// The record.
    pub racer: FeedRacer,
    /// The derived document.
    pub document: Document,
    /// What the listener is told.
    pub facts: FeedFunFacts,
}

/// What setting up a feed from a form gives, under the identifier `uuid`.
/// A pace given as a ratio is the pace of the feed. A pace given in days is
/// the backlog over the days, the backlog being the whole days between the
/// first episode and `now`. The derived document is the one of the instant
/// after `now`, the first to show the first episode.
pub open spec fn signed_up(
    doc: DocumentView,
    podracer_dir: Seq<char>,
    host: Seq<char>,
    url: Seq<char>,
    start_ep: int,
    rate_ratio: Option<Pace>,
    rate_days: Option<u32>,
    uuid: Seq<char>,
    now: i64,
) -> Result<(RacerView, DocumentView), RacerError> {
    match validated_rate(rate_ratio, rate_days) {
        Err(e) => Err(e),
        Ok(RacerType::Ratio(pace)) => created(
            doc,
            podracer_dir,
            host,
            source_address(url),
            start_ep,
            pace,
            uuid,
            now,
        ),
        Ok(RacerType::Days(days)) => match created(
            doc,
            podracer_dir,
            host,
            source_address(url),
            start_ep,
            Pace { num: 1, den: 1 },
            uuid,
            now,
        ) {
            Err(e) => Err(e),
            Ok((record, _)) => match days_pace(record.first_pubdate, days, now) {
                Err(e) => Err(e),
                Ok(pace) => match repaced(record, pace, doc, now) {
                    Err(e) => Err(e),
                    Ok((paced, _)) => updated(paced, doc, (now + 1) as i64),
                },
            },
        },
    }
}

/// Whether a feed can be set up from a form does not hang on its
/// identifier: where it fails under one, it fails in the same way under any
/// other.
pub proof fn lemma_signed_up_under_any_uuid(
    doc: DocumentView,
    podracer_dir: Seq<char>,
    host: Seq<char>,
    url: Seq<char>,
    start_ep: int,
    rate_ratio: Option<Pace>,
    rate_days: Option<u32>,
    one: Seq<char>,
    other: Seq<char>,
    now: i64,
)
    ensures
        failure(signed_up(doc, podracer_dir, host, url, start_ep, rate_ratio, rate_days, one, now))
            == failure(
            signed_up(doc, podracer_dir, host, url, start_ep, rate_ratio, rate_days, other, now),
        ),
{
    lemma_created_under_any_uuid(
        doc,
        podracer_dir,
        host,
        source_address(url),
        start_ep,
        Pace { num: 1, den: 1 },
        one,
        other,
        now,
    );
}

/// Where setting up fails under one identifier, it fails so under every one.
proof fn lemma_fails_under_every_uuid(
    doc: DocumentView,
    podracer_dir: Seq<char>,
    host: Seq<char>,
    url: Seq<char>,
    start_ep: int,
    rate_ratio: Option<Pace>,
    rate_days: Option<u32>,
    one: Seq<char>,
    now: i64,
    e: RacerError,
)
    requires
        signed_up(doc, podracer_dir, host, url, start_ep, rate_ratio, rate_days, one, now) == Err::<
            (RacerView, DocumentView),
            RacerError,
        >(e),
    ensures
        forall|uuid: Seq<char>|
            #[trigger] signed_up(
                doc,
                podracer_dir,
                host,
                url,
                start_ep,
                rate_ratio,
                rate_days,
                uuid,
                now,
            ) == Err::<(RacerView, DocumentView), RacerError>(e),
{
    assert forall|uuid: Seq<char>|
        #[trigger] signed_up(
            doc,
            podracer_dir,
            host,
            url,
            start_ep,
            rate_ratio,
            rate_days,
            uuid,
            now,
        ) == Err::<(RacerView, DocumentView), RacerError>(e) by {
        lemma_signed_up_under_any_uuid(
            doc,
            podracer_dir,
            host,
            url,
            start_ep,
            rate_ratio,
            rate_days,
            one,
            uuid,
            now,
        );
    }
}

/// Sets up a feed, under a new identifier, from the form of a new feed and
/// the upstream document that was fetched for it. It fails exactly where
/// setting the feed up fails under every identifier.
pub fn create_feed_handler(config: &RocketConfig, form: &CreateFeedForm, doc: &Document, now: i64) -> (r:
    Result<NewFeed, RacerError>)
    ensures
        r.is_ok() ==> {
            &&& r.unwrap().racer.wf()
            &&& signed_up(
                doc@,
                config.podracer_dir@,
                config.host@,
                form.url@,
                form.start_ep as int,
                form.rate_ratio,
                form.rate_days,
                r.unwrap().racer@.uuid,
                now,
            ) == Ok::<(RacerView, DocumentView), RacerError>((r.unwrap().racer@, r.unwrap().document@))
            &&& r.unwrap().facts.num_items == (if form.start_ep <= doc@.entries.len() {
                doc@.entries.len() - form.start_ep
            } else {
                0
            })
            &&& r.unwrap().facts.weeks_behind == whole_units(
                r.unwrap().racer@.first_pubdate,
                now,
                SECONDS_PER_WEEK as int,
            )
            &&& r.unwrap().facts.weeks_to_catch_up == catch_up_units(
                r.unwrap().facts.weeks_behind as int,
                r.unwrap().racer@.rate,
            )
            &&& r.unwrap().facts.days_to_catch_up == catch_up_units(
                whole_units(r.unwrap().racer@.first_pubdate, now, SECONDS_PER_DAY as int),
                r.unwrap().racer@.rate,
            )
            &&& r.unwrap().facts.catch_up_date == now + r.unwrap().facts.weeks_to_catch_up
                * SECONDS_PER_WEEK
            &&& r.unwrap().facts.subscribe_url@ == r.unwrap().racer@.subscribe_url
            &&& r.unwrap().facts.uuid@ == r.unwrap().racer@.uuid
        },
        r.is_err() ==> forall|uuid: Seq<char>|
            #[trigger] signed_up(
                doc@,
                config.podracer_dir@,
                config.host@,
                form.url@,
                form.start_ep as int,
                form.rate_ratio,
                form.rate_days,
                uuid,
                now,
            ) == Err::<(RacerView, DocumentView), RacerError>(r.unwrap_err()),
{
    let kind: RacerType = match rate_validator(&form.rate_ratio, &form.rate_days) {
        Ok(k) => k,
        Err(e) => {
            proof {
                lemma_fails_under_every_uuid(
                    doc@,
                    config.podracer_dir@,
                    config.host@,
                    form.url@,
                    form.start_ep as int,
                    form.rate_ratio,
                    form.rate_days,
                    Seq::<char>::empty(),
                    now,
                    e,
                );
            }
            return Err(e);
        },
    };
    let first_rate: Pace = match kind {
        RacerType::Ratio(pace) => pace,
        RacerType::Days(_) => Pace::unit(),
    };
    let mut params: RacerCreationParams = RacerCreationParams {
        static_file_dir: config.static_file_dir.clone(),
        podracer_dir: config.podracer_dir.clone(),
        host: config.host.clone(),
        url: form.url.clone(),
        start_ep: form.start_ep,
        port: config.port,
        rate: first_rate,
    };
    let made: Created = match create_feed(&mut params, doc, now) {
        Ok(m) => m,
        Err(e) => {
            proof {
                assert(created(
                    doc@,
                    config.podracer_dir@,
                    config.host@,
                    source_address(form.url@),
                    form.start_ep as int,
                    first_rate,
                    Seq::<char>::empty(),
                    now,
                ) == Err::<(RacerView, DocumentView), RacerError>(e));
                lemma_fails_under_every_uuid(
                    doc@,
                    config.podracer_dir@,
                    config.host@,
                    form.url@,
                    form.start_ep as int,
                    form.rate_ratio,
                    form.rate_days,
                    Seq::<char>::empty(),
                    now,
                    e,
                );
            }
            return Err(e);
        },
    };
    let mut racer: FeedRacer = made.racer;
    let mut document: Document = made.document;
    let ghost uuid: Seq<char> = racer@.uuid;
    assert(is_instant(now as int));
    match kind {
        RacerType::Ratio(_) => {},
        RacerType::Days(days) => {
            let pace: Pace = match pace_for_days(racer.first_pubdate, days, now) {
                Ok(p) => p,
                Err(e) => {
                    proof {
                        lemma_fails_under_every_uuid(
                            doc@,
                            config.podracer_dir@,
                            config.host@,
                            form.url@,
                            form.start_ep as int,
                            form.rate_ratio,
                            form.rate_days,
                            uuid,
                            now,
                            e,
                        );
                    }
                    return Err(e);
                },
            };
            match racer.set_rate(pace, doc, now) {
                Ok(_) => {},
                Err(e) => {
                    proof {
                        lemma_fails_under_every_uuid(
                            doc@,
                            config.podracer_dir@,
                            config.host@,
                            form.url@,
                            form.start_ep as int,
                            form.rate_ratio,
                            form.rate_days,
                            uuid,
                            now,
                            e,
                        );
                    }
                    return Err(e);
                },
            }
            proof {
                crate::laws::lemma_set_rate_keeps_identity(made.racer@, pace, doc@, now);
            }
            let ghost paced: RacerView = racer@;
            match racer.update(doc, now + 1) {
                Ok(d) => {
                    document = d;
                },
                Err(e) => {
                    proof {
                        lemma_fails_under_every_uuid(
                            doc@,
                            config.podracer_dir@,
                            config.host@,
                            form.url@,
                            form.start_ep as int,
                            form.rate_ratio,
                            form.rate_days,
                            uuid,
                            now,
                            e,
                        );
                    }
                    return Err(e);
                },
            }
            proof {
                lemma_update_keeps_identity(paced, doc@, (now + 1) as i64);
            }
        },
    }
    let facts: FeedFunFacts = fun_facts(&racer, doc.entries.len(), form.start_ep, now);
    Ok(NewFeed { racer, document, facts })
}

} // verus!
