use racer::create::RacerCreationParams;
use racer::dates::make_instant_text;
use racer::edit::{
    edit_feed_post_handler_uri, make_rate_text, make_slide_text, make_unpause_text, pace_for_days,
    EditFeedForm,
};
use racer::error::RacerError;
use racer::feed::{Document, Entry};
use racer::pace::{make_pace_text, Pace};
use racer::server::{
    fun_facts, get_hostname_and_port, list_feed, list_feeds_handler, next_pub_date_string,
    rate_validator, FeedAction, RacerType, RocketConfig, UpdateFactor, DEFAULT_UPDATE_SECONDS,
};
use racer::state::FeedRacer;

const T0: i64 = 1_514_764_800;
const NOW: i64 = 1_700_000_000;
const DAY: i64 = 86_400;

fn weekly(count: usize) -> Document {
    let mut entries = Vec::new();
    for i in 0..count {
        let day = 1 + 7 * i;
        let date = if day <= 31 {
            format!("{:02} Jan 2018 00:00:00 +0000", day)
        } else {
            format!("{:02} Feb 2018 00:00:00 +0000", day - 31)
        };
        entries.push(Entry {
            title: Some(format!("episode {}", i + 1)),
            pub_date: Some(date),
            description: None,
            content: None,
            media: None,
            directory_block: false,
            media_rights: false,
            position: i,
        });
    }
    Document {
        title: "A Show".to_string(),
        description: "About".to_string(),
        image_title: None,
        directory_block: false,
        links: vec![],
        entries,
    }
}

fn racer(doc: &Document, rate: Pace) -> FeedRacer {
    let params = RacerCreationParams {
        static_file_dir: "/srv/static".to_string(),
        podracer_dir: "/srv/podcasts".to_string(),
        host: "http://racer.example".to_string(),
        url: "http://upstream.example/feed".to_string(),
        start_ep: 1,
        port: 80,
        rate,
    };
    FeedRacer::with_uuid(doc, &params, "abcd".to_string(), NOW).unwrap().racer
}

fn form(action: FeedAction) -> EditFeedForm {
    EditFeedForm {
        uuid: "abcd".to_string(),
        racer_action: action,
        slide_units: None,
        rate_days: None,
        rate_ratio: None,
        next_episode_num: None,
    }
}

#[test]
fn address_of_the_server_is_scheme_name_and_port() {
    let config = RocketConfig {
        static_file_dir: "/srv/static".to_string(),
        podracer_dir: "/srv/podcasts".to_string(),
        host: "racer.example".to_string(),
        port: 8000,
    };
    assert_eq!(get_hostname_and_port(&config), Some("http://racer.example:8000".to_string()));
    let zero = RocketConfig { port: 0, ..config };
    assert_eq!(get_hostname_and_port(&zero), Some("http://racer.example:0".to_string()));
    let top = RocketConfig { port: u32::MAX, ..zero };
    assert_eq!(get_hostname_and_port(&top), Some("http://racer.example:4294967295".to_string()));
}

#[test]
fn pass_interval_is_sixty_seconds_per_minute_of_the_factor() {
    assert_eq!(UpdateFactor::interval_seconds(Some(UpdateFactor(30))), 1800);
    assert_eq!(UpdateFactor::interval_seconds(Some(UpdateFactor(0))), 0);
    assert_eq!(UpdateFactor::interval_seconds(None), 59 * 60);
    assert_eq!(DEFAULT_UPDATE_SECONDS, 3540);
    assert_eq!(UpdateFactor::interval_seconds(Some(UpdateFactor(u32::MAX))), u32::MAX);
    assert_eq!(UpdateFactor::interval_seconds(Some(UpdateFactor(71_582_788))), 4_294_967_280);
    assert_eq!(UpdateFactor::interval_seconds(Some(UpdateFactor(71_582_789))), u32::MAX);
}

#[test]
fn form_must_name_the_pace_once_and_positive() {
    let two = Pace { num: 2, den: 1 };
    assert_eq!(rate_validator(&Some(two), &None), Ok(RacerType::Ratio(two)));
    assert_eq!(rate_validator(&None, &Some(30)), Ok(RacerType::Days(30)));
    assert_eq!(rate_validator(&None, &None), Err(RacerError::InvalidParameter));
    assert_eq!(rate_validator(&Some(two), &Some(30)), Err(RacerError::InvalidParameter));
    assert_eq!(rate_validator(&Some(Pace { num: 0, den: 1 }), &None), Err(RacerError::InvalidParameter));
    assert_eq!(rate_validator(&Some(Pace { num: 1, den: 0 }), &None), Err(RacerError::InvalidParameter));
    assert_eq!(rate_validator(&None, &Some(0)), Err(RacerError::InvalidParameter));
}

#[test]
fn list_of_feeds_says_the_same_of_each_feed() {
    let doc = weekly(2);
    let one = racer(&doc, Pace::ratio(3, 2).unwrap());
    let text = "Podcast: A Show\tpodcast folder: \"a-show_abcd\"\n\
                \tsubscribe_url: http://racer.example/podcasts/a-show_abcd/racer.rss\n\
                \tsource_url: http://upstream.example/feed\n\
                \tfirst_pubdate: Mon, 1 Jan 2018 00:00:00 +0000\n\
                \tanchor_date: Tue, 14 Nov 2023 22:13:20 +0000\n\
                \trate: 3/2\n\n";
    assert_eq!(list_feed(&one), text);
    let mut two = racer(&doc, Pace::ratio(1, 1).unwrap());
    two.podcast_title = None;
    let all = vec![one, two];
    let listing = list_feeds_handler(&all);
    assert!(listing.starts_with(text));
    assert_eq!(listing, format!("{}{}", text, list_feed(&all[1])));
    assert!(list_feed(&all[1]).starts_with("Podcast: NONE\t"));
    assert_eq!(list_feeds_handler(&vec![]), "");
}

#[test]
fn pace_and_instant_as_text() {
    assert_eq!(make_pace_text(Pace { num: 10, den: 3 }), "10/3");
    assert_eq!(make_pace_text(Pace { num: 0, den: 1 }), "0/1");
    assert_eq!(make_instant_text(0), "Thu, 1 Jan 1970 00:00:00 +0000");
    assert_eq!(make_instant_text(racer::time::MAX_INSTANT), "Fri, 31 Dec 9999 23:59:59 +0000");
    assert_eq!(make_instant_text(racer::time::MIN_INSTANT), "Sat, 1 Jan 0000 00:00:00 +0000");
    assert_eq!(make_instant_text(racer::time::MAX_INSTANT + 1), "out of range");
    assert_eq!(make_instant_text(i64::MIN), "out of range");
}

#[test]
fn page_says_when_the_next_episode_is_released() {
    let doc = weekly(3);
    let mut feed = racer(&doc, Pace::ratio(1, 1).unwrap());
    assert_eq!(next_pub_date_string(&feed, NOW + DAY), "Tue, 21 Nov 2023 22:13:20 +0000");
    assert_eq!(next_pub_date_string(&feed, NOW + 100 * DAY), "Caught up, whenever they publish another one");
    feed.pause_feed(&doc, NOW + DAY).unwrap();
    assert_eq!(next_pub_date_string(&feed, NOW + 2 * DAY), "Feed paused, unpause to publish next episode");
}

#[test]
fn facts_for_a_new_feed() {
    let doc = weekly(5);
    let feed = racer(&doc, Pace::ratio(2, 1).unwrap());
    let facts = fun_facts(&feed, 5, 1, NOW);
    assert_eq!(facts.num_items, 4);
    assert_eq!(facts.weeks_behind, (NOW - T0) / (7 * DAY));
    assert_eq!(facts.weeks_behind, 306);
    assert_eq!(facts.weeks_to_catch_up, 153);
    assert_eq!(facts.days_to_catch_up, 1071);
    assert_eq!(facts.catch_up_date, NOW + 153 * 7 * DAY);
    assert_eq!(facts.subscribe_url, "http://racer.example/podcasts/a-show_abcd/racer.rss");
    assert_eq!(facts.uuid, "abcd");
    assert_eq!(fun_facts(&feed, 3, 5, NOW).num_items, 0);
}

#[test]
fn pace_in_days_is_the_backlog_over_the_days() {
    assert_eq!(pace_for_days(T0, 30, NOW), Ok(Pace { num: 2143, den: 30 }));
    assert_eq!(pace_for_days(NOW, 30, T0), Ok(Pace { num: 2143, den: 30 }));
    assert_eq!(pace_for_days(T0, 0, NOW), Err(RacerError::InvalidParameter));
    assert_eq!(pace_for_days(NOW - DAY + 1, 30, NOW), Err(RacerError::InvalidParameter));
    assert_eq!(pace_for_days(NOW - DAY, 30, NOW), Ok(Pace { num: 1, den: 30 }));
}

#[test]
fn texts_of_the_page() {
    assert_eq!(
        make_rate_text(Pace { num: 1, den: 1 }, Pace { num: 5, den: 2 }),
        "Rate has been changed. Old rate: 1/1, new rate: 5/2."
    );
    assert_eq!(make_unpause_text(10 * DAY), "Feed has been unpaused (paused for 10 days).");
    assert_eq!(make_unpause_text(DAY - 1), "Feed has been unpaused (paused for 0 days).");
    assert_eq!(make_unpause_text(-5 * DAY), "Feed has been unpaused (paused for 0 days).");
    assert_eq!(make_slide_text("rewound", 1, "day"), "Feed has been rewound 1 day.");
    assert_eq!(make_slide_text("rewound", 2, "day"), "Feed has been rewound 2 days.");
    assert_eq!(make_slide_text("fast forwarded", 0, "episode"), "Feed has been fast forwarded 0 episodes.");
}

#[test]
fn request_for_the_page_alone_changes_nothing() {
    let doc = weekly(3);
    let mut feed = racer(&doc, Pace::ratio(1, 1).unwrap());
    let before = format!("{:?}", feed);
    let done = edit_feed_post_handler_uri(&mut feed, &form(FeedAction::EditFeed), &doc, NOW).unwrap();
    assert!(done.document.is_none());
    assert!(done.top_text.is_none());
    assert_eq!(before, format!("{:?}", feed));
}

#[test]
fn request_for_a_new_pace_changes_the_pace_and_says_so() {
    let doc = weekly(3);
    let mut feed = racer(&doc, Pace::ratio(1, 1).unwrap());
    let mut f = form(FeedAction::EditRate);
    assert_eq!(edit_feed_post_handler_uri(&mut feed, &f, &doc, NOW).unwrap_err(), RacerError::InvalidParameter);
    f.rate_ratio = Some(Pace { num: 4, den: 1 });
    let done = edit_feed_post_handler_uri(&mut feed, &f, &doc, NOW + 4 * DAY).unwrap();
    assert_eq!(done.top_text.as_deref(), Some("Rate has been changed. Old rate: 1/1, new rate: 4/1."));
    assert_eq!(feed.get_rate(), Pace { num: 4, den: 1 });
    assert_eq!(feed.get_anchor_date(), NOW + 3 * DAY);
    assert!(done.document.is_some());
}

#[test]
fn request_for_a_pace_in_days_sets_the_backlog_over_the_days() {
    let doc = weekly(3);
    let mut feed = racer(&doc, Pace::ratio(1, 1).unwrap());
    let mut f = form(FeedAction::EditRateDays);
    assert_eq!(edit_feed_post_handler_uri(&mut feed, &f, &doc, NOW).unwrap_err(), RacerError::InvalidParameter);
    f.rate_days = Some(100);
    let done = edit_feed_post_handler_uri(&mut feed, &f, &doc, NOW).unwrap();
    assert_eq!(feed.get_rate(), Pace { num: 2143, den: 100 });
    assert_eq!(done.top_text.as_deref(), Some("Rate has been changed. Old rate: 1/1, new rate: 2143/100."));
    f.rate_days = Some(0);
    assert_eq!(edit_feed_post_handler_uri(&mut feed, &f, &doc, NOW).unwrap_err(), RacerError::InvalidParameter);
}

#[test]
fn requests_to_pause_and_resume() {
    let doc = weekly(3);
    let mut feed = racer(&doc, Pace::ratio(1, 1).unwrap());
    let done = edit_feed_post_handler_uri(&mut feed, &form(FeedAction::Pause), &doc, NOW).unwrap();
    assert_eq!(
        done.top_text.as_deref(),
        Some("Feed has been paused. No new episodes will be published until you unpause this feed.")
    );
    assert_eq!(feed.get_pause_date(), Some(NOW));
    let again = edit_feed_post_handler_uri(&mut feed, &form(FeedAction::Pause), &doc, NOW);
    assert_eq!(again.unwrap_err(), RacerError::InvalidParameter);
    let done = edit_feed_post_handler_uri(&mut feed, &form(FeedAction::Unpause), &doc, NOW + 3 * DAY + 5).unwrap();
    assert_eq!(done.top_text.as_deref(), Some("Feed has been unpaused (paused for 3 days)."));
    assert_eq!(feed.get_anchor_date(), NOW + 3 * DAY + 5);
    let again = edit_feed_post_handler_uri(&mut feed, &form(FeedAction::Unpause), &doc, NOW);
    assert_eq!(again.unwrap_err(), RacerError::InvalidParameter);
}

#[test]
fn requests_to_slide_the_timeline() {
    let doc = weekly(5);
    let mut feed = racer(&doc, Pace::ratio(1, 1).unwrap());
    for action in [
        FeedAction::RewindDays,
        FeedAction::FastForwardDays,
        FeedAction::RewindEps,
        FeedAction::FastForwardEps,
    ] {
        let r = edit_feed_post_handler_uri(&mut feed, &form(action), &doc, NOW);
        assert_eq!(r.unwrap_err(), RacerError::InvalidParameter);
    }
    let mut f = form(FeedAction::RewindDays);
    f.slide_units = Some(1);
    let done = edit_feed_post_handler_uri(&mut feed, &f, &doc, NOW).unwrap();
    assert_eq!(done.top_text.as_deref(), Some("Feed has been rewound 1 day."));
    assert_eq!(feed.get_anchor_date(), NOW + DAY);
    f.racer_action = FeedAction::FastForwardDays;
    f.slide_units = Some(3);
    let done = edit_feed_post_handler_uri(&mut feed, &f, &doc, NOW).unwrap();
    assert_eq!(done.top_text.as_deref(), Some("Feed has been fast forwarded 3 days."));
    assert_eq!(feed.get_anchor_date(), NOW - 2 * DAY);
    f.racer_action = FeedAction::FastForwardEps;
    f.slide_units = Some(1);
    let done = edit_feed_post_handler_uri(&mut feed, &f, &doc, NOW).unwrap();
    assert_eq!(done.top_text.as_deref(), Some("Feed has been fast forwarded 1 episode."));
    assert_eq!(feed.get_anchor_date(), NOW - 9 * DAY);
    f.racer_action = FeedAction::RewindEps;
    f.slide_units = Some(2);
    let done = edit_feed_post_handler_uri(&mut feed, &f, &doc, NOW).unwrap();
    assert_eq!(done.top_text.as_deref(), Some("Feed has been rewound 2 episodes."));
    assert_eq!(feed.get_anchor_date(), NOW + 5 * DAY);
}

#[test]
fn request_to_release_an_episode_at_once() {
    let doc = weekly(5);
    let mut feed = racer(&doc, Pace::ratio(1, 1).unwrap());
    let done = edit_feed_post_handler_uri(&mut feed, &form(FeedAction::PublishNextEp), &doc, NOW + 1).unwrap();
    assert_eq!(done.top_text.as_deref(), Some("Feed has been fast forwarded to the next episode."));
    assert_eq!(feed.release_dates[1].date, NOW + 1);
    let mut f = form(FeedAction::PublishNextEp);
    f.next_episode_num = Some(4);
    edit_feed_post_handler_uri(&mut feed, &f, &doc, NOW + 1).unwrap();
    assert_eq!(feed.release_dates[3].date, NOW + 1);
    f.next_episode_num = Some(6);
    let before = format!("{:?}", feed);
    assert_eq!(edit_feed_post_handler_uri(&mut feed, &f, &doc, NOW + 1).unwrap_err(), RacerError::InvalidParameter);
    assert_eq!(before, format!("{:?}", feed));
}

#[test]
fn record_and_episode_as_text() {
    let doc = weekly(2);
    let feed = racer(&doc, Pace::ratio(3, 2).unwrap());
    assert_eq!(
        feed.release_dates[1].to_string(),
        "ep_num: 2, date: Sun, 19 Nov 2023 14:13:20 +0000, title: episode 2"
    );
    assert_eq!(
        feed.to_string(),
        "schema_version: 1.0.0\n\
         racer_path: /srv/podcasts/a-show_abcd\n\
         source_url: http://upstream.example/feed\n\
         subscribe_url: http://racer.example/podcasts/a-show_abcd/racer.rss\n\
         anchor_date: Tue, 14 Nov 2023 22:13:20 +0000\n\
         first_pubdate: Mon, 1 Jan 2018 00:00:00 +0000\n\
         rate: 3/2\n\
         release_dates {\n\
         \tep_num: 1, date: Tue, 14 Nov 2023 22:13:20 +0000, title: episode 1,\n\
         \tep_num: 2, date: Sun, 19 Nov 2023 14:13:20 +0000, title: episode 2,\n\
         }\n"
    );
}
