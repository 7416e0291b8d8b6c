use racer::create::RacerCreationParams;
use racer::error::RacerError;
use racer::feed::{Document, Entry};
use racer::pace::Pace;
use racer::state::FeedRacer;
use racer::time::{MAX_INSTANT, SECONDS_PER_DAY};

const T0: i64 = 1_514_764_800;
const NOW: i64 = 1_700_000_000;
const DAY: i64 = SECONDS_PER_DAY;

// Entries a week apart, from 1 January 2018 on, oldest first.
fn weekly(count: usize) -> Document {
    let mut entries = Vec::new();
    for i in 0..count {
        let day = 1 + 7 * i;
        let date = if day <= 31 {
            format!("{:02} Jan 2018 00:00:00 +0000", day)
        } else if day <= 59 {
            format!("{:02} Feb 2018 00:00:00 +0000", day - 31)
        } else {
            format!("{:02} Mar 2018 00:00:00 +0000", day - 59)
        };
        entries.push(Entry {
            title: Some(format!("episode {}", i + 1)),
            pub_date: Some(date),
            description: None,
            content: None,
            media: None,
            directory_block: false,
            media_rights: false,
            position: i,
        });
    }
    Document {
        title: "A Show".to_string(),
        description: "About".to_string(),
        image_title: None,
        directory_block: false,
        links: vec![],
        entries,
    }
}

fn racer(doc: &Document, rate: Pace) -> FeedRacer {
    let params = RacerCreationParams {
        static_file_dir: "/srv/static".to_string(),
        podracer_dir: "/srv/podcasts".to_string(),
        host: "http://racer.example".to_string(),
        url: "http://upstream.example/feed".to_string(),
        start_ep: 1,
        port: 80,
        rate,
    };
    FeedRacer::with_uuid(doc, &params, "abcd".to_string(), NOW).unwrap().racer
}

fn dates(feed: &FeedRacer) -> Vec<i64> {
    feed.release_dates.iter().map(|e| e.date).collect()
}

#[test]
fn pause_then_resume_after_ten_days_moves_the_anchor_by_ten_days() {
    let doc = weekly(10);
    let mut feed = racer(&doc, Pace::ratio(1, 1).unwrap());
    let before = dates(&feed);
    feed.pause_feed(&doc, NOW + DAY).unwrap();
    let resumed = feed.unpause_feed(&doc, NOW + 11 * DAY).unwrap();
    assert_eq!(resumed.paused_for, 10 * DAY);
    assert_eq!(feed.get_anchor_date(), NOW + 10 * DAY);
    assert_eq!(feed.get_pause_date(), None);
    assert_eq!(feed.get_old_rate(), None);
    assert_eq!(feed.get_rate(), Pace { num: 1, den: 1 });
    let after = dates(&feed);
    for i in 0..10 {
        assert_eq!(after[i], before[i] + 10 * DAY);
    }
}

#[test]
fn resume_at_the_instant_of_the_pause_restores_the_schedule() {
    let doc = weekly(10);
    let mut feed = racer(&doc, Pace::ratio(5, 3).unwrap());
    feed.update(&doc, NOW + 3 * DAY).unwrap();
    let before = format!("{:?}", feed);
    feed.pause_feed(&doc, NOW + 3 * DAY).unwrap();
    let resumed = feed.unpause_feed(&doc, NOW + 3 * DAY).unwrap();
    assert_eq!(resumed.paused_for, 0);
    assert_eq!(before, format!("{:?}", feed));
}

#[test]
fn paused_feed_releases_nothing_more_and_says_so() {
    let doc = weekly(10);
    let mut feed = racer(&doc, Pace::ratio(1, 1).unwrap());
    let out = feed.pause_feed(&doc, NOW + 8 * DAY).unwrap();
    assert_eq!(out.entries.len(), 2);
    assert_eq!(out.description, "About -- Feed paused -- PodRacer UUID: abcd");
    assert_eq!(feed.get_pause_date(), Some(NOW + 8 * DAY));
    assert_eq!(feed.get_old_rate(), Some(Pace { num: 1, den: 1 }));
    assert_eq!(feed.get_rate().num, 0);
    let later = feed.update(&doc, NOW + 300 * DAY).unwrap();
    assert_eq!(later.entries.len(), 2);
    assert_eq!(feed.get_num_to_publish(NOW + 300 * DAY), 2);
    assert!(feed.is_well_formed());
}

#[test]
fn pause_of_a_paused_feed_is_refused_and_changes_nothing() {
    let doc = weekly(3);
    let mut feed = racer(&doc, Pace::ratio(1, 1).unwrap());
    feed.pause_feed(&doc, NOW).unwrap();
    let before = format!("{:?}", feed);
    assert_eq!(feed.pause_feed(&doc, NOW + DAY).unwrap_err(), RacerError::InvalidParameter);
    assert_eq!(before, format!("{:?}", feed));
}

#[test]
fn resume_of_a_running_feed_is_refused_and_changes_nothing() {
    let doc = weekly(3);
    let mut feed = racer(&doc, Pace::ratio(1, 1).unwrap());
    let before = format!("{:?}", feed);
    assert_eq!(feed.unpause_feed(&doc, NOW + DAY).unwrap_err(), RacerError::InvalidParameter);
    assert_eq!(before, format!("{:?}", feed));
}

#[test]
fn publish_episode_five_makes_five_entries_due() {
    let doc = weekly(10);
    let mut feed = racer(&doc, Pace::ratio(1, 1).unwrap());
    let at = NOW - 2 * DAY;
    feed.update(&doc, at).unwrap();
    assert_eq!(feed.release_dates[4].date - at, 30 * DAY);
    assert!(feed.get_num_to_publish(at) < 5);
    let anchor = feed.get_anchor_date();
    let gaps: Vec<i64> = feed.release_dates.windows(2).map(|w| w[1].date - w[0].date).collect();
    let shown = feed.publish_episode_num(5, &doc, at).unwrap();
    assert_eq!(shown.entries.len(), 5);
    assert_eq!(shown.entries[4].title.as_deref(), Some("episode 5"));
    assert_eq!(feed.get_anchor_date(), anchor - 30 * DAY);
    let after: Vec<i64> = feed.release_dates.windows(2).map(|w| w[1].date - w[0].date).collect();
    assert_eq!(gaps, after);
    assert!(feed.release_dates[4].date <= at);
    assert_eq!(feed.release_dates[4].date, at);
    assert!(feed.get_num_to_publish(at + 1) >= 5);
    assert_eq!(feed.get_num_to_publish(at + 1), 5);
    assert_eq!(feed.release_dates[5].date - feed.release_dates[4].date, 7 * DAY);
    let out = feed.update(&doc, at + 1).unwrap();
    assert_eq!(out.entries.len(), 5);
}

#[test]
fn publish_of_a_released_episode_changes_no_date() {
    let doc = weekly(10);
    let mut feed = racer(&doc, Pace::ratio(1, 1).unwrap());
    let before = dates(&feed);
    feed.publish_episode_num(1, &doc, NOW + DAY).unwrap();
    assert_eq!(before, dates(&feed));
}

#[test]
fn publish_of_an_episode_that_is_not_there_is_refused() {
    let doc = weekly(3);
    let mut feed = racer(&doc, Pace::ratio(1, 1).unwrap());
    assert_eq!(feed.publish_episode_num(0, &doc, NOW).unwrap_err(), RacerError::InvalidParameter);
    assert_eq!(feed.publish_episode_num(4, &doc, NOW).unwrap_err(), RacerError::InvalidParameter);
}

#[test]
fn publish_next_releases_the_first_episode_still_to_come() {
    let doc = weekly(4);
    let mut feed = racer(&doc, Pace::ratio(1, 1).unwrap());
    let at = NOW + DAY;
    assert_eq!(feed.get_next_episode_num(at), 1);
    assert_eq!(feed.get_next_episode_pub_date(at), NOW + 7 * DAY);
    assert_eq!(feed.get_episode_pub_date(0, at), at);
    assert_eq!(feed.get_episode_pub_date(2, at), NOW + 14 * DAY);
    let shown = feed.publish_next_ep_now(&doc, at).unwrap();
    assert_eq!(shown.entries.len(), 2);
    assert_eq!(feed.release_dates[1].date, at);
    assert_eq!(feed.get_anchor_date(), NOW - 6 * DAY);
    assert_eq!(feed.get_num_to_publish(at + 1), 2);
}

#[test]
fn publish_next_with_nothing_to_come_is_refused() {
    let doc = weekly(2);
    let mut feed = racer(&doc, Pace::ratio(1, 1).unwrap());
    let at = NOW + 100 * DAY;
    assert_eq!(feed.get_next_episode_num(at), 2);
    assert_eq!(feed.get_next_episode_pub_date(at), at);
    assert_eq!(feed.publish_next_ep_now(&doc, at).unwrap_err(), RacerError::InvalidParameter);
}

#[test]
fn rewind_delays_and_fast_forward_advances_every_release() {
    let doc = weekly(5);
    let mut feed = racer(&doc, Pace::ratio(2, 1).unwrap());
    let before = dates(&feed);
    feed.rewind_by_days(3, &doc, NOW).unwrap();
    assert_eq!(feed.get_anchor_date(), NOW + 3 * DAY);
    for (i, d) in dates(&feed).iter().enumerate() {
        assert_eq!(*d, before[i] + 3 * DAY);
    }
    feed.fastforward_by_days(5, &doc, NOW).unwrap();
    assert_eq!(feed.get_anchor_date(), NOW - 2 * DAY);
    for (i, d) in dates(&feed).iter().enumerate() {
        assert_eq!(*d, before[i] - 2 * DAY);
    }
}

#[test]
fn slide_out_of_the_range_is_refused_and_changes_nothing() {
    let doc = weekly(5);
    let mut feed = racer(&doc, Pace::ratio(1, 1).unwrap());
    let before = format!("{:?}", feed);
    assert_eq!(feed.rewind_by_days(usize::MAX, &doc, NOW).unwrap_err(), RacerError::OutOfRange);
    assert_eq!(feed.fastforward_by_days(5_000_000, &doc, NOW).unwrap_err(), RacerError::OutOfRange);
    assert_eq!(feed.slide(MAX_INSTANT, &doc, NOW).unwrap_err(), RacerError::OutOfRange);
    assert_eq!(before, format!("{:?}", feed));
}

#[test]
fn fast_forward_by_episodes_advances_by_the_gap_to_the_target() {
    let doc = weekly(6);
    let mut feed = racer(&doc, Pace::ratio(1, 1).unwrap());
    let at = NOW + DAY;
    feed.fastforward_by_episodes(2, &doc, at).unwrap();
    assert_eq!(feed.get_anchor_date(), NOW - 14 * DAY);
    assert_eq!(feed.release_dates[3].date, NOW + 7 * DAY);
    assert_eq!(feed.fastforward_by_episodes(6, &doc, at).unwrap_err(), RacerError::InvalidParameter);
}

#[test]
fn rewind_by_episodes_delays_by_the_gap_to_the_target() {
    let doc = weekly(6);
    let mut feed = racer(&doc, Pace::ratio(1, 1).unwrap());
    let at = NOW + 15 * DAY;
    assert_eq!(feed.get_next_episode_num(at), 3);
    feed.rewind_by_episodes(2, &doc, at).unwrap();
    assert_eq!(feed.get_anchor_date(), NOW + 14 * DAY);
    assert_eq!(feed.release_dates[1].date, NOW + 21 * DAY);
    assert_eq!(feed.rewind_by_episodes(5, &doc, at).unwrap_err(), RacerError::InvalidParameter);
    let late = NOW + 1000 * DAY;
    assert_eq!(feed.rewind_by_episodes(1, &doc, late).unwrap_err(), RacerError::InvalidParameter);
}

#[test]
fn change_of_pace_moves_the_anchor_by_the_ratio_of_the_paces() {
    let doc = weekly(10);
    let mut feed = racer(&doc, Pace::ratio(1, 1).unwrap());
    let at = NOW + 20 * DAY;
    feed.set_rate(Pace::ratio(2, 1).unwrap(), &doc, at).unwrap();
    assert_eq!(feed.get_rate(), Pace { num: 2, den: 1 });
    assert_eq!(feed.get_anchor_date(), at - 10 * DAY);
    assert_eq!(feed.release_dates[2].date, at - 10 * DAY + 7 * DAY);
}

#[test]
fn change_of_pace_takes_no_release_back() {
    let doc = weekly(10);
    let paces = [(1u32, 1u32), (2, 1), (1, 2), (7, 3), (3, 7), (1000, 1), (1, 1000), (13, 11)];
    for from in paces.iter() {
        for to in paces.iter() {
            let mut t = NOW - 40 * DAY;
            while t < NOW + 80 * DAY {
                let mut feed = racer(&doc, Pace::ratio(from.0, from.1).unwrap());
                feed.update(&doc, t).unwrap();
                let before = dates(&feed);
                let due = feed.get_num_to_publish(t);
                if feed.set_rate(Pace::ratio(to.0, to.1).unwrap(), &doc, t).is_ok() {
                    let after = dates(&feed);
                    for i in 0..10 {
                        if before[i] < t {
                            assert!(after[i] < t);
                        }
                    }
                    assert!(feed.get_num_to_publish(t) >= due);
                }
                t += 3 * DAY + 12_345;
            }
        }
    }
}

#[test]
fn change_of_pace_of_a_paused_feed_is_kept_for_its_resumption() {
    let doc = weekly(10);
    let mut feed = racer(&doc, Pace::ratio(1, 1).unwrap());
    feed.pause_feed(&doc, NOW + 10 * DAY).unwrap();
    feed.set_rate(Pace::ratio(2, 1).unwrap(), &doc, NOW + 50 * DAY).unwrap();
    assert_eq!(feed.get_rate().num, 0);
    assert_eq!(feed.get_old_rate(), Some(Pace { num: 2, den: 1 }));
    assert_eq!(feed.get_anchor_date(), NOW + 5 * DAY);
    assert_eq!(feed.get_num_to_publish(NOW + 50 * DAY), 2);
    assert!(feed.is_well_formed());
    feed.unpause_feed(&doc, NOW + 50 * DAY).unwrap();
    assert_eq!(feed.get_rate(), Pace { num: 2, den: 1 });
    assert_eq!(feed.get_anchor_date(), NOW + 45 * DAY);
}

#[test]
fn pace_that_is_not_positive_is_refused_and_changes_nothing() {
    let doc = weekly(3);
    let mut feed = racer(&doc, Pace::ratio(1, 1).unwrap());
    let before = format!("{:?}", feed);
    assert_eq!(feed.set_rate(Pace { num: 0, den: 1 }, &doc, NOW).unwrap_err(), RacerError::InvalidParameter);
    assert_eq!(feed.set_rate(Pace { num: 1, den: 0 }, &doc, NOW).unwrap_err(), RacerError::InvalidParameter);
    assert_eq!(before, format!("{:?}", feed));
}

#[test]
fn first_publish_date_stays_what_it_was_set_to() {
    let doc = weekly(4);
    let mut feed = racer(&doc, Pace::ratio(1, 1).unwrap());
    feed.rewind_by_days(1, &doc, NOW).unwrap();
    feed.set_rate(Pace::ratio(3, 1).unwrap(), &doc, NOW + DAY).unwrap();
    feed.pause_feed(&doc, NOW + 2 * DAY).unwrap();
    feed.unpause_feed(&doc, NOW + 3 * DAY).unwrap();
    assert_eq!(feed.get_first_pubdate(), T0);
    assert_eq!(feed.get_uuid_string(), "abcd");
}

#[test]
fn publish_at_the_last_instant_of_the_range_is_refused_and_changes_nothing() {
    let doc = weekly(2);
    let mut feed = racer(&doc, Pace::ratio(1, 1).unwrap());
    let before = format!("{:?}", feed);
    assert_eq!(feed.publish_episode_num(1, &doc, MAX_INSTANT).unwrap_err(), RacerError::OutOfRange);
    assert_eq!(before, format!("{:?}", feed));
}

#[test]
fn pause_then_resume_a_few_seconds_later_moves_every_release_by_those_seconds() {
    let doc = weekly(6);
    let mut feed = racer(&doc, Pace::ratio(7, 3).unwrap());
    feed.update(&doc, NOW + 5 * DAY).unwrap();
    let before = dates(&feed);
    feed.pause_feed(&doc, NOW + 5 * DAY).unwrap();
    let resumed = feed.unpause_feed(&doc, NOW + 5 * DAY + 3).unwrap();
    assert_eq!(resumed.paused_for, 3);
    assert_eq!(feed.get_rate(), Pace { num: 7, den: 3 });
    assert_eq!(feed.get_pause_date(), None);
    assert_eq!(feed.get_old_rate(), None);
    for (i, d) in dates(&feed).iter().enumerate() {
        assert_eq!(*d, before[i] + 3);
    }
}
