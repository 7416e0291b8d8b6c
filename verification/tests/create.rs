use racer::create::{
    create_feed, normalize_url, scrub_title, RacerCreationParams, INDENT_AMOUNT, ORIGINAL_RSS_FILE,
    RACER_FILE, RACER_RSS_FILE, SCHEMA_VERSION, SPACE_CHAR,
};
use racer::error::RacerError;
use racer::feed::{Document, Entry};
use racer::pace::Pace;
use racer::state::FeedRacer;

const T0: i64 = 1_514_764_800;
const NOW: i64 = 1_700_000_000;
const DAY: i64 = 86_400;

fn document(count: usize) -> Document {
    let mut entries = Vec::new();
    for i in (0..count).rev() {
        entries.push(Entry {
            title: if i == 0 { None } else { Some(format!("episode {}", i + 1)) },
            pub_date: Some(format!("{:02} Jan 2018 00:00:00 +0000", i + 1)),
            description: None,
            content: None,
            media: None,
            directory_block: false,
            media_rights: false,
            position: count - 1 - i,
        });
    }
    Document {
        title: "My Show: Part/One".to_string(),
        description: "About".to_string(),
        image_title: None,
        directory_block: false,
        links: vec![],
        entries,
    }
}

fn params(url: &str, start_ep: usize, rate: Pace) -> RacerCreationParams {
    RacerCreationParams {
        static_file_dir: "/srv/static".to_string(),
        podracer_dir: "/srv/podcasts".to_string(),
        host: "http://racer.example:8000".to_string(),
        url: url.to_string(),
        start_ep,
        port: 8000,
        rate,
    }
}

#[test]
fn address_without_a_scheme_is_taken_as_a_secure_web_address() {
    assert_eq!(normalize_url("upstream.example/feed"), "https://upstream.example/feed");
    assert_eq!(normalize_url("http://upstream.example/feed"), "http://upstream.example/feed");
    assert_eq!(normalize_url("https://upstream.example/feed"), "https://upstream.example/feed");
    assert_eq!(normalize_url(""), "https://");
    assert_eq!(normalize_url(&normalize_url("a.example")), "https://a.example");
}

#[test]
fn title_in_a_directory_name_is_lower_case_without_spaces_slashes_and_colons() {
    assert_eq!(scrub_title("My Show: Part/One"), "my-show-part-one");
    assert_eq!(scrub_title("ÄB C"), "äb-c");
    assert_eq!(scrub_title(""), "");
}

#[test]
fn new_feed_releases_its_first_episode_at_creation() {
    let doc = document(5);
    let made = FeedRacer::with_uuid(&doc, &params("http://u.example/f", 1, Pace::ratio(2, 1).unwrap()), "id-1".to_string(), NOW).unwrap();
    let feed = made.racer;
    assert!(feed.is_well_formed());
    assert_eq!(feed.schema_version, SCHEMA_VERSION);
    assert_eq!(feed.get_podcast_title(), "My Show: Part/One");
    assert_eq!(feed.get_uuid_string(), "id-1");
    assert_eq!(feed.get_rate(), Pace { num: 2, den: 1 });
    assert_eq!(feed.get_old_rate(), None);
    assert_eq!(feed.get_pause_date(), None);
    assert_eq!(feed.get_racer_path(), "/srv/podcasts/my-show-part-one_id-1");
    assert_eq!(feed.get_source_url(), "http://u.example/f");
    assert_eq!(
        feed.get_subscribe_url(),
        "http://racer.example:8000/podcasts/my-show-part-one_id-1/racer.rss"
    );
    assert_eq!(feed.get_anchor_date(), NOW);
    assert_eq!(feed.get_first_pubdate(), T0);
    assert_eq!(feed.get_num_episodes(), 5);
    assert_eq!(feed.release_dates[0].date, NOW);
    assert_eq!(feed.release_dates[0].title, "[no title]");
    assert_eq!(feed.release_dates[1].title, "episode 2");
    assert_eq!(feed.release_dates[4].date, NOW + 2 * DAY);
    assert_eq!(made.document.entries.len(), 1);
    assert_eq!(made.document.entries[0].pub_date.as_deref(), Some("Tue, 14 Nov 2023 22:13:20 +0000"));
    assert_eq!(made.document.title, "My Show: Part/One - PodRacer");
}

#[test]
fn feed_that_starts_at_a_later_episode_has_the_earlier_ones_released() {
    let doc = document(5);
    let made = FeedRacer::with_uuid(&doc, &params("http://u.example/f", 3, Pace::ratio(1, 1).unwrap()), "id-1".to_string(), NOW).unwrap();
    assert_eq!(made.racer.get_first_pubdate(), T0 + 2 * DAY);
    assert_eq!(made.racer.release_dates[2].date, NOW);
    assert_eq!(made.racer.release_dates[0].date, NOW - 2 * DAY);
    assert_eq!(made.document.entries.len(), 3);
}

#[test]
fn start_episode_out_of_range_is_refused() {
    let doc = document(5);
    let rate = Pace::ratio(1, 1).unwrap();
    for start in [0usize, 6, 100] {
        let r = FeedRacer::with_uuid(&doc, &params("http://u.example/f", start, rate), "id".to_string(), NOW);
        assert_eq!(r.unwrap_err(), RacerError::InvalidParameter);
    }
    let empty = document(0);
    let r = FeedRacer::with_uuid(&empty, &params("http://u.example/f", 1, rate), "id".to_string(), NOW);
    assert_eq!(r.unwrap_err(), RacerError::InvalidParameter);
}

#[test]
fn pace_that_is_not_positive_is_refused_at_creation() {
    let doc = document(5);
    let r = FeedRacer::with_uuid(&doc, &params("http://u.example/f", 1, Pace { num: 0, den: 1 }), "id".to_string(), NOW);
    assert_eq!(r.unwrap_err(), RacerError::InvalidParameter);
}

#[test]
fn entry_that_cannot_be_dated_fails_the_creation() {
    let mut doc = document(5);
    doc.entries[2].pub_date = Some("soon".to_string());
    let r = FeedRacer::with_uuid(&doc, &params("http://u.example/f", 1, Pace::ratio(1, 1).unwrap()), "id".to_string(), NOW);
    assert_eq!(r.unwrap_err(), RacerError::MalformedTimestamp);
}

#[test]
fn creation_outside_the_range_fails() {
    let doc = document(5);
    let r = FeedRacer::with_uuid(&doc, &params("http://u.example/f", 1, Pace::ratio(1, 1).unwrap()), "id".to_string(), i64::MIN);
    assert_eq!(r.unwrap_err(), RacerError::OutOfRange);
    let r = FeedRacer::with_uuid(&doc, &params("http://u.example/f", 1, Pace::ratio(1, 1).unwrap()), "id".to_string(), racer::time::MAX_INSTANT);
    assert_eq!(r.unwrap_err(), RacerError::OutOfRange);
}

#[test]
fn feed_of_ten_entries_at_pace_one_shows_one_entry_when_it_is_set_up() {
    let doc = document(10);
    let made = FeedRacer::with_uuid(&doc, &params("http://u.example/f", 1, Pace::ratio(1, 1).unwrap()), "id".to_string(), NOW).unwrap();
    assert_eq!(made.document.entries.len(), 1);
    assert_eq!(made.racer.get_num_episodes(), 10);
    assert_eq!(made.racer.get_num_to_publish(NOW + 1), 1);
}

#[test]
fn each_new_feed_gets_an_identifier_of_its_own() {
    let doc = document(3);
    let p = params("http://u.example/f", 1, Pace::ratio(1, 1).unwrap());
    let a = FeedRacer::new(&doc, &p, NOW).unwrap().racer;
    let b = FeedRacer::new(&doc, &p, NOW).unwrap().racer;
    assert!(!a.get_uuid_string().is_empty());
    assert_ne!(a.get_uuid_string(), b.get_uuid_string());
    assert_eq!(a.get_racer_path(), format!("/srv/podcasts/my-show-part-one_{}", a.get_uuid_string()));
    assert!(a.is_well_formed());
}

#[test]
fn create_feed_puts_the_address_into_the_form_it_is_fetched_from() {
    let doc = document(3);
    let mut p = params("upstream.example/feed", 1, Pace::ratio(1, 1).unwrap());
    let made = create_feed(&mut p, &doc, NOW).unwrap();
    assert_eq!(p.url, "https://upstream.example/feed");
    assert_eq!(made.racer.get_source_url(), "https://upstream.example/feed");
    assert_eq!(made.racer.get_num_episodes(), 3);
    let mut bad = params("upstream.example/feed", 9, Pace::ratio(1, 1).unwrap());
    assert_eq!(create_feed(&mut bad, &doc, NOW).unwrap_err(), RacerError::InvalidParameter);
}

#[test]
fn podcast_title_is_taken_from_the_cached_copy_once() {
    let doc = document(3);
    let mut feed = FeedRacer::with_uuid(&doc, &params("http://u.example/f", 1, Pace::ratio(1, 1).unwrap()), "id".to_string(), NOW).unwrap().racer;
    feed.podcast_title = None;
    assert_eq!(feed.get_podcast_title(), "NONE");
    assert_eq!(feed.get_or_create_podcast_title(&doc), "My Show: Part/One");
    assert_eq!(feed.get_podcast_title(), "My Show: Part/One");
    let mut other = document(1);
    other.title = "Another".to_string();
    assert_eq!(feed.get_or_create_podcast_title(&other), "My Show: Part/One");
}

#[test]
fn file_names_and_layout_are_fixed() {
    assert_eq!(SCHEMA_VERSION, "1.0.0");
    assert_eq!(ORIGINAL_RSS_FILE, "original.rss");
    assert_eq!(RACER_RSS_FILE, "racer.rss");
    assert_eq!(RACER_FILE, "racer.file");
    assert_eq!(INDENT_AMOUNT, 2);
    assert_eq!(SPACE_CHAR, b' ');
}
