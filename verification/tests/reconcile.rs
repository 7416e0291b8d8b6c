use racer::batch::{update_all, update_racer_at_path, UpdateMetadata, PARALLEL_UPDATES};
use racer::create::RacerCreationParams;
use racer::error::RacerError;
use racer::feed::{Document, Entry};
use racer::pace::Pace;
use racer::reconcile::{Reconciled, RssFile};
use racer::state::FeedRacer;

const NOW: i64 = 1_700_000_000;

fn document(title: &str, count: usize) -> Document {
    let mut entries = Vec::new();
    for i in 0..count {
        entries.push(Entry {
            title: Some(format!("episode {}", i + 1)),
            pub_date: Some(format!("{:02} Jan 2018 00:00:00 +0000", i + 1)),
            description: None,
            content: None,
            media: None,
            directory_block: false,
            media_rights: false,
            position: i,
        });
    }
    Document {
        title: title.to_string(),
        description: "About".to_string(),
        image_title: None,
        directory_block: false,
        links: vec![],
        entries,
    }
}

fn reconcile(cached: Option<Document>, fetched: Option<Document>) -> Result<Reconciled, RacerError> {
    racer(&document("any", 1)).get_original_rss(RssFile::Download, cached, fetched)
}

fn from_storage(cached: Option<Document>, fetched: Option<Document>) -> Result<Reconciled, RacerError> {
    racer(&document("any", 1)).get_original_rss(RssFile::FromStorage, cached, fetched)
}

fn racer(doc: &Document) -> FeedRacer {
    let params = RacerCreationParams {
        static_file_dir: "/srv/static".to_string(),
        podracer_dir: "/srv/podcasts".to_string(),
        host: "http://racer.example".to_string(),
        url: "http://upstream.example/feed".to_string(),
        start_ep: 1,
        port: 80,
        rate: Pace::ratio(1, 1).unwrap(),
    };
    FeedRacer::with_uuid(doc, &params, "abcd".to_string(), NOW).unwrap().racer
}

#[test]
fn without_a_cached_copy_a_fetch_is_made_whatever_was_preferred() {
    assert_eq!(RssFile::functional_mode(RssFile::FromStorage, false), RssFile::Download);
    assert_eq!(RssFile::functional_mode(RssFile::Download, false), RssFile::Download);
    assert_eq!(RssFile::functional_mode(RssFile::FromStorage, true), RssFile::FromStorage);
    assert_eq!(RssFile::functional_mode(RssFile::Download, true), RssFile::Download);
    assert!(RssFile::Download.is_download());
    assert!(!RssFile::FromStorage.is_download());
}

#[test]
fn fetched_document_with_more_entries_overwrites_the_cache() {
    let r = reconcile(Some(document("cached", 3)), Some(document("fetched", 5))).unwrap();
    assert_eq!(r.document.title, "fetched");
    assert!(r.had_new_entries);
    assert!(r.overwrite_cache);
}

#[test]
fn fetched_document_with_fewer_entries_overwrites_the_cache_too() {
    let r = reconcile(Some(document("cached", 3)), Some(document("fetched", 2))).unwrap();
    assert_eq!(r.document.title, "fetched");
    assert!(r.had_new_entries);
    assert!(r.overwrite_cache);
}

#[test]
fn fetched_document_with_as_many_entries_is_taken_but_not_written() {
    let r = reconcile(Some(document("cached", 3)), Some(document("fetched", 3))).unwrap();
    assert_eq!(r.document.title, "fetched");
    assert!(!r.had_new_entries);
    assert!(!r.overwrite_cache);
}

#[test]
fn first_fetch_is_written_unless_it_is_empty() {
    let r = reconcile(None, Some(document("fetched", 1))).unwrap();
    assert!(r.had_new_entries && r.overwrite_cache);
    let r = reconcile(None, Some(document("fetched", 0))).unwrap();
    assert!(!r.had_new_entries && !r.overwrite_cache);
}

#[test]
fn failed_fetch_falls_back_to_the_cached_copy_and_is_noted() {
    let r = reconcile(Some(document("cached", 3)), None).unwrap();
    assert_eq!(r.document.title, "cached");
    assert!(!r.had_new_entries);
    assert!(!r.overwrite_cache);
    assert_eq!(r.soft_failure, Some(RacerError::UpstreamFetchFailed));
}

#[test]
fn fetched_document_that_is_taken_leaves_no_failure_noted() {
    let r = reconcile(Some(document("cached", 3)), Some(document("fetched", 4))).unwrap();
    assert_eq!(r.soft_failure, None);
    let r = reconcile(None, Some(document("fetched", 4))).unwrap();
    assert_eq!(r.soft_failure, None);
}

#[test]
fn failed_fetch_without_a_cached_copy_is_not_found() {
    assert_eq!(reconcile(None, None).unwrap_err(), RacerError::NotFound);
    assert_eq!(from_storage(None, None).unwrap_err(), RacerError::NotFound);
}

#[test]
fn cached_copy_that_is_preferred_is_taken_whatever_was_fetched() {
    let r = from_storage(Some(document("cached", 3)), Some(document("fetched", 5))).unwrap();
    assert_eq!(r.document.title, "cached");
    assert!(!r.had_new_entries);
    assert!(!r.overwrite_cache);
    assert_eq!(r.soft_failure, None);
    let r = from_storage(Some(document("cached", 3)), None).unwrap();
    assert_eq!(r.document.title, "cached");
    assert_eq!(r.soft_failure, None);
}

#[test]
fn without_a_cached_copy_the_fetched_document_is_taken_whatever_was_preferred() {
    let r = from_storage(None, Some(document("fetched", 2))).unwrap();
    assert_eq!(r.document.title, "fetched");
    assert!(r.had_new_entries);
    assert!(r.overwrite_cache);
}

#[test]
fn update_without_a_record_is_not_found() {
    let r = update_racer_at_path(None, RssFile::Download, Some(document("cached", 3)), None, NOW);
    assert_eq!(r.unwrap_err(), RacerError::NotFound);
}

#[test]
fn update_of_a_record_that_is_not_consistent_fails() {
    let cached = document("cached", 3);
    let mut feed = racer(&cached);
    feed.pause_date = Some(NOW);
    assert!(!feed.is_well_formed());
    let r = update_racer_at_path(Some(feed), RssFile::Download, Some(cached), None, NOW);
    assert_eq!(r.unwrap_err(), RacerError::IOFailure);
}

#[test]
fn update_without_any_upstream_document_is_not_found() {
    let cached = document("cached", 3);
    let feed = racer(&cached);
    let r = update_racer_at_path(Some(feed), RssFile::Download, None, None, NOW);
    assert_eq!(r.unwrap_err(), RacerError::NotFound);
}

#[test]
fn update_after_a_failed_fetch_works_on_the_cached_copy_and_notes_the_failure() {
    let cached = document("cached", 3);
    let feed = racer(&cached);
    let r = update_racer_at_path(Some(feed), RssFile::Download, Some(cached), None, NOW + 1).unwrap();
    assert_eq!(r.soft_failure, Some(RacerError::UpstreamFetchFailed));
    assert_eq!(r.upstream.title, "cached");
    assert!(!r.overwrite_cache && !r.had_new_entries);
    assert_eq!(r.document.entries.len(), 1);
}

#[test]
fn upstream_growth_from_three_to_five_is_cached_and_scheduled() {
    let cached = document("cached", 3);
    let feed = racer(&cached);
    assert_eq!(feed.get_num_episodes(), 3);
    let r = update_racer_at_path(
        Some(feed),
        RssFile::Download,
        Some(cached),
        Some(document("fetched", 5)),
        NOW + 1,
    )
    .unwrap();
    assert_eq!(r.soft_failure, None);
    let numbers: Vec<u64> = r.racer.release_dates.iter().map(|e| e.ep_num).collect();
    assert_eq!(numbers, vec![1, 2, 3, 4, 5]);
    assert!(r.overwrite_cache);
    assert!(r.had_new_entries);
    assert_eq!(r.upstream.title, "fetched");
    assert_eq!(r.upstream.entries.len(), 5);
    assert_eq!(r.racer.get_num_episodes(), 5);
    assert_eq!(r.document.title, "fetched - PodRacer");
    assert_eq!(r.document.entries.len(), 1);
}

#[test]
fn update_from_the_cached_copy_twice_gives_the_same_document() {
    let cached = document("cached", 6);
    let feed = racer(&cached);
    let at = NOW + 3 * 86_400;
    let first = update_racer_at_path(
        Some(feed),
        RssFile::FromStorage,
        Some(document("cached", 6)),
        None,
        at,
    )
    .unwrap();
    assert_eq!(first.soft_failure, None);
    assert!(!first.overwrite_cache);
    assert!(!first.had_new_entries);
    let shown = format!("{:?}", first.document);
    let second = update_racer_at_path(
        Some(first.racer),
        RssFile::FromStorage,
        Some(first.upstream),
        Some(document("fetched", 9)),
        at,
    )
    .unwrap();
    assert!(!second.overwrite_cache);
    assert_eq!(shown, format!("{:?}", second.document));
    assert_eq!(second.document.entries.len(), 3);
}

#[test]
fn pass_over_all_feeds_counts_every_feed_and_those_with_new_entries() {
    let outcomes = vec![
        Ok(true),
        Ok(false),
        Err(RacerError::IOFailure),
        Ok(true),
        Err(RacerError::NotFound),
    ];
    let sum = update_all(&outcomes, 1234);
    assert_eq!(sum, UpdateMetadata { num_updated: 5, time: 1234, num_with_new_eps: 2 });
    let none = update_all(&vec![], 0);
    assert_eq!(none, UpdateMetadata { num_updated: 0, time: 0, num_with_new_eps: 0 });
    assert_eq!(PARALLEL_UPDATES, 5);
}
