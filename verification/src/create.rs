//! Setting up a feed: its identifier, its names and addresses, and its first
//! schedule.

use vstd::prelude::*;
use crate::error::{failure, RacerError};
use crate::feed::{entry_views, Document, DocumentView};
use crate::intake::{dated, lemma_dated_each, read_instants};
use crate::order::{arranged, ascending, ascending_order};
use crate::pace::Pace;
use crate::state::{FeedRacer, RacerView};
use crate::text::{contains, join, lowercase, occurs, replace, replaced, to_lowercase};
use crate::time::{instant_in_range, is_instant};
use crate::update::updated;

verus! {

/// The version of the record's layout.
pub const SCHEMA_VERSION: &'static str = "1.0.0";

/// The file that holds the cached copy of the upstream document.
pub const ORIGINAL_RSS_FILE: &'static str = "original.rss";

/// The file that holds the derived document.
pub const RACER_RSS_FILE: &'static str = "racer.rss";

/// The file that holds the record.
pub const RACER_FILE: &'static str = "racer.file";

/// By how many characters a document is indented when written.
pub const INDENT_AMOUNT: usize = 2;

/// The character a document is indented with, a space.
pub const SPACE_CHAR: u8 = 32;

/// What is needed to set up a feed.
#[derive(Debug)]
pub struct RacerCreationParams {
    /// The directory of the files served as they are.
    pub static_file_dir: String,
    /// The directory that holds one directory per feed.
    pub podracer_dir: String,
    /// The address under which the derived documents are served.
    pub host: String,
    /// The address of the upstream document.
    pub url: String,
    /// The number of the episode that is released first.
    pub start_ep: usize,
    /// The port under which the derived documents are served.
    pub port: u32,
    /// The pace.
    pub rate: Pace,
}

/// The address to fetch from: the one given where it names a scheme, else
/// the one given taken as a secure web address.
pub open spec fn source_address(url: Seq<char>) -> Seq<char> {
    if occurs(url, "http"@) {
        url
    } else {
        "https://"@ + url
    }
}

/// The title of a podcast as it stands in the name of a directory: in lower
/// case, with a hyphen for each space and each slash, without colons.
pub open spec fn directory_title(title: Seq<char>) -> Seq<char> {
    replaced(replaced(replaced(lowercase(title), " "@, "-"@), "/"@, "-"@), ":"@, ""@)
}

/// The name of a feed's directory.
pub open spec fn directory_name(title: Seq<char>, uuid: Seq<char>) -> Seq<char> {
    directory_title(title) + "_"@ + uuid
}

/// The path of a feed's directory.
pub open spec fn directory_path(base: Seq<char>, name: Seq<char>) -> Seq<char> {
    base + "/"@ + name
}

/// The address under which a feed's derived document is served.
pub open spec fn subscribe_address(host: Seq<char>, name: Seq<char>) -> Seq<char> {
    host + "/podcasts/"@ + name + "/racer.rss"@
}

/// The record of a new feed before its schedule is made: it runs at the
/// given pace from `now`, and elapsed time is counted from `first`.
pub open spec fn blank(
    title: Seq<char>,
    podracer_dir: Seq<char>,
    host: Seq<char>,
    url: Seq<char>,
    rate: Pace,
    uuid: Seq<char>,
    first: i64,
    now: i64,
) -> RacerView {
    RacerView {
        schema_version: "1.0.0"@,
        podcast_title: Some(title),
        uuid: uuid,
        rate: rate,
        old_rate: None,
        racer_path: directory_path(podracer_dir, directory_name(title, uuid)),
        source_url: url,
        subscribe_url: subscribe_address(host, directory_name(title, uuid)),
        anchor_date: now,
        pause_date: None,
        first_pubdate: first,
        release_dates: Seq::empty(),
    }
}

/// What setting up a feed gives: its record and its first derived document.
/// The entries are taken in ascending order; episode `start_ep` is the one
/// released at `now`, and the derived document is the one of the instant
/// after `now`, which is the first to show that episode. `InvalidParameter`
/// where the pace is not positive or the document has no entry of that
/// number.
pub open spec fn created(
    doc: DocumentView,
    podracer_dir: Seq<char>,
    host: Seq<char>,
    url: Seq<char>,
    start_ep: int,
    rate: Pace,
    uuid: Seq<char>,
    now: i64,
) -> Result<(RacerView, DocumentView), RacerError> {
    if !rate.is_positive() {
        Err(RacerError::InvalidParameter)
    } else if !is_instant(now as int) {
        Err(RacerError::OutOfRange)
    } else {
        match dated(doc.entries) {
            Err(e) => Err(e),
            Ok(instants) => if 1 <= start_ep <= instants.len() {
                updated(
                    blank(
                        doc.title,
                        podracer_dir,
                        host,
                        url,
                        rate,
                        uuid,
                        arranged(instants, ascending(instants))[start_ep - 1],
                        now,
                    ),
                    doc,
                    (now + 1) as i64,
                )
            } else {
                Err(RacerError::InvalidParameter)
            },
        }
    }
}

/// Whether a feed can be set up does not hang on its identifier: where
/// setting it up fails under one, it fails in the same way under any other.
pub proof fn lemma_created_under_any_uuid(
    doc: DocumentView,
    podracer_dir: Seq<char>,
    host: Seq<char>,
    url: Seq<char>,
    start_ep: int,
    rate: Pace,
    one: Seq<char>,
    other: Seq<char>,
    now: i64,
)
    ensures
        failure(created(doc, podracer_dir, host, url, start_ep, rate, one, now)) == failure(
            created(doc, podracer_dir, host, url, start_ep, rate, other, now),
        ),
{
}

/// A new feed: its record and its first derived document.
#[derive(Debug)]
pub struct Created {
    /// The record.
    pub racer: FeedRacer,
    /// The derived document.
    pub document: Document,
}

/// Calls `uuid::Uuid::new_v4` and writes the result out with its `Display`.
/// Trusted: nothing is claimed of the text, which is drawn at random.
#[verifier::external_body]
fn fresh_uuid() -> (r: String) {
    uuid::Uuid::new_v4().to_string()
}

/// The address to fetch from.
pub fn normalize_url(url: &str) -> (r: String)
    ensures
        r@ == source_address(url@),
{
    if contains(url, "http") {
        String::from_str(url)
    } else {
        join("https://", url)
    }
}

/// The title of a podcast as it stands in the name of a directory.
pub fn scrub_title(title: &str) -> (r: String)
    ensures
        r@ == directory_title(title@),
{
    proof {
        reveal_strlit(" ");
        reveal_strlit("/");
        reveal_strlit(":");
    }
    let lower: String = to_lowercase(title);
    let hyphened: String = replace(lower.as_str(), " ", "-");
    let unslashed: String = replace(hyphened.as_str(), "/", "-");
    replace(unslashed.as_str(), ":", "")
}

/// Sets up a feed, under a new identifier, from the upstream document that
/// was fetched for it. The address in `params` is put into the form it is
/// fetched from. It fails exactly where setting the feed up fails under
/// every identifier.
pub fn create_feed(params: &mut RacerCreationParams, doc: &Document, now: i64) -> (r: Result<
    Created,
    RacerError,
>)
    ensures
        final(params).url@ == source_address(old(params).url@),
        final(params).static_file_dir == old(params).static_file_dir,
        final(params).podracer_dir == old(params).podracer_dir,
        final(params).host == old(params).host,
        final(params).start_ep == old(params).start_ep,
        final(params).port == old(params).port,
        final(params).rate == old(params).rate,
        r.is_ok() ==> r.unwrap().racer.wf() && created(
            doc@,
            old(params).podracer_dir@,
            old(params).host@,
            source_address(old(params).url@),
            old(params).start_ep as int,
            old(params).rate,
            r.unwrap().racer@.uuid,
            now,
        ) == Ok::<(RacerView, DocumentView), RacerError>((r.unwrap().racer@, r.unwrap().document@)),
        r.is_err() ==> forall|uuid: Seq<char>|
            #[trigger] created(
                doc@,
                old(params).podracer_dir@,
                old(params).host@,
                source_address(old(params).url@),
                old(params).start_ep as int,
                old(params).rate,
                uuid,
                now,
            ) == Err::<(RacerView, DocumentView), RacerError>(r.unwrap_err()),
{
    let url: String = normalize_url(params.url.as_str());
    params.url = url;
    FeedRacer::new(doc, params, now)
}

/// An address in the form it is fetched from stays as it is.
pub proof fn lemma_source_address_settles(url: Seq<char>)
    ensures
        source_address(source_address(url)) == source_address(url),
{
    reveal_strlit("http");
    reveal_strlit("https://");
    if !occurs(url, "http"@) {
        let full: Seq<char> = "https://"@ + url;
        assert("http"@.len() == 4);
        assert(full.subrange(0int, 0int + "http"@.len()) =~= "http"@);
        assert(occurs(full, "http"@));
    }
}

/// The path of the directory of a new feed, which holds the title of the
/// podcast and the identifier of the feed.
pub fn create_feed_racer_dir(podracer_dir: &str, title: &str, uuid: &str) -> (r: String)
    ensures
        r@ == directory_path(podracer_dir@, directory_name(title@, uuid@)),
{
    let mut name: String = scrub_title(title);
    name.append("_");
    name.append(uuid);
    let mut path: String = join(podracer_dir, "/");
    path.append(name.as_str());
    path
}

/// The address under which the derived document of a new feed is served.
pub fn make_subscribe_url(host: &str, title: &str, uuid: &str) -> (r: String)
    ensures
        r@ == subscribe_address(host@, directory_name(title@, uuid@)),
{
    let mut name: String = scrub_title(title);
    name.append("_");
    name.append(uuid);
    let mut url: String = join(host, "/podcasts/");
    url.append(name.as_str());
    url.append("/racer.rss");
    url
}

impl FeedRacer {
    /// Sets up a feed under the given identifier.
    pub fn with_uuid(doc: &Document, params: &RacerCreationParams, uuid: String, now: i64) -> (r: Result<
        Created,
        RacerError,
    >)
        ensures
            match created(
                doc@,
                params.podracer_dir@,
                params.host@,
                params.url@,
                params.start_ep as int,
                params.rate,
                uuid@,
                now,
            ) {
                Ok((record, document)) => r.is_ok() && r.unwrap().racer@ == record && r.unwrap().racer.wf()
                    && r.unwrap().document@ == document,
                Err(e) => r.is_err() && r.unwrap_err() == e,
            },
    {
        if !params.rate.positive() {
            return Err(RacerError::InvalidParameter);
        }
        if !instant_in_range(now) {
            return Err(RacerError::OutOfRange);
        }
        let instants: Vec<i64> = match read_instants(&doc.entries) {
            Ok(v) => v,
            Err(e) => {
                return Err(e);
            },
        };
        proof {
            lemma_dated_each(entry_views(doc.entries@));
        }
        if params.start_ep < 1 || params.start_ep > instants.len() {
            return Err(RacerError::InvalidParameter);
        }
        let order: Vec<usize> = ascending_order(&instants);
        let first: i64 = instants[order[params.start_ep - 1]];
        let racer_path: String = create_feed_racer_dir(
            params.podracer_dir.as_str(),
            doc.title.as_str(),
            uuid.as_str(),
        );
        let subscribe_url: String = make_subscribe_url(
            params.host.as_str(),
            doc.title.as_str(),
            uuid.as_str(),
        );
        let mut racer: FeedRacer = FeedRacer {
            schema_version: String::from_str("1.0.0"),
            podcast_title: Some(doc.title.clone()),
            uuid: uuid,
            rate: params.rate,
            old_rate: None,
            racer_path: racer_path,
            source_url: params.url.clone(),
            subscribe_url: subscribe_url,
            anchor_date: now,
            pause_date: None,
            first_pubdate: first,
            release_dates: Vec::new(),
        };
        assert(racer@.release_dates =~= Seq::empty());
        assert(racer@ == blank(
            doc@.title,
            params.podracer_dir@,
            params.host@,
            params.url@,
            params.rate,
            racer@.uuid,
            first,
            now,
        ));
        match racer.update(doc, now + 1) {
            Ok(document) => Ok(Created { racer, document }),
            Err(e) => Err(e),
        }
    }

    /// Sets up a feed under a new identifier. It fails exactly where setting
    /// the feed up fails under every identifier.
    pub fn new(doc: &Document, params: &RacerCreationParams, now: i64) -> (r: Result<Created, RacerError>)
        ensures
            r.is_ok() ==> r.unwrap().racer.wf() && created(
                doc@,
                params.podracer_dir@,
                params.host@,
                params.url@,
                params.start_ep as int,
                params.rate,
                r.unwrap().racer@.uuid,
                now,
            ) == Ok::<(RacerView, DocumentView), RacerError>((r.unwrap().racer@, r.unwrap().document@)),
            r.is_err() ==> forall|uuid: Seq<char>|
                #[trigger] created(
                    doc@,
                    params.podracer_dir@,
                    params.host@,
                    params.url@,
                    params.start_ep as int,
                    params.rate,
                    uuid,
                    now,
                ) == Err::<(RacerView, DocumentView), RacerError>(r.unwrap_err()),
    {
        let uuid: String = fresh_uuid();
        let ghost given: Seq<char> = uuid@;
        let r: Result<Created, RacerError> = FeedRacer::with_uuid(doc, params, uuid, now);
        proof {
            if r.is_err() {
                assert forall|uuid: Seq<char>|
                    #[trigger] created(
                        doc@,
                        params.podracer_dir@,
                        params.host@,
                        params.url@,
                        params.start_ep as int,
                        params.rate,
                        uuid,
                        now,
                    ) == Err::<(RacerView, DocumentView), RacerError>(r.unwrap_err()) by {
                    lemma_created_under_any_uuid(
                        doc@,
                        params.podracer_dir@,
                        params.host@,
                        params.url@,
                        params.start_ep as int,
                        params.rate,
                        given,
                        uuid,
                        now,
                    );
                }
            }
            if r.is_ok() {
                crate::update::lemma_update_keeps_identity(
                    blank(
                        doc@.title,
                        params.podracer_dir@,
                        params.host@,
                        params.url@,
                        params.rate,
                        given,
                        r.unwrap().racer@.first_pubdate,
                        now,
                    ),
                    doc@,
                    (now + 1) as i64,
                );
            }
        }
        r
    }

    /// The podcast's title; where the record does not hold it yet, it is
    /// taken from the cached copy of the upstream document and kept.
    pub fn get_or_create_podcast_title(&mut self, cached: &Document) -> (r: String)
        ensures
            r@ == (match old(self)@.podcast_title {
                Some(t) => t,
                None => cached@.title,
            }),
            final(self)@ == (RacerView { podcast_title: Some(r@), ..old(self)@ }),
    {
        match &self.podcast_title {
            Some(t) => t.clone(),
            None => {
                self.podcast_title = Some(cached.title.clone());
                cached.title.clone()
            },
        }
    }
}

} // verus!
