//! Finding one feed among the feeds of a server: by its identifier, by the
//! name of its directory, or by the address its listeners use.

use vstd::prelude::*;
use crate::error::RacerError;
use crate::state::{FeedRacer, RacerView};
use crate::text::{is_last_part, last_part};

verus! {

/// The views of a sequence of records.
pub open spec fn racer_views(racers: Seq<FeedRacer>) -> Seq<RacerView> {
    Seq::new(racers.len(), |i: int| racers[i]@)
}

/// What a feed is looked up by.
pub enum Key {
    /// The feed's identifier.
    Uuid,
    /// The address its listeners use.
    SubscribeUrl,
}

/// The text of a record that a key is held against.
pub open spec fn key_text(s: RacerView, key: Key) -> Seq<char> {
    match key {
        Key::Uuid => s.uuid,
        Key::SubscribeUrl => s.subscribe_url,
    }
}

/// Whether `i` is the place of the first record whose key text is `wanted`.
pub open spec fn is_first_match(racers: Seq<RacerView>, key: Key, wanted: Seq<char>, i: int) -> bool {
    &&& 0 <= i < racers.len()
    &&& key_text(racers[i], key) == wanted
    &&& forall|k: int| 0 <= k < i ==> key_text(#[trigger] racers[k], key) != wanted
}

/// Whether no record has the key text `wanted`.
pub open spec fn no_match(racers: Seq<RacerView>, key: Key, wanted: Seq<char>) -> bool {
    forall|k: int| 0 <= k < racers.len() ==> key_text(#[trigger] racers[k], key) != wanted
}

/// The place of the first record whose key text is `wanted`.
fn find(racers: &Vec<FeedRacer>, key: Key, wanted: &str) -> (r: Option<usize>)
    ensures
        match r {
            Some(i) => is_first_match(racer_views(racers@), key, wanted@, i as int),
            None => no_match(racer_views(racers@), key, wanted@),
        },
{
    let wanted_text: String = String::from_str(wanted);
    let mut i: usize = 0;
    while i < racers.len()
        invariant
            i <= racers.len(),
            wanted_text@ == wanted@,
            forall|k: int| 0 <= k < i ==> key_text(#[trigger] racer_views(racers@)[k], key) != wanted@,
        decreases racers.len() - i,
    {
        assert(racer_views(racers@)[i as int] == racers[i as int]@);
        let hit: bool = match key {
            Key::Uuid => racers[i].uuid == wanted_text,
            Key::SubscribeUrl => racers[i].subscribe_url == wanted_text,
        };
        if hit {
            return Some(i);
        }
        i = i + 1;
    }
    None
}

/// The feed whose listeners use the address `url`: the first of them in
/// `racers`, `None` where there is none.
pub fn get_by_url(racers: Vec<FeedRacer>, url: &str) -> (r: Option<FeedRacer>)
    ensures
        match r {
            Some(found) => exists|i: int|
                is_first_match(racer_views(racers@), Key::SubscribeUrl, url@, i) && found == racers[i],
            None => no_match(racer_views(racers@), Key::SubscribeUrl, url@),
        },
{
    let mut racers: Vec<FeedRacer> = racers;
    match find(&racers, Key::SubscribeUrl, url) {
        Some(i) => Some(racers.remove(i)),
        None => None,
    }
}

/// The feed with the identifier `uuid`: the first of them in `racers`,
/// `NotFound` where there is none.
pub fn get_feed_by_uuid(racers: Vec<FeedRacer>, uuid: &str) -> (r: Result<FeedRacer, RacerError>)
    ensures
        match r {
            Ok(found) => exists|i: int|
                is_first_match(racer_views(racers@), Key::Uuid, uuid@, i) && found == racers[i],
            Err(e) => e == RacerError::NotFound && no_match(racer_views(racers@), Key::Uuid, uuid@),
        },
{
    let mut racers: Vec<FeedRacer> = racers;
    match find(&racers, Key::Uuid, uuid) {
        Some(i) => Ok(racers.remove(i)),
        None => Err(RacerError::NotFound),
    }
}

/// The name of the directory at `path`: the last part of the path.
pub open spec fn racer_name(path: Seq<char>) -> Seq<char> {
    choose|part: Seq<char>| is_last_part(path, part)
}

impl FeedRacer {
    /// The name of the feed's directory: the last part of its path.
    pub fn get_racer_name(&self) -> (r: String)
        ensures
            is_last_part(self@.racer_path, r@),
            r@ == racer_name(self@.racer_path),
    {
        let name: String = last_part(self.racer_path.as_str());
        proof {
            lemma_last_part_unique(self@.racer_path, name@, racer_name(self@.racer_path));
        }
        name
    }
}

/// Whether `i` is the place of the first record whose directory is named
/// `name`.
pub open spec fn is_first_named(racers: Seq<RacerView>, name: Seq<char>, i: int) -> bool {
    &&& 0 <= i < racers.len()
    &&& is_last_part(racers[i].racer_path, name)
    &&& forall|k: int| 0 <= k < i ==> !is_last_part((#[trigger] racers[k]).racer_path, name)
}

/// Whether no record has a directory named `name`.
pub open spec fn none_named(racers: Seq<RacerView>, name: Seq<char>) -> bool {
    forall|k: int| 0 <= k < racers.len() ==> !is_last_part((#[trigger] racers[k]).racer_path, name)
}

/// The place of the first record whose directory is named `name`.
fn find_named(racers: &Vec<FeedRacer>, name: &str) -> (r: Option<usize>)
    ensures
        match r {
            Some(i) => is_first_named(racer_views(racers@), name@, i as int),
            None => none_named(racer_views(racers@), name@),
        },
{
    let wanted: String = String::from_str(name);
    let mut i: usize = 0;
    while i < racers.len()
        invariant
            i <= racers.len(),
            wanted@ == name@,
            forall|k: int|
                0 <= k < i ==> !is_last_part((#[trigger] racer_views(racers@)[k]).racer_path, name@),
        decreases racers.len() - i,
    {
        let found: String = racers[i].get_racer_name();
        proof {
            assert(racer_views(racers@)[i as int] == racers[i as int]@);
            lemma_last_part_unique(racers[i as int]@.racer_path, found@, name@);
        }
        if found == wanted {
            return Some(i);
        }
        i = i + 1;
    }
    None
}

/// The feed whose directory is named `target_dir`: the first of them in
/// `racers`, `None` where there is none.
pub fn get_by_dir_name(racers: Vec<FeedRacer>, target_dir: &str) -> (r: Option<FeedRacer>)
    ensures
        match r {
            Some(found) => exists|i: int|
                is_first_named(racer_views(racers@), target_dir@, i) && found == racers[i],
            None => none_named(racer_views(racers@), target_dir@),
        },
{
    let mut racers: Vec<FeedRacer> = racers;
    match find_named(&racers, target_dir) {
        Some(i) => Some(racers.remove(i)),
        None => None,
    }
}

/// The feed that a request to update one podcast means, which names it by
/// its directory or by the address its listeners use: the first feed whose
/// directory has that name; where there is none, the first whose address it
/// is; `NotFound` where there is none either.
pub fn update_one_handler(racers: Vec<FeedRacer>, podcast: &str) -> (r: Result<FeedRacer, RacerError>)
    ensures
        match r {
            Ok(found) => exists|i: int|
                found == racers[i] && (is_first_named(racer_views(racers@), podcast@, i) || (none_named(
                    racer_views(racers@),
                    podcast@,
                ) && is_first_match(racer_views(racers@), Key::SubscribeUrl, podcast@, i))),
            Err(e) => e == RacerError::NotFound && none_named(racer_views(racers@), podcast@)
                && no_match(racer_views(racers@), Key::SubscribeUrl, podcast@),
        },
{
    let mut racers: Vec<FeedRacer> = racers;
    match find_named(&racers, podcast) {
        Some(i) => Ok(racers.remove(i)),
        None => match find(&racers, Key::SubscribeUrl, podcast) {
            Some(i) => Ok(racers.remove(i)),
            None => Err(RacerError::NotFound),
        },
    }
}

/// A path has one last part only.
pub proof fn lemma_last_part_unique(path: Seq<char>, first: Seq<char>, second: Seq<char>)
    requires
        is_last_part(path, first),
    ensures
        is_last_part(path, second) ==> first == second,
{
    if is_last_part(path, second) {
        let a: Seq<char> = choose|head: Seq<char>|
            #![trigger head + first]
            path == head + first && (head.len() == 0 || head.last() == '/');
        let b: Seq<char> = choose|head: Seq<char>|
            #![trigger head + second]
            path == head + second && (head.len() == 0 || head.last() == '/');
        assert(path.len() == a.len() + first.len());
        assert(path.len() == b.len() + second.len());
        if a.len() < b.len() {
            let at: int = b.len() - 1;
            assert((b + second)[at] == '/');
            assert((a + first)[at] == first[at - a.len()]);
            assert(first.contains('/'));
        } else if b.len() < a.len() {
            let at: int = a.len() - 1;
            assert((a + first)[at] == '/');
            assert((b + second)[at] == second[at - b.len()]);
            assert(second.contains('/'));
        } else {
            assert(first =~= path.skip(a.len() as int));
            assert(second =~= path.skip(b.len() as int));
        }
    }
}

} // verus!
