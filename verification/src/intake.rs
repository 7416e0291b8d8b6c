//! Taking in the entries of an upstream document: reading the date of each
//! and putting them in ascending order.

use vstd::prelude::*;
use crate::dates::{checked_instant, parse_instant, rfc2822_instant};
use crate::error::RacerError;
use crate::feed::{entry_views, Entry, EntryView};
use crate::order::arranged;
use crate::time::is_instant;

verus! {

/// The original instant of an entry: what its date reads as.
/// `MalformedTimestamp` where it has no date or one that cannot be read,
/// `OutOfRange` where the instant is outside the range the library works on.
pub open spec fn entry_instant(entry: EntryView) -> Result<i64, RacerError> {
    match entry.pub_date {
        None => Err(RacerError::MalformedTimestamp),
        Some(text) => checked_instant(rfc2822_instant(text)),
    }
}

/// The original instants of the entries, in the order of the entries, or the
/// error of the first entry that has none.
pub open spec fn dated(entries: Seq<EntryView>) -> Result<Seq<i64>, RacerError>
    decreases entries.len(),
{
    if entries.len() == 0 {
        Ok(Seq::empty())
    } else {
        match dated(entries.drop_last()) {
            Err(e) => Err(e),
            Ok(front) => match entry_instant(entries.last()) {
                Err(e) => Err(e),
                Ok(t) => Ok(front.push(t)),
            },
        }
    }
}

/// Where the entries are dated, there is one instant for each, and each is
/// the instant of its entry.
pub proof fn lemma_dated_each(entries: Seq<EntryView>)
    requires
        dated(entries).is_ok(),
    ensures
        dated(entries).unwrap().len() == entries.len(),
        forall|i: int|
            0 <= i < entries.len() ==> entry_instant(#[trigger] entries[i]) == Ok::<i64, RacerError>(
                dated(entries).unwrap()[i],
            ),
        forall|i: int| 0 <= i < entries.len() ==> is_instant(#[trigger] dated(entries).unwrap()[i] as int),
    decreases entries.len(),
{
    if entries.len() > 0 {
        lemma_dated_each(entries.drop_last());
        let front: Seq<i64> = dated(entries.drop_last()).unwrap();
        assert forall|i: int| 0 <= i < entries.len() implies entry_instant(#[trigger] entries[i]) == Ok::<
            i64,
            RacerError,
        >(dated(entries).unwrap()[i]) by {
            if i < entries.len() - 1 {
                assert(entries.drop_last()[i] == entries[i]);
                assert(front[i] == dated(entries).unwrap()[i]);
            }
        }
        assert forall|i: int| 0 <= i < entries.len() implies is_instant(
            #[trigger] dated(entries).unwrap()[i] as int,
        ) by {
            if i < entries.len() - 1 {
                assert(front[i] == dated(entries).unwrap()[i]);
            }
        }
    }
}

/// Once some entry cannot be dated, no longer list of entries can.
proof fn lemma_dated_fails_on(entries: Seq<EntryView>, upto: int)
    requires
        0 <= upto <= entries.len(),
        dated(entries.take(upto)).is_err(),
    ensures
        dated(entries) == dated(entries.take(upto)),
    decreases entries.len() - upto,
{
    if upto < entries.len() {
        assert(entries.take(upto + 1).drop_last() =~= entries.take(upto));
        lemma_dated_fails_on(entries, upto + 1);
    } else {
        assert(entries.take(upto) =~= entries);
    }
}

/// The original instant of an entry.
pub fn read_entry_instant(entry: &Entry) -> (r: Result<i64, RacerError>)
    ensures
        r == entry_instant(entry@),
{
    match &entry.pub_date {
        None => Err(RacerError::MalformedTimestamp),
        Some(text) => parse_instant(text.as_str()),
    }
}

/// The original instants of the entries.
pub fn read_instants(entries: &Vec<Entry>) -> (r: Result<Vec<i64>, RacerError>)
    ensures
        match dated(entry_views(entries@)) {
            Ok(instants) => r.is_ok() && r.unwrap()@ == instants,
            Err(e) => r == Err::<Vec<i64>, RacerError>(e),
        },
{
    let ghost views: Seq<EntryView> = entry_views(entries@);
    let mut out: Vec<i64> = Vec::new();
    let mut i: usize = 0;
    assert(views.take(0) =~= Seq::<EntryView>::empty());
    while i < entries.len()
        invariant
            i <= entries.len(),
            views == entry_views(entries@),
            dated(views.take(i as int)) == Ok::<Seq<i64>, RacerError>(out@),
        decreases entries.len() - i,
    {
        proof {
            assert(views.take(i + 1).drop_last() =~= views.take(i as int));
            assert(views.take(i + 1).last() == entries[i as int]@);
        }
        match read_entry_instant(&entries[i]) {
            Ok(t) => {
                out.push(t);
            },
            Err(e) => {
                proof {
                    lemma_dated_fails_on(views, i + 1);
                }
                return Err(e);
            },
        }
        i = i + 1;
    }
    assert(views.take(i as int) =~= views);
    Ok(out)
}

/// The entries, taken in the given order.
pub open spec fn arranged_entries(entries: Seq<EntryView>, order: Seq<usize>) -> Seq<EntryView> {
    Seq::new(order.len(), |i: int| entries[order[i] as int])
}

/// Copies of the entries, taken in the given order.
pub fn arrange_entries(entries: &Vec<Entry>, order: &Vec<usize>) -> (r: Vec<Entry>)
    requires
        forall|i: int| 0 <= i < order.len() ==> (#[trigger] order[i]) < entries.len(),
    ensures
        entry_views(r@) == arranged_entries(entry_views(entries@), order@),
{
    let mut out: Vec<Entry> = Vec::new();
    let mut i: usize = 0;
    while i < order.len()
        invariant
            i <= order.len(),
            out.len() == i,
            forall|k: int| 0 <= k < order.len() ==> (#[trigger] order[k]) < entries.len(),
            forall|k: int| 0 <= k < i ==> (#[trigger] out[k])@ == entries[order[k] as int]@,
        decreases order.len() - i,
    {
        out.push(entries[order[i]].copy());
        i = i + 1;
    }
    assert(entry_views(out@) =~= arranged_entries(entry_views(entries@), order@));
    out
}

/// The instants, taken in the given order.
pub fn arrange_instants(instants: &Vec<i64>, order: &Vec<usize>) -> (r: Vec<i64>)
    requires
        forall|i: int| 0 <= i < order.len() ==> (#[trigger] order[i]) < instants.len(),
    ensures
        r@ == arranged(instants@, order@),
{
    let mut out: Vec<i64> = Vec::new();
    let mut i: usize = 0;
    while i < order.len()
        invariant
            i <= order.len(),
            out.len() == i,
            forall|k: int| 0 <= k < order.len() ==> (#[trigger] order[k]) < instants.len(),
            forall|k: int| 0 <= k < i ==> (#[trigger] out[k]) == instants[order[k] as int],
        decreases order.len() - i,
    {
        out.push(instants[order[i]]);
        i = i + 1;
    }
    assert(out@ =~= arranged(instants@, order@));
    out
}

} // verus!
