//! The pace of a feed: how fast derived releases follow one another, relative
//! to the spacing of the original ones.

use vstd::prelude::*;
use crate::arith::{div_floor, floor_div, lemma_div_bounds, lemma_floor_div_monotone};
use crate::error::RacerError;
use crate::text::{decimal, decimal_text};
use crate::time::{is_instant, MAX_INSTANT, MIN_INSTANT};

verus! {

/// A pace, held as the fraction `num / den`. A pace of 2 releases in one day
/// what was first published over two. The fraction with `num == 0` is the mark
/// of a paused feed and never scales anything.
#[derive(Clone, Copy, Debug, PartialEq, Eq, Structural)]
pub struct Pace {
    pub num: u32,
    pub den: u32,
}

impl Pace {
    /// A pace that can scale: both parts of the fraction are positive.
    pub open spec fn is_positive(self) -> bool {
        self.num > 0 && self.den > 0
    }

    /// The mark of a paused feed.
    pub open spec fn is_paused_mark(self) -> bool {
        self.num == 0
    }

    /// The pace `num / den`. Refused unless both are positive.
    pub fn ratio(num: u32, den: u32) -> (r: Result<Pace, RacerError>)
        ensures
            num > 0 && den > 0 ==> r == Ok::<Pace, RacerError>(Pace { num, den }),
            !(num > 0 && den > 0) ==> r == Err::<Pace, RacerError>(RacerError::InvalidParameter),
    {
        if num > 0 && den > 0 {
            Ok(Pace { num, den })
        } else {
            Err(RacerError::InvalidParameter)
        }
    }

    /// The pace that works through a backlog of `backlog_days` days in `days`
    /// days. Refused unless both are positive.
    pub fn catch_up_in_days(backlog_days: u32, days: u32) -> (r: Result<Pace, RacerError>)
        ensures
            backlog_days > 0 && days > 0 ==> r == Ok::<Pace, RacerError>(
                Pace { num: backlog_days, den: days },
            ),
            !(backlog_days > 0 && days > 0) ==> r == Err::<Pace, RacerError>(
                RacerError::InvalidParameter,
            ),
    {
        Pace::ratio(backlog_days, days)
    }

    /// The pace at which derived spacing equals original spacing.
    pub fn unit() -> (r: Pace)
        ensures
            r == (Pace { num: 1, den: 1 }),
    {
        Pace { num: 1, den: 1 }
    }

    /// The mark of a paused feed.
    pub fn paused_mark() -> (r: Pace)
        ensures
            r == (Pace { num: 0, den: 1 }),
            r.is_paused_mark(),
    {
        Pace { num: 0, den: 1 }
    }

    /// Whether both parts of the fraction are positive.
    pub fn positive(&self) -> (r: bool)
        ensures
            r == self.is_positive(),
    {
        self.num > 0 && self.den > 0
    }
}

/// `elapsed` seconds of the original timeline, counted on the derived one:
/// `elapsed` divided by the pace, rounded down.
pub open spec fn scaled(elapsed: int, pace: Pace) -> int
    recommends
        pace.is_positive(),
{
    floor_div(elapsed * pace.den, pace.num as int)
}

/// The derived release instant of an entry first published at `original`,
/// on a timeline that starts at `anchor` and counts from `reference`.
pub open spec fn derived(original: int, reference: int, anchor: int, pace: Pace) -> int
    recommends
        pace.is_positive(),
{
    anchor + scaled(original - reference, pace)
}

/// `scaled(elapsed, pace)`.
pub fn scale(elapsed: i64, pace: Pace) -> (r: i128)
    requires
        pace.is_positive(),
    ensures
        r == scaled(elapsed as int, pace),
        -0x8000_0000_0000_0000_0000_0000 <= r <= 0x8000_0000_0000_0000_0000_0000,
{
    let den: i128 = pace.den as i128;
    let num: i128 = pace.num as i128;
    assert(-0x8000_0000_0000_0000_0000_0000 <= (elapsed as int) * (den as int)
        <= 0x8000_0000_0000_0000_0000_0000) by (nonlinear_arith)
        requires
            -0x8000_0000_0000_0000 <= elapsed <= 0x8000_0000_0000_0000,
            0 < den <= 0x1_0000_0000,
    ;
    let product: i128 = (elapsed as i128) * den;
    let q: i128 = div_floor(product, num);
    proof {
        lemma_div_bounds(product as int, num as int);
        assert(-0x8000_0000_0000_0000_0000_0000 <= q <= 0x8000_0000_0000_0000_0000_0000)
            by (nonlinear_arith)
            requires
                (q as int) * (num as int) <= product,
                (product as int) < ((q as int) + 1) * (num as int),
                num >= 1,
                -0x8000_0000_0000_0000_0000_0000 <= product <= 0x8000_0000_0000_0000_0000_0000,
        ;
    }
    q
}

/// The derived release instant of an entry, where it is an instant the
/// library works on.
pub fn derive_instant(original: i64, reference: i64, anchor: i64, pace: Pace) -> (r: Option<i64>)
    requires
        pace.is_positive(),
        is_instant(original as int),
        is_instant(reference as int),
        is_instant(anchor as int),
    ensures
        r == (if is_instant(derived(original as int, reference as int, anchor as int, pace)) {
            Some(derived(original as int, reference as int, anchor as int, pace) as i64)
        } else {
            None::<i64>
        }),
{
    let elapsed: i64 = original - reference;
    let s: i128 = scale(elapsed, pace);
    let t: i128 = (anchor as i128) + s;
    if (MIN_INSTANT as i128) <= t && t <= (MAX_INSTANT as i128) {
        Some(t as i64)
    } else {
        None
    }
}

/// Entries keep their order: of two entries, the one first published earlier
/// is never released later.
pub proof fn lemma_derived_monotone(
    first: int,
    second: int,
    reference: int,
    anchor: int,
    pace: Pace,
)
    requires
        pace.is_positive(),
        first <= second,
    ensures
        derived(first, reference, anchor, pace) <= derived(second, reference, anchor, pace),
{
    assert((first - reference) * pace.den <= (second - reference) * pace.den) by (nonlinear_arith)
        requires
            first <= second,
            pace.den > 0,
    ;
    lemma_floor_div_monotone(
        (first - reference) * pace.den,
        (second - reference) * pace.den,
        pace.num as int,
    );
}

/// The entry first published at the reference instant is released at the
/// anchor.
pub proof fn lemma_derived_at_reference(reference: int, anchor: int, pace: Pace)
    requires
        pace.is_positive(),
    ensures
        derived(reference, reference, anchor, pace) == anchor,
{
    assert((reference - reference) * pace.den == 0) by (nonlinear_arith);
    vstd::arithmetic::div_mod::lemma_div_of0(pace.num as int);
}

/// Moving the anchor moves every derived instant by the same amount.
pub proof fn lemma_derived_follows_anchor(
    original: int,
    reference: int,
    anchor: int,
    by: int,
    pace: Pace,
)
    ensures
        derived(original, reference, anchor + by, pace) == derived(
            original,
            reference,
            anchor,
            pace,
        ) + by,
{
}

/// A pace as a text: the two parts of the fraction.
pub open spec fn pace_text(pace: Pace) -> Seq<char> {
    decimal(pace.num as nat) + "/"@ + decimal(pace.den as nat)
}

/// A pace as a text.
pub fn make_pace_text(pace: Pace) -> (r: String)
    ensures
        r@ == pace_text(pace),
{
    let mut out: String = decimal_text(pace.num as u64);
    out.append("/");
    let den: String = decimal_text(pace.den as u64);
    out.append(den.as_str());
    out
}

} // verus!
