//! Laws of percentages, times and ticks.

use vstd::prelude::*;

use crate::http::Status;
use crate::progress::Progress;
use crate::time::{
    calendar_year, in_year, is_within, to_ticks, year_is_unique, year_start, Moment, TickUnit,
    Timestamp,
};

verus! {

/// A bit pattern of a number: the sign apart, at most that of infinity.
pub open spec fn is_number(p: Progress) -> bool {
    p.bits <= 0x7FF0_0000_0000_0000 || 0x8000_0000_0000_0000 <= p.bits <= 0xFFF0_0000_0000_0000
}

/// `r` is `p` where that lies from 0 to 100 or is no number, 100 where it is
/// larger, and 0 where it is negative.
pub open spec fn is_bound_of(p: Progress, r: Progress) -> bool {
    &&& p.bits <= 0x4059_0000_0000_0000 ==> r == p
    &&& 0x4059_0000_0000_0000 <= p.bits <= 0x7FF0_0000_0000_0000 ==> r.bits
        == 0x4059_0000_0000_0000
    &&& p.bits == 0x8000_0000_0000_0000 ==> r == p
    &&& 0x8000_0000_0000_0000 < p.bits <= 0xFFF0_0000_0000_0000 ==> r.bits == 0
    &&& !is_number(p) ==> r == p
}

/// Bounding leaves what lies from 0 to 100 alone, takes what is larger to 100
/// and what is negative to 0, and does not touch what is no number.
pub proof fn bounding_has_two_ends(p: Progress, r: Progress)
    requires
        call_ensures(Progress::clamp_percent, (p,), r),
    ensures
        is_bound_of(p, r),
{
}

/// Bounding keeps the order of numbers.
pub proof fn bounding_keeps_order(
    p: Progress,
    q: Progress,
    p_bounded: Progress,
    q_bounded: Progress,
    before: bool,
    after: bool,
)
    requires
        call_ensures(Progress::clamp_percent, (p,), p_bounded),
        call_ensures(Progress::clamp_percent, (q,), q_bounded),
        call_ensures(Progress::reaches, (p, q), before),
        call_ensures(Progress::reaches, (p_bounded, q_bounded), after),
    ensures
        before ==> after,
{
}

/// Numbers of one sign are ordered by their bit patterns, downwards where they
/// are negative; what is positive reaches what is negative, the two zeros
/// reach each other, and what is no number reaches nothing.
pub proof fn numbers_are_ordered_by_bits(p: Progress, q: Progress, r: bool)
    requires
        call_ensures(Progress::reaches, (p, q), r),
    ensures
        !is_number(p) || !is_number(q) ==> !r,
        is_number(p) && is_number(q) && p.bits < 0x8000_0000_0000_0000 && q.bits
            < 0x8000_0000_0000_0000 ==> r == (p.bits >= q.bits),
        is_number(p) && is_number(q) && p.bits >= 0x8000_0000_0000_0000 && q.bits
            >= 0x8000_0000_0000_0000 ==> r == (p.bits <= q.bits),
        is_number(p) && is_number(q) && p.bits < 0x8000_0000_0000_0000 && q.bits
            >= 0x8000_0000_0000_0000 ==> r,
        is_number(p) && is_number(q) && p.bits >= 0x8000_0000_0000_0000 && q.bits
            < 0x8000_0000_0000_0000 ==> r == (p.bits == 0x8000_0000_0000_0000 && q.bits == 0),
{
}

/// The larger of two is one of them and reaches both; what is no number gives
/// way.
pub proof fn larger_reaches_both(p: Progress, q: Progress, r: Progress, first: bool, second: bool)
    requires
        call_ensures(Progress::max, (p, q), r),
        call_ensures(Progress::reaches, (r, p), first),
        call_ensures(Progress::reaches, (r, q), second),
    ensures
        r == p || r == q,
        is_number(p) && is_number(q) ==> first && second,
        !is_number(p) ==> r == q,
        is_number(p) && !is_number(q) ==> r == p,
{
}

/// Timestamps are ordered as the numbers that seconds and nanoseconds make up
/// together.
pub proof fn timestamps_are_ordered(a: Timestamp, b: Timestamp, r: bool)
    requires
        call_ensures(Timestamp::is_after, (a, b), r),
    ensures
        r <==> a.secs * 4_294_967_296 + a.nanos > b.secs * 4_294_967_296 + b.nanos,
{
}

/// An interval holds until so many thousand million nanoseconds have passed.
pub proof fn intervals_are_counted_in_nanoseconds(
    earlier: Moment,
    later: Moment,
    secs: u64,
    r: bool,
)
    requires
        call_ensures(is_within, (earlier, later, secs), r),
    ensures
        r <==> secs > 0 && later.nanos < earlier.nanos + secs * 1_000_000_000,
{
}

/// A second has ten million ticks and a minute sixty times as many; an amount
/// whose ticks do not fit has none.
pub proof fn ticks_are_counted(
    amount: i64,
    in_seconds: Option<i64>,
    in_minutes: Option<i64>,
)
    requires
        call_ensures(to_ticks, (amount, TickUnit::Seconds), in_seconds),
        call_ensures(to_ticks, (amount, TickUnit::Minutes), in_minutes),
    ensures
        in_seconds is Some <==> i64::MIN <= amount * 10_000_000 <= i64::MAX,
        in_seconds matches Some(t) ==> t == amount * 10_000_000,
        in_minutes is Some <==> i64::MIN <= amount * 600_000_000 <= i64::MAX,
        in_minutes matches Some(t) ==> t == amount * 600_000_000,
{
}

/// The calendar year of a timestamp is the one that its second lies in, within
/// the years that are known; the nanoseconds do not matter.
pub proof fn years_hold_their_seconds(
    at: Timestamp,
    other_nanos: u32,
    r: Option<i32>,
    other: Option<i32>,
)
    requires
        call_ensures(calendar_year, (at,), r),
        call_ensures(calendar_year, (Timestamp { secs: at.secs, nanos: other_nanos },), other),
    ensures
        r is Some <==> year_start(-262143) <= at.secs < year_start(262143),
        r matches Some(y) ==> year_start(y as int) <= at.secs < year_start(y + 1),
        other == r,
{
    lemma_year_in_range(at.secs, r);
    lemma_year_in_range(at.secs, other);
    if r is Some && other is Some {
        year_is_unique(at.secs, r->0 as int, other->0 as int);
    }
}

proof fn lemma_starts_increase(y: int, z: int)
    requires
        y <= z,
    ensures
        year_start(y) <= year_start(z),
    decreases z - y,
{
    if y < z {
        lemma_starts_increase(y, z - 1);
        let w = z - 2;
        assert((w + 1) / 4 - w / 4 == (if (w + 1) % 4 == 0 { 1int } else { 0 }));
        assert((w + 1) / 100 - w / 100 == (if (w + 1) % 100 == 0 { 1int } else { 0 }));
        assert((w + 1) / 400 - w / 400 == (if (w + 1) % 400 == 0 { 1int } else { 0 }));
    }
}

pub(crate) proof fn lemma_year_in_range(secs: i64, year: Option<i32>)
    requires
        year matches Some(y) ==> -262143 <= y <= 262142 && in_year(secs, y as int),
    ensures
        year is Some ==> year_start(-262143) <= secs < year_start(262143),
{
    if let Some(y) = year {
        lemma_starts_increase(-262143, y as int);
        lemma_starts_increase(y + 1, 262143);
    }
}

/// A status exists for the numbers of three digits, keeps its number, and
/// means success from 200 to 299.
pub proof fn statuses_keep_their_numbers(code: u16, r: Option<Status>, read: u16, success: bool)
    requires
        call_ensures(Status::from_u16, (code,), r),
        r matches Some(s) ==> call_ensures(Status::as_u16, (s,), read),
        r matches Some(s) ==> call_ensures(Status::is_success, (s,), success),
    ensures
        r is Some <==> 100 <= code <= 999,
        r is Some ==> read == code,
        r is Some ==> success == (code / 100 == 2),
{
}

} // verus!
