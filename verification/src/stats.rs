//! Figures about orders: at which hour of which weekday they were created, and
//! how many were created on each day. Days and hours are those of the clock in
//! Kolkata.

use crate::text::str_eq;
use chrono::{Datelike, Timelike};
use vstd::prelude::*;

verus! {

/// The days of a week.
pub const DAYS: usize = 7;

/// The hours of a day.
pub const HOURS: usize = 24;

/// Whether the moment lies within the years that `chrono` can represent:
/// whether `DateTime::from_timestamp` gives a date and time for it.
pub uninterp spec fn representable(timestamp: int) -> bool;

/// The weekday in Kolkata at a moment, counted from Monday as 0.
pub uninterp spec fn kolkata_weekday(timestamp: int) -> int;

/// The hour of the day in Kolkata at a moment.
pub uninterp spec fn kolkata_hour(timestamp: int) -> int;

/// The date in Kolkata at a moment, as year, month and day with hyphens
/// between them.
pub uninterp spec fn kolkata_date(timestamp: int) -> Seq<char>;

/// Makes the moment with `DateTime::from_timestamp` of `chrono`, converts it
/// to Kolkata's time with `DateTime::with_timezone` of `chrono` and
/// `chrono_tz`, and takes the weekday with `Datelike::weekday`.
///
/// Trusted: there is a result exactly for the moments that `chrono` can
/// represent, since the conversion and the weekday always succeed; the result
/// is the weekday there, counted from Monday as 0 and so below 7. Which
/// moments can be represented is not claimed.
#[verifier::external_body]
fn local_weekday(timestamp: i64) -> (day: Option<u32>)
    ensures
        day is Some <==> representable(timestamp as int),
        day matches Some(d) ==> d == kolkata_weekday(timestamp as int) && d < 7,
{
    let utc = chrono::DateTime::from_timestamp(timestamp, 0)?;
    Some(utc.with_timezone(&chrono_tz::Asia::Kolkata).weekday().num_days_from_monday())
}

/// Makes the moment with `DateTime::from_timestamp` of `chrono`, converts it
/// to Kolkata's time with `DateTime::with_timezone` of `chrono` and
/// `chrono_tz`, and takes the hour with `Timelike::hour`.
///
/// Trusted: there is a result exactly for the moments that `chrono` can
/// represent, since the conversion and the hour always succeed; the result is
/// the hour of the day there, from 0 to 23.
#[verifier::external_body]
fn local_hour(timestamp: i64) -> (hour: Option<u32>)
    ensures
        hour is Some <==> representable(timestamp as int),
        hour matches Some(h) ==> h == kolkata_hour(timestamp as int) && h < 24,
{
    let utc = chrono::DateTime::from_timestamp(timestamp, 0)?;
    Some(utc.with_timezone(&chrono_tz::Asia::Kolkata).hour())
}

/// Converts the moment to Kolkata's time with `DateTime::with_timezone` of
/// `chrono` and `chrono_tz`, and formats it with `DateTime::format` as
/// `%Y-%m-%d`.
///
/// Trusted: for a moment that `chrono` can represent the result is the date
/// there in that format.
#[verifier::external_body]
fn local_date(timestamp: i64) -> (date: Option<String>)
    ensures
        date matches Some(text) ==> text@ == kolkata_date(timestamp as int),
{
    let utc = chrono::DateTime::from_timestamp(timestamp, 0)?;
    Some(utc.with_timezone(&chrono_tz::Asia::Kolkata).format("%Y-%m-%d").to_string())
}

/// A weekday, counted from Monday as 0, and an hour of the day.
#[derive(Clone, Copy, Debug, PartialEq, Eq, Structural)]
pub struct Slot {
    pub day: u32,
    pub hour: u32,
}

/// The slot of a moment in Kolkata.
pub open spec fn kolkata_slot(timestamp: i64) -> Slot {
    Slot {
        day: kolkata_weekday(timestamp as int) as u32,
        hour: kolkata_hour(timestamp as int) as u32,
    }
}

/// The slots of a list of moments, in order.
pub open spec fn kolkata_slots(timestamps: Seq<i64>) -> Seq<Slot> {
    Seq::new(timestamps.len(), |i: int| kolkata_slot(timestamps[i]))
}

/// The dates of a list of moments, in order.
pub open spec fn kolkata_dates(timestamps: Seq<i64>) -> Seq<Seq<char>> {
    Seq::new(timestamps.len(), |i: int| kolkata_date(timestamps[i] as int))
}

/// How many of the slots are the given hour of the given weekday.
pub open spec fn slot_count(slots: Seq<Slot>, day: int, hour: int) -> nat
    decreases slots.len(),
{
    if slots.len() == 0 {
        0
    } else if slots.last().day == day && slots.last().hour == hour {
        slot_count(slots.drop_last(), day, hour) + 1
    } else {
        slot_count(slots.drop_last(), day, hour)
    }
}

/// How many of the labels are the given one.
pub open spec fn label_count(labels: Seq<Seq<char>>, label: Seq<char>) -> nat
    decreases labels.len(),
{
    if labels.len() == 0 {
        0
    } else if labels.last() == label {
        label_count(labels.drop_last(), label) + 1
    } else {
        label_count(labels.drop_last(), label)
    }
}

/// The character sequences of a list of strings.
pub open spec fn label_texts(labels: Seq<String>) -> Seq<Seq<char>> {
    Seq::new(labels.len(), |i: int| labels[i]@)
}

/// Whether `table` counts `slots` by weekday and hour: it has one cell for
/// each hour of each weekday, the hours of Monday first, and each cell holds
/// the number of slots that fall on it.
pub open spec fn tallies(table: Seq<u64>, slots: Seq<Slot>) -> bool {
    &&& table.len() == DAYS * HOURS
    &&& forall|day: int, hour: int|
        0 <= day < DAYS && 0 <= hour < HOURS ==> #[trigger] table[day * HOURS + hour] == slot_count(
            slots,
            day,
            hour,
        )
}

/// Whether `counts` counts `labels`: it names each label that occurs once,
/// with the number of times that it occurs.
pub open spec fn counts_labels(counts: Seq<(String, u64)>, labels: Seq<Seq<char>>) -> bool {
    &&& forall|i: int, j: int|
        0 <= i < counts.len() && 0 <= j < counts.len() && i != j ==> (#[trigger] counts[i]).0@ != (
        #[trigger] counts[j]).0@
    &&& forall|i: int|
        0 <= i < counts.len() ==> (#[trigger] counts[i]).1 == label_count(labels, counts[i].0@)
            && counts[i].1 > 0
    &&& forall|k: int|
        0 <= k < labels.len() ==> exists|i: int|
            0 <= i < counts.len() && (#[trigger] counts[i]).0@ == #[trigger] labels[k]
}

/// No more slots fall on a cell than there are slots.
proof fn lemma_slot_count_bound(slots: Seq<Slot>, day: int, hour: int)
    ensures
        slot_count(slots, day, hour) <= slots.len(),
    decreases slots.len(),
{
    if slots.len() > 0 {
        lemma_slot_count_bound(slots.drop_last(), day, hour);
    }
}

/// No label occurs more often than there are labels.
proof fn lemma_label_count_bound(labels: Seq<Seq<char>>, label: Seq<char>)
    ensures
        label_count(labels, label) <= labels.len(),
    decreases labels.len(),
{
    if labels.len() > 0 {
        lemma_label_count_bound(labels.drop_last(), label);
    }
}

/// Counts slots by weekday and hour. A slot with a day of 7 or more, or an hour
/// of 24 or more, falls on no cell.
pub fn tally(slots: &Vec<Slot>) -> (table: Vec<u64>)
    ensures
        tallies(table@, slots@),
{
    let mut table: Vec<u64> = Vec::new();
    let mut c: usize = 0;
    while c < DAYS * HOURS
        invariant
            c <= DAYS * HOURS,
            table@.len() == c,
            forall|k: int| 0 <= k < c ==> table@[k] == 0,
        decreases DAYS * HOURS - c,
    {
        table.push(0);
        c = c + 1;
    }
    let mut i: usize = 0;
    while i < slots.len()
        invariant
            i <= slots@.len(),
            table@.len() == DAYS * HOURS,
            forall|day: int, hour: int|
                0 <= day < DAYS && 0 <= hour < HOURS ==> #[trigger] table@[day * HOURS + hour]
                    == slot_count(slots@.take(i as int), day, hour),
        decreases slots@.len() - i,
    {
        let slot = slots[i];
        let ghost before = table@;
        proof {
            assert(slots@.take(i + 1).drop_last() =~= slots@.take(i as int));
            assert(slots@.take(i + 1).last() == slot);
        }
        if slot.day < DAYS as u32 && slot.hour < HOURS as u32 {
            let cell: usize = slot.day as usize * HOURS + slot.hour as usize;
            proof {
                lemma_slot_count_bound(slots@.take(i as int), slot.day as int, slot.hour as int);
                assert(table@[slot.day as int * HOURS + slot.hour as int] == slot_count(
                    slots@.take(i as int),
                    slot.day as int,
                    slot.hour as int,
                ));
            }
            let count = table[cell];
            table.set(cell, count + 1);
            assert forall|day: int, hour: int|
                0 <= day < DAYS && 0 <= hour < HOURS implies #[trigger] table@[day * HOURS + hour]
                == slot_count(slots@.take(i + 1), day, hour) by {
                assert(before[day * HOURS + hour] == slot_count(slots@.take(i as int), day, hour));
                if day * HOURS + hour == cell {
                    assert(day == slot.day && hour == slot.hour);
                }
            }
        } else {
            assert forall|day: int, hour: int|
                0 <= day < DAYS && 0 <= hour < HOURS implies #[trigger] table@[day * HOURS + hour]
                == slot_count(slots@.take(i + 1), day, hour) by {
                assert(before[day * HOURS + hour] == slot_count(slots@.take(i as int), day, hour));
            }
        }
        i = i + 1;
    }
    assert(slots@.take(i as int) =~= slots@);
    table
}

/// The slot in Kolkata of a moment: its weekday and hour there. There is a
/// slot exactly for the moments that can be represented, and it lies within
/// the week.
pub fn slot_of(timestamp: i64) -> (slot: Option<Slot>)
    ensures
        slot == (if representable(timestamp as int) {
            Some(kolkata_slot(timestamp))
        } else {
            None
        }),
        slot matches Some(s) ==> s.day < DAYS && s.hour < HOURS,
{
    let day = match local_weekday(timestamp) {
        Some(day) => day,
        None => {
            return None;
        },
    };
    match local_hour(timestamp) {
        Some(hour) => Some(Slot { day, hour }),
        None => None,
    }
}

/// Counts orders by the weekday and hour in Kolkata at which they were created.
/// The result has one cell for each hour of each weekday, the hours of Monday
/// first. There is no result where one of the moments cannot be represented.
pub fn orders_per_hour_by_day(created: &Vec<i64>) -> (table: Option<Vec<u64>>)
    ensures
        table matches Some(cells) ==> tallies(cells@, kolkata_slots(created@)),
        created@.len() == 0 ==> table is Some,
{
    let mut slots: Vec<Slot> = Vec::new();
    let mut i: usize = 0;
    while i < created.len()
        invariant
            i <= created@.len(),
            slots@ == kolkata_slots(created@).take(i as int),
        decreases created@.len() - i,
    {
        match slot_of(created[i]) {
            Some(slot) => {
                slots.push(slot);
                assert(slots@ =~= kolkata_slots(created@).take(i + 1));
            },
            None => {
                return None;
            },
        }
        i = i + 1;
    }
    assert(kolkata_slots(created@).take(i as int) =~= kolkata_slots(created@));
    Some(tally(&slots))
}

/// Counts how often each label occurs. Each label is named once, in the order
/// of its first occurrence.
pub fn count_labels(labels: &Vec<String>) -> (counts: Vec<(String, u64)>)
    ensures
        counts_labels(counts@, label_texts(labels@)),
{
    let ghost all = label_texts(labels@);
    let mut counts: Vec<(String, u64)> = Vec::new();
    let mut i: usize = 0;
    while i < labels.len()
        invariant
            i <= labels@.len(),
            all == label_texts(labels@),
            counts_labels(counts@, all.take(i as int)),
        decreases labels@.len() - i,
    {
        let label = &labels[i];
        let ghost seen = all.take(i as int);
        let ghost next = all.take(i + 1);
        let ghost before = counts@;
        proof {
            assert(next.drop_last() =~= seen);
            assert(next.last() == label@);
        }
        let mut found: Option<usize> = None;
        let mut j: usize = 0;
        while j < counts.len()
            invariant_except_break
                found is None,
                forall|k: int| 0 <= k < j ==> (#[trigger] counts@[k]).0@ != label@,
            invariant
                j <= counts@.len(),
            ensures
                match found {
                    Some(at) => at < counts@.len() && counts@[at as int].0@ == label@,
                    None => forall|k: int|
                        0 <= k < counts@.len() ==> (#[trigger] counts@[k]).0@ != label@,
                },
            decreases counts@.len() - j,
        {
            if str_eq(counts[j].0.as_str(), label.as_str()) {
                found = Some(j);
                break;
            }
            j = j + 1;
        }
        match found {
            Some(at) => {
                proof {
                    lemma_label_count_bound(seen, label@);
                }
                let name = counts[at].0.clone();
                let count = counts[at].1;
                counts.set(at, (name, count + 1));
                proof {
                    let after = counts@;
                    assert forall|a: int, b: int|
                        0 <= a < after.len() && 0 <= b < after.len() && a != b implies (
                    #[trigger] after[a]).0@ != (#[trigger] after[b]).0@ by {
                        assert(before[a].0@ != before[b].0@);
                    }
                    assert forall|a: int| 0 <= a < after.len() implies (#[trigger] after[a]).1
                        == label_count(next, after[a].0@) && after[a].1 > 0 by {
                        assert(before[a].1 == label_count(seen, before[a].0@));
                        if a != at {
                            assert(before[a].0@ != before[at as int].0@);
                        }
                    }
                    assert forall|k: int| 0 <= k < next.len() implies exists|a: int|
                        0 <= a < after.len() && (#[trigger] after[a]).0@ == #[trigger] next[k] by {
                        if k < seen.len() {
                            assert(seen[k] == next[k]);
                            let a = choose|a: int|
                                0 <= a < before.len() && (#[trigger] before[a]).0@ == seen[k];
                            assert(after[a].0@ == next[k]);
                        } else {
                            assert(after[at as int].0@ == next[k]);
                        }
                    }
                }
            },
            None => {
                counts.push((label.clone(), 1));
                proof {
                    let after = counts@;
                    let last = after.len() - 1;
                    assert forall|k: int| 0 <= k < seen.len() implies seen[k] != label@ by {
                        let a = choose|a: int|
                            0 <= a < before.len() && (#[trigger] before[a]).0@ == seen[k];
                        assert(before[a].0@ != label@);
                    }
                    lemma_absent_label_counts_zero(seen, label@);
                    assert forall|a: int, b: int|
                        0 <= a < after.len() && 0 <= b < after.len() && a != b implies (
                    #[trigger] after[a]).0@ != (#[trigger] after[b]).0@ by {
                        if a < last && b < last {
                            assert(before[a].0@ != before[b].0@);
                        } else if a < last {
                            assert(before[a].0@ != label@);
                        } else {
                            assert(before[b].0@ != label@);
                        }
                    }
                    assert forall|a: int| 0 <= a < after.len() implies (#[trigger] after[a]).1
                        == label_count(next, after[a].0@) && after[a].1 > 0 by {
                        if a < last {
                            assert(before[a].1 == label_count(seen, before[a].0@));
                            assert(before[a].0@ != label@);
                        }
                    }
                    assert forall|k: int| 0 <= k < next.len() implies exists|a: int|
                        0 <= a < after.len() && (#[trigger] after[a]).0@ == #[trigger] next[k] by {
                        if k < seen.len() {
                            assert(seen[k] == next[k]);
                            let a = choose|a: int|
                                0 <= a < before.len() && (#[trigger] before[a]).0@ == seen[k];
                            assert(after[a].0@ == next[k]);
                        } else {
                            assert(after[last].0@ == next[k]);
                        }
                    }
                }
            },
        }
        i = i + 1;
    }
    assert(all.take(i as int) =~= all);
    counts
}

/// A label that does not occur is counted zero times.
proof fn lemma_absent_label_counts_zero(labels: Seq<Seq<char>>, label: Seq<char>)
    requires
        forall|k: int| 0 <= k < labels.len() ==> labels[k] != label,
    ensures
        label_count(labels, label) == 0,
    decreases labels.len(),
{
    if labels.len() > 0 {
        assert(labels.last() == labels[labels.len() - 1]);
        assert forall|k: int| 0 <= k < labels.drop_last().len() implies labels.drop_last()[k]
            != label by {
            assert(labels.drop_last()[k] == labels[k]);
        }
        lemma_absent_label_counts_zero(labels.drop_last(), label);
    }
}

/// Counts orders by the date in Kolkata on which they were created. Each date
/// on which an order was created is named once, with the number of orders
/// created on it. There is no result where one of the moments cannot be
/// represented.
pub fn orders_per_day(created: &Vec<i64>) -> (counts: Option<Vec<(String, u64)>>)
    ensures
        counts matches Some(days) ==> counts_labels(days@, kolkata_dates(created@)),
        created@.len() == 0 ==> counts is Some,
{
    let mut dates: Vec<String> = Vec::new();
    let mut i: usize = 0;
    while i < created.len()
        invariant
            i <= created@.len(),
            dates@.len() == i,
            label_texts(dates@) == kolkata_dates(created@).take(i as int),
        decreases created@.len() - i,
    {
        match local_date(created[i]) {
            Some(date) => {
                let ghost before = label_texts(dates@);
                let ghost earlier = dates@;
                dates.push(date);
                proof {
                    let after = label_texts(dates@);
                    let wanted = kolkata_dates(created@).take(i + 1);
                    assert(after.len() == wanted.len());
                    assert forall|k: int| 0 <= k < after.len() implies after[k] == wanted[k] by {
                        if k < i {
                            assert(dates@[k] == earlier[k]);
                            assert(before[k] == earlier[k]@);
                            assert(before[k] == kolkata_dates(created@).take(i as int)[k]);
                        }
                    }
                    assert(after =~= wanted);
                }
            },
            None => {
                return None;
            },
        }
        i = i + 1;
    }
    assert(kolkata_dates(created@).take(i as int) =~= kolkata_dates(created@));
    Some(count_labels(&dates))
}

/// A span of hours of the day, both ends included.
#[derive(Clone, Copy, Debug, PartialEq, Eq, Structural)]
pub struct HourRange {
    pub first: u32,
    pub last: u32,
}

/// The hours of the three meals.
#[derive(Clone, Copy, Debug, PartialEq, Eq, Structural)]
pub struct MealPeriods {
    pub breakfast: HourRange,
    pub lunch: HourRange,
    pub dinner: HourRange,
}

/// The hours of a meal by its name: `breakfast`, `lunch` or `dinner`. Any other
/// name is the name of no meal.
pub open spec fn hours_of(periods: MealPeriods, name: Seq<char>) -> Option<HourRange> {
    if name == "breakfast"@ {
        Some(periods.breakfast)
    } else if name == "lunch"@ {
        Some(periods.lunch)
    } else if name == "dinner"@ {
        Some(periods.dinner)
    } else {
        None
    }
}

impl HourRange {
    /// Whether the hour lies in the span.
    pub fn contains(&self, hour: u32) -> (inside: bool)
        ensures
            inside == (self.first <= hour <= self.last),
    {
        self.first <= hour && hour <= self.last
    }
}

impl MealPeriods {
    /// The usual hours: breakfast from 6 to 10, lunch from 11 to 14, dinner
    /// from 18 to 21.
    pub fn usual() -> (periods: MealPeriods)
        ensures
            periods == (MealPeriods {
                breakfast: HourRange { first: 6, last: 10 },
                lunch: HourRange { first: 11, last: 14 },
                dinner: HourRange { first: 18, last: 21 },
            }),
    {
        MealPeriods {
            breakfast: HourRange { first: 6, last: 10 },
            lunch: HourRange { first: 11, last: 14 },
            dinner: HourRange { first: 18, last: 21 },
        }
    }

    /// The hours of the meal with the given name.
    pub fn hours(&self, name: &str) -> (range: Option<HourRange>)
        ensures
            range == hours_of(*self, name@),
    {
        if str_eq(name, "breakfast") {
            Some(self.breakfast)
        } else if str_eq(name, "lunch") {
            Some(self.lunch)
        } else if str_eq(name, "dinner") {
            Some(self.dinner)
        } else {
            None
        }
    }
}

} // verus!
