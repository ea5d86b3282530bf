//! The codec of a set of weekdays: seven named flags, one for each day.

use vstd::prelude::*;
use vstd::string::*;
use crate::model::{Weekday, all_days, lemma_days_distinct};
use crate::parser::{lookup, find, lemma_lookup_unique};

verus! {

/// Whether a list of flags names a day with a true value. A day that is
/// absent counts as false.
pub open spec fn day_flag(entries: Seq<(String, bool)>, d: Weekday) -> bool {
    lookup(entries, d.spec_key()) == Some(true)
}

/// The seven flags that a set of days is written as: one entry for each day
/// of the week in its fixed order, under the day's lower-case name, true
/// where the day is in the set.
pub open spec fn encodes_days(entries: Seq<(String, bool)>, days: Seq<Weekday>) -> bool {
    &&& entries.len() == 7
    &&& forall|i: int|
        0 <= i < 7 ==> (#[trigger] entries[i]).0@ == all_days()[i].spec_key() && entries[i].1
            == days.contains(all_days()[i])
}

/// The days that a list of flags decodes to: each day that is flagged true,
/// once, in the order of the week.
pub open spec fn decodes_days(entries: Seq<(String, bool)>, days: Seq<Weekday>) -> bool {
    &&& forall|d: Weekday| #[trigger] days.contains(d) <==> day_flag(entries, d)
    &&& forall|i: int, j: int|
        0 <= i < j < days.len() ==> (#[trigger] days[i]).spec_index() < (#[trigger] days[j]).spec_index()
}

/// Whether a day is among the given ones.
pub fn contains_day(days: &Vec<Weekday>, d: Weekday) -> (b: bool)
    ensures
        b == days@.contains(d),
{
    let mut i: usize = 0;
    while i < days.len()
        invariant
            i <= days.len(),
            forall|j: int| 0 <= j < i ==> days@[j] != d,
        decreases days.len() - i,
    {
        if days[i] == d {
            return true;
        }
        i = i + 1;
    }
    false
}

/// Writes a set of days as seven flags.
pub fn serialize(value: &Vec<Weekday>) -> (entries: Vec<(String, bool)>)
    ensures
        encodes_days(entries@, value@),
{
    let week = Weekday::all();
    let mut entries: Vec<(String, bool)> = Vec::new();
    let mut i: usize = 0;
    while i < 7
        invariant
            i <= 7,
            week@ == all_days(),
            entries@.len() == i,
            forall|k: int|
                0 <= k < i ==> (#[trigger] entries@[k]).0@ == all_days()[k].spec_key() && entries@[k].1
                    == value@.contains(all_days()[k]),
        decreases 7 - i,
    {
        let day = week[i];
        entries.push((String::from_str(day.key()), contains_day(value, day)));
        i = i + 1;
    }
    entries
}

/// Reads a set of days from named flags: the days flagged true, in the
/// order of the week. Keys that name no day are passed over.
pub fn deserialize(entries: &Vec<(String, bool)>) -> (days: Vec<Weekday>)
    ensures
        decodes_days(entries@, days@),
{
    let week = Weekday::all();
    let mut days: Vec<Weekday> = Vec::new();
    let mut i: usize = 0;
    while i < 7
        invariant
            i <= 7,
            week@ == all_days(),
            forall|d: Weekday| #[trigger]
                days@.contains(d) <==> d.spec_index() < i && day_flag(entries@, d),
            forall|a: int, b: int|
                0 <= a < b < days@.len() ==> (#[trigger] days@[a]).spec_index() < (
                #[trigger] days@[b]).spec_index(),
        decreases 7 - i,
    {
        let day = week[i];
        let ghost before = days@;
        let flagged = match find(entries, day.key()) {
            Some(flag) => flag,
            None => false,
        };
        if flagged {
            days.push(day);
        }
        proof {
            assert(day.spec_index() == i);
            assert forall|d: Weekday| #[trigger]
                days@.contains(d) <==> d.spec_index() < i + 1 && day_flag(entries@, d) by {
                lemma_days_distinct(d, day);
                if flagged {
                    assert(days@ == before.push(day));
                    assert(days@.last() == day);
                    if days@.contains(d) {
                        let k = choose|k: int| 0 <= k < days@.len() && days@[k] == d;
                        if k < before.len() {
                            assert(before[k] == d);
                            assert(before.contains(d));
                        }
                    }
                    if before.contains(d) {
                        let k = choose|k: int| 0 <= k < before.len() && before[k] == d;
                        assert(days@[k] == d);
                    }
                    if d == day {
                        assert(days@[days@.len() - 1] == d);
                    }
                }
            }
            assert forall|a: int, b: int| 0 <= a < b < days@.len() implies (#[trigger] days@[a]).spec_index()
                < (#[trigger] days@[b]).spec_index() by {
                if flagged && b == days@.len() - 1 {
                    assert(before.contains(before[a]));
                }
            }
        }
        i = i + 1;
    }
    proof {
        assert forall|d: Weekday| #[trigger] days@.contains(d) <==> day_flag(entries@, d) by {
            lemma_days_distinct(d, d);
        }
    }
    days
}

/// A set of days that is written and then read comes back as the same set:
/// each of its days once, in the order of the week.
pub proof fn lemma_days_round_trip(days: Seq<Weekday>, entries: Seq<(String, bool)>, back: Seq<Weekday>)
    requires
        encodes_days(entries, days),
        decodes_days(entries, back),
    ensures
        back.to_set() == days.to_set(),
        back.no_duplicates(),
{
    assert forall|d: Weekday| back.contains(d) <==> days.contains(d) by {
        lemma_days_distinct(d, d);
        let at = d.spec_index();
        assert forall|j: int| 0 <= j < entries.len() && j != at implies (#[trigger] entries[j]).0@
            != entries[at].0@ by {
            lemma_days_distinct(all_days()[j], d);
            lemma_days_distinct(all_days()[j], all_days()[j]);
        }
        lemma_lookup_unique(entries, at);
        assert(entries[at].1 == days.contains(d));
    }
    assert(back.to_set() =~= days.to_set());
    assert forall|i: int, j: int| 0 <= i < back.len() && 0 <= j < back.len() && i != j implies back[i]
        != back[j] by {
        if i < j {
            assert(back[i].spec_index() < back[j].spec_index());
        } else {
            assert(back[j].spec_index() < back[i].spec_index());
        }
    }
}

} // verus!
