//! The codec of a time of day: a pair of named numbers, hour and minute.

use vstd::prelude::*;
use vstd::string::*;
use crate::model::{MeetTime, TimeError};

pub mod weekday_ser;

verus! {

/// The value that a list of named values gives a key: that of the last
/// entry under the key, if there is one.
pub open spec fn lookup<V>(entries: Seq<(String, V)>, key: Seq<char>) -> Option<V>
    decreases entries.len(),
{
    if entries.len() == 0 {
        None
    } else if entries.last().0@ == key {
        Some(entries.last().1)
    } else {
        lookup(entries.drop_last(), key)
    }
}

/// Looks a key up in a list of named values.
pub fn find<V: Copy>(entries: &Vec<(String, V)>, key: &str) -> (r: Option<V>)
    ensures
        r == lookup(entries@, key@),
{
    let wanted = String::from_str(key);
    let mut i: usize = entries.len();
    assert(entries@.take(i as int) =~= entries@);
    while i > 0
        invariant
            i <= entries.len(),
            wanted@ == key@,
            lookup(entries@, key@) == lookup(entries@.take(i as int), key@),
        decreases i,
    {
        i = i - 1;
        assert(entries@.take(i + 1).drop_last() =~= entries@.take(i as int));
        if entries[i].0 == wanted {
            return Some(entries[i].1);
        }
    }
    None
}

/// An entry that is alone under its key is what the key gives.
pub proof fn lemma_lookup_unique<V>(entries: Seq<(String, V)>, at: int)
    requires
        0 <= at < entries.len(),
        forall|j: int| 0 <= j < entries.len() && j != at ==> (#[trigger] entries[j]).0@ != entries[at].0@,
    ensures
        lookup(entries, entries[at].0@) == Some(entries[at].1),
    decreases entries.len(),
{
    if at < entries.len() - 1 {
        lemma_lookup_unique(entries.drop_last(), at);
    }
}

/// No entry under a key: the key gives nothing.
pub proof fn lemma_lookup_absent<V>(entries: Seq<(String, V)>, key: Seq<char>)
    requires
        forall|j: int| 0 <= j < entries.len() ==> (#[trigger] entries[j]).0@ != key,
    ensures
        lookup(entries, key) is None,
    decreases entries.len(),
{
    if entries.len() > 0 {
        lemma_lookup_absent(entries.drop_last(), key);
    }
}

/// The entries that a time is written as: `hour` and `minute`, in lower
/// case, in this order.
pub open spec fn encodes_time(entries: Seq<(String, u32)>, t: MeetTime) -> bool {
    &&& entries.len() == 2
    &&& entries[0].0@ == "hour"@
    &&& entries[0].1 == t.spec_hour()
    &&& entries[1].0@ == "minute"@
    &&& entries[1].1 == t.spec_minute()
}

/// The hour and minute that a list of entries holds under two keys, or why
/// it holds none: the hour is looked for first, then the minute, then the
/// two are held to the range of a day.
pub open spec fn decoded_time(
    entries: Seq<(String, u32)>,
    hour_key: Seq<char>,
    minute_key: Seq<char>,
) -> Result<(nat, nat), TimeError> {
    match (lookup(entries, hour_key), lookup(entries, minute_key)) {
        (None, _) => Err(TimeError::MissingHour),
        (Some(_), None) => Err(TimeError::MissingMinute),
        (Some(h), Some(m)) => if h < 24 && m < 60 {
            Ok((h as nat, m as nat))
        } else {
            Err(TimeError::InvalidTime)
        },
    }
}

impl MeetTime {
    /// Writes the time as two entries, `hour` and `minute`.
    pub fn serialize(&self) -> (entries: Vec<(String, u32)>)
        ensures
            encodes_time(entries@, *self),
    {
        let mut entries: Vec<(String, u32)> = Vec::new();
        entries.push((String::from_str("hour"), self.hour()));
        entries.push((String::from_str("minute"), self.minute()));
        entries
    }

    /// Reads a time from the entries `Hour` and `Minute`. The keys are
    /// capitalised here and in lower case where a time is written: a saved
    /// document names them `startHour`, `endMinute` and so on.
    pub fn deserialize(entries: &Vec<(String, u32)>) -> (res: Result<MeetTime, TimeError>)
        ensures
            match res {
                Ok(t) => t.wf() && decoded_time(entries@, "Hour"@, "Minute"@) == Ok::<
                    (nat, nat),
                    TimeError,
                >((t.spec_hour(), t.spec_minute())),
                Err(e) => decoded_time(entries@, "Hour"@, "Minute"@) == Err::<(nat, nat), TimeError>(e),
            },
    {
        MeetTime::deserialize_keyed(entries, "Hour", "Minute")
    }

    /// Reads a time from the entries under the two given keys.
    pub fn deserialize_keyed(entries: &Vec<(String, u32)>, hour_key: &str, minute_key: &str) -> (res:
        Result<MeetTime, TimeError>)
        ensures
            match res {
                Ok(t) => t.wf() && decoded_time(entries@, hour_key@, minute_key@) == Ok::<
                    (nat, nat),
                    TimeError,
                >((t.spec_hour(), t.spec_minute())),
                Err(e) => decoded_time(entries@, hour_key@, minute_key@) == Err::<
                    (nat, nat),
                    TimeError,
                >(e),
            },
    {
        let hour: u32 = match find(entries, hour_key) {
            Some(h) => h,
            None => return Err(TimeError::MissingHour),
        };
        let minute: u32 = match find(entries, minute_key) {
            Some(m) => m,
            None => return Err(TimeError::MissingMinute),
        };
        match MeetTime::checked(hour, minute) {
            Some(t) => Ok(t),
            None => Err(TimeError::InvalidTime),
        }
    }
}

/// A time that is written and then read under the keys it was written with
/// comes back as it was.
pub proof fn lemma_time_round_trip(t: MeetTime, entries: Seq<(String, u32)>)
    requires
        t.wf(),
        encodes_time(entries, t),
    ensures
        decoded_time(entries, "hour"@, "minute"@) == Ok::<(nat, nat), TimeError>(
            (t.spec_hour(), t.spec_minute()),
        ),
{
    reveal_strlit("hour");
    reveal_strlit("minute");
    assert("hour"@.len() != "minute"@.len());
    lemma_lookup_unique(entries, 0);
    lemma_lookup_unique(entries, 1);
    t.lemma_wf(t);
}

/// A time as it is written holds no capitalised key: read under `Hour` and
/// `Minute`, it lacks the hour.
pub proof fn lemma_written_time_lacks_capitalised_keys(t: MeetTime, entries: Seq<(String, u32)>)
    requires
        encodes_time(entries, t),
    ensures
        decoded_time(entries, "Hour"@, "Minute"@) == Err::<(nat, nat), TimeError>(
            TimeError::MissingHour,
        ),
{
    reveal_strlit("hour");
    reveal_strlit("minute");
    reveal_strlit("Hour");
    assert("hour"@[0] != "Hour"@[0]);
    assert("minute"@.len() != "Hour"@.len());
    lemma_lookup_absent(entries, "Hour"@);
}

} // verus!
