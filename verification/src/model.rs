//! The schedule model: weekdays, times of day, and the tree of a saved
//! document, from the save down to each weekly meeting.

use vstd::prelude::*;
use vstd::string::*;
use crate::color::HexColor;

verus! {

/// What the command line hands over: the input file and three optional
/// settings (clock type, first day of the week, time increment).
#[derive(Debug, Clone)]
pub struct Args {
    pub csmo_file_path: String,
    pub clock_type: Option<String>,
    pub first_weekday: Option<String>,
    pub time_increment: Option<String>,
}

/// A day of the week.
#[derive(Debug, PartialEq, Eq, Hash, Copy, Clone, Structural)]
pub enum Weekday {
    Monday,
    Tuesday,
    Wednesday,
    Thursday,
    Friday,
    Saturday,
    Sunday,
}

/// The seven days in their fixed order, Monday first.
pub open spec fn all_days() -> Seq<Weekday> {
    seq![
        Weekday::Monday,
        Weekday::Tuesday,
        Weekday::Wednesday,
        Weekday::Thursday,
        Weekday::Friday,
        Weekday::Saturday,
        Weekday::Sunday,
    ]
}

impl Weekday {
    /// The day's place in the week: Monday is 0, Sunday is 6.
    pub open spec fn spec_index(self) -> int {
        match self {
            Weekday::Monday => 0,
            Weekday::Tuesday => 1,
            Weekday::Wednesday => 2,
            Weekday::Thursday => 3,
            Weekday::Friday => 4,
            Weekday::Saturday => 5,
            Weekday::Sunday => 6,
        }
    }

    /// The day's name as it is shown.
    pub open spec fn spec_name(self) -> Seq<char> {
        match self {
            Weekday::Monday => "Monday"@,
            Weekday::Tuesday => "Tuesday"@,
            Weekday::Wednesday => "Wednesday"@,
            Weekday::Thursday => "Thursday"@,
            Weekday::Friday => "Friday"@,
            Weekday::Saturday => "Saturday"@,
            Weekday::Sunday => "Sunday"@,
        }
    }

    /// The day's name in lower case: its key in a saved set of days.
    pub open spec fn spec_key(self) -> Seq<char> {
        match self {
            Weekday::Monday => "monday"@,
            Weekday::Tuesday => "tuesday"@,
            Weekday::Wednesday => "wednesday"@,
            Weekday::Thursday => "thursday"@,
            Weekday::Friday => "friday"@,
            Weekday::Saturday => "saturday"@,
            Weekday::Sunday => "sunday"@,
        }
    }

    /// The day's place in the week: Monday is 0, Sunday is 6.
    pub fn index(&self) -> (i: usize)
        ensures
            i == self.spec_index(),
            i < 7,
            all_days()[i as int] == *self,
    {
        match self {
            Weekday::Monday => 0,
            Weekday::Tuesday => 1,
            Weekday::Wednesday => 2,
            Weekday::Thursday => 3,
            Weekday::Friday => 4,
            Weekday::Saturday => 5,
            Weekday::Sunday => 6,
        }
    }

    /// The day's name as it is shown.
    pub fn name(&self) -> (s: &'static str)
        ensures
            s@ == self.spec_name(),
    {
        match self {
            Weekday::Monday => "Monday",
            Weekday::Tuesday => "Tuesday",
            Weekday::Wednesday => "Wednesday",
            Weekday::Thursday => "Thursday",
            Weekday::Friday => "Friday",
            Weekday::Saturday => "Saturday",
            Weekday::Sunday => "Sunday",
        }
    }

    /// The day's name in lower case.
    pub fn key(&self) -> (s: &'static str)
        ensures
            s@ == self.spec_key(),
    {
        match self {
            Weekday::Monday => "monday",
            Weekday::Tuesday => "tuesday",
            Weekday::Wednesday => "wednesday",
            Weekday::Thursday => "thursday",
            Weekday::Friday => "friday",
            Weekday::Saturday => "saturday",
            Weekday::Sunday => "sunday",
        }
    }

    /// The seven days in their fixed order, Monday first.
    pub fn all() -> (days: Vec<Weekday>)
        ensures
            days@ == all_days(),
    {
        let days = vec![
            Weekday::Monday,
            Weekday::Tuesday,
            Weekday::Wednesday,
            Weekday::Thursday,
            Weekday::Friday,
            Weekday::Saturday,
            Weekday::Sunday,
        ];
        assert(days@ =~= all_days());
        days
    }
}

/// Every day stands in the fixed order at its own index, and no two days
/// share a key.
pub proof fn lemma_days_distinct(a: Weekday, b: Weekday)
    ensures
        0 <= a.spec_index() < 7,
        all_days().len() == 7,
        all_days()[a.spec_index()] == a,
        a.spec_key() == b.spec_key() ==> a == b,
{
    reveal_strlit("monday");
    reveal_strlit("tuesday");
    reveal_strlit("wednesday");
    reveal_strlit("thursday");
    reveal_strlit("friday");
    reveal_strlit("saturday");
    reveal_strlit("sunday");
    if a.spec_key() == b.spec_key() {
        assert(a.spec_key().len() == b.spec_key().len());
        assert(a.spec_key()[0] == b.spec_key()[0]);
        assert(a.spec_key()[1] == b.spec_key()[1]);
    }
}

/// Why a time could not be read or computed.
#[derive(Debug, PartialEq, Eq, Copy, Clone, Structural)]
pub enum TimeError {
    /// The hour field is absent.
    MissingHour,
    /// The minute field is absent.
    MissingMinute,
    /// The hour is above 23 or the minute above 59.
    InvalidTime,
    /// A time was taken from an earlier one.
    InvalidDuration,
}

impl TimeError {
    /// A sentence that says what went wrong.
    pub fn message(&self) -> (s: String)
        ensures
            s@ == match *self {
                TimeError::MissingHour => "Missing hour"@,
                TimeError::MissingMinute => "Missing minute"@,
                TimeError::InvalidTime => "Invalid time"@,
                TimeError::InvalidDuration => "Invalid duration"@,
            },
    {
        match self {
            TimeError::MissingHour => String::from_str("Missing hour"),
            TimeError::MissingMinute => String::from_str("Missing minute"),
            TimeError::InvalidTime => String::from_str("Invalid time"),
            TimeError::InvalidDuration => String::from_str("Invalid duration"),
        }
    }
}

/// `chrono::NaiveTime::from_hms_opt` with zero seconds, asked only whether
/// it gives a time: it does exactly when the hour is below 24 and the minute
/// below 60.
#[verifier::external_body]
fn clock_time_exists(hour: u32, minute: u32) -> (ok: bool)
    ensures
        ok == (hour < 24 && minute < 60),
{
    chrono::NaiveTime::from_hms_opt(hour, minute, 0).is_some()
}

/// A time of day, to the minute. The hour is at most 23 and the minute at
/// most 59, always. Times are ordered by hour, then by minute.
#[derive(Debug, Copy, Clone, PartialEq, Eq, PartialOrd, Ord)]
pub struct MeetTime {
    hour: u32,
    minute: u32,
}

impl MeetTime {
    #[verifier::type_invariant]
    pub closed spec fn wf(self) -> bool {
        self.hour < 24 && self.minute < 60
    }

    /// The hour, 0 to 23.
    pub closed spec fn spec_hour(self) -> nat {
        self.hour as nat
    }

    /// The minute, 0 to 59.
    pub closed spec fn spec_minute(self) -> nat {
        self.minute as nat
    }

    /// Minutes since midnight.
    pub open spec fn spec_minutes(self) -> nat {
        self.spec_hour() * 60 + self.spec_minute()
    }

    /// A well-formed time keeps its hour below 24 and its minute below 60,
    /// and is known by the two.
    pub proof fn lemma_wf(self, other: MeetTime)
        ensures
            self.wf() <==> self.spec_hour() < 24 && self.spec_minute() < 60,
            self.spec_hour() == other.spec_hour() && self.spec_minute() == other.spec_minute()
                ==> self == other,
    {
    }

    /// The time at `hour`:`minute`.
    pub fn new(hour: u32, minute: u32) -> (t: Self)
        requires
            hour < 24,
            minute < 60,
        ensures
            t.wf(),
            t.spec_hour() == hour,
            t.spec_minute() == minute,
    {
        MeetTime { hour, minute }
    }

    /// The time at `hour`:`minute`, if there is such a time of day.
    pub fn checked(hour: u32, minute: u32) -> (res: Option<Self>)
        ensures
            res is Some <==> hour < 24 && minute < 60,
            res matches Some(t) ==> t.wf() && t.spec_hour() == hour && t.spec_minute() == minute,
    {
        if clock_time_exists(hour, minute) {
            Some(MeetTime { hour, minute })
        } else {
            None
        }
    }

    pub fn hour(&self) -> (h: u32)
        ensures
            h == self.spec_hour(),
            h < 24,
            self.wf(),
    {
        proof {
            use_type_invariant(self);
        }
        self.hour
    }

    pub fn minute(&self) -> (m: u32)
        ensures
            m == self.spec_minute(),
            m < 60,
            self.wf(),
    {
        proof {
            use_type_invariant(self);
        }
        self.minute
    }

    /// Minutes since midnight.
    pub fn to_minutes(&self) -> (m: u32)
        ensures
            m == self.spec_minutes(),
            m < 1440,
            self.wf(),
    {
        proof {
            use_type_invariant(self);
        }
        self.hour * 60 + self.minute
    }

    /// The whole hours that have passed: the time in hours, rounded down.
    pub fn floor_hours(&self) -> (h: u32)
        ensures
            h == self.spec_minutes() / 60,
            h < 24,
    {
        proof {
            use_type_invariant(self);
        }
        self.hour
    }

    /// The time in hours, rounded up to a whole hour.
    pub fn ceil_hours(&self) -> (h: u32)
        ensures
            h == (self.spec_minutes() + 59) / 60,
            h <= 24,
    {
        proof {
            use_type_invariant(self);
        }
        if self.minute > 0 {
            self.hour + 1
        } else {
            self.hour
        }
    }

    /// The span from `rhs` to this time, as hours and minutes. Taking a
    /// later time from an earlier one is an error.
    pub fn sub(self, rhs: MeetTime) -> (res: Result<MeetTime, TimeError>)
        ensures
            self.spec_minutes() >= rhs.spec_minutes() ==> (res matches Ok(d) && d.wf()
                && d.spec_minutes() == self.spec_minutes() - rhs.spec_minutes()),
            self.spec_minutes() < rhs.spec_minutes() ==> res == Err::<MeetTime, TimeError>(
                TimeError::InvalidDuration,
            ),
    {
        let left: u32 = self.to_minutes();
        let right: u32 = rhs.to_minutes();
        if left < right {
            return Err(TimeError::InvalidDuration);
        }
        let minutes: u32 = left - right;
        Ok(MeetTime { hour: minutes / 60, minute: minutes % 60 })
    }
}

/// One weekly meeting of an item: who teaches it, where, from when to when,
/// and on which days.
#[derive(Debug, Clone)]
pub struct MeetingTime {
    pub uid: String,
    pub course_type: String,
    pub instructor: String,
    pub location: String,
    pub start: MeetTime,
    pub end: MeetTime,
    pub days: Vec<Weekday>,
}

/// A course or activity on a schedule.
#[derive(Debug, Clone)]
pub struct ScheduleItem {
    pub uid: String,
    pub item_type: String,
    pub title: String,
    pub meeting_times: Vec<MeetingTime>,
    pub background_color: HexColor,
}

/// One named weekly timetable.
#[derive(Debug, Clone)]
pub struct Schedule {
    pub title: String,
    pub items: Vec<ScheduleItem>,
}

/// A saved document: its schedules and which of them is the current one.
#[derive(Debug, Clone)]
pub struct ScheduleSave {
    pub data_check: String,
    pub save_version: u32,
    pub schedules: Vec<Schedule>,
    pub current_schedule: u32,
}

} // verus!
