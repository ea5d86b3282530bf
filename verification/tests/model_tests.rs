use timetable::model::{MeetTime, TimeError, Weekday};

#[test]
fn weekday_indices_start_at_monday() {
    assert_eq!(Weekday::Monday.index(), 0);
    assert_eq!(Weekday::Tuesday.index(), 1);
    assert_eq!(Weekday::Wednesday.index(), 2);
    assert_eq!(Weekday::Thursday.index(), 3);
    assert_eq!(Weekday::Friday.index(), 4);
    assert_eq!(Weekday::Saturday.index(), 5);
    assert_eq!(Weekday::Sunday.index(), 6);
}

#[test]
fn all_days_stand_at_their_index() {
    let all = Weekday::all();
    assert_eq!(all.len(), 7);
    for (i, day) in all.iter().enumerate() {
        assert_eq!(day.index(), i);
    }
}

#[test]
fn day_names_and_keys() {
    assert_eq!(Weekday::Monday.name(), "Monday");
    assert_eq!(Weekday::Sunday.name(), "Sunday");
    assert_eq!(Weekday::Wednesday.key(), "wednesday");
    for day in Weekday::all() {
        assert_eq!(day.name().to_lowercase(), day.key());
    }
}

#[test]
fn time_parts_and_minutes() {
    let t = MeetTime::new(10, 30);
    assert_eq!(t.hour(), 10);
    assert_eq!(t.minute(), 30);
    assert_eq!(t.to_minutes(), 630);
    assert_eq!(t.floor_hours(), 10);
    assert_eq!(t.ceil_hours(), 11);
    assert_eq!(MeetTime::new(10, 0).ceil_hours(), 10);
    assert_eq!(MeetTime::new(23, 59).ceil_hours(), 24);
    assert_eq!(MeetTime::new(0, 0).to_minutes(), 0);
}

#[test]
fn checked_accepts_times_of_day_only() {
    assert_eq!(MeetTime::checked(23, 59), Some(MeetTime::new(23, 59)));
    assert_eq!(MeetTime::checked(0, 0), Some(MeetTime::new(0, 0)));
    assert_eq!(MeetTime::checked(24, 0), None);
    assert_eq!(MeetTime::checked(0, 60), None);
    assert_eq!(MeetTime::checked(7, 5).unwrap().to_minutes(), 425);
}

#[test]
fn times_are_ordered_by_minutes() {
    assert!(MeetTime::new(9, 59) < MeetTime::new(10, 0));
    assert!(MeetTime::new(10, 1) > MeetTime::new(10, 0));
    assert_eq!(MeetTime::new(10, 0), MeetTime::new(10, 0));
}

#[test]
fn subtraction_gives_the_minutes_between() {
    let d = MeetTime::new(10, 30).sub(MeetTime::new(9, 0)).unwrap();
    assert_eq!(d.to_minutes(), 90);
    assert_eq!((d.hour(), d.minute()), (1, 30));
    let zero = MeetTime::new(9, 0).sub(MeetTime::new(9, 0)).unwrap();
    assert_eq!(zero.to_minutes(), 0);
    let e = MeetTime::new(12, 15).sub(MeetTime::new(11, 45)).unwrap();
    assert_eq!(e.to_minutes(), 30);
}

#[test]
fn subtraction_below_zero_is_an_invalid_duration() {
    assert_eq!(MeetTime::new(9, 0).sub(MeetTime::new(9, 1)), Err(TimeError::InvalidDuration));
}

#[test]
fn error_messages() {
    assert_eq!(TimeError::MissingHour.message(), "Missing hour");
    assert_eq!(TimeError::MissingMinute.message(), "Missing minute");
    assert_eq!(TimeError::InvalidTime.message(), "Invalid time");
    assert_eq!(TimeError::InvalidDuration.message(), "Invalid duration");
}
