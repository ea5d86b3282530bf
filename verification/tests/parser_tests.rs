use timetable::model::{MeetTime, TimeError, Weekday};
use timetable::parser::find;
use timetable::parser::weekday_ser::{contains_day, deserialize, serialize};

fn named<V>(pairs: Vec<(&str, V)>) -> Vec<(String, V)> {
    pairs.into_iter().map(|(k, v)| (k.to_string(), v)).collect()
}

#[test]
fn find_takes_the_last_entry_under_a_key() {
    let entries = named(vec![("a", 1u32), ("b", 2), ("a", 3)]);
    assert_eq!(find(&entries, "a"), Some(3));
    assert_eq!(find(&entries, "b"), Some(2));
    assert_eq!(find(&entries, "c"), None);
    assert_eq!(find(&Vec::<(String, u32)>::new(), "a"), None);
}

#[test]
fn time_is_written_in_lower_case_keys() {
    let entries = MeetTime::new(9, 30).serialize();
    assert_eq!(entries, named(vec![("hour", 9u32), ("minute", 30)]));
}

#[test]
fn time_is_read_from_capitalised_keys() {
    let entries = named(vec![("Hour", 14u32), ("Minute", 5)]);
    assert_eq!(MeetTime::deserialize(&entries), Ok(MeetTime::new(14, 5)));
}

#[test]
fn missing_fields_are_errors() {
    assert_eq!(MeetTime::deserialize(&named(vec![("Minute", 5u32)])), Err(TimeError::MissingHour));
    assert_eq!(MeetTime::deserialize(&named(vec![("Hour", 5u32)])), Err(TimeError::MissingMinute));
    assert_eq!(MeetTime::deserialize(&Vec::new()), Err(TimeError::MissingHour));
}

#[test]
fn out_of_range_times_are_errors() {
    assert_eq!(
        MeetTime::deserialize(&named(vec![("Hour", 24u32), ("Minute", 0)])),
        Err(TimeError::InvalidTime)
    );
    assert_eq!(
        MeetTime::deserialize(&named(vec![("Hour", 0u32), ("Minute", 60)])),
        Err(TimeError::InvalidTime)
    );
}

#[test]
fn written_time_is_not_read_under_capitalised_keys() {
    let entries = MeetTime::new(9, 0).serialize();
    assert_eq!(MeetTime::deserialize(&entries), Err(TimeError::MissingHour));
}

#[test]
fn time_round_trips_under_its_own_keys() {
    for (h, m) in [(0u32, 0u32), (9, 0), (12, 34), (23, 59)] {
        let t = MeetTime::new(h, m);
        assert_eq!(MeetTime::deserialize_keyed(&t.serialize(), "hour", "minute"), Ok(t));
    }
}

#[test]
fn days_are_written_as_seven_flags_in_order() {
    let entries = serialize(&vec![Weekday::Wednesday, Weekday::Monday]);
    assert_eq!(
        entries,
        named(vec![
            ("monday", true),
            ("tuesday", false),
            ("wednesday", true),
            ("thursday", false),
            ("friday", false),
            ("saturday", false),
            ("sunday", false),
        ])
    );
    let none = serialize(&Vec::new());
    assert_eq!(none.len(), 7);
    assert!(none.iter().all(|e| !e.1));
}

#[test]
fn days_are_read_in_the_order_of_the_week() {
    let entries = named(vec![("sunday", true), ("friday", false), ("tuesday", true), ("monday", true)]);
    assert_eq!(deserialize(&entries), vec![Weekday::Monday, Weekday::Tuesday, Weekday::Sunday]);
}

#[test]
fn absent_and_unknown_keys_count_as_false() {
    assert_eq!(deserialize(&Vec::new()), Vec::<Weekday>::new());
    let entries = named(vec![("Monday", true), ("someday", true), ("friday", true)]);
    assert_eq!(deserialize(&entries), vec![Weekday::Friday]);
}

#[test]
fn day_sets_round_trip() {
    let sets: Vec<Vec<Weekday>> = vec![
        vec![],
        vec![Weekday::Monday],
        vec![Weekday::Sunday, Weekday::Monday],
        vec![Weekday::Friday, Weekday::Friday, Weekday::Tuesday],
        Weekday::all(),
    ];
    for set in sets {
        let back = deserialize(&serialize(&set));
        for day in Weekday::all() {
            assert_eq!(contains_day(&back, day), contains_day(&set, day));
        }
        for pair in back.windows(2) {
            assert!(pair[0].index() < pair[1].index());
        }
    }
}
