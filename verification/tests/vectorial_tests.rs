use timetable::color::HexColor;
use timetable::model::{MeetTime, MeetingTime, Schedule, ScheduleItem, TimeError, Weekday};
use timetable::vectorial::{
    calculate_start_end_hours, default_config, draw_day_headers, draw_event, draw_grid, draw_text,
    draw_time_labels, hour_label, layout, save_vector_schedule, time_range_label, Anchor, Primitive,
    MAX_COLUMNS, UNITS_PER_PIXEL,
};

fn meeting(start: (u32, u32), end: (u32, u32), days: Vec<Weekday>) -> MeetingTime {
    MeetingTime {
        uid: "m".to_string(),
        course_type: "LEC".to_string(),
        instructor: "Dr. Who".to_string(),
        location: "Room 1".to_string(),
        start: MeetTime::new(start.0, start.1),
        end: MeetTime::new(end.0, end.1),
        days,
    }
}

fn item(title: &str, color: &str, meeting_times: Vec<MeetingTime>) -> ScheduleItem {
    ScheduleItem {
        uid: "i".to_string(),
        item_type: "Course".to_string(),
        title: title.to_string(),
        meeting_times,
        background_color: HexColor::from_hex(color).unwrap(),
    }
}

fn schedule(items: Vec<ScheduleItem>) -> Schedule {
    Schedule { title: "Term".to_string(), items }
}

fn rectangles(primitives: &[Primitive]) -> Vec<(i64, i64, i64, i64, String)> {
    let mut found = Vec::new();
    for p in primitives {
        if let Primitive::Rectangle { x, y, width, height, fill } = p {
            found.push((*x, *y, *width, *height, fill.clone()));
        }
    }
    found
}

fn text(content: &str, x: i64, y: i64, bold: bool, anchor: Anchor) -> Primitive {
    Primitive::Text { content: content.to_string(), x, y, font_size: 10, bold, anchor }
}

#[test]
fn default_config_values() {
    let c = default_config();
    assert_eq!(c.save_name, "schedule");
    assert_eq!(
        c.days,
        vec!["Monday", "Tuesday", "Wednesday", "Thursday", "Friday", "Saturday", "Sunday"]
    );
    assert_eq!((c.slot_height, c.slot_width), (50, 100));
    assert_eq!((c.time_margin, c.day_margin, c.outer_margin), (50, 50, 10));
    assert_eq!((c.font_size, c.small_font_size), (10, 10));
    assert!(c.is_valid());
}

#[test]
fn a_theme_with_too_many_columns_is_not_valid() {
    let mut c = default_config();
    c.days = vec![String::new(); 65536];
    assert!(c.is_valid());
    c.days.push(String::new());
    assert!(!c.is_valid());
}

#[test]
fn units_per_pixel() {
    assert_eq!(UNITS_PER_PIXEL, 60);
    assert_eq!(MAX_COLUMNS, 65536);
}

#[test]
fn one_monday_meeting_gives_two_rows_and_one_rectangle() {
    let s = schedule(vec![item(
        "Algebra",
        "#336699",
        vec![meeting((9, 0), (10, 30), vec![Weekday::Monday])],
    )]);
    assert_eq!(calculate_start_end_hours(&s), (9, 11));
    let d = save_vector_schedule(&s).unwrap();
    assert_eq!(d.file_name, "schedule.svg");
    assert_eq!(d.width, (50 + 20 + 700) * 60);
    assert_eq!(d.height, (50 + 20 + 2 * 50) * 60);
    assert_eq!(d.primitives.len(), 3 + 8 + 2 + 7 + 5);
    let found = rectangles(&d.primitives);
    assert_eq!(found, vec![(3600, 3600, 6000, 4500, "#336699FF".to_string())]);
    assert_eq!(
        d.primitives[20..].to_vec(),
        vec![
            Primitive::Rectangle {
                x: 3600,
                y: 3600,
                width: 6000,
                height: 4500,
                fill: "#336699FF".to_string()
            },
            text("Algebra", 3900, 4500, true, Anchor::Start),
            text("9:00-10:30", 3900, 5400, false, Anchor::Start),
            text("Room 1", 3900, 6300, false, Anchor::Start),
            text("Dr. Who", 3900, 7200, false, Anchor::Start),
        ]
    );
}

#[test]
fn grid_lines_come_first_then_labels_then_headers() {
    let s = schedule(vec![item(
        "Algebra",
        "#336699",
        vec![meeting((9, 0), (10, 30), vec![Weekday::Monday])],
    )]);
    let d = save_vector_schedule(&s).unwrap();
    assert_eq!(d.primitives[0], Primitive::Line { x1: 3600, y1: 3600, x2: 45600, y2: 3600 });
    assert_eq!(d.primitives[1], Primitive::Line { x1: 3600, y1: 6600, x2: 45600, y2: 6600 });
    assert_eq!(d.primitives[2], Primitive::Line { x1: 3600, y1: 9600, x2: 45600, y2: 9600 });
    assert_eq!(d.primitives[3], Primitive::Line { x1: 3600, y1: 3600, x2: 3600, y2: 9600 });
    assert_eq!(d.primitives[10], Primitive::Line { x1: 45600, y1: 3600, x2: 45600, y2: 9600 });
    assert_eq!(d.primitives[11], text("09:00", 3300, 4500, true, Anchor::End));
    assert_eq!(d.primitives[12], text("10:00", 3300, 7500, true, Anchor::End));
    assert_eq!(d.primitives[13], text("Monday", 6600, 2100, true, Anchor::Middle));
    assert_eq!(d.primitives[19], text("Sunday", 42600, 2100, true, Anchor::Middle));
}

#[test]
fn empty_schedule_gives_a_grid_without_rows() {
    let s = schedule(Vec::new());
    assert_eq!(calculate_start_end_hours(&s), (23, 0));
    let d = save_vector_schedule(&s).unwrap();
    assert_eq!(d.width, 770 * 60);
    assert_eq!(d.height, 70 * 60);
    assert_eq!(d.primitives.len(), 8 + 7);
    assert_eq!(d.primitives[0], Primitive::Line { x1: 3600, y1: 3600, x2: 3600, y2: 3600 });
    assert!(rectangles(&d.primitives).is_empty());
}

#[test]
fn item_without_meetings_draws_nothing() {
    let s = schedule(vec![item("Idle", "000000", Vec::new())]);
    let d = save_vector_schedule(&s).unwrap();
    assert_eq!(d.primitives.len(), 15);
}

#[test]
fn overlapping_meetings_are_both_drawn_in_item_order() {
    let s = schedule(vec![
        item("First", "#FF0000", vec![meeting((9, 0), (11, 0), vec![Weekday::Tuesday])]),
        item("Second", "#00FF0080", vec![meeting((10, 0), (12, 0), vec![Weekday::Tuesday])]),
    ]);
    assert_eq!(calculate_start_end_hours(&s), (9, 12));
    let d = save_vector_schedule(&s).unwrap();
    assert_eq!(
        rectangles(&d.primitives),
        vec![
            (9600, 3600, 6000, 6000, "#FF0000FF".to_string()),
            (9600, 6600, 6000, 6000, "#00FF0080".to_string()),
        ]
    );
}

#[test]
fn a_meeting_within_the_hour_is_placed_to_the_minute() {
    let s = schedule(vec![item(
        "Lab",
        "#123456",
        vec![meeting((8, 45), (9, 20), vec![Weekday::Sunday, Weekday::Friday])],
    )]);
    assert_eq!(calculate_start_end_hours(&s), (8, 10));
    let d = layout(&s, &default_config()).unwrap();
    assert_eq!(
        rectangles(&d.primitives),
        vec![
            (3600 + 6 * 6000, 3600 + 45 * 50, 6000, 35 * 50, "#123456FF".to_string()),
            (3600 + 4 * 6000, 3600 + 45 * 50, 6000, 35 * 50, "#123456FF".to_string()),
        ]
    );
}

#[test]
fn a_meeting_that_ends_before_it_starts_is_an_error() {
    let s = schedule(vec![
        item("Fine", "#FF0000", vec![meeting((9, 0), (11, 0), vec![Weekday::Tuesday])]),
        item("Broken", "#FF0000", vec![meeting((10, 0), (9, 59), vec![Weekday::Tuesday])]),
    ]);
    assert_eq!(save_vector_schedule(&s).unwrap_err(), TimeError::InvalidDuration);
    assert_eq!(
        draw_event(&s.items[1], &default_config(), 9),
        Err(TimeError::InvalidDuration)
    );
}

#[test]
fn bounds_round_outwards_to_the_hour() {
    let s = schedule(vec![item(
        "Day",
        "#000000",
        vec![
            meeting((13, 1), (14, 0), vec![Weekday::Monday]),
            meeting((7, 59), (8, 0), vec![]),
            meeting((22, 0), (23, 1), vec![Weekday::Monday]),
        ],
    )]);
    assert_eq!(calculate_start_end_hours(&s), (7, 24));
}

#[test]
fn grid_has_a_line_for_each_boundary() {
    let c = default_config();
    assert_eq!(draw_grid(&c, (9, 11)).len(), 3 + 8);
    assert_eq!(draw_grid(&c, (9, 9)).len(), 1 + 8);
    assert_eq!(draw_grid(&c, (23, 0)).len(), 8);
    assert_eq!(draw_time_labels(&c, (9, 11)).len(), 2);
    assert_eq!(draw_time_labels(&c, (23, 0)).len(), 0);
    assert_eq!(draw_day_headers(&c).len(), 7);
}

#[test]
fn label_texts() {
    assert_eq!(hour_label(9), "09:00");
    assert_eq!(hour_label(0), "00:00");
    assert_eq!(hour_label(23), "23:00");
    assert_eq!(hour_label(123), "123:00");
    assert_eq!(time_range_label(&MeetTime::new(9, 0), &MeetTime::new(10, 30)), "9:00-10:30");
    assert_eq!(time_range_label(&MeetTime::new(0, 5), &MeetTime::new(23, 59)), "0:05-23:59");
}

#[test]
fn draw_text_keeps_what_it_is_given() {
    assert_eq!(
        draw_text("abc", -5, 7, 12, false, Anchor::Middle),
        Primitive::Text {
            content: "abc".to_string(),
            x: -5,
            y: 7,
            font_size: 12,
            bold: false,
            anchor: Anchor::Middle
        }
    );
}

#[test]
fn a_block_above_the_grid_has_a_negative_offset() {
    let it = item("Early", "#FFFFFF", vec![meeting((1, 0), (2, 0), vec![Weekday::Monday])]);
    let blocks = draw_event(&it, &default_config(), 3).unwrap();
    assert_eq!(
        rectangles(&blocks),
        vec![(3600, 3600 - 120 * 50, 6000, 3000, "#FFFFFFFF".to_string())]
    );
}
