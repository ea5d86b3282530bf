//! The layout engine: from a schedule and a visual theme to the size of the
//! canvas and the ordered list of lines, rectangles and texts to paint on it.
//!
//! Every coordinate is a whole number of sixtieths of a pixel, so that a
//! meeting which starts or ends within an hour is placed exactly.

use vstd::prelude::*;
use vstd::string::*;
use crate::color::encoded;
use crate::model::{MeetTime, MeetingTime, Schedule, ScheduleItem, TimeError, Weekday};
use crate::text::{decimal, decimal_padded, decimal_string, padded_decimal_string};

verus! {

/// How many coordinate units make one pixel.
pub const UNITS_PER_PIXEL: i64 = 60;

/// The most day columns that a theme may show.
pub const MAX_COLUMNS: usize = 65536;

/// The visual theme of a timetable: sizes in pixels, and the header of each
/// day column.
#[derive(Debug, Clone)]
pub struct ScheduleConfig {
    pub save_name: String,
    pub days: Vec<String>,
    pub slot_height: u32,
    pub slot_width: u32,
    pub time_margin: u32,
    pub day_margin: u32,
    pub outer_margin: u32,
    pub font_size: u32,
    pub small_font_size: u32,
}

/// A theme as the layout reads it.
pub struct Theme {
    pub save_name: Seq<char>,
    pub days: Seq<Seq<char>>,
    pub slot_height: u32,
    pub slot_width: u32,
    pub time_margin: u32,
    pub day_margin: u32,
    pub outer_margin: u32,
    pub font_size: u32,
    pub small_font_size: u32,
}

impl View for ScheduleConfig {
    type V = Theme;

    open spec fn view(&self) -> Theme {
        Theme {
            save_name: self.save_name@,
            days: self.days@.map_values(|s: String| s@),
            slot_height: self.slot_height,
            slot_width: self.slot_width,
            time_margin: self.time_margin,
            day_margin: self.day_margin,
            outer_margin: self.outer_margin,
            font_size: self.font_size,
            small_font_size: self.small_font_size,
        }
    }
}

impl Theme {
    /// A theme whose coordinates fit the machine's numbers.
    pub open spec fn wf(self) -> bool {
        self.days.len() <= MAX_COLUMNS
    }
}

impl ScheduleConfig {
    /// Whether the theme can be laid out: it shows at most `MAX_COLUMNS`
    /// day columns.
    pub fn is_valid(&self) -> (ok: bool)
        ensures
            ok == self@.wf(),
    {
        self.days.len() <= MAX_COLUMNS
    }
}

/// The theme that is used where none is given.
pub open spec fn default_theme() -> Theme {
    Theme {
        save_name: "schedule"@,
        days: seq![
            "Monday"@,
            "Tuesday"@,
            "Wednesday"@,
            "Thursday"@,
            "Friday"@,
            "Saturday"@,
            "Sunday"@,
        ],
        slot_height: 50,
        slot_width: 100,
        time_margin: 50,
        day_margin: 50,
        outer_margin: 10,
        font_size: 10,
        small_font_size: 10,
    }
}

/// The theme that is used where none is given: the seven days of the week,
/// columns 100 pixels wide, hours 50 pixels high.
pub fn default_config() -> (config: ScheduleConfig)
    ensures
        config@ == default_theme(),
        config@.wf(),
{
    let week = Weekday::all();
    let mut days: Vec<String> = Vec::new();
    let mut i: usize = 0;
    while i < 7
        invariant
            i <= 7,
            week@ == crate::model::all_days(),
            days@.len() == i,
            forall|k: int| 0 <= k < i ==> (#[trigger] days@[k])@ == crate::model::all_days()[k].spec_name(),
        decreases 7 - i,
    {
        days.push(String::from_str(week[i].name()));
        i = i + 1;
    }
    let config = ScheduleConfig {
        save_name: String::from_str("schedule"),
        days,
        slot_height: 50,
        slot_width: 100,
        time_margin: 50,
        day_margin: 50,
        outer_margin: 10,
        font_size: 10,
        small_font_size: 10,
    };
    assert(config@.days =~= default_theme().days);
    config
}

/// The side of a text that its position names.
#[derive(Debug, Clone, Copy, PartialEq, Eq, Structural)]
pub enum Anchor {
    Start,
    Middle,
    End,
}

/// One thing to paint. Lines and the outlines of rectangles are black and
/// one pixel wide.
#[derive(Debug, Clone, PartialEq, Eq)]
pub enum Primitive {
    Line { x1: i64, y1: i64, x2: i64, y2: i64 },
    Rectangle { x: i64, y: i64, width: i64, height: i64, fill: String },
    Text { content: String, x: i64, y: i64, font_size: u32, bold: bool, anchor: Anchor },
}

/// One thing to paint, as the contracts speak of it.
pub enum Shape {
    Line { x1: int, y1: int, x2: int, y2: int },
    Rectangle { x: int, y: int, width: int, height: int, fill: Seq<char> },
    Text { content: Seq<char>, x: int, y: int, font_size: u32, bold: bool, anchor: Anchor },
}

impl View for Primitive {
    type V = Shape;

    open spec fn view(&self) -> Shape {
        match *self {
            Primitive::Line { x1, y1, x2, y2 } => Shape::Line {
                x1: x1 as int,
                y1: y1 as int,
                x2: x2 as int,
                y2: y2 as int,
            },
            Primitive::Rectangle { x, y, width, height, fill } => Shape::Rectangle {
                x: x as int,
                y: y as int,
                width: width as int,
                height: height as int,
                fill: fill@,
            },
            Primitive::Text { content, x, y, font_size, bold, anchor } => Shape::Text {
                content: content@,
                x: x as int,
                y: y as int,
                font_size,
                bold,
                anchor,
            },
        }
    }
}

/// A list of primitives as a list of shapes.
pub open spec fn shapes(primitives: Seq<Primitive>) -> Seq<Shape> {
    primitives.map_values(|p: Primitive| p@)
}

/// A finished timetable: the file it is meant for, the size of its canvas,
/// and what to paint, in the order of painting.
#[derive(Debug, Clone)]
pub struct Drawing {
    pub file_name: String,
    pub width: i64,
    pub height: i64,
    pub primitives: Vec<Primitive>,
}

/// A finished timetable, as the contracts speak of it.
pub struct Picture {
    pub file_name: Seq<char>,
    pub width: int,
    pub height: int,
    pub shapes: Seq<Shape>,
}

impl View for Drawing {
    type V = Picture;

    open spec fn view(&self) -> Picture {
        Picture {
            file_name: self.file_name@,
            width: self.width as int,
            height: self.height as int,
            shapes: shapes(self.primitives@),
        }
    }
}

/// A length in pixels, in coordinate units.
pub open spec fn units(pixels: int) -> int {
    pixels * 60
}

/// The length of `count` cells of `size` pixels each, in coordinate units.
pub open spec fn span(count: int, size: int) -> int {
    count * size * 60
}

/// Both hours of a range lie within a day.
pub open spec fn hours_in_day(range: (u32, u32)) -> bool {
    range.0 <= 24 && range.1 <= 24
}

/// How many hour rows a range shows: none where it ends before it starts.
pub open spec fn hours_shown(range: (u32, u32)) -> int {
    if range.1 >= range.0 {
        range.1 - range.0
    } else {
        0
    }
}

/// How many hour boundaries a range has: one more than its rows, and none
/// where it ends before it starts.
pub open spec fn hour_lines(range: (u32, u32)) -> int {
    if range.1 >= range.0 {
        range.1 - range.0 + 1
    } else {
        0
    }
}

/// The left edge of the grid.
pub open spec fn grid_left(t: Theme) -> int {
    units(t.outer_margin + t.time_margin)
}

/// The top edge of the grid.
pub open spec fn grid_top(t: Theme) -> int {
    units(t.outer_margin + t.day_margin)
}

/// The width of the canvas: the time axis, the outer margin twice, and the
/// day columns.
pub open spec fn canvas_width(t: Theme) -> int {
    units(t.time_margin + 2 * t.outer_margin) + span(t.days.len() as int, t.slot_width as int)
}

/// The height of the canvas: the day headers, the outer margin twice, and
/// the hour rows.
pub open spec fn canvas_height(t: Theme, range: (u32, u32)) -> int {
    units(t.day_margin + 2 * t.outer_margin) + span(hours_shown(range), t.slot_height as int)
}

/// The horizontal line at the `k`-th hour boundary, across all day columns.
pub open spec fn hour_line(t: Theme, k: int) -> Shape {
    Shape::Line {
        x1: grid_left(t),
        y1: grid_top(t) + span(k, t.slot_height as int),
        x2: grid_left(t) + span(t.days.len() as int, t.slot_width as int),
        y2: grid_top(t) + span(k, t.slot_height as int),
    }
}

/// The vertical line at the `k`-th day boundary, down all hour rows.
pub open spec fn day_line(t: Theme, range: (u32, u32), k: int) -> Shape {
    Shape::Line {
        x1: grid_left(t) + span(k, t.slot_width as int),
        y1: grid_top(t),
        x2: grid_left(t) + span(k, t.slot_width as int),
        y2: grid_top(t) + span(hours_shown(range), t.slot_height as int),
    }
}

/// The grid: a horizontal line for each hour boundary from the first hour
/// to the last, inclusive, then a vertical line for each day boundary.
pub open spec fn grid_shapes(t: Theme, range: (u32, u32)) -> Seq<Shape> {
    Seq::new(hour_lines(range) as nat, |k: int| hour_line(t, k)) + Seq::new(
        (t.days.len() + 1) as nat,
        |k: int| day_line(t, range, k),
    )
}

/// The label of an hour: two digits and `:00`.
pub open spec fn hour_text(hour: nat) -> Seq<char> {
    decimal_padded(hour) + seq![':', '0', '0']
}

/// The label of the `k`-th hour row, right-aligned beside the row's top.
pub open spec fn time_label(t: Theme, range: (u32, u32), k: int) -> Shape {
    Shape::Text {
        content: hour_text((range.0 + k) as nat),
        x: units(t.time_margin + t.outer_margin - 5),
        y: grid_top(t) + span(k, t.slot_height as int) + units(15),
        font_size: t.font_size,
        bold: true,
        anchor: Anchor::End,
    }
}

/// The labels of the time axis: one for each hour row. The last boundary
/// has none.
pub open spec fn time_label_shapes(t: Theme, range: (u32, u32)) -> Seq<Shape> {
    Seq::new(hours_shown(range) as nat, |k: int| time_label(t, range, k))
}

/// The header of the `k`-th day column, centred above it.
pub open spec fn day_header(t: Theme, k: int) -> Shape {
    Shape::Text {
        content: t.days[k],
        x: grid_left(t) + span(k, t.slot_width as int) + t.slot_width * 30,
        y: units(t.outer_margin as int) + t.day_margin * 30,
        font_size: t.font_size,
        bold: true,
        anchor: Anchor::Middle,
    }
}

/// The headers of all day columns, from the left.
pub open spec fn day_header_shapes(t: Theme) -> Seq<Shape> {
    Seq::new(t.days.len(), |k: int| day_header(t, k))
}

/// A meeting's times as text: `9:00-10:30`.
pub open spec fn time_range_text(start: MeetTime, end: MeetTime) -> Seq<char> {
    decimal(start.spec_hour()) + seq![':'] + decimal_padded(start.spec_minute()) + seq!['-']
        + decimal(end.spec_hour()) + seq![':'] + decimal_padded(end.spec_minute())
}

/// The top edge of a meeting's block: as far below the grid's top as the
/// meeting starts after the grid's first hour, to the minute.
pub open spec fn block_top(t: Theme, start_hour: u32, slot: MeetingTime) -> int {
    grid_top(t) + (slot.start.spec_minutes() - start_hour * 60) * t.slot_height
}

/// The left edge of a day's column, by the day's place in the week.
pub open spec fn block_left(t: Theme, day: Weekday) -> int {
    grid_left(t) + span(day.spec_index(), t.slot_width as int)
}

/// A text line within a block, `drop` pixels below the block's top.
pub open spec fn block_line(
    t: Theme,
    start_hour: u32,
    slot: MeetingTime,
    day: Weekday,
    content: Seq<char>,
    drop: int,
    font_size: u32,
    bold: bool,
) -> Shape {
    Shape::Text {
        content,
        x: block_left(t, day) + units(5),
        y: block_top(t, start_hour, slot) + units(drop),
        font_size,
        bold,
        anchor: Anchor::Start,
    }
}

/// One meeting on one day: a rectangle in the item's colour, as high as the
/// meeting is long, and in it the title in bold, the times, the location and
/// the instructor.
pub open spec fn block_shapes(
    item: ScheduleItem,
    slot: MeetingTime,
    day: Weekday,
    t: Theme,
    start_hour: u32,
) -> Seq<Shape> {
    seq![
        Shape::Rectangle {
            x: block_left(t, day),
            y: block_top(t, start_hour, slot),
            width: units(t.slot_width as int),
            height: (slot.end.spec_minutes() - slot.start.spec_minutes()) * t.slot_height,
            fill: encoded(item.background_color),
        },
        block_line(t, start_hour, slot, day, item.title@, 15, t.font_size, true),
        block_line(
            t,
            start_hour,
            slot,
            day,
            time_range_text(slot.start, slot.end),
            30,
            t.small_font_size,
            false,
        ),
        block_line(t, start_hour, slot, day, slot.location@, 45, t.small_font_size, false),
        block_line(t, start_hour, slot, day, slot.instructor@, 60, t.small_font_size, false),
    ]
}

/// The blocks of one meeting on the first `n` of its days, in their order.
pub open spec fn slot_shapes(
    item: ScheduleItem,
    slot: MeetingTime,
    t: Theme,
    start_hour: u32,
    n: int,
) -> Seq<Shape>
    decreases n,
{
    if n <= 0 {
        Seq::empty()
    } else {
        slot_shapes(item, slot, t, start_hour, n - 1) + block_shapes(
            item,
            slot,
            slot.days@[n - 1],
            t,
            start_hour,
        )
    }
}

/// The blocks of the first `n` meetings of an item, in their order.
pub open spec fn meeting_shapes(item: ScheduleItem, t: Theme, start_hour: u32, n: int) -> Seq<Shape>
    decreases n,
{
    if n <= 0 {
        Seq::empty()
    } else {
        meeting_shapes(item, t, start_hour, n - 1) + slot_shapes(
            item,
            item.meeting_times@[n - 1],
            t,
            start_hour,
            item.meeting_times@[n - 1].days@.len() as int,
        )
    }
}

/// All blocks of an item: each meeting in turn, on each of its days.
pub open spec fn item_shapes(item: ScheduleItem, t: Theme, start_hour: u32) -> Seq<Shape> {
    meeting_shapes(item, t, start_hour, item.meeting_times@.len() as int)
}

/// The blocks of the first `n` items, in their order: a later item is
/// painted over an earlier one.
pub open spec fn event_shapes(items: Seq<ScheduleItem>, t: Theme, start_hour: u32, n: int) -> Seq<
    Shape,
>
    decreases n,
{
    if n <= 0 {
        Seq::empty()
    } else {
        event_shapes(items, t, start_hour, n - 1) + item_shapes(items[n - 1], t, start_hour)
    }
}

/// No meeting of the item ends before it starts.
pub open spec fn item_valid(item: ScheduleItem) -> bool {
    forall|j: int|
        0 <= j < item.meeting_times@.len() ==> (#[trigger] item.meeting_times@[j]).start.spec_minutes()
            <= item.meeting_times@[j].end.spec_minutes()
}

/// No meeting of any item ends before it starts.
pub open spec fn durations_valid(items: Seq<ScheduleItem>) -> bool {
    forall|i: int| 0 <= i < items.len() ==> item_valid(#[trigger] items[i])
}

/// All meetings of all items, in their order.
pub open spec fn all_slots(items: Seq<ScheduleItem>) -> Seq<MeetingTime>
    decreases items.len(),
{
    if items.len() == 0 {
        Seq::empty()
    } else {
        all_slots(items.drop_last()) + items.last().meeting_times@
    }
}

/// The earliest start among the meetings, in minutes since midnight; 23:59
/// where there is none.
pub open spec fn earliest_start(slots: Seq<MeetingTime>) -> nat
    decreases slots.len(),
{
    if slots.len() == 0 {
        1439
    } else if slots.last().start.spec_minutes() < earliest_start(slots.drop_last()) {
        slots.last().start.spec_minutes()
    } else {
        earliest_start(slots.drop_last())
    }
}

/// The latest end among the meetings, in minutes since midnight; midnight
/// where there is none.
pub open spec fn latest_end(slots: Seq<MeetingTime>) -> nat
    decreases slots.len(),
{
    if slots.len() == 0 {
        0
    } else if slots.last().end.spec_minutes() > latest_end(slots.drop_last()) {
        slots.last().end.spec_minutes()
    } else {
        latest_end(slots.drop_last())
    }
}

/// The hours that the grid spans: the earliest start rounded down to the
/// hour, and the latest end rounded up.
pub open spec fn hour_bounds(items: Seq<ScheduleItem>) -> (u32, u32) {
    (
        (earliest_start(all_slots(items)) / 60) as u32,
        ((latest_end(all_slots(items)) + 59) / 60) as u32,
    )
}

/// The whole timetable: the grid, the time labels, the day headers, and
/// then the blocks of every item.
pub open spec fn picture(schedule: Schedule, t: Theme) -> Picture {
    let range = hour_bounds(schedule.items@);
    Picture {
        file_name: t.save_name + ".svg"@,
        width: canvas_width(t),
        height: canvas_height(t, range),
        shapes: grid_shapes(t, range) + time_label_shapes(t, range) + day_header_shapes(t)
            + event_shapes(schedule.items@, t, range.0, schedule.items@.len() as int),
    }
}

fn pixels(v: u32) -> (r: i64)
    ensures
        r == units(v as int),
        0 <= r <= 0xFFFF_FFFF * 60,
{
    (v as i64) * 60
}

fn cells(count: u64, size: u32) -> (r: i64)
    requires
        count <= 65537,
    ensures
        r == span(count as int, size as int),
        0 <= r <= 65537 * 0xFFFF_FFFF * 60,
{
    assert(0 <= count * size <= 65537 * 0xFFFF_FFFF) by (nonlinear_arith)
        requires
            count <= 65537,
            size <= 0xFFFF_FFFF,
    ;
    (count as i64) * (size as i64) * 60
}

fn minutes_high(minutes: i64, size: u32) -> (r: i64)
    requires
        -1440 <= minutes <= 1440,
    ensures
        r == minutes * size,
        -1440 * 0xFFFF_FFFF <= r <= 1440 * 0xFFFF_FFFF,
{
    assert(-1440 * 0xFFFF_FFFF <= minutes * size <= 1440 * 0xFFFF_FFFF) by (nonlinear_arith)
        requires
            -1440 <= minutes <= 1440,
            0 <= size <= 0xFFFF_FFFF,
    ;
    minutes * (size as i64)
}

fn put(out: &mut Vec<Primitive>, p: Primitive)
    ensures
        shapes(final(out)@) == shapes(old(out)@).push(p@),
{
    out.push(p);
    assert(shapes(out@) =~= shapes(old(out)@).push(p@));
}

fn put_all(out: &mut Vec<Primitive>, more: Vec<Primitive>)
    ensures
        shapes(final(out)@) == shapes(old(out)@) + shapes(more@),
{
    let mut more = more;
    let ghost added = more@;
    out.append(&mut more);
    assert(shapes(out@) =~= shapes(old(out)@) + shapes(added));
}

/// The grid lines: the hour boundaries, then the day boundaries.
pub fn draw_grid(config: &ScheduleConfig, range: (u32, u32)) -> (out: Vec<Primitive>)
    requires
        config@.wf(),
        hours_in_day(range),
    ensures
        shapes(out@) == grid_shapes(config@, range),
{
    let ghost t = config@;
    let columns: u64 = config.days.len() as u64;
    let rows: u32 = if range.1 >= range.0 {
        range.1 - range.0
    } else {
        0
    };
    let lines: u32 = if range.1 >= range.0 {
        range.1 - range.0 + 1
    } else {
        0
    };
    let left: i64 = pixels(config.outer_margin) + pixels(config.time_margin);
    let top: i64 = pixels(config.outer_margin) + pixels(config.day_margin);
    let right: i64 = left + cells(columns, config.slot_width);
    let bottom: i64 = top + cells(rows as u64, config.slot_height);
    let mut out: Vec<Primitive> = Vec::new();
    let mut k: u32 = 0;
    while k < lines
        invariant
            k <= lines <= 25,
            t == config@,
            left == grid_left(t),
            top == grid_top(t),
            right == left + span(t.days.len() as int, t.slot_width as int),
            shapes(out@) =~= Seq::new(k as nat, |j: int| hour_line(t, j)),
        decreases lines - k,
    {
        let y: i64 = top + cells(k as u64, config.slot_height);
        put(&mut out, Primitive::Line { x1: left, y1: y, x2: right, y2: y });
        k = k + 1;
    }
    let ghost across = shapes(out@);
    let mut d: u64 = 0;
    while d <= columns
        invariant
            d <= columns + 1,
            columns == t.days.len(),
            columns <= 65536,
            t == config@,
            left == grid_left(t),
            top == grid_top(t),
            bottom == top + span(hours_shown(range), t.slot_height as int),
            shapes(out@) =~= across + Seq::new(d as nat, |j: int| day_line(t, range, j)),
        decreases columns + 1 - d,
    {
        let x: i64 = left + cells(d, config.slot_width);
        put(&mut out, Primitive::Line { x1: x, y1: top, x2: x, y2: bottom });
        d = d + 1;
    }
    out
}

/// A text to paint at a position.
pub fn draw_text(text: &str, x: i64, y: i64, font_size: u32, bold: bool, anchor: Anchor) -> (p:
    Primitive)
    ensures
        p@ == (Shape::Text { content: text@, x: x as int, y: y as int, font_size, bold, anchor }),
{
    Primitive::Text { content: String::from_str(text), x, y, font_size, bold, anchor }
}

/// The label of an hour: two digits and `:00`.
pub fn hour_label(hour: u32) -> (s: String)
    ensures
        s@ == hour_text(hour as nat),
{
    let mut s = padded_decimal_string(hour);
    proof {
        reveal_strlit(":00");
    }
    s.append(":00");
    assert(s@ =~= hour_text(hour as nat));
    s
}

/// The labels of the time axis, one for each hour row.
pub fn draw_time_labels(config: &ScheduleConfig, range: (u32, u32)) -> (out: Vec<Primitive>)
    requires
        hours_in_day(range),
    ensures
        shapes(out@) == time_label_shapes(config@, range),
{
    let ghost t = config@;
    let rows: u32 = if range.1 >= range.0 {
        range.1 - range.0
    } else {
        0
    };
    let top: i64 = pixels(config.outer_margin) + pixels(config.day_margin);
    let x: i64 = pixels(config.time_margin) + pixels(config.outer_margin) - 300;
    let mut out: Vec<Primitive> = Vec::new();
    let mut k: u32 = 0;
    while k < rows
        invariant
            k <= rows <= 24,
            rows == hours_shown(range),
            range.0 + rows <= 24,
            t == config@,
            top == grid_top(t),
            x == units(t.time_margin + t.outer_margin - 5),
            shapes(out@) =~= Seq::new(k as nat, |j: int| time_label(t, range, j)),
        decreases rows - k,
    {
        let y: i64 = top + cells(k as u64, config.slot_height) + 900;
        let label = hour_label(range.0 + k);
        put(&mut out, draw_text(label.as_str(), x, y, config.font_size, true, Anchor::End));
        k = k + 1;
    }
    out
}

/// The headers of the day columns.
pub fn draw_day_headers(config: &ScheduleConfig) -> (out: Vec<Primitive>)
    requires
        config@.wf(),
    ensures
        shapes(out@) == day_header_shapes(config@),
{
    let ghost t = config@;
    let left: i64 = pixels(config.outer_margin) + pixels(config.time_margin);
    let y: i64 = pixels(config.outer_margin) + (config.day_margin as i64) * 30;
    let half: i64 = (config.slot_width as i64) * 30;
    let mut out: Vec<Primitive> = Vec::new();
    let mut k: usize = 0;
    while k < config.days.len()
        invariant
            k <= config.days.len() <= 65536,
            t == config@,
            left == grid_left(t),
            y == units(t.outer_margin as int) + t.day_margin * 30,
            half == t.slot_width * 30,
            shapes(out@) =~= Seq::new(k as nat, |j: int| day_header(t, j)),
        decreases config.days.len() - k,
    {
        let x: i64 = left + cells(k as u64, config.slot_width) + half;
        put(&mut out, draw_text(config.days[k].as_str(), x, y, config.font_size, true, Anchor::Middle));
        k = k + 1;
    }
    out
}

/// A meeting's times as text: `9:00-10:30`.
pub fn time_range_label(start: &MeetTime, end: &MeetTime) -> (s: String)
    ensures
        s@ == time_range_text(*start, *end),
{
    proof {
        reveal_strlit(":");
        reveal_strlit("-");
    }
    let mut s = decimal_string(start.hour());
    s.append(":");
    s.append(padded_decimal_string(start.minute()).as_str());
    s.append("-");
    s.append(decimal_string(end.hour()).as_str());
    s.append(":");
    s.append(padded_decimal_string(end.minute()).as_str());
    assert(s@ =~= time_range_text(*start, *end));
    s
}

/// The blocks of one item: for each of its meetings, on each of the
/// meeting's days, a rectangle and four lines of text. A meeting that ends
/// before it starts has no height: it is an error.
pub fn draw_event(item: &ScheduleItem, config: &ScheduleConfig, start_hour: u32) -> (res: Result<
    Vec<Primitive>,
    TimeError,
>)
    requires
        start_hour <= 24,
    ensures
        item_valid(*item) ==> (res matches Ok(out) && shapes(out@) == item_shapes(
            *item,
            config@,
            start_hour,
        )),
        !item_valid(*item) ==> res == Err::<Vec<Primitive>, TimeError>(TimeError::InvalidDuration),
{
    let ghost t = config@;
    let grid_x: i64 = pixels(config.outer_margin) + pixels(config.time_margin);
    let grid_y: i64 = pixels(config.outer_margin) + pixels(config.day_margin);
    let width: i64 = pixels(config.slot_width);
    let mut out: Vec<Primitive> = Vec::new();
    let mut j: usize = 0;
    while j < item.meeting_times.len()
        invariant
            j <= item.meeting_times.len(),
            start_hour <= 24,
            t == config@,
            grid_x == grid_left(t),
            grid_y == grid_top(t),
            width == units(t.slot_width as int),
            forall|k: int|
                0 <= k < j ==> (#[trigger] item.meeting_times@[k]).start.spec_minutes()
                    <= item.meeting_times@[k].end.spec_minutes(),
            shapes(out@) == meeting_shapes(*item, t, start_hour, j as int),
        decreases item.meeting_times.len() - j,
    {
        let slot = &item.meeting_times[j];
        let length: MeetTime = match slot.end.sub(slot.start) {
            Ok(d) => d,
            Err(e) => {
                return Err(e);
            },
        };
        let offset: i64 = slot.start.to_minutes() as i64 - (start_hour as i64) * 60;
        let top: i64 = grid_y + minutes_high(offset, config.slot_height);
        let height: i64 = minutes_high(length.to_minutes() as i64, config.slot_height);
        let ghost before = shapes(out@);
        let mut d: usize = 0;
        while d < slot.days.len()
            invariant
                d <= slot.days.len(),
                j < item.meeting_times.len(),
                *slot == item.meeting_times@[j as int],
                t == config@,
                grid_x == grid_left(t),
                width == units(t.slot_width as int),
                top == block_top(t, start_hour, *slot),
                0 <= grid_x <= 0x1_0000_0000_0000,
                -0x1_0000_0000_0000 <= top <= 0x1_0000_0000_0000,
                height == (slot.end.spec_minutes() - slot.start.spec_minutes()) * t.slot_height,
                shapes(out@) == before + slot_shapes(*item, *slot, t, start_hour, d as int),
            decreases slot.days.len() - d,
        {
            let day = slot.days[d];
            let left: i64 = grid_x + cells(day.index() as u64, config.slot_width);
            let ghost so_far = shapes(out@);
            put(
                &mut out,
                Primitive::Rectangle {
                    x: left,
                    y: top,
                    width,
                    height,
                    fill: item.background_color.to_hex(),
                },
            );
            put(
                &mut out,
                draw_text(item.title.as_str(), left + 300, top + 900, config.font_size, true, Anchor::Start),
            );
            let times = time_range_label(&slot.start, &slot.end);
            put(
                &mut out,
                draw_text(times.as_str(), left + 300, top + 1800, config.small_font_size, false, Anchor::Start),
            );
            put(
                &mut out,
                draw_text(
                    slot.location.as_str(),
                    left + 300,
                    top + 2700,
                    config.small_font_size,
                    false,
                    Anchor::Start,
                ),
            );
            put(
                &mut out,
                draw_text(
                    slot.instructor.as_str(),
                    left + 300,
                    top + 3600,
                    config.small_font_size,
                    false,
                    Anchor::Start,
                ),
            );
            assert(shapes(out@) =~= so_far + block_shapes(*item, *slot, day, t, start_hour));
            assert(shapes(out@) =~= before + slot_shapes(*item, *slot, t, start_hour, d + 1));
            d = d + 1;
        }
        j = j + 1;
    }
    Ok(out)
}

/// The first and the last hour of the grid: the earliest start of any
/// meeting rounded down to the hour, and the latest end rounded up. With no
/// meeting at all they are 23 and 0.
pub fn calculate_start_end_hours(schedule: &Schedule) -> (range: (u32, u32))
    ensures
        range == hour_bounds(schedule.items@),
        range.0 <= 23,
        range.1 <= 24,
{
    let mut start_time = MeetTime::new(23, 59);
    let mut end_time = MeetTime::new(0, 0);
    let mut i: usize = 0;
    assert(schedule.items@.take(0) =~= Seq::<ScheduleItem>::empty());
    while i < schedule.items.len()
        invariant
            i <= schedule.items.len(),
            start_time.spec_minutes() == earliest_start(all_slots(schedule.items@.take(i as int))),
            end_time.spec_minutes() == latest_end(all_slots(schedule.items@.take(i as int))),
        decreases schedule.items.len() - i,
    {
        let item = &schedule.items[i];
        let ghost done = all_slots(schedule.items@.take(i as int));
        let mut j: usize = 0;
        assert(done + item.meeting_times@.take(0) =~= done);
        while j < item.meeting_times.len()
            invariant
                j <= item.meeting_times.len(),
                start_time.spec_minutes() == earliest_start(done + item.meeting_times@.take(j as int)),
                end_time.spec_minutes() == latest_end(done + item.meeting_times@.take(j as int)),
            decreases item.meeting_times.len() - j,
        {
            let slot = &item.meeting_times[j];
            proof {
                let next = done + item.meeting_times@.take(j + 1);
                assert(next.drop_last() =~= done + item.meeting_times@.take(j as int));
                assert(next.last() == *slot);
            }
            if slot.start.to_minutes() < start_time.to_minutes() {
                start_time = slot.start;
            }
            if slot.end.to_minutes() > end_time.to_minutes() {
                end_time = slot.end;
            }
            j = j + 1;
        }
        proof {
            assert(item.meeting_times@.take(j as int) =~= item.meeting_times@);
            assert(schedule.items@.take(i + 1).drop_last() =~= schedule.items@.take(i as int));
            assert(schedule.items@.take(i + 1).last() == *item);
        }
        i = i + 1;
    }
    assert(schedule.items@.take(i as int) =~= schedule.items@);
    (start_time.floor_hours(), end_time.ceil_hours())
}

/// The bounds lie around every meeting: none starts before the earliest
/// start or before the first whole hour of the grid, and none ends after the
/// latest end or after the last whole hour.
pub proof fn lemma_bounds_cover(slots: Seq<MeetingTime>, k: int)
    requires
        0 <= k < slots.len(),
    ensures
        earliest_start(slots) <= slots[k].start.spec_minutes(),
        latest_end(slots) >= slots[k].end.spec_minutes(),
        (earliest_start(slots) / 60) * 60 <= slots[k].start.spec_minutes(),
        slots[k].end.spec_minutes() <= ((latest_end(slots) + 59) / 60) * 60,
    decreases slots.len(),
{
    if k < slots.len() - 1 {
        lemma_bounds_cover(slots.drop_last(), k);
    }
}

/// Where some meeting is there and none ends before it starts, the grid's
/// first hour is not after its last.
pub proof fn lemma_bounds_ordered(slots: Seq<MeetingTime>)
    requires
        slots.len() > 0,
        forall|k: int|
            0 <= k < slots.len() ==> (#[trigger] slots[k]).start.spec_minutes() <= slots[k].end.spec_minutes(),
    ensures
        earliest_start(slots) <= latest_end(slots),
        earliest_start(slots) / 60 <= (latest_end(slots) + 59) / 60,
{
    lemma_bounds_cover(slots, 0);
}

/// The bounds are those of some meeting, or those of a schedule without
/// meetings: 23:59 and midnight.
pub proof fn lemma_bounds_attained(slots: Seq<MeetingTime>)
    ensures
        earliest_start(slots) == 1439 || exists|k: int|
            0 <= k < slots.len() && earliest_start(slots) == (#[trigger] slots[k]).start.spec_minutes(),
        latest_end(slots) == 0 || exists|k: int|
            0 <= k < slots.len() && latest_end(slots) == (#[trigger] slots[k]).end.spec_minutes(),
    decreases slots.len(),
{
    if slots.len() > 0 {
        let rest = slots.drop_last();
        lemma_bounds_attained(rest);
        if earliest_start(slots) != 1439 {
            if earliest_start(slots) == slots.last().start.spec_minutes() {
                assert(slots[slots.len() - 1] == slots.last());
            } else {
                let k = choose|k: int|
                    0 <= k < rest.len() && earliest_start(rest) == (#[trigger] rest[k]).start.spec_minutes();
                assert(slots[k] == rest[k]);
            }
        }
        if latest_end(slots) != 0 {
            if latest_end(slots) == slots.last().end.spec_minutes() {
                assert(slots[slots.len() - 1] == slots.last());
            } else {
                let k = choose|k: int|
                    0 <= k < rest.len() && latest_end(rest) == (#[trigger] rest[k]).end.spec_minutes();
                assert(slots[k] == rest[k]);
            }
        }
    }
}

/// A schedule without items has a canvas without hour rows: its bounds are
/// 23 and 0, and on it stand the day boundaries, each of no height, and the
/// day headers.
pub proof fn lemma_empty_schedule(schedule: Schedule, t: Theme)
    requires
        schedule.items@.len() == 0,
    ensures
        durations_valid(schedule.items@),
        hour_bounds(schedule.items@) == (23u32, 0u32),
        picture(schedule, t).width == canvas_width(t),
        picture(schedule, t).height == units(t.day_margin + 2 * t.outer_margin),
        picture(schedule, t).shapes == Seq::new(
            (t.days.len() + 1) as nat,
            |k: int| day_line(t, (23u32, 0u32), k),
        ) + day_header_shapes(t),
{
    let range = (23u32, 0u32);
    assert(hour_bounds(schedule.items@) == range);
    assert(0 * (t.slot_height as int) * 60 == 0);
    assert(span(hours_shown(range), t.slot_height as int) == 0);
    assert(picture(schedule, t).shapes =~= Seq::new(
        (t.days.len() + 1) as nat,
        |k: int| day_line(t, range, k),
    ) + day_header_shapes(t));
}

/// Lays a schedule out under a theme: the canvas, and on it the grid, the
/// time labels, the day headers and the blocks of every item, in this
/// order. A meeting that ends before it starts is an error.
pub fn layout(schedule: &Schedule, config: &ScheduleConfig) -> (res: Result<Drawing, TimeError>)
    requires
        config@.wf(),
    ensures
        durations_valid(schedule.items@) ==> (res matches Ok(drawing) && drawing@ == picture(
            *schedule,
            config@,
        )),
        !durations_valid(schedule.items@) ==> res == Err::<Drawing, TimeError>(
            TimeError::InvalidDuration,
        ),
{
    let ghost t = config@;
    let range = calculate_start_end_hours(schedule);
    let rows: u32 = if range.1 >= range.0 {
        range.1 - range.0
    } else {
        0
    };
    let width: i64 = pixels(config.time_margin) + 2 * pixels(config.outer_margin) + cells(
        config.days.len() as u64,
        config.slot_width,
    );
    let height: i64 = pixels(config.day_margin) + 2 * pixels(config.outer_margin) + cells(
        rows as u64,
        config.slot_height,
    );
    let mut primitives = draw_grid(config, range);
    put_all(&mut primitives, draw_time_labels(config, range));
    put_all(&mut primitives, draw_day_headers(config));
    let ghost fixed = shapes(primitives@);
    let mut i: usize = 0;
    while i < schedule.items.len()
        invariant
            i <= schedule.items.len(),
            range.0 <= 24,
            t == config@,
            forall|k: int| 0 <= k < i ==> item_valid(#[trigger] schedule.items@[k]),
            shapes(primitives@) == fixed + event_shapes(schedule.items@, t, range.0, i as int),
        decreases schedule.items.len() - i,
    {
        match draw_event(&schedule.items[i], config, range.0) {
            Ok(blocks) => {
                let ghost so_far = shapes(primitives@);
                put_all(&mut primitives, blocks);
                assert(shapes(primitives@) =~= fixed + event_shapes(
                    schedule.items@,
                    t,
                    range.0,
                    i + 1,
                ));
            },
            Err(e) => {
                return Err(e);
            },
        }
        i = i + 1;
    }
    let mut file_name = config.save_name.clone();
    file_name.append(".svg");
    let drawing = Drawing { file_name, width, height, primitives };
    assert(drawing@.shapes == picture(*schedule, t).shapes);
    assert(drawing@ == picture(*schedule, t));
    Ok(drawing)
}

/// Lays a schedule out under the default theme, for the file
/// `schedule.svg`.
pub fn save_vector_schedule(schedule: &Schedule) -> (res: Result<Drawing, TimeError>)
    ensures
        durations_valid(schedule.items@) ==> (res matches Ok(drawing) && drawing@ == picture(
            *schedule,
            default_theme(),
        )),
        !durations_valid(schedule.items@) ==> res == Err::<Drawing, TimeError>(
            TimeError::InvalidDuration,
        ),
{
    let config = default_config();
    layout(schedule, &config)
}

} // verus!
