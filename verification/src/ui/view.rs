//! Drawing the model: the header with the date, the next alarm and the sensor
//! readings, then the current screen.
use vstd::prelude::*;
use epd_waveshare::epd2in9bc::Display2in9bc;
use crate::datetime::{DateTime, DayOfWeek, day_name};
use crate::display::{
    display_buffer, display_rotation, draw_all, draw_fits, blank_buffer, text_draw,
    TextDraw, new_display, set_landscape, landscape, draw_next, draw_next_small, lemma_draw_all_append,
    lemma_draw_all_push, lemma_short_fits,
};
use crate::ui::header::{Header, right_x, center_x, MARGIN, BOTTOM_Y};
use crate::ui::menu::{menu_draws, menu_ok, str_views, render};
use crate::text::{
    decimal, zero_padded, space_padded, pad_left, push_char,
    push_decimal, push_padded, lemma_decimal_len_10,
};
use crate::ui::{Model, Screen, MenuElt, EditDateTime, EditDateTimeState};

verus! {

/// `"{year:4}-{month:02}-{day:02} {day of week}"`.
pub open spec fn date_text(dt: DateTime) -> Seq<char> {
    space_padded(dt.year as nat, 4) + seq!['-'] + zero_padded(dt.month as nat, 2) + seq!['-']
        + zero_padded(dt.day as nat, 2) + seq![' '] + day_name(dt.day_of_week)
}

/// `"No alarm"`, or `"Alarm: {day} {hour}:{min:02}"` for the next alarm to ring.
pub open spec fn alarm_text(next_ring: Option<(DayOfWeek, u8, u8)>) -> Seq<char> {
    match next_ring {
        None => "No alarm"@,
        Some((d, h, m)) => "Alarm: "@ + day_name(d) + seq![' '] + decimal(h as nat) + seq![':']
            + zero_padded(m as nat, 2),
    }
}

/// A value in hundredths with two decimals: a minus sign for a negative value, then the
/// whole units of its magnitude, a dot and the hundredths on two digits (-150 is `"-1.50"`).
pub open spec fn centi_text(v: int) -> Seq<char> {
    let m = if v < 0 { -v } else { v };
    (if v < 0 { seq!['-'] } else { Seq::<char>::empty() }) + decimal((m / 100) as nat) + seq!['.']
        + pad_left(decimal((m % 100) as nat), 2, '0')
}

pub open spec fn temperature_text(t: i16) -> Seq<char> {
    centi_text(t as int) + "°C"@
}

/// The pressure, taken as an `i32`, in hundredths of hPa.
pub open spec fn pressure_text(p: u32) -> Seq<char> {
    centi_text((p as i32) as int) + "hPa"@
}

pub open spec fn humidity_text(h: u8) -> Seq<char> {
    space_padded(h as nat, 2) + "%RH"@
}

/// The header: the date at the top left, the next alarm at the top right, the
/// temperature at the bottom left, the pressure at the bottom right, and the humidity
/// at the bottom centre when it is not zero.
pub open spec fn header_draws<A>(m: Model<A>, next_ring: Option<(DayOfWeek, u8, u8)>) -> Seq<TextDraw> {
    let alarm = alarm_text(next_ring);
    let pressure = pressure_text(m.pressure);
    let humidity = humidity_text(m.humidity);
    seq![
        text_draw(date_text(m.now), MARGIN as int, MARGIN as int),
        text_draw(alarm, right_x(alarm.len()), MARGIN as int),
        text_draw(temperature_text(m.temperature), MARGIN as int, BOTTOM_Y as int),
        text_draw(pressure, right_x(pressure.len()), BOTTOM_Y as int),
    ] + if m.humidity != 0 {
        seq![text_draw(humidity, center_x(humidity.len()), BOTTOM_Y as int)]
    } else {
        Seq::<TextDraw>::empty()
    }
}

/// The field being set and its value, `"{field}: {value}"`.
pub open spec fn edit_label(edit: EditDateTime) -> Seq<char> {
    match edit.state {
        EditDateTimeState::Year => "year: "@ + decimal(edit.datetime.year as nat),
        EditDateTimeState::Month => "month: "@ + decimal(edit.datetime.month as nat),
        EditDateTimeState::Day => "day: "@ + decimal(edit.datetime.day as nat),
        EditDateTimeState::Hour => "hour: "@ + decimal(edit.datetime.hour as nat),
        EditDateTimeState::Min => "min: "@ + decimal(edit.datetime.min as nat),
    }
}

/// `":{sec:02}"`, the seconds beside the big digits of the clock.
pub open spec fn seconds_text(sec: u8) -> Seq<char> {
    seq![':'] + zero_padded(sec as nat, 2)
}

/// The texts of the screen below the header. The clock shows its seconds in the small
/// font; the main menu marks the current entry; setting the clock shows the field being
/// set; the alarm screen is a menu of the alarms' texts.
pub open spec fn screen_draws<A>(m: Model<A>, alarm_labels: Seq<Seq<char>>) -> Seq<TextDraw> {
    match m.screen {
        Screen::Clock => seq![TextDraw { text: seconds_text(m.now.sec), x: 273, y: 18, small: true }],
        Screen::Menu(elt) => menu_draws("Menu:"@, MenuElt::texts(), elt.position()),
        Screen::SetClock(edit) => seq![text_draw("Set clock: "@ + edit_label(edit), 12, 44)],
        Screen::ManageAlarms(i) => menu_draws("Select alarm:"@, alarm_labels, (i as i32) as int),
    }
}

/// Everything the view draws, in order.
pub open spec fn view_draws<A>(
    m: Model<A>,
    next_ring: Option<(DayOfWeek, u8, u8)>,
    alarm_labels: Seq<Seq<char>>,
) -> Seq<TextDraw> {
    header_draws(m, next_ring) + screen_draws(m, alarm_labels)
}

/// A digit place of the big clock face.
#[derive(Clone, Copy, Debug, PartialEq, Eq, Structural)]
pub enum ClockGlyph {
    Digit(u8),
    /// An empty digit place.
    DigitSpace,
    Colon,
    /// The colon's place left empty.
    ColonSpace,
}

/// The clock face `hh:mm`: no leading zero for the hour, and a colon that shows on
/// even seconds only.
pub open spec fn clock_face(now: DateTime) -> Seq<ClockGlyph> {
    seq![
        if now.hour >= 10 { ClockGlyph::Digit((now.hour / 10) as u8) } else { ClockGlyph::DigitSpace },
        ClockGlyph::Digit((now.hour % 10) as u8),
        if now.sec % 2 == 0 { ClockGlyph::Colon } else { ClockGlyph::ColonSpace },
        ClockGlyph::Digit((now.min / 10) as u8),
        ClockGlyph::Digit((now.min % 10) as u8),
    ]
}

/// Literal texts of the screens are short.
proof fn lemma_literals()
    ensures
        "No alarm"@.len() == 8,
        "Alarm: "@.len() == 7,
        "°C"@.len() == 2,
        "hPa"@.len() == 3,
        "%RH"@.len() == 3,
        "Menu:"@.len() == 5,
        "Select alarm:"@.len() == 13,
        "Set clock: "@.len() == 11,
        "year: "@.len() == 6,
        "month: "@.len() == 7,
        "day: "@.len() == 5,
        "hour: "@.len() == 6,
        "min: "@.len() == 5,
        ">"@.len() == 1,
        MenuElt::texts()[0].len() == 11,
        MenuElt::texts()[1].len() == 9,
        MenuElt::texts()[2].len() == 13,
        forall|d: DayOfWeek| #[trigger] day_name(d).len() <= 9,
{
    reveal_strlit("No alarm");
    reveal_strlit("Alarm: ");
    reveal_strlit("°C");
    reveal_strlit("hPa");
    reveal_strlit("%RH");
    reveal_strlit("Menu:");
    reveal_strlit("Select alarm:");
    reveal_strlit("Set clock: ");
    reveal_strlit("year: ");
    reveal_strlit("month: ");
    reveal_strlit("day: ");
    reveal_strlit("hour: ");
    reveal_strlit("min: ");
    reveal_strlit(">");
    reveal_strlit("Main screen");
    reveal_strlit("Set clock");
    reveal_strlit("Manage alarms");
    reveal_strlit("Monday");
    reveal_strlit("Tuesday");
    reveal_strlit("Wednesday");
    reveal_strlit("Thursday");
    reveal_strlit("Friday");
    reveal_strlit("Saturday");
    reveal_strlit("Sunday");
}

/// A number padded to a small width is short.
proof fn lemma_padded_short(n: nat, width: nat, fill: char)
    requires
        n < 10000000000,
        width <= 10,
    ensures
        pad_left(decimal(n), width, fill).len() <= 10,
        zero_padded(n as nat, width).len() <= 10,
{
    lemma_decimal_len_10(n);
}

/// A value in hundredths of an `i32` is short.
proof fn lemma_centi_short(v: i32)
    ensures
        centi_text(v as int).len() <= 30,
{
    let m = if v < 0 { -(v as int) } else { v as int };
    lemma_decimal_len_10((m / 100) as nat);
    lemma_padded_short((m % 100) as nat, 2, '0');
}

/// The texts of the header are short.
proof fn lemma_header_short<A>(m: Model<A>, next_ring: Option<(DayOfWeek, u8, u8)>)
    ensures
        date_text(m.now).len() <= 100,
        alarm_text(next_ring).len() <= 100,
        temperature_text(m.temperature).len() <= 100,
        pressure_text(m.pressure).len() <= 100,
        humidity_text(m.humidity).len() <= 100,
{
    lemma_literals();
    assert(day_name(m.now.day_of_week).len() <= 9);
    lemma_padded_short(m.now.year as nat, 4, ' ');
    lemma_padded_short(m.now.month as nat, 2, '0');
    lemma_padded_short(m.now.day as nat, 2, '0');
    lemma_padded_short(m.humidity as nat, 2, ' ');
    match next_ring {
        Some((d, h, mi)) => {
            assert(day_name(d).len() <= 9);
            lemma_decimal_len_10(h as nat);
            lemma_padded_short(mi as nat, 2, '0');
        },
        None => {},
    }
    lemma_centi_short(m.temperature as i32);
    lemma_centi_short(m.pressure as i32);
}

/// The main menu can always be drawn.
proof fn lemma_main_menu_ok(elt: MenuElt)
    ensures
        menu_ok("Menu:"@, MenuElt::texts(), elt.position()),
{
    lemma_literals();
    let draws = menu_draws("Menu:"@, MenuElt::texts(), elt.position());
    assert(draws.len() == 5);
    assert forall|i: int| 0 <= i < draws.len() implies draw_fits(#[trigger] draws[i]) by {
        lemma_short_fits(draws[i].text, draws[i].x as int, draws[i].y as int);
    }
}

/// The view can be drawn: the alarm screen's menu must fit; the other screens always do.
pub open spec fn view_ok<A>(m: Model<A>, alarm_labels: Seq<Seq<char>>) -> bool {
    m.screen matches Screen::ManageAlarms(i) ==> menu_ok("Select alarm:"@, alarm_labels, (i as i32) as int)
}

/// A value in hundredths, shown with two decimals.
pub struct Centi(pub i32);

impl Centi {
    /// The value with two decimals, the sign written once before the whole units.
    pub fn format(&self) -> (s: String)
        ensures
            s@ == centi_text(self.0 as int),
    {
        let mut s = String::new();
        let v: i64 = self.0 as i64;
        let m: u64 = if v < 0 {
            push_char(&mut s, '-');
            (0 - v) as u64
        } else {
            v as u64
        };
        push_decimal(&mut s, m / 100);
        push_char(&mut s, '.');
        push_padded(&mut s, m % 100, 2, '0');
        assert(s@ =~= centi_text(self.0 as int));
        s
    }
}

/// The date line of the header.
pub fn format_date(dt: &DateTime) -> (s: String)
    ensures
        s@ == date_text(*dt),
{
    let mut s = String::new();
    push_padded(&mut s, dt.year as u64, 4, ' ');
    push_char(&mut s, '-');
    push_padded(&mut s, dt.month as u64, 2, '0');
    push_char(&mut s, '-');
    push_padded(&mut s, dt.day as u64, 2, '0');
    push_char(&mut s, ' ');
    s.append(dt.day_of_week.name());
    assert(s@ =~= date_text(*dt));
    s
}

/// The alarm text of the header.
pub fn format_alarm(next_ring: Option<(DayOfWeek, u8, u8)>) -> (s: String)
    ensures
        s@ == alarm_text(next_ring),
{
    match next_ring {
        None => String::from_str("No alarm"),
        Some((dow, h, m)) => {
            let mut s = String::new();
            s.append("Alarm: ");
            s.append(dow.name());
            push_char(&mut s, ' ');
            push_decimal(&mut s, h as u64);
            push_char(&mut s, ':');
            push_padded(&mut s, m as u64, 2, '0');
            assert(s@ =~= alarm_text(next_ring));
            s
        },
    }
}

pub fn format_temperature(t: i16) -> (s: String)
    ensures
        s@ == temperature_text(t),
{
    let mut s = Centi(t as i32).format();
    s.append("°C");
    s
}

pub fn format_pressure(p: u32) -> (s: String)
    ensures
        s@ == pressure_text(p),
{
    let mut s = Centi(p as i32).format();
    s.append("hPa");
    s
}

pub fn format_humidity(h: u8) -> (s: String)
    ensures
        s@ == humidity_text(h),
{
    let mut s = String::new();
    push_padded(&mut s, h as u64, 2, ' ');
    s.append("%RH");
    s
}

pub fn format_seconds(sec: u8) -> (s: String)
    ensures
        s@ == seconds_text(sec),
{
    let mut s = String::new();
    push_char(&mut s, ':');
    push_padded(&mut s, sec as u64, 2, '0');
    assert(s@ =~= seconds_text(sec));
    s
}

impl EditDateTime {
    /// The field being set and its value, as the set-clock screen shows it.
    pub fn label(&self) -> (s: String)
        ensures
            s@ == edit_label(*self),
    {
        let mut s = String::new();
        let value: u64 = match self.state {
            EditDateTimeState::Year => {
                s.append("year: ");
                self.datetime.year as u64
            },
            EditDateTimeState::Month => {
                s.append("month: ");
                self.datetime.month as u64
            },
            EditDateTimeState::Day => {
                s.append("day: ");
                self.datetime.day as u64
            },
            EditDateTimeState::Hour => {
                s.append("hour: ");
                self.datetime.hour as u64
            },
            EditDateTimeState::Min => {
                s.append("min: ");
                self.datetime.min as u64
            },
        };
        push_decimal(&mut s, value);
        s
    }
}

/// The big digits of the clock face, as the seven-segment renderer is told them: the
/// top-left corner of the face and, in order, what each place shows.
pub struct SevenSegments {
    pub x: i32,
    pub y: i32,
    pub glyphs: Vec<ClockGlyph>,
}

impl SevenSegments {
    /// An empty face with its top-left corner at `(x, y)`.
    pub fn new(x: i32, y: i32) -> (r: Self)
        ensures
            r.x == x,
            r.y == y,
            r.glyphs@ == Seq::<ClockGlyph>::empty(),
    {
        SevenSegments { x, y, glyphs: Vec::new() }
    }

    fn add(&mut self, g: ClockGlyph)
        ensures
            final(self).x == old(self).x,
            final(self).y == old(self).y,
            final(self).glyphs@ == old(self).glyphs@.push(g),
    {
        self.glyphs.push(g);
    }

    /// The next place shows the digit `d`.
    pub fn digit(&mut self, d: u8)
        ensures
            final(self).x == old(self).x,
            final(self).y == old(self).y,
            final(self).glyphs@ == old(self).glyphs@.push(ClockGlyph::Digit(d)),
    {
        self.add(ClockGlyph::Digit(d));
    }

    /// The next place is left empty.
    pub fn digit_space(&mut self)
        ensures
            final(self).x == old(self).x,
            final(self).y == old(self).y,
            final(self).glyphs@ == old(self).glyphs@.push(ClockGlyph::DigitSpace),
    {
        self.add(ClockGlyph::DigitSpace);
    }

    /// The next place shows the colon.
    pub fn colon(&mut self)
        ensures
            final(self).x == old(self).x,
            final(self).y == old(self).y,
            final(self).glyphs@ == old(self).glyphs@.push(ClockGlyph::Colon),
    {
        self.add(ClockGlyph::Colon);
    }

    /// The colon's place is left empty.
    pub fn colon_space(&mut self)
        ensures
            final(self).x == old(self).x,
            final(self).y == old(self).y,
            final(self).glyphs@ == old(self).glyphs@.push(ClockGlyph::ColonSpace),
    {
        self.add(ClockGlyph::ColonSpace);
    }
}

/// What the view produces: the frame buffer, and on the clock screen the face of big
/// digits that the seven-segment renderer draws at the top left.
pub struct Frame {
    pub display: Display2in9bc,
    pub clock_face: Option<SevenSegments>,
}

impl<A> Model<A> {
    /// Draws the model into a new frame buffer: the header, then the current screen.
    /// `next_ring` is when the next alarm rings, as the alarm manager tells it for the
    /// current time; `alarm_labels` are the texts of the alarms, shown by the alarm screen.
    /// The landscape display is drawn into, blank at first.
    pub fn view(&self, next_ring: Option<(DayOfWeek, u8, u8)>, alarm_labels: &[&str]) -> (f: Frame)
        requires
            view_ok(*self, str_views(alarm_labels@)),
        ensures
            display_buffer(f.display) == draw_all(
                blank_buffer(),
                landscape(),
                view_draws(*self, next_ring, str_views(alarm_labels@)),
            ),
            display_rotation(f.display) == landscape(),
            f.clock_face is Some <==> self.screen is Clock,
            f.clock_face matches Some(face) ==> face.x == 4 && face.y == 18 && face.glyphs@
                == clock_face(self.now),
    {
        let mut display = new_display();
        set_landscape(&mut display);
        self.render_header(&mut display, next_ring);
        let clock_face = match self.screen {
            Screen::Clock => Some(self.render_clock(&mut display)),
            Screen::Menu(elt) => {
                self.render_menu(&elt, &mut display);
                None
            },
            Screen::SetClock(edit) => {
                self.render_set_clock(&edit, &mut display);
                None
            },
            Screen::ManageAlarms(i) => {
                self.render_manage_alarms(i, alarm_labels, &mut display);
                None
            },
        };
        proof {
            lemma_draw_all_append(
                blank_buffer(),
                landscape(),
                header_draws(*self, next_ring),
                screen_draws(*self, str_views(alarm_labels@)),
            );
        }
        Frame { display, clock_face }
    }

    fn render_header(&self, display: &mut Display2in9bc, next_ring: Option<(DayOfWeek, u8, u8)>)
        ensures
            display_buffer(*final(display)) == draw_all(
                display_buffer(*old(display)),
                display_rotation(*old(display)),
                header_draws(*self, next_ring),
            ),
            display_rotation(*final(display)) == display_rotation(*old(display)),
    {
        let ghost b0 = display_buffer(*display);
        let ghost rot = display_rotation(*display);
        let ghost all = header_draws(*self, next_ring);
        proof {
            lemma_header_short(*self, next_ring);
        }
        let mut header = Header::new(display);

        let date = format_date(&self.now);
        proof {
            lemma_short_fits(date@, 0, 0);
            lemma_draw_all_push(b0, rot, seq![], all[0]);
            assert(seq![].push(all[0]) =~= all.take(1));
        }
        header.top_left(date.as_str());

        let alarm = format_alarm(next_ring);
        proof {
            lemma_short_fits(alarm@, right_x(alarm@.len()), 0);
            lemma_draw_all_push(b0, rot, all.take(1), all[1]);
            assert(all.take(1).push(all[1]) =~= all.take(2));
        }
        header.top_right(alarm.as_str());

        let temperature = format_temperature(self.temperature);
        proof {
            lemma_short_fits(temperature@, 0, BOTTOM_Y as int);
            lemma_draw_all_push(b0, rot, all.take(2), all[2]);
            assert(all.take(2).push(all[2]) =~= all.take(3));
        }
        header.bottom_left(temperature.as_str());

        let pressure = format_pressure(self.pressure);
        proof {
            lemma_short_fits(pressure@, right_x(pressure@.len()), BOTTOM_Y as int);
            lemma_draw_all_push(b0, rot, all.take(3), all[3]);
            assert(all.take(3).push(all[3]) =~= all.take(4));
        }
        header.bottom_right(pressure.as_str());

        if self.humidity != 0 {
            let humidity = format_humidity(self.humidity);
            proof {
                lemma_short_fits(humidity@, center_x(humidity@.len()), BOTTOM_Y as int);
                lemma_draw_all_push(b0, rot, all.take(4), all[4]);
                assert(all.take(4).push(all[4]) =~= all);
            }
            header._bottom_center(humidity.as_str());
        } else {
            assert(all.take(4) =~= all);
        }
    }

    /// The face of big digits, hour and minute, and the seconds in the small font.
    fn render_clock(&self, display: &mut Display2in9bc) -> (seven: SevenSegments)
        requires
            self.screen is Clock,
        ensures
            seven.x == 4 && seven.y == 18,
            seven.glyphs@ == clock_face(self.now),
            display_buffer(*final(display)) == draw_all(
                display_buffer(*old(display)),
                display_rotation(*old(display)),
                screen_draws(*self, Seq::empty()),
            ),
            display_rotation(*final(display)) == display_rotation(*old(display)),
    {
        let mut seven = SevenSegments::new(4, 18);
        if self.now.hour >= 10 {
            seven.digit(self.now.hour / 10);
        } else {
            seven.digit_space();
        }
        seven.digit(self.now.hour % 10);
        if self.now.sec % 2 == 0 {
            seven.colon();
        } else {
            seven.colon_space();
        }
        seven.digit(self.now.min / 10);
        seven.digit(self.now.min % 10);
        assert(seven.glyphs@ =~= clock_face(self.now));

        let s = format_seconds(self.now.sec);
        let ghost none: Seq<TextDraw> = seq![];
        proof {
            lemma_padded_short(self.now.sec as nat, 2, '0');
            lemma_short_fits(s@, 273, 18);
            assert(none.push(TextDraw { text: s@, x: 273, y: 18, small: true })
                =~= screen_draws(*self, Seq::empty()));
        }
        draw_next_small(display, s.as_str(), 273, 18, Ghost(display_buffer(*display)), Ghost(none));
        seven
    }

    fn render_menu(&self, elt: &MenuElt, display: &mut Display2in9bc)
        requires
            self.screen == Screen::Menu(*elt),
        ensures
            display_buffer(*final(display)) == draw_all(
                display_buffer(*old(display)),
                display_rotation(*old(display)),
                screen_draws(*self, Seq::empty()),
            ),
            display_rotation(*final(display)) == display_rotation(*old(display)),
    {
        proof {
            lemma_main_menu_ok(*elt);
        }
        render("Menu:", elt.items(), elt.index(), display);
    }

    fn render_set_clock(&self, datetime: &EditDateTime, display: &mut Display2in9bc)
        requires
            self.screen == Screen::SetClock(*datetime),
        ensures
            display_buffer(*final(display)) == draw_all(
                display_buffer(*old(display)),
                display_rotation(*old(display)),
                screen_draws(*self, Seq::empty()),
            ),
            display_rotation(*final(display)) == display_rotation(*old(display)),
    {
        let mut s = String::from_str("Set clock: ");
        let label = datetime.label();
        s.append(label.as_str());
        let ghost none: Seq<TextDraw> = seq![];
        proof {
            lemma_literals();
            lemma_decimal_len_10(match datetime.state {
                EditDateTimeState::Year => datetime.datetime.year as nat,
                EditDateTimeState::Month => datetime.datetime.month as nat,
                EditDateTimeState::Day => datetime.datetime.day as nat,
                EditDateTimeState::Hour => datetime.datetime.hour as nat,
                EditDateTimeState::Min => datetime.datetime.min as nat,
            });
            assert(s@ =~= "Set clock: "@ + edit_label(*datetime));
            lemma_short_fits(s@, 12, 44);
            assert(none.push(text_draw(s@, 12, 44)) =~= screen_draws(*self, Seq::empty()));
        }
        draw_next(display, s.as_str(), 12, 44, Ghost(display_buffer(*display)), Ghost(none));
    }

    fn render_manage_alarms(&self, i: usize, alarm_labels: &[&str], display: &mut Display2in9bc)
        requires
            self.screen == Screen::ManageAlarms(i),
            view_ok(*self, str_views(alarm_labels@)),
        ensures
            display_buffer(*final(display)) == draw_all(
                display_buffer(*old(display)),
                display_rotation(*old(display)),
                screen_draws(*self, str_views(alarm_labels@)),
            ),
            display_rotation(*final(display)) == display_rotation(*old(display)),
    {
        render("Select alarm:", alarm_labels, i as i32, display);
    }
}

} // verus!
