use embedded_graphics::drawable::Drawable;
use embedded_graphics::fonts::{Font6x8, Font8x16, Text};
use embedded_graphics::geometry::Point;
use embedded_graphics::pixelcolor::BinaryColor;
use embedded_graphics::style::TextStyle;
use epd_waveshare::epd2in9bc::Display2in9bc;
use epd_waveshare::graphics::{Display, DisplayRotation};
use rusty_clock_ui::datetime::{DateTime, DayOfWeek};
use rusty_clock_ui::ui::header::Header;
use rusty_clock_ui::ui::menu::render;
use rusty_clock_ui::ui::view::ClockGlyph;
use rusty_clock_ui::ui::{Environment, Model, Msg};

fn big(d: &mut Display2in9bc, s: &str, x: i32, y: i32) {
    Text::new(s, Point::new(x, y))
        .into_styled(TextStyle::new(Font8x16, BinaryColor::On))
        .draw(d)
        .unwrap();
}

fn small(d: &mut Display2in9bc, s: &str, x: i32, y: i32) {
    Text::new(s, Point::new(x, y))
        .into_styled(TextStyle::new(Font6x8, BinaryColor::On))
        .draw(d)
        .unwrap();
}

fn landscape() -> Display2in9bc {
    let mut d = Display2in9bc::default();
    d.set_rotation(DisplayRotation::Rotate90);
    d
}

#[test]
fn header_draws_text_in_place() {
    let mut d = landscape();
    let blank = d.buffer().to_vec();
    {
        let mut h = Header::new(&mut d);
        h.top_left("A");
    }
    assert_ne!(d.buffer(), &blank[..]);
    let mut e = landscape();
    big(&mut e, "A", 0, 0);
    assert_eq!(d.buffer(), e.buffer());
}

#[test]
fn header_positions() {
    let mut d = landscape();
    {
        let mut h = Header::new(&mut d);
        h.top_left("left");
        h.top_right("right");
        h._top_center("mid");
        h.bottom_left("bl");
        h.bottom_right("br!");
        h._bottom_center("c");
    }
    let mut e = landscape();
    big(&mut e, "left", 0, 0);
    big(&mut e, "right", 295 - 8 * 5, 0);
    big(&mut e, "mid", 148 - 4 * 3, 0);
    big(&mut e, "bl", 0, 112);
    big(&mut e, "br!", 295 - 8 * 3, 112);
    big(&mut e, "c", 148 - 4, 112);
    assert_eq!(d.buffer(), e.buffer());
}

#[test]
fn menu_single_page() {
    let mut d = landscape();
    render("Menu:", &["a", "b", "c"], 1, &mut d);
    let mut e = landscape();
    big(&mut e, "Menu:", 4, 16);
    big(&mut e, "a", 28, 32);
    big(&mut e, "b", 28, 48);
    big(&mut e, "c", 28, 64);
    big(&mut e, ">", 12, 48);
    assert_eq!(d.buffer(), e.buffer());
}

#[test]
fn menu_second_page() {
    let items = ["i0", "i1", "i2", "i3", "i4", "i5", "i6"];
    let mut d = landscape();
    render("T", &items, 6, &mut d);
    let mut e = landscape();
    big(&mut e, "T", 4, 16);
    big(&mut e, "2/2", 267, 96);
    big(&mut e, "i5", 28, 32);
    big(&mut e, "i6", 28, 48);
    big(&mut e, ">", 12, 48);
    assert_eq!(d.buffer(), e.buffer());
}

#[test]
fn menu_first_page_of_many() {
    let items: Vec<String> = (0..12).map(|i| format!("item{}", i)).collect();
    let refs: Vec<&str> = items.iter().map(|s| s.as_str()).collect();
    let mut d = landscape();
    render("T", &refs, 3, &mut d);
    let mut e = landscape();
    big(&mut e, "T", 4, 16);
    big(&mut e, "1/3", 267, 96);
    for i in 0..5 {
        big(&mut e, &items[i], 28, 32 + 16 * i as i32);
    }
    big(&mut e, ">", 12, 80);
    assert_eq!(d.buffer(), e.buffer());
}

#[test]
fn menu_negative_selection_on_several_pages() {
    let items = ["i0", "i1", "i2", "i3", "i4", "i5"];
    let mut d = landscape();
    render("T", &items, -1, &mut d);
    let mut e = landscape();
    big(&mut e, "T", 4, 16);
    big(&mut e, "1/2", 267, 96);
    for i in 0..5 {
        big(&mut e, items[i], 28, 32 + 16 * i as i32);
    }
    big(&mut e, ">", 12, 16);
    assert_eq!(d.buffer(), e.buffer());
}

fn header_expected(e: &mut Display2in9bc) {
    big(e, "2020-03-04 Wednesday", 0, 0);
    big(e, "No alarm", 295 - 8 * 8, 0);
    big(e, "-1.50°C", 0, 112);
    big(e, "1013.25hPa", 295 - 8 * 10, 112);
    big(e, "45%RH", 148 - 4 * 5, 112);
}

fn model() -> Model<u8> {
    let mut m: Model<u8> = Model::init();
    m.update(Msg::DateTime(DateTime {
        year: 2020,
        month: 3,
        day: 4,
        hour: 5,
        min: 6,
        sec: 7,
        day_of_week: DayOfWeek::Wednesday,
    }));
    m.update(Msg::Environment(Environment { pressure: 101325, temperature: -150, humidity: 45 }));
    m
}

#[test]
fn view_clock_screen() {
    let m = model();
    let f = m.view(None, &[]);
    let mut e = landscape();
    header_expected(&mut e);
    small(&mut e, ":07", 273, 18);
    assert_eq!(f.display.buffer(), e.buffer());
    assert_ne!(f.display.buffer(), Display2in9bc::default().buffer());
    let face = f.clock_face.unwrap();
    assert_eq!((face.x, face.y), (4, 18));
    assert_eq!(
        face.glyphs,
        vec![
            ClockGlyph::DigitSpace,
            ClockGlyph::Digit(5),
            ClockGlyph::ColonSpace,
            ClockGlyph::Digit(0),
            ClockGlyph::Digit(6),
        ]
    );
}

#[test]
fn clock_face_at_nine_o_five() {
    let mut m: Model<u8> = Model::init();
    m.update(Msg::DateTime(DateTime {
        year: 2020,
        month: 1,
        day: 1,
        hour: 9,
        min: 5,
        sec: 7,
        day_of_week: DayOfWeek::Wednesday,
    }));
    let face = m.view(None, &[]).clock_face.unwrap();
    assert_eq!(
        face.glyphs,
        vec![
            ClockGlyph::DigitSpace,
            ClockGlyph::Digit(9),
            ClockGlyph::ColonSpace,
            ClockGlyph::Digit(0),
            ClockGlyph::Digit(5),
        ]
    );
    m.update(Msg::DateTime(DateTime {
        year: 2020,
        month: 1,
        day: 1,
        hour: 23,
        min: 47,
        sec: 10,
        day_of_week: DayOfWeek::Wednesday,
    }));
    let face = m.view(None, &[]).clock_face.unwrap();
    assert_eq!(
        face.glyphs,
        vec![
            ClockGlyph::Digit(2),
            ClockGlyph::Digit(3),
            ClockGlyph::Colon,
            ClockGlyph::Digit(4),
            ClockGlyph::Digit(7),
        ]
    );
}

#[test]
fn view_menu_screen() {
    let mut m = model();
    m.update(Msg::ButtonOk);
    m.update(Msg::ButtonPlus);
    let f = m.view(None, &[]);
    assert!(f.clock_face.is_none());
    let d = f.display;
    let mut e = landscape();
    header_expected(&mut e);
    big(&mut e, "Menu:", 4, 16);
    big(&mut e, "Main screen", 28, 32);
    big(&mut e, "Set clock", 28, 48);
    big(&mut e, "Manage alarms", 28, 64);
    big(&mut e, ">", 12, 48);
    assert_eq!(d.buffer(), e.buffer());
}

#[test]
fn view_set_clock_screen() {
    let mut m = model();
    m.update(Msg::ButtonOk);
    m.update(Msg::ButtonPlus);
    m.update(Msg::ButtonOk);
    m.update(Msg::ButtonOk);
    let d = m.view(None, &[]).display;
    let mut e = landscape();
    header_expected(&mut e);
    big(&mut e, "Set clock: month: 3", 12, 44);
    assert_eq!(d.buffer(), e.buffer());
}

#[test]
fn view_alarm_screen_and_alarm_header() {
    let mut m = model();
    m.update(Msg::Environment(Environment { pressure: 101325, temperature: 2150, humidity: 0 }));
    m.update(Msg::ButtonOk);
    m.update(Msg::ButtonMinus);
    m.update(Msg::ButtonOk);
    m.update(Msg::ButtonPlus);
    let labels = ["a0", "a1", "a2", "a3", "a4"];
    let d = m.view(Some((DayOfWeek::Monday, 6, 30)), &labels).display;
    let mut e = landscape();
    big(&mut e, "2020-03-04 Wednesday", 0, 0);
    big(&mut e, "Alarm: Monday 6:30", 295 - 8 * 18, 0);
    big(&mut e, "21.50°C", 0, 112);
    big(&mut e, "1013.25hPa", 295 - 8 * 10, 112);
    big(&mut e, "Select alarm:", 4, 16);
    for i in 0..5 {
        big(&mut e, labels[i], 28, 32 + 16 * i as i32);
    }
    big(&mut e, ">", 12, 48);
    assert_eq!(d.buffer(), e.buffer());
}

#[test]
fn header_text_keeps_the_rest_of_the_frame() {
    let mut d = landscape();
    let blank = d.buffer().to_vec();
    {
        let mut h = Header::new(&mut d);
        h.top_left("A");
    }
    // Turned by 90 degrees, column px of the screen is bytes 16 * px .. 16 * px + 16;
    // the glyph covers columns 0 to 7, so every byte from column 8 on is kept.
    assert_ne!(&d.buffer()[..128], &blank[..128]);
    assert_eq!(&d.buffer()[128..], &blank[128..]);
}

#[test]
fn equal_models_give_equal_views() {
    let m = model();
    let copy = m.clone();
    let a = m.view(None, &[]);
    let b = copy.view(None, &[]);
    assert_eq!(a.display.buffer(), b.display.buffer());
    assert_eq!(a.clock_face.unwrap().glyphs, b.clock_face.unwrap().glyphs);
}
