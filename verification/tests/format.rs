use rusty_clock_ui::datetime::{DateTime, DayOfWeek};
use rusty_clock_ui::ui::view::{
    format_alarm, format_date, format_humidity, format_pressure, format_seconds,
    format_temperature, Centi,
};
use rusty_clock_ui::ui::{EditDateTime, EditDateTimeState};

fn dt(year: u16, month: u8, day: u8, hour: u8, min: u8, sec: u8) -> DateTime {
    DateTime { year, month, day, hour, min, sec, day_of_week: DayOfWeek::Wednesday }
}

#[test]
fn centi_two_decimals() {
    assert_eq!(Centi(2345).format(), "23.45");
    assert_eq!(Centi(5).format(), "0.05");
    assert_eq!(Centi(0).format(), "0.00");
    assert_eq!(Centi(100).format(), "1.00");
}

#[test]
fn centi_negative_sign_written_once() {
    assert_eq!(Centi(-150).format(), "-1.50");
    assert_eq!(Centi(-50).format(), "-0.50");
    assert_eq!(Centi(-5).format(), "-0.05");
    assert_eq!(Centi(-100).format(), "-1.00");
    assert_eq!(Centi(i32::MIN).format(), "-21474836.48");
}

#[test]
fn date_line() {
    assert_eq!(format_date(&dt(2020, 1, 1, 0, 0, 0)), "2020-01-01 Wednesday");
    assert_eq!(format_date(&dt(999, 12, 9, 0, 0, 0)), " 999-12-09 Wednesday");
    let mut d = dt(12345, 123, 45, 0, 0, 0);
    d.day_of_week = DayOfWeek::Sunday;
    assert_eq!(format_date(&d), "12345-123-45 Sunday");
}

#[test]
fn day_names() {
    let names: Vec<&str> = [
        DayOfWeek::Monday,
        DayOfWeek::Tuesday,
        DayOfWeek::Wednesday,
        DayOfWeek::Thursday,
        DayOfWeek::Friday,
        DayOfWeek::Saturday,
        DayOfWeek::Sunday,
    ]
    .iter()
    .map(|d| d.name())
    .collect();
    assert_eq!(names, vec!["Monday", "Tuesday", "Wednesday", "Thursday", "Friday", "Saturday", "Sunday"]);
}

#[test]
fn alarm_line() {
    assert_eq!(format_alarm(None), "No alarm");
    assert_eq!(format_alarm(Some((DayOfWeek::Monday, 7, 5))), "Alarm: Monday 7:05");
    assert_eq!(format_alarm(Some((DayOfWeek::Friday, 23, 45))), "Alarm: Friday 23:45");
}

#[test]
fn sensor_lines() {
    assert_eq!(format_temperature(2150), "21.50°C");
    assert_eq!(format_temperature(-150), "-1.50°C");
    assert_eq!(format_pressure(101325), "1013.25hPa");
    assert_eq!(format_pressure(u32::MAX), "-0.01hPa");
    assert_eq!(format_humidity(5), " 5%RH");
    assert_eq!(format_humidity(45), "45%RH");
    assert_eq!(format_humidity(100), "100%RH");
}

#[test]
fn seconds_and_edit_labels() {
    assert_eq!(format_seconds(7), ":07");
    assert_eq!(format_seconds(42), ":42");
    let d = dt(2020, 2, 3, 4, 5, 0);
    let labels: Vec<String> = [
        EditDateTimeState::Year,
        EditDateTimeState::Month,
        EditDateTimeState::Day,
        EditDateTimeState::Hour,
        EditDateTimeState::Min,
    ]
    .iter()
    .map(|s| EditDateTime { datetime: d, state: *s }.label())
    .collect();
    assert_eq!(labels, vec!["year: 2020", "month: 2", "day: 3", "hour: 4", "min: 5"]);
}

