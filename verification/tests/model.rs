use rusty_clock_ui::datetime::{DateTime, DayOfWeek};
use rusty_clock_ui::ui::{
    Cmd, EditDateTime, EditDateTimeState, Environment, MenuElt, Model, Msg, Screen, ALARM_COUNT,
};

fn dt(year: u16, month: u8, day: u8, hour: u8, min: u8, sec: u8) -> DateTime {
    DateTime { year, month, day, hour, min, sec, day_of_week: DayOfWeek::Sunday }
}

fn edit(state: EditDateTimeState, datetime: DateTime) -> EditDateTime {
    EditDateTime { datetime, state }
}

#[test]
fn menu_elt_next_prev_cycle() {
    for e in [MenuElt::Clock, MenuElt::SetClock, MenuElt::ManageAlarms] {
        assert_eq!(e.next().prev(), e);
        assert_eq!(e.prev().next(), e);
        assert_eq!(e.next().next().next(), e);
    }
    assert_eq!(MenuElt::Clock.next(), MenuElt::SetClock);
    assert_eq!(MenuElt::ManageAlarms.next(), MenuElt::Clock);
    assert_eq!(MenuElt::Clock.prev(), MenuElt::ManageAlarms);
    assert_eq!(MenuElt::SetClock.index(), 1);
    assert_eq!(MenuElt::Clock.items(), &["Main screen", "Set clock", "Manage alarms"]);
}

#[test]
fn edit_next_wraps_each_field() {
    let base = dt(2105, 12, 31, 23, 59, 0);
    let mut e = edit(EditDateTimeState::Year, base);
    e.next();
    assert_eq!(e.datetime.year, 1970);
    let mut e = edit(EditDateTimeState::Month, base);
    e.next();
    assert_eq!(e.datetime.month, 1);
    let mut e = edit(EditDateTimeState::Day, base);
    e.next();
    assert_eq!(e.datetime.day, 1);
    let mut e = edit(EditDateTimeState::Hour, base);
    e.next();
    assert_eq!(e.datetime.hour, 0);
    let mut e = edit(EditDateTimeState::Min, base);
    e.next();
    assert_eq!(e.datetime.min, 0);
    assert_eq!(e.datetime.year, 2105);
    assert_eq!(e.state, EditDateTimeState::Min);
}

#[test]
fn edit_prev_wraps_each_field() {
    let base = dt(1970, 1, 1, 0, 0, 0);
    let mut e = edit(EditDateTimeState::Year, base);
    e.prev();
    assert_eq!(e.datetime.year, 2105);
    let mut e = edit(EditDateTimeState::Month, base);
    e.prev();
    assert_eq!(e.datetime.month, 12);
    let mut e = edit(EditDateTimeState::Day, base);
    e.prev();
    assert_eq!(e.datetime.day, 31);
    let mut e = edit(EditDateTimeState::Hour, base);
    e.prev();
    assert_eq!(e.datetime.hour, 23);
    let mut e = edit(EditDateTimeState::Min, base);
    e.prev();
    assert_eq!(e.datetime.min, 59);
}

#[test]
fn edit_step_undo_in_range() {
    let base = dt(2020, 6, 15, 12, 30, 0);
    for state in [
        EditDateTimeState::Year,
        EditDateTimeState::Month,
        EditDateTimeState::Day,
        EditDateTimeState::Hour,
        EditDateTimeState::Min,
    ] {
        let start = edit(state, base);
        let mut e = start;
        e.next();
        assert_ne!(e, start);
        e.prev();
        assert_eq!(e, start);
        e.prev();
        e.next();
        assert_eq!(e, start);
    }
}

#[test]
fn edit_step_outside_range_is_not_undone() {
    // A month out of range wraps into range and does not come back.
    let mut e = edit(EditDateTimeState::Month, dt(2020, 13, 1, 0, 0, 0));
    e.next();
    assert_eq!(e.datetime.month, 2);
    e.prev();
    assert_eq!(e.datetime.month, 1);
}

#[test]
fn edit_ok_walks_fields_then_returns() {
    let base = dt(2020, 1, 2, 3, 4, 0);
    let mut e = EditDateTime::new(base);
    assert_eq!(e.state, EditDateTimeState::Year);
    assert_eq!(e.ok(), None);
    assert_eq!(e.state, EditDateTimeState::Month);
    assert_eq!(e.ok(), None);
    assert_eq!(e.state, EditDateTimeState::Day);
    assert_eq!(e.ok(), None);
    assert_eq!(e.state, EditDateTimeState::Hour);
    assert_eq!(e.ok(), None);
    assert_eq!(e.state, EditDateTimeState::Min);
    assert_eq!(e.ok(), Some(base));
    assert_eq!(e.state, EditDateTimeState::Min);
    assert_eq!(e.ok(), Some(base));
}

#[test]
fn model_init() {
    let m: Model<u8> = Model::init();
    assert_eq!(m.now, DateTime::epoch());
    assert_eq!(m.now, dt(1970, 1, 1, 0, 0, 0).with_thursday());
    assert_eq!(m.pressure, 0);
    assert_eq!(m.temperature, 0);
    assert_eq!(m.humidity, 0);
    assert_eq!(m.alarm_manager, 0);
    assert_eq!(m.screen, Screen::Clock);
}

trait WithThursday {
    fn with_thursday(self) -> Self;
}

impl WithThursday for DateTime {
    fn with_thursday(mut self) -> Self {
        self.day_of_week = DayOfWeek::Thursday;
        self
    }
}

#[test]
fn ok_twice_goes_back_to_clock_with_full_update() {
    let mut m: Model<u8> = Model::init();
    assert_eq!(m.update(Msg::ButtonOk), vec![]);
    assert_eq!(m.screen, Screen::Menu(MenuElt::Clock));
    assert_eq!(m.update(Msg::ButtonOk), vec![Cmd::FullUpdate]);
    assert_eq!(m.screen, Screen::Clock);
}

#[test]
fn plus_minus_on_clock_do_nothing() {
    let mut m: Model<u8> = Model::init();
    assert_eq!(m.update(Msg::ButtonPlus), vec![]);
    assert_eq!(m.update(Msg::ButtonMinus), vec![]);
    assert_eq!(m.screen, Screen::Clock);
}

#[test]
fn set_clock_unchanged_sets_current_time_without_seconds() {
    let mut m: Model<u8> = Model::init();
    m.update(Msg::DateTime(dt(2021, 3, 4, 5, 6, 7)));
    m.update(Msg::ButtonOk);
    m.update(Msg::ButtonPlus);
    assert_eq!(m.screen, Screen::Menu(MenuElt::SetClock));
    assert_eq!(m.update(Msg::ButtonOk), vec![]);
    assert_eq!(
        m.screen,
        Screen::SetClock(EditDateTime { datetime: dt(2021, 3, 4, 5, 6, 0), state: EditDateTimeState::Year })
    );
    for _ in 0..4 {
        assert_eq!(m.update(Msg::ButtonOk), vec![]);
    }
    assert_eq!(
        m.update(Msg::ButtonOk),
        vec![Cmd::UpdateRtc(dt(2021, 3, 4, 5, 6, 0)), Cmd::FullUpdate]
    );
    assert_eq!(m.screen, Screen::Clock);
    assert_eq!(m.now, dt(2021, 3, 4, 5, 6, 7));
}

#[test]
fn set_clock_edits_fields() {
    let mut m: Model<u8> = Model::init();
    m.update(Msg::DateTime(dt(2021, 3, 4, 5, 6, 7)));
    m.update(Msg::ButtonOk);
    m.update(Msg::ButtonPlus);
    m.update(Msg::ButtonOk);
    m.update(Msg::ButtonPlus); // year 2022
    m.update(Msg::ButtonOk);
    m.update(Msg::ButtonMinus); // month 2
    m.update(Msg::ButtonOk);
    m.update(Msg::ButtonOk);
    m.update(Msg::ButtonMinus); // hour 4
    m.update(Msg::ButtonOk);
    m.update(Msg::ButtonPlus);
    m.update(Msg::ButtonPlus); // min 8
    assert_eq!(
        m.update(Msg::ButtonOk),
        vec![Cmd::UpdateRtc(dt(2022, 2, 4, 4, 8, 0)), Cmd::FullUpdate]
    );
}

#[test]
fn manage_alarms_wraps_over_the_slots() {
    let mut m: Model<u8> = Model::init();
    m.update(Msg::ButtonOk);
    m.update(Msg::ButtonMinus);
    assert_eq!(m.screen, Screen::Menu(MenuElt::ManageAlarms));
    assert_eq!(m.update(Msg::ButtonOk), vec![]);
    assert_eq!(m.screen, Screen::ManageAlarms(0));
    m.update(Msg::ButtonMinus);
    assert_eq!(m.screen, Screen::ManageAlarms(ALARM_COUNT - 1));
    m.update(Msg::ButtonPlus);
    assert_eq!(m.screen, Screen::ManageAlarms(0));
    for _ in 0..ALARM_COUNT {
        m.update(Msg::ButtonPlus);
    }
    assert_eq!(m.screen, Screen::ManageAlarms(0));
    assert_eq!(m.update(Msg::ButtonOk), vec![Cmd::FullUpdate]);
    assert_eq!(m.screen, Screen::Clock);
}

#[test]
fn midnight_asks_for_full_update() {
    let mut m: Model<u8> = Model::init();
    assert_eq!(m.update(Msg::DateTime(dt(2020, 5, 5, 0, 0, 0))), vec![Cmd::FullUpdate]);
    assert_eq!(m.update(Msg::DateTime(dt(2020, 5, 5, 0, 0, 1))), vec![]);
    assert_eq!(m.update(Msg::DateTime(dt(2020, 5, 5, 12, 0, 0))), vec![]);
    assert_eq!(m.now, dt(2020, 5, 5, 12, 0, 0));
    assert_eq!(m.screen, Screen::Clock);
}

#[test]
fn environment_and_alarm_manager_are_stored() {
    let mut m: Model<u8> = Model::init();
    let env = Environment { pressure: 101325, temperature: -150, humidity: 45 };
    assert_eq!(m.update(Msg::Environment(env)), vec![]);
    assert_eq!(m.pressure, 101325);
    assert_eq!(m.temperature, -150);
    assert_eq!(m.humidity, 45);
    assert_eq!(m.update(Msg::AlarmManager(7)), vec![]);
    assert_eq!(m.alarm_manager, 7);
    assert_eq!(m.screen, Screen::Clock);
}

#[test]
fn edit_next_cycles_through_each_range() {
    let base = dt(2020, 6, 15, 12, 30, 0);
    for (state, period) in [
        (EditDateTimeState::Year, 136),
        (EditDateTimeState::Month, 12),
        (EditDateTimeState::Day, 31),
        (EditDateTimeState::Hour, 24),
        (EditDateTimeState::Min, 60),
    ] {
        let start = edit(state, base);
        let mut e = start;
        for k in 1..=period {
            e.next();
            if k < period {
                assert_ne!(e, start);
            }
        }
        assert_eq!(e, start);
    }
}
