//! The clock's user interface: a model of what is shown, updated by messages
//! (time ticks, sensor readings, alarm changes and the three buttons), and
//! drawn into a frame buffer.
use vstd::prelude::*;
use crate::datetime::{DateTime, in_range, epoch_datetime};
use crate::ui::menu::str_views;

pub mod header;
pub mod menu;
pub mod view;

verus! {

/// The number of alarm slots of the alarm manager.
pub const ALARM_COUNT: usize = 5;

/// A sensor reading.
#[derive(Clone, Copy, Debug, PartialEq, Eq, Structural)]
pub struct Environment {
    /// unit: Pa
    pub pressure: u32,
    /// unit: c°C
    pub temperature: i16,
    /// unit: %
    pub humidity: u8,
}

/// What the model is told. `A` is the alarm manager, which the model keeps and hands
/// back but does not look into.
#[derive(Debug)]
pub enum Msg<A> {
    DateTime(DateTime),
    Environment(Environment),
    ButtonMinus,
    ButtonOk,
    ButtonPlus,
    AlarmManager(A),
}

/// What the model asks of the rest of the clock.
#[derive(Clone, Copy, Debug, PartialEq, Eq, Structural)]
pub enum Cmd {
    /// Set the real-time clock to this date and time.
    UpdateRtc(DateTime),
    /// Refresh the whole e-paper screen on the next drawing.
    FullUpdate,
}

/// The entries of the main menu.
#[derive(Clone, Copy, Debug, PartialEq, Eq, Structural)]
pub enum MenuElt {
    Clock,
    SetClock,
    ManageAlarms,
}

impl MenuElt {
    pub open spec fn following(self) -> MenuElt {
        match self {
            MenuElt::Clock => MenuElt::SetClock,
            MenuElt::SetClock => MenuElt::ManageAlarms,
            MenuElt::ManageAlarms => MenuElt::Clock,
        }
    }

    pub open spec fn preceding(self) -> MenuElt {
        match self {
            MenuElt::Clock => MenuElt::ManageAlarms,
            MenuElt::SetClock => MenuElt::Clock,
            MenuElt::ManageAlarms => MenuElt::SetClock,
        }
    }

    /// The position of the entry in the menu.
    pub open spec fn position(self) -> int {
        match self {
            MenuElt::Clock => 0,
            MenuElt::SetClock => 1,
            MenuElt::ManageAlarms => 2,
        }
    }

    /// The entry below, the last one wrapping to the first.
    pub fn next(&self) -> (r: MenuElt)
        ensures
            r == self.following(),
    {
        match *self {
            MenuElt::Clock => MenuElt::SetClock,
            MenuElt::SetClock => MenuElt::ManageAlarms,
            MenuElt::ManageAlarms => MenuElt::Clock,
        }
    }

    /// The entry above, the first one wrapping to the last.
    pub fn prev(&self) -> (r: MenuElt)
        ensures
            r == self.preceding(),
    {
        match *self {
            MenuElt::Clock => MenuElt::ManageAlarms,
            MenuElt::SetClock => MenuElt::Clock,
            MenuElt::ManageAlarms => MenuElt::SetClock,
        }
    }

    /// The texts of the main menu's entries, in order.
    pub open spec fn texts() -> Seq<Seq<char>> {
        seq!["Main screen"@, "Set clock"@, "Manage alarms"@]
    }

    /// The texts of the main menu's entries.
    pub fn items(&self) -> (r: &'static [&'static str])
        ensures
            str_views(r@) == Self::texts(),
    {
        let r: &'static [&'static str] = &["Main screen", "Set clock", "Manage alarms"];
        assert(str_views(r@) =~= Self::texts());
        r
    }

    /// The position of the entry, as the menu marks it.
    pub fn index(&self) -> (r: i32)
        ensures
            r == self.position(),
    {
        match *self {
            MenuElt::Clock => 0,
            MenuElt::SetClock => 1,
            MenuElt::ManageAlarms => 2,
        }
    }
}

/// The field of the date and time being edited.
#[derive(Clone, Copy, Debug, PartialEq, Eq, Structural)]
pub enum EditDateTimeState {
    Year,
    Month,
    Day,
    Hour,
    Min,
}

/// A date and time being set, one field after the other.
#[derive(Clone, Copy, Debug, PartialEq, Eq, Structural)]
pub struct EditDateTime {
    pub datetime: DateTime,
    pub state: EditDateTimeState,
}

/// The years the clock can be set to.
pub const FIRST_YEAR: u16 = 1970;
pub const LAST_YEAR: u16 = 2105;

impl EditDateTime {
    /// `next` does not overflow: the fields it adds one to are below their type's maximum.
    pub open spec fn can_step_up(self) -> bool {
        match self.state {
            EditDateTimeState::Year => self.datetime.year < u16::MAX,
            EditDateTimeState::Hour => self.datetime.hour < u8::MAX,
            EditDateTimeState::Min => self.datetime.min < u8::MAX,
            _ => true,
        }
    }

    /// `prev` does not overflow: the year is positive and `field + modulus` fits a `u8`.
    pub open spec fn can_step_down(self) -> bool {
        match self.state {
            EditDateTimeState::Year => self.datetime.year > 0,
            EditDateTimeState::Month => self.datetime.month + 12 <= u8::MAX,
            EditDateTimeState::Day => self.datetime.day + 31 <= u8::MAX,
            EditDateTimeState::Hour => self.datetime.hour + 24 <= u8::MAX,
            EditDateTimeState::Min => self.datetime.min + 60 <= u8::MAX,
        }
    }

    /// The edited field one up: the year wraps from 2105 to 1970, the month from 12 to 1,
    /// the day from 31 to 1, the hour from 23 to 0, the minute from 59 to 0.
    pub open spec fn stepped_up(self) -> EditDateTime {
        let dt = self.datetime;
        let datetime = match self.state {
            EditDateTimeState::Year => DateTime {
                year: if dt.year + 1 > LAST_YEAR { FIRST_YEAR } else { (dt.year + 1) as u16 },
                ..dt
            },
            EditDateTimeState::Month => DateTime { month: (dt.month % 12 + 1) as u8, ..dt },
            EditDateTimeState::Day => DateTime { day: (dt.day % 31 + 1) as u8, ..dt },
            EditDateTimeState::Hour => DateTime { hour: ((dt.hour + 1) % 24) as u8, ..dt },
            EditDateTimeState::Min => DateTime { min: ((dt.min + 1) % 60) as u8, ..dt },
        };
        EditDateTime { datetime, ..self }
    }

    /// The edited field one down, wrapping the other way.
    pub open spec fn stepped_down(self) -> EditDateTime {
        let dt = self.datetime;
        let datetime = match self.state {
            EditDateTimeState::Year => DateTime {
                year: if dt.year - 1 < FIRST_YEAR { LAST_YEAR } else { (dt.year - 1) as u16 },
                ..dt
            },
            EditDateTimeState::Month => DateTime { month: ((dt.month + 12 - 2) % 12 + 1) as u8, ..dt },
            EditDateTimeState::Day => DateTime { day: ((dt.day + 31 - 2) % 31 + 1) as u8, ..dt },
            EditDateTimeState::Hour => DateTime { hour: ((dt.hour + 24 - 1) % 24) as u8, ..dt },
            EditDateTimeState::Min => DateTime { min: ((dt.min + 60 - 1) % 60) as u8, ..dt },
        };
        EditDateTime { datetime, ..self }
    }

    /// The field after `state`, in the order year, month, day, hour, minute.
    pub open spec fn field_after(state: EditDateTimeState) -> EditDateTimeState {
        match state {
            EditDateTimeState::Year => EditDateTimeState::Month,
            EditDateTimeState::Month => EditDateTimeState::Day,
            EditDateTimeState::Day => EditDateTimeState::Hour,
            EditDateTimeState::Hour => EditDateTimeState::Min,
            EditDateTimeState::Min => EditDateTimeState::Min,
        }
    }

    /// What `ok` leaves and returns: on the minute the date and time is done and
    /// returned; before, the edit moves on to the next field.
    pub open spec fn confirmed(self) -> (EditDateTime, Option<DateTime>) {
        match self.state {
            EditDateTimeState::Min => (self, Some(self.datetime)),
            _ => (EditDateTime { state: Self::field_after(self.state), ..self }, None),
        }
    }

    /// Starts editing `datetime` at its year.
    pub fn new(datetime: DateTime) -> (r: Self)
        ensures
            r == (EditDateTime { datetime, state: EditDateTimeState::Year }),
    {
        Self { datetime, state: EditDateTimeState::Year }
    }

    /// The edited field one up.
    pub fn next(&mut self)
        requires
            old(self).can_step_up(),
        ensures
            *final(self) == old(self).stepped_up(),
    {
        match self.state {
            EditDateTimeState::Year => {
                self.datetime.year += 1;
                if self.datetime.year > 2105 {
                    self.datetime.year = 1970;
                }
            },
            EditDateTimeState::Month => self.datetime.month = self.datetime.month % 12 + 1,
            EditDateTimeState::Day => self.datetime.day = self.datetime.day % 31 + 1,
            EditDateTimeState::Hour => self.datetime.hour = (self.datetime.hour + 1) % 24,
            EditDateTimeState::Min => self.datetime.min = (self.datetime.min + 1) % 60,
        }
    }

    /// The edited field one down.
    pub fn prev(&mut self)
        requires
            old(self).can_step_down(),
        ensures
            *final(self) == old(self).stepped_down(),
    {
        match self.state {
            EditDateTimeState::Year => {
                self.datetime.year -= 1;
                if self.datetime.year < 1970 {
                    self.datetime.year = 2105;
                }
            },
            EditDateTimeState::Month => self.datetime.month = (self.datetime.month + 12 - 2) % 12 + 1,
            EditDateTimeState::Day => self.datetime.day = (self.datetime.day + 31 - 2) % 31 + 1,
            EditDateTimeState::Hour => self.datetime.hour = (self.datetime.hour + 24 - 1) % 24,
            EditDateTimeState::Min => self.datetime.min = (self.datetime.min + 60 - 1) % 60,
        }
    }

    /// Confirms the edited field: moves on to the next one, or, on the minute,
    /// returns the date and time that was set.
    pub fn ok(&mut self) -> (r: Option<DateTime>)
        ensures
            (*final(self), r) == old(self).confirmed(),
    {
        match self.state {
            EditDateTimeState::Year => self.state = EditDateTimeState::Month,
            EditDateTimeState::Month => self.state = EditDateTimeState::Day,
            EditDateTimeState::Day => self.state = EditDateTimeState::Hour,
            EditDateTimeState::Hour => self.state = EditDateTimeState::Min,
            EditDateTimeState::Min => return Some(self.datetime),
        }
        None
    }
}

/// The screen shown below the header.
#[derive(Clone, Copy, Debug, PartialEq, Eq, Structural)]
pub enum Screen {
    Clock,
    Menu(MenuElt),
    SetClock(EditDateTime),
    /// The alarm at this index is selected.
    ManageAlarms(usize),
}

/// The screen after the plus button.
pub open spec fn plus_screen(s: Screen) -> Screen {
    match s {
        Screen::Clock => Screen::Clock,
        Screen::Menu(elt) => Screen::Menu(elt.following()),
        Screen::SetClock(edit) => Screen::SetClock(edit.stepped_up()),
        Screen::ManageAlarms(i) => Screen::ManageAlarms(((i + 1) % (ALARM_COUNT as int)) as usize),
    }
}

/// The screen after the minus button.
pub open spec fn minus_screen(s: Screen) -> Screen {
    match s {
        Screen::Clock => Screen::Clock,
        Screen::Menu(elt) => Screen::Menu(elt.preceding()),
        Screen::SetClock(edit) => Screen::SetClock(edit.stepped_down()),
        Screen::ManageAlarms(i) => Screen::ManageAlarms(
            ((i + ALARM_COUNT - 1) % (ALARM_COUNT as int)) as usize,
        ),
    }
}

/// The plus button does not overflow on this screen.
pub open spec fn plus_ok(s: Screen) -> bool {
    match s {
        Screen::SetClock(edit) => edit.can_step_up(),
        Screen::ManageAlarms(i) => i + 1 <= usize::MAX,
        _ => true,
    }
}

/// The minus button does not overflow on this screen.
pub open spec fn minus_ok(s: Screen) -> bool {
    match s {
        Screen::SetClock(edit) => edit.can_step_down(),
        Screen::ManageAlarms(i) => i + ALARM_COUNT <= usize::MAX,
        _ => true,
    }
}

/// The screen after the ok button, and the date and time to set the clock to, if any:
/// the clock opens the menu; the menu's first entry goes back to the clock, the second
/// starts setting the clock at the current time with the seconds at zero, the third
/// opens the alarms at the first one; setting the clock goes field by field and back
/// to the clock after the minute; the alarms go back to the clock.
pub open spec fn ok_screen(s: Screen, now: DateTime) -> (Screen, Option<DateTime>) {
    match s {
        Screen::Clock => (Screen::Menu(MenuElt::Clock), None),
        Screen::Menu(MenuElt::Clock) => (Screen::Clock, None),
        Screen::Menu(MenuElt::SetClock) => (
            Screen::SetClock(EditDateTime { datetime: DateTime { sec: 0, ..now }, state: EditDateTimeState::Year }),
            None,
        ),
        Screen::Menu(MenuElt::ManageAlarms) => (Screen::ManageAlarms(0), None),
        Screen::SetClock(edit) => match edit.confirmed() {
            (_, Some(dt)) => (Screen::Clock, Some(dt)),
            (e, None) => (Screen::SetClock(e), None),
        },
        Screen::ManageAlarms(_) => (Screen::Clock, None),
    }
}

/// The commands of the ok button: the clock to set, then a full refresh when back on the clock.
pub open spec fn ok_cmds(s: Screen, now: DateTime) -> Seq<Cmd> {
    let (next, set) = ok_screen(s, now);
    let rtc = match set {
        Some(dt) => seq![Cmd::UpdateRtc(dt)],
        None => Seq::<Cmd>::empty(),
    };
    rtc + if next is Clock { seq![Cmd::FullUpdate] } else { Seq::<Cmd>::empty() }
}

/// Midnight: the moment of the day when the whole screen is refreshed.
pub open spec fn is_midnight(dt: DateTime) -> bool {
    dt.hour == 0 && dt.min == 0 && dt.sec == 0
}

/// The state of the user interface.
#[derive(Clone)]
pub struct Model<A> {
    pub now: DateTime,
    /// unit: Pa
    pub pressure: u32,
    /// unit: c°C
    pub temperature: i16,
    /// unit: %
    pub humidity: u8,
    pub alarm_manager: A,
    pub screen: Screen,
}

impl<A> Model<A> {
    /// The selected alarm exists.
    pub open spec fn wf(&self) -> bool {
        match self.screen {
            Screen::ManageAlarms(i) => i < ALARM_COUNT,
            _ => true,
        }
    }

    /// The model holds in-range dates only, both the current one and the one being set.
    pub open spec fn settled(&self) -> bool {
        &&& self.wf()
        &&& in_range(self.now)
        &&& match self.screen {
            Screen::SetClock(edit) => in_range(edit.datetime),
            _ => true,
        }
    }

    /// Whether `update` can take the message without an overflow.
    pub open spec fn accepts(&self, msg: &Msg<A>) -> bool {
        &&& msg is ButtonPlus ==> plus_ok(self.screen)
        &&& msg is ButtonMinus ==> minus_ok(self.screen)
    }

    /// The model and commands after a message.
    pub open spec fn stepped(self, msg: Msg<A>) -> (Model<A>, Seq<Cmd>) {
        match msg {
            Msg::DateTime(dt) => (
                Model { now: dt, ..self },
                if is_midnight(dt) { seq![Cmd::FullUpdate] } else { Seq::<Cmd>::empty() },
            ),
            Msg::Environment(env) => (
                Model {
                    pressure: env.pressure,
                    temperature: env.temperature,
                    humidity: env.humidity,
                    ..self
                },
                Seq::<Cmd>::empty(),
            ),
            Msg::AlarmManager(am) => (Model { alarm_manager: am, ..self }, Seq::<Cmd>::empty()),
            Msg::ButtonOk => (
                Model { screen: ok_screen(self.screen, self.now).0, ..self },
                ok_cmds(self.screen, self.now),
            ),
            Msg::ButtonPlus => (Model { screen: plus_screen(self.screen), ..self }, Seq::<Cmd>::empty()),
            Msg::ButtonMinus => (Model { screen: minus_screen(self.screen), ..self }, Seq::<Cmd>::empty()),
        }
    }

    /// The model at power-on: the epoch, no reading, the alarm manager's default, the clock screen.
    pub fn init() -> (m: Self)
        where
            A: Default,
        ensures
            m.now == epoch_datetime(),
            m.pressure == 0,
            m.temperature == 0,
            m.humidity == 0,
            call_ensures(A::default, (), m.alarm_manager),
            m.screen == Screen::Clock,
            m.settled(),
    {
        Self {
            now: DateTime::epoch(),
            pressure: 0,
            temperature: 0,
            humidity: 0,
            alarm_manager: A::default(),
            screen: Screen::Clock,
        }
    }

    /// Takes a message and returns the commands it gives rise to.
    pub fn update(&mut self, msg: Msg<A>) -> (cmds: Vec<Cmd>)
        requires
            old(self).accepts(&msg),
        ensures
            (*final(self), cmds@) == old(self).stepped(msg),
            old(self).wf() ==> final(self).wf(),
    {
        let ghost before = *self;
        let ghost m = msg;
        let mut cmds: Vec<Cmd> = Vec::new();
        match msg {
            Msg::DateTime(dt) => {
                self.now = dt;
                if self.now.hour == 0 && self.now.min == 0 && self.now.sec == 0 {
                    cmds.push(Cmd::FullUpdate);
                }
            },
            Msg::Environment(env) => {
                self.pressure = env.pressure;
                self.temperature = env.temperature;
                self.humidity = env.humidity;
            },
            Msg::AlarmManager(am) => self.alarm_manager = am,
            Msg::ButtonOk => {
                let next = match self.screen {
                    Screen::Clock => Screen::Menu(MenuElt::Clock),
                    Screen::Menu(MenuElt::Clock) => Screen::Clock,
                    Screen::Menu(MenuElt::SetClock) => {
                        let mut dt = self.now;
                        dt.sec = 0;
                        Screen::SetClock(EditDateTime::new(dt))
                    },
                    Screen::Menu(MenuElt::ManageAlarms) => Screen::ManageAlarms(0),
                    Screen::SetClock(edit) => {
                        let mut edit = edit;
                        if let Some(dt) = edit.ok() {
                            cmds.push(Cmd::UpdateRtc(dt));
                            Screen::Clock
                        } else {
                            Screen::SetClock(edit)
                        }
                    },
                    Screen::ManageAlarms(_) => Screen::Clock,
                };
                self.screen = next;
                if let Screen::Clock = self.screen {
                    cmds.push(Cmd::FullUpdate);
                }
            },
            Msg::ButtonPlus => match self.screen {
                Screen::Clock => {},
                Screen::Menu(elt) => self.screen = Screen::Menu(elt.next()),
                Screen::SetClock(edit) => {
                    let mut edit = edit;
                    edit.next();
                    self.screen = Screen::SetClock(edit);
                },
                Screen::ManageAlarms(i) => self.screen = Screen::ManageAlarms((i + 1) % ALARM_COUNT),
            },
            Msg::ButtonMinus => match self.screen {
                Screen::Clock => {},
                Screen::Menu(elt) => self.screen = Screen::Menu(elt.prev()),
                Screen::SetClock(edit) => {
                    let mut edit = edit;
                    edit.prev();
                    self.screen = Screen::SetClock(edit);
                },
                Screen::ManageAlarms(i) => {
                    let len = ALARM_COUNT;
                    self.screen = Screen::ManageAlarms((i + len - 1) % len);
                },
            },
        }
        proof {
            assert(cmds@ =~= before.stepped(m).1);
        }
        cmds
    }
}

} // verus!
