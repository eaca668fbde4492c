//! Properties of the user interface that span several operations.
use vstd::prelude::*;
use crate::datetime::{DateTime, DayOfWeek, in_range};
use crate::display::text_draw;
use crate::ui::view::{
    view_draws, clock_face, centi_text, seconds_text, alarm_text, date_text, humidity_text, ClockGlyph,
};
use crate::ui::header::{right_x, center_x};
use crate::datetime::day_name;
use crate::text::{decimal, digit_char};
use crate::ui::menu::{menu_draws, page_label, PAGE_SIZE};
use crate::ui::{
    Cmd, EditDateTime, EditDateTimeState, MenuElt, Model, Msg, Screen, minus_ok, minus_screen,
    plus_ok, plus_screen, is_midnight,
};

verus! {

/// In the menu, going down then up, or up then down, comes back to the same entry.
pub proof fn lemma_menu_next_prev(e: MenuElt)
    ensures
        e.following().preceding() == e,
        e.preceding().following() == e,
{
}

/// Going down the three entries of the menu comes back to the first.
pub proof fn lemma_menu_cycle(e: MenuElt)
    ensures
        e.following().following().following() == e,
{
}

/// The first value of the field being edited.
pub open spec fn field_base(state: EditDateTimeState) -> int {
    match state {
        EditDateTimeState::Year => 1970,
        EditDateTimeState::Month => 1,
        EditDateTimeState::Day => 1,
        EditDateTimeState::Hour => 0,
        EditDateTimeState::Min => 0,
    }
}

/// The number of values the field being edited goes through.
pub open spec fn field_period(state: EditDateTimeState) -> int {
    match state {
        EditDateTimeState::Year => 136,
        EditDateTimeState::Month => 12,
        EditDateTimeState::Day => 31,
        EditDateTimeState::Hour => 24,
        EditDateTimeState::Min => 60,
    }
}

/// The value of the field being edited.
pub open spec fn field_value(edit: EditDateTime) -> int {
    match edit.state {
        EditDateTimeState::Year => edit.datetime.year as int,
        EditDateTimeState::Month => edit.datetime.month as int,
        EditDateTimeState::Day => edit.datetime.day as int,
        EditDateTimeState::Hour => edit.datetime.hour as int,
        EditDateTimeState::Min => edit.datetime.min as int,
    }
}

/// The edit with the field being edited set to `v`.
#[verifier::opaque]
pub open spec fn with_field(edit: EditDateTime, v: int) -> EditDateTime {
    let dt = edit.datetime;
    let datetime = match edit.state {
        EditDateTimeState::Year => DateTime { year: v as u16, ..dt },
        EditDateTimeState::Month => DateTime { month: v as u8, ..dt },
        EditDateTimeState::Day => DateTime { day: v as u8, ..dt },
        EditDateTimeState::Hour => DateTime { hour: v as u8, ..dt },
        EditDateTimeState::Min => DateTime { min: v as u8, ..dt },
    };
    EditDateTime { datetime, ..edit }
}

/// The field being edited holds one of the values the steps go through.
pub open spec fn editable(edit: EditDateTime) -> bool {
    field_base(edit.state) <= field_value(edit) < field_base(edit.state) + field_period(edit.state)
}

/// The edit after `n` steps up.
pub open spec fn steps_up(edit: EditDateTime, n: nat) -> EditDateTime
    decreases n,
{
    if n == 0 {
        edit
    } else {
        steps_up(edit, (n - 1) as nat).stepped_up()
    }
}

/// A date and time in range can be edited.
pub proof fn lemma_in_range_editable(edit: EditDateTime)
    requires
        in_range(edit.datetime),
    ensures
        editable(edit),
{
}

/// A field that can be edited can be stepped either way without overflow and stays so;
/// a date and time in range stays in range.
pub proof fn lemma_edit_steps_in_range(edit: EditDateTime)
    requires
        editable(edit),
    ensures
        edit.can_step_up(),
        edit.can_step_down(),
        editable(edit.stepped_up()),
        editable(edit.stepped_down()),
        in_range(edit.datetime) ==> in_range(edit.stepped_up().datetime),
        in_range(edit.datetime) ==> in_range(edit.stepped_down().datetime),
        edit.stepped_up().state == edit.state,
        edit.stepped_down().state == edit.state,
{
}

/// Within a range of `p` values from 0, the next value, wrapping to 0.
proof fn lemma_next_offset(off: int, p: int)
    requires
        0 <= off < p,
    ensures
        (off + 1) % p == if off + 1 == p { 0 } else { off + 1 },
{
    if off + 1 == p {
        vstd::arithmetic::div_mod::lemma_mod_self_0(p);
    } else {
        vstd::arithmetic::div_mod::lemma_small_mod((off + 1) as nat, p as nat);
    }
}

/// One step up moves the field to the next value of its range, wrapping to the first.
proof fn lemma_step_up_offset(edit: EditDateTime)
    requires
        editable(edit),
    ensures
        edit.stepped_up() == with_field(
            edit,
            field_base(edit.state) + (field_value(edit) - field_base(edit.state) + 1) % field_period(edit.state),
        ),
{
    reveal(with_field);
    let base = field_base(edit.state);
    let p = field_period(edit.state);
    let off = field_value(edit) - base;
    lemma_next_offset(off, p);
    let dt = edit.datetime;
    match edit.state {
        EditDateTimeState::Year => {},
        EditDateTimeState::Month => {
            assert((dt.month % 12 + 1) as u8 == (base + (off + 1) % p) as u8);
        },
        EditDateTimeState::Day => {
            assert((dt.day % 31 + 1) as u8 == (base + (off + 1) % p) as u8);
        },
        EditDateTimeState::Hour => {
            assert(((dt.hour + 1) % 24) as u8 == (base + (off + 1) % p) as u8);
        },
        EditDateTimeState::Min => {
            assert(((dt.min + 1) % 60) as u8 == (base + (off + 1) % p) as u8);
        },
    }
}

/// Setting the field being edited to a value of its range, and then to another one.
proof fn lemma_with_field(edit: EditDateTime, v: int, w: int)
    requires
        field_base(edit.state) <= v < field_base(edit.state) + field_period(edit.state),
        field_base(edit.state) <= w < field_base(edit.state) + field_period(edit.state),
    ensures
        field_value(with_field(edit, v)) == v,
        with_field(edit, v).state == edit.state,
        with_field(with_field(edit, v), w) == with_field(edit, w),
        with_field(edit, field_value(edit)) == edit,
{
    reveal(with_field);
}

/// After `n` steps up the field is `n` values further along its range, cyclically.
proof fn lemma_steps_up(edit: EditDateTime, n: nat)
    requires
        editable(edit),
    ensures
        steps_up(edit, n) == with_field(
            edit,
            field_base(edit.state) + (field_value(edit) - field_base(edit.state) + n) % field_period(edit.state),
        ),
    decreases n,
{
    let base = field_base(edit.state);
    let p = field_period(edit.state);
    let off = field_value(edit) - base;
    if n == 0 {
        assert(off % p == off);
        lemma_with_field(edit, field_value(edit), field_value(edit));
    } else {
        lemma_steps_up(edit, (n - 1) as nat);
        let k = (off + n - 1) % p;
        lemma_mod_range(off + n - 1, p);
        lemma_step_compose(edit, base + k);
        lemma_mod_succ(off + n - 1, p);
    }
}

/// Stepping up the edit with its field set to `v` sets the field to the next value.
proof fn lemma_step_compose(edit: EditDateTime, v: int)
    requires
        field_base(edit.state) <= v < field_base(edit.state) + field_period(edit.state),
    ensures
        with_field(edit, v).stepped_up() == with_field(
            edit,
            field_base(edit.state) + (v - field_base(edit.state) + 1) % field_period(edit.state),
        ),
{
    let base = field_base(edit.state);
    let p = field_period(edit.state);
    lemma_with_field(edit, v, v);
    lemma_step_up_offset(with_field(edit, v));
    lemma_next_offset(v - base, p);
    lemma_with_field(edit, v, base + (v - base + 1) % p);
}

/// A remainder lies in `[0, p)`.
proof fn lemma_mod_range(x: int, p: int)
    requires
        0 <= x,
        0 < p,
    ensures
        0 <= x % p < p,
{
}

/// The remainder of the successor is the successor of the remainder, taken again.
proof fn lemma_mod_succ(x: int, p: int)
    requires
        0 <= x,
        0 < p,
    ensures
        ((x % p) + 1) % p == (x + 1) % p,
{
    vstd::arithmetic::div_mod::lemma_add_mod_noop(x, 1, p);
    lemma_mod_range(x, p);
    if p == 1 {
        assert(1int % 1 == 0);
    } else {
        vstd::arithmetic::div_mod::lemma_small_mod(1, p as nat);
    }
}

/// Stepping up through the whole range of the field being edited (136 years, 12 months,
/// 31 days, 24 hours or 60 minutes) gives the edit back, and no shorter run of steps does.
pub proof fn lemma_edit_cycle(edit: EditDateTime)
    requires
        editable(edit),
    ensures
        steps_up(edit, field_period(edit.state) as nat) == edit,
        forall|n: nat| 0 < n < field_period(edit.state) ==> #[trigger] steps_up(edit, n) != edit,
{
    let base = field_base(edit.state);
    let p = field_period(edit.state);
    let off = field_value(edit) - base;
    lemma_steps_up(edit, p as nat);
    vstd::arithmetic::div_mod::lemma_mod_add_multiples_vanish(off, p);
    vstd::arithmetic::div_mod::lemma_small_mod(off as nat, p as nat);
    assert((p + off) % p == off);
    assert(off + p == p + off);
    lemma_with_field(edit, field_value(edit), field_value(edit));
    assert forall|n: nat| 0 < n < p implies #[trigger] steps_up(edit, n) != edit by {
        lemma_steps_up(edit, n);
        let v = base + (off + n) % p;
        if off + n < p {
            vstd::arithmetic::div_mod::lemma_small_mod((off + n) as nat, p as nat);
        } else {
            vstd::arithmetic::div_mod::lemma_mod_add_multiples_vanish(off + n - p, p);
            vstd::arithmetic::div_mod::lemma_small_mod((off + n - p) as nat, p as nat);
            assert(p + (off + n - p) == off + n);
        }
        lemma_with_field(edit, v, v);
        assert(field_value(steps_up(edit, n)) != field_value(edit));
    }
}

/// Stepping the month of a month in range up then down, or down then up, gives it back.
proof fn lemma_month_undo(m: u8)
    requires
        1 <= m <= 12,
    ensures
        ((((m % 12 + 1) as u8) + 12 - 2) % 12 + 1) as u8 == m,
        (((((m + 12 - 2) % 12 + 1) as u8) % 12) + 1) as u8 == m,
{
}

proof fn lemma_day_undo(d: u8)
    requires
        1 <= d <= 31,
    ensures
        ((((d % 31 + 1) as u8) + 31 - 2) % 31 + 1) as u8 == d,
        (((((d + 31 - 2) % 31 + 1) as u8) % 31) + 1) as u8 == d,
{
}

proof fn lemma_hour_undo(h: u8)
    requires
        h < 24,
    ensures
        (((((h + 1) % 24) as u8) + 24 - 1) % 24) as u8 == h,
        (((((h + 24 - 1) % 24) as u8) + 1) % 24) as u8 == h,
{
}

proof fn lemma_min_undo(n: u8)
    requires
        n < 60,
    ensures
        (((((n + 1) % 60) as u8) + 60 - 1) % 60) as u8 == n,
        (((((n + 60 - 1) % 60) as u8) + 1) % 60) as u8 == n,
{
}

/// When the field can be edited, one step down undoes one step up, and the other way round.
pub proof fn lemma_edit_step_undo(edit: EditDateTime)
    requires
        editable(edit),
    ensures
        edit.stepped_up().stepped_down() == edit,
        edit.stepped_down().stepped_up() == edit,
{
    let dt = edit.datetime;
    match edit.state {
        EditDateTimeState::Year => {},
        EditDateTimeState::Month => lemma_month_undo(dt.month),
        EditDateTimeState::Day => lemma_day_undo(dt.day),
        EditDateTimeState::Hour => lemma_hour_undo(dt.hour),
        EditDateTimeState::Min => lemma_min_undo(dt.min),
    }
}

/// A step changes only the field being edited.
pub proof fn lemma_edit_step_touches_one_field(edit: EditDateTime)
    ensures
        ({
            let (a, b, c) = (edit.datetime, edit.stepped_up().datetime, edit.stepped_down().datetime);
            &&& b.sec == a.sec && c.sec == a.sec
            &&& b.day_of_week == a.day_of_week && c.day_of_week == a.day_of_week
            &&& edit.state !is Year ==> b.year == a.year && c.year == a.year
            &&& edit.state !is Month ==> b.month == a.month && c.month == a.month
            &&& edit.state !is Day ==> b.day == a.day && c.day == a.day
            &&& edit.state !is Hour ==> b.hour == a.hour && c.hour == a.hour
            &&& edit.state !is Min ==> b.min == a.min && c.min == a.min
        }),
{
}

/// Confirming goes through the year, month, day and hour to the minute without changing
/// the date and time, and the fifth confirmation hands it over.
pub proof fn lemma_confirm_five_times(edit: EditDateTime)
    requires
        edit.state == EditDateTimeState::Year,
    ensures
        ({
            let (e1, r1) = edit.confirmed();
            let (e2, r2) = e1.confirmed();
            let (e3, r3) = e2.confirmed();
            let (e4, r4) = e3.confirmed();
            let (e5, r5) = e4.confirmed();
            &&& r1 is None && r2 is None && r3 is None && r4 is None
            &&& e1.state == EditDateTimeState::Month
            &&& e2.state == EditDateTimeState::Day
            &&& e3.state == EditDateTimeState::Hour
            &&& e4.state == EditDateTimeState::Min
            &&& e4.datetime == edit.datetime
            &&& r5 == Some(edit.datetime)
        }),
{
}

/// A well-formed model stays well-formed whatever message it takes.
pub proof fn lemma_update_keeps_wf<A>(m: Model<A>, msg: Msg<A>)
    requires
        m.wf(),
    ensures
        m.stepped(msg).0.wf(),
{
}

/// A model that holds in-range dates takes every button without overflow, and stays so
/// as long as the times it is told are in range; a clock it sets is in range too.
pub proof fn lemma_settled_model<A>(m: Model<A>, msg: Msg<A>)
    requires
        m.settled(),
        msg matches Msg::DateTime(dt) ==> in_range(dt),
    ensures
        m.accepts(&msg),
        m.stepped(msg).0.settled(),
        forall|dt: DateTime| m.stepped(msg).1.contains(Cmd::UpdateRtc(dt)) ==> in_range(dt),
{
    match m.screen {
        Screen::SetClock(edit) => {
            lemma_edit_steps_in_range(edit);
        },
        _ => {},
    }
    let cmds = m.stepped(msg).1;
    assert forall|dt: DateTime| cmds.contains(Cmd::UpdateRtc(dt)) implies in_range(dt) by {
        let k = choose|k: int| 0 <= k < cmds.len() && cmds[k] == Cmd::UpdateRtc(dt);
    }
}

/// On a well-formed model the minus button undoes the plus button, and the plus button
/// the minus button, wherever they do something: in the menu, among the alarms, and
/// when setting a date and time whose field being set is in its range.
pub proof fn lemma_plus_minus_undo<A>(m: Model<A>)
    requires
        m.wf(),
        m.screen matches Screen::SetClock(edit) ==> editable(edit),
    ensures
        plus_ok(m.screen) && minus_ok(plus_screen(m.screen)),
        minus_screen(plus_screen(m.screen)) == m.screen,
        minus_ok(m.screen) && plus_ok(minus_screen(m.screen)),
        plus_screen(minus_screen(m.screen)) == m.screen,
{
    match m.screen {
        Screen::SetClock(edit) => {
            lemma_edit_steps_in_range(edit);
            lemma_edit_steps_in_range(edit.stepped_up());
            lemma_edit_steps_in_range(edit.stepped_down());
            lemma_edit_step_undo(edit);
        },
        _ => {},
    }
}

/// Two presses of ok on the clock screen open the menu and go back to the clock,
/// which asks for a full refresh.
pub proof fn lemma_ok_twice_back_to_clock<A>(m: Model<A>)
    requires
        m.screen == Screen::Clock,
    ensures
        m.stepped(Msg::ButtonOk).0.screen == Screen::Menu(MenuElt::Clock),
        m.stepped(Msg::ButtonOk).1 == Seq::<Cmd>::empty(),
        m.stepped(Msg::ButtonOk).0.stepped(Msg::ButtonOk).0.screen == Screen::Clock,
        m.stepped(Msg::ButtonOk).0.stepped(Msg::ButtonOk).1 == seq![Cmd::FullUpdate],
{
    assert(m.stepped(Msg::ButtonOk).0.stepped(Msg::ButtonOk).1 =~= seq![Cmd::FullUpdate]);
}

/// Choosing to set the clock and confirming every field unchanged sets the clock to the
/// current time with the seconds at zero, goes back to the clock and asks for a full refresh.
pub proof fn lemma_set_clock_unchanged<A>(m: Model<A>)
    requires
        m.screen == Screen::Menu(MenuElt::SetClock),
    ensures
        ({
            let m1 = m.stepped(Msg::ButtonOk).0;
            let m2 = m1.stepped(Msg::ButtonOk).0;
            let m3 = m2.stepped(Msg::ButtonOk).0;
            let m4 = m3.stepped(Msg::ButtonOk).0;
            let m5 = m4.stepped(Msg::ButtonOk).0;
            let (m6, cmds) = m5.stepped(Msg::ButtonOk);
            &&& m6.screen == Screen::Clock
            &&& cmds == seq![Cmd::UpdateRtc(DateTime { sec: 0, ..m.now }), Cmd::FullUpdate]
            &&& m6.now == m.now
        }),
{
    let m5 = m.stepped(Msg::ButtonOk).0.stepped(Msg::ButtonOk).0.stepped(Msg::ButtonOk).0.stepped(
        Msg::ButtonOk,
    ).0.stepped(Msg::ButtonOk).0;
    assert(m5.stepped(Msg::ButtonOk).1 =~= seq![
        Cmd::UpdateRtc(DateTime { sec: 0, ..m.now }),
        Cmd::FullUpdate,
    ]);
}

/// When the selection is one of the items, the menu shows that item, and the `>`
/// marker is drawn on its row; past five items, on the page that holds it.
pub proof fn lemma_marker_on_selected(title: Seq<char>, items: Seq<Seq<char>>, selected: int)
    requires
        0 <= selected < items.len(),
    ensures
        ({
            let draws = menu_draws(title, items, selected);
            let k = if items.len() > PAGE_SIZE { 2 + selected % 5 } else { 1 + selected };
            &&& 0 <= k < draws.len() - 1
            &&& draws[k].text == items[selected]
            &&& draws[k].y == draws[draws.len() - 1].y
            &&& draws[draws.len() - 1].text == ">"@
        }),
{
}

/// The commands of a step: at most two; the clock is set exactly when ok confirms the
/// minute of a date and time being set, and then to that date and time; a full refresh
/// is asked exactly at midnight or when ok leads back to the clock, and comes last.
pub proof fn lemma_update_commands<A>(m: Model<A>, msg: Msg<A>)
    ensures
        ({
            let (next, cmds) = m.stepped(msg);
            &&& cmds.len() <= 2
            &&& forall|dt: DateTime|
                #![trigger cmds.contains(Cmd::UpdateRtc(dt))]
                cmds.contains(Cmd::UpdateRtc(dt)) <==> (msg is ButtonOk && (m.screen matches Screen::SetClock(e)
                    && e.state == EditDateTimeState::Min && dt == e.datetime))
            &&& cmds.contains(Cmd::FullUpdate) <==> ((msg matches Msg::DateTime(t) && is_midnight(t)) || (
            msg is ButtonOk && next.screen is Clock))
            &&& cmds.contains(Cmd::FullUpdate) ==> cmds.last() == Cmd::FullUpdate
        }),
{
    let (next, cmds) = m.stepped(msg);
    if cmds.len() > 0 {
        assert(cmds.contains(cmds[0]));
        assert(cmds.contains(cmds.last()));
    }
    match msg {
        Msg::ButtonOk => {
            match m.screen {
                Screen::SetClock(e) => {
                    if e.state == EditDateTimeState::Min {
                        assert(cmds =~= seq![Cmd::UpdateRtc(e.datetime), Cmd::FullUpdate]);
                        assert(cmds[1] == Cmd::FullUpdate);
                    } else {
                        assert(cmds =~= Seq::<Cmd>::empty());
                    }
                },
                Screen::Menu(MenuElt::Clock) | Screen::ManageAlarms(_) => {
                    assert(cmds =~= seq![Cmd::FullUpdate]);
                },
                _ => {
                    assert(cmds =~= Seq::<Cmd>::empty());
                },
            }
        },
        Msg::DateTime(t) => {
            if is_midnight(t) {
                assert(cmds =~= seq![Cmd::FullUpdate]);
            }
        },
        _ => {},
    }
}

/// A menu of more than five items draws the title, the page label, and then what a menu
/// of the items of the selected page alone draws, with the selection taken on that page.
pub proof fn lemma_menu_pages(title: Seq<char>, items: Seq<Seq<char>>, selected: int)
    requires
        items.len() > PAGE_SIZE,
        0 <= selected < items.len(),
    ensures
        ({
            let p = selected / 5;
            let end = if p * 5 + 5 < items.len() { p * 5 + 5 } else { items.len() as int };
            let page = items.subrange(p * 5, end);
            let one = menu_draws(title, page, selected % 5);
            let all = menu_draws(title, items, selected);
            &&& page.len() <= PAGE_SIZE
            &&& all == seq![one[0], text_draw(page_label(p as nat, items.len()), 267, 96)] + one.skip(1)
        }),
{
    let p = selected / 5;
    let end = if p * 5 + 5 < items.len() { p * 5 + 5 } else { items.len() as int };
    let page = items.subrange(p * 5, end);
    let one = menu_draws(title, page, selected % 5);
    let all = menu_draws(title, items, selected);
    assert(all =~= seq![one[0], text_draw(page_label(p as nat, items.len()), 267, 96)] + one.skip(1));
}

/// The view is a function of the model and of what it is told of the alarms: equal models
/// give equal frames, drawn from a blank landscape display.
pub proof fn lemma_view_deterministic<A>(
    m1: Model<A>,
    m2: Model<A>,
    next_ring: Option<(DayOfWeek, u8, u8)>,
    alarm_labels: Seq<Seq<char>>,
)
    requires
        m1 == m2,
    ensures
        view_draws(m1, next_ring, alarm_labels) == view_draws(m2, next_ring, alarm_labels),
        clock_face(m1.now) == clock_face(m2.now),
        m1.screen is Clock <==> m2.screen is Clock,
{
}

/// Past five items the page label reads `"{page}/{pages}"`, where `pages` is the number
/// of pages of five that hold all the items: the least `k` with `5 * k >= n`. It is drawn
/// at (267, 96), and selecting the last item shows `"{pages}/{pages}"`.
pub proof fn lemma_page_label_total(title: Seq<char>, items: Seq<Seq<char>>, selected: int, pages: nat)
    requires
        items.len() > PAGE_SIZE,
        0 <= selected < items.len(),
        5 * (pages - 1) < items.len() <= 5 * pages,
    ensures
        menu_draws(title, items, selected)[1] == text_draw(
            decimal((selected / 5 + 1) as nat) + seq!['/'] + decimal(pages),
            267,
            96,
        ),
        selected == items.len() - 1 ==> selected / 5 + 1 == pages,
{
    let n = items.len() as int;
    assert((n - 1) / 5 + 1 == pages) by {
        assert(5 * (pages - 1) <= n - 1 < 5 * pages);
    }
}

/// The value a place of the clock face shows: its digit, or nothing for an empty place.
pub open spec fn glyph_value(g: ClockGlyph) -> int {
    match g {
        ClockGlyph::Digit(d) => d as int,
        _ => 0,
    }
}

/// The clock face reads back as the time: its first two places give the hour and its last
/// two the minute; the first place is empty exactly for the hours below ten, which show no
/// leading zero; the colon shows exactly on even seconds.
pub proof fn lemma_clock_face_reads_time(now: DateTime)
    ensures
        ({
            let f = clock_face(now);
            &&& f.len() == 5
            &&& glyph_value(f[0]) * 10 + glyph_value(f[1]) == now.hour
            &&& glyph_value(f[3]) * 10 + glyph_value(f[4]) == now.min
            &&& (f[0] == ClockGlyph::DigitSpace) == (now.hour < 10)
            &&& f[0] is Digit ==> glyph_value(f[0]) > 0
            &&& f[1] is Digit && f[3] is Digit && f[4] is Digit
            &&& (f[2] == ClockGlyph::Colon) == (now.sec % 2 == 0)
            &&& (f[2] == ClockGlyph::ColonSpace) == (now.sec % 2 != 0)
        }),
{
}

/// The label of a main-menu entry.
proof fn lemma_entry_labels()
    ensures
        MenuElt::texts()[0] == "Main screen"@,
        MenuElt::texts()[1] == "Set clock"@,
        MenuElt::texts()[2] == "Manage alarms"@,
        "Main screen"@ != "Set clock"@,
        "Main screen"@ != "Manage alarms"@,
        "Set clock"@ != "Manage alarms"@,
{
    reveal_strlit("Main screen");
    reveal_strlit("Set clock");
    reveal_strlit("Manage alarms");
    assert("Main screen"@[0] != "Set clock"@[0]);
    assert("Main screen"@[2] != "Manage alarms"@[2]);
    assert("Set clock"@[0] != "Manage alarms"@[0]);
}

/// On the main menu the `>` marker sits on the row of the current entry's own label:
/// "Main screen" for the clock, "Set clock", "Manage alarms"; distinct entries are marked
/// on distinct rows.
pub proof fn lemma_main_menu_marks_entry(e: MenuElt)
    ensures
        0 <= e.position() < 3,
        MenuElt::texts()[e.position()] == match e {
            MenuElt::Clock => "Main screen"@,
            MenuElt::SetClock => "Set clock"@,
            MenuElt::ManageAlarms => "Manage alarms"@,
        },
        ({
            let d = menu_draws("Menu:"@, MenuElt::texts(), e.position());
            &&& d.len() == 5
            &&& d[1 + e.position()].text == MenuElt::texts()[e.position()]
            &&& d[1 + e.position()].y == d[4].y
            &&& d[4].text == ">"@
        }),
        forall|f: MenuElt| f != e ==> #[trigger] f.position() != e.position(),
{
    lemma_entry_labels();
}

/// A time message asks for a full refresh exactly at 00:00:00 and for nothing at any other
/// time; it changes only the current time.
pub proof fn lemma_time_message<A>(m: Model<A>, t: DateTime)
    ensures
        m.stepped(Msg::DateTime(t)).1 == if t.hour == 0 && t.min == 0 && t.sec == 0 {
            seq![Cmd::FullUpdate]
        } else {
            Seq::<Cmd>::empty()
        },
        m.stepped(Msg::DateTime(t)).0.now == t,
        m.stepped(Msg::DateTime(t)).0.screen == m.screen,
{
}

/// Two digits of a number below a hundred, the tens first.
proof fn lemma_two_digits(r: nat)
    requires
        r < 100,
    ensures
        crate::text::pad_left(decimal(r), 2, '0') == seq![digit_char(r / 10), digit_char(r % 10)],
{
    if r < 10 {
        assert(crate::text::pad_left(decimal(r), 2, '0') =~= seq![digit_char(0), digit_char(r)]);
    } else {
        assert(decimal(r / 10) == seq![digit_char(r / 10)]);
        assert(crate::text::pad_left(decimal(r), 2, '0') =~= seq![digit_char(r / 10), digit_char(r % 10)]);
    }
}

/// A value in hundredths reads as its whole units, a dot and exactly two digits of
/// hundredths, a leading zero below ten, after a single minus sign when it is negative:
/// the text gives the value back.
pub proof fn lemma_centi_digits(v: int)
    ensures
        v >= 0 ==> centi_text(v) == decimal((v / 100) as nat) + seq!['.', digit_char(((v % 100) / 10) as nat), digit_char((v % 10) as nat)],
        v < 0 ==> centi_text(v) == seq!['-'] + decimal((-v / 100) as nat) + seq!['.', digit_char((((-v) % 100) / 10) as nat), digit_char(((-v) % 10) as nat)],
{
    let m = if v < 0 { -v } else { v };
    lemma_two_digits((m % 100) as nat);
    assert((m % 100) % 10 == m % 10);
    if v >= 0 {
        assert(centi_text(v) =~= decimal((v / 100) as nat) + seq!['.', digit_char(((v % 100) / 10) as nat), digit_char((v % 10) as nat)]);
    } else {
        assert(centi_text(v) =~= seq!['-'] + decimal((-v / 100) as nat) + seq!['.', digit_char((((-v) % 100) / 10) as nat), digit_char(((-v) % 10) as nat)]);
    }
}

/// The small seconds of the clock read `:` and exactly two digits.
pub proof fn lemma_seconds_two_digits(sec: u8)
    requires
        sec < 100,
    ensures
        seconds_text(sec) == seq![':', digit_char((sec / 10) as nat), digit_char((sec % 10) as nat)],
{
    lemma_two_digits(sec as nat);
    assert(seconds_text(sec) =~= seq![':', digit_char((sec / 10) as nat), digit_char((sec % 10) as nat)]);
}

/// The next alarm reads its day, the hour without padding, `:` and the minute on exactly
/// two digits.
pub proof fn lemma_alarm_minute_two_digits(d: DayOfWeek, h: u8, m: u8)
    requires
        m < 100,
    ensures
        alarm_text(Some((d, h, m))) == "Alarm: "@ + day_name(d) + seq![' '] + decimal(h as nat)
            + seq![':', digit_char((m / 10) as nat), digit_char((m % 10) as nat)],
{
    lemma_two_digits(m as nat);
    assert(alarm_text(Some((d, h, m))) =~= "Alarm: "@ + day_name(d) + seq![' '] + decimal(h as nat)
        + seq![':', digit_char((m / 10) as nat), digit_char((m % 10) as nat)]);
}

/// A date of a four-digit year and two-digit month and day reads `YYYY-MM-DD` and the name
/// of the day, month and day on exactly two digits.
pub proof fn lemma_date_digits(dt: DateTime)
    requires
        1000 <= dt.year < 10000,
        dt.month < 100,
        dt.day < 100,
    ensures
        date_text(dt) == decimal(dt.year as nat) + seq![
            '-',
            digit_char((dt.month / 10) as nat),
            digit_char((dt.month % 10) as nat),
            '-',
            digit_char((dt.day / 10) as nat),
            digit_char((dt.day % 10) as nat),
            ' ',
        ] + day_name(dt.day_of_week),
{
    lemma_two_digits(dt.month as nat);
    lemma_two_digits(dt.day as nat);
    assert(decimal(dt.year as nat).len() >= 4) by {
        let y = dt.year as nat;
        assert(decimal(y).len() == decimal(y / 10).len() + 1);
        assert(decimal(y / 10).len() == decimal(y / 100).len() + 1);
        assert(decimal(y / 100).len() == decimal(y / 1000).len() + 1);
    }
    assert(date_text(dt) =~= decimal(dt.year as nat) + seq![
        '-',
        digit_char((dt.month / 10) as nat),
        digit_char((dt.month % 10) as nat),
        '-',
        digit_char((dt.day / 10) as nat),
        digit_char((dt.day % 10) as nat),
        ' ',
    ] + day_name(dt.day_of_week));
}

/// A humidity below a hundred reads on two places, a space before a single digit, then `%RH`.
pub proof fn lemma_humidity_two_places(h: u8)
    requires
        h < 100,
    ensures
        humidity_text(h) == seq![
            if h < 10 { ' ' } else { digit_char((h / 10) as nat) },
            digit_char((h % 10) as nat),
        ] + "%RH"@,
{
    if h >= 10 {
        assert(decimal((h / 10) as nat) == seq![digit_char((h / 10) as nat)]);
    }
    assert(humidity_text(h) =~= seq![
        if h < 10 { ' ' } else { digit_char((h / 10) as nat) },
        digit_char((h % 10) as nat),
    ] + "%RH"@);
}

/// Right-aligned header texts end at the last column, 295; centred ones are centred on
/// column 148.
pub proof fn lemma_header_alignment(len: nat)
    ensures
        right_x(len) + 8 * len == 295,
        center_x(len) + 4 * len == 148,
{
    assert((8 * len) / 2 == 4 * len);
}

/// Among the alarms, plus selects the next one and minus the one before, going round the
/// five slots.
pub proof fn lemma_alarm_selection(i: usize)
    requires
        i < 5,
    ensures
        plus_screen(Screen::ManageAlarms(i)) == Screen::ManageAlarms(if i == 4 { 0 } else { (i + 1) as usize }),
        minus_screen(Screen::ManageAlarms(i)) == Screen::ManageAlarms(if i == 0 { 4 } else { (i - 1) as usize }),
{
}

/// Ok on the main menu's third entry opens the alarms at the first one; ok among the alarms
/// goes back to the clock.
pub proof fn lemma_alarm_screen_ok(now: DateTime, i: usize)
    ensures
        crate::ui::ok_screen(Screen::Menu(MenuElt::ManageAlarms), now) == (Screen::ManageAlarms(0), None::<DateTime>),
        crate::ui::ok_screen(Screen::ManageAlarms(i), now) == (Screen::Clock, None::<DateTime>),
{
}

} // verus!
