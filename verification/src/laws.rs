use vstd::prelude::*;
use crate::indicator::{IndicatorSize, spec_font_height};
use crate::layout::{hex4, hex_digit, indicator_text, lang_id};
use crate::utf16::{utf16_encode, zero_terminated};
use crate::menu::{
    Command, MenuCheck, MenuEntryView, command_for_id, is_menu_command, menu_model,
};
use crate::state::{
    Action, AppView, command_step, initial_view, notification_step, poll_step, sampled_step, shown, show_action, starts_typing_session, text_for,
};

verus! {

/// A larger indicator size draws larger characters: the character height
/// (the magnitude of the negative font height) grows from small to large.
pub proof fn lemma_font_height_grows()
    ensures
        spec_font_height(IndicatorSize::Small) < 0,
        -spec_font_height(IndicatorSize::Small) < -spec_font_height(IndicatorSize::Medium),
        -spec_font_height(IndicatorSize::Medium) < -spec_font_height(IndicatorSize::Large),
{
}

/// While paused, a poll neither changes the state nor asks for anything.
pub proof fn lemma_paused_poll_is_silent(s: AppView, hkl: isize, typing: bool, now: u64)
    requires
        s.paused,
    ensures
        poll_step(s, hkl, typing, now) == (s, Seq::<Action>::empty()),
{
}

/// The first known layout is shown: on a poll that sees a layout for the
/// first time, the indicator is shown and then displays that layout.
pub proof fn lemma_first_layout_is_shown(s: AppView, hkl: isize, typing: bool, now: u64)
    requires
        !s.paused,
        !s.initialized,
        hkl != 0,
    ensures
        ({
            let (t, actions) = poll_step(s, hkl, typing, now);
            &&& actions.len() >= 1
            &&& actions[0] == show_action(s)
            &&& t.initialized
            &&& t.last_hkl == hkl
            &&& t.text == text_for(hkl)
        }),
{
}

/// A change of layout is shown: once started and not paused, a poll that
/// sees a layout other than the last one shown shows the new one.
pub proof fn lemma_layout_change_is_shown(s: AppView, hkl: isize, typing: bool, now: u64)
    requires
        !s.paused,
        s.initialized,
        hkl != 0,
        hkl != s.last_hkl,
    ensures
        ({
            let (t, actions) = poll_step(s, hkl, typing, now);
            &&& actions.len() >= 1
            &&& actions[0] == show_action(s)
            &&& t.last_hkl == hkl
            &&& t.text == text_for(hkl)
        }),
{
}

/// Without a layout change and without typing, a poll does nothing.
pub proof fn lemma_quiet_poll_does_nothing(s: AppView, hkl: isize, now: u64)
    requires
        !s.paused,
        s.initialized,
        hkl == 0 || hkl == s.last_hkl,
    ensures
        poll_step(s, hkl, false, now) == (s, Seq::<Action>::empty()),
{
}

/// A new typing session shows the indicator: once started and not paused,
/// a typing key press at least the typing pause after the previous one (or
/// the first since the session was reset) shows the current layout, and
/// the press is remembered.
pub proof fn lemma_new_typing_session_is_shown(s: AppView, hkl: isize, now: u64)
    requires
        s.wf(),
        !s.paused,
        s.initialized,
        starts_typing_session(s, now),
    ensures
        ({
            let (t, actions) = poll_step(s, hkl, true, now);
            &&& actions.len() >= 1
            &&& actions[actions.len() - 1] == show_action(s)
            &&& t.last_typing_press == Some(now)
            &&& t.last_hkl == (if hkl != 0 { hkl } else { s.last_hkl })
        }),
{
}

/// Typing within a session shows nothing new: a press less than the typing
/// pause after the previous one, with the layout unchanged, only moves the
/// session on.
pub proof fn lemma_typing_within_session_is_quiet(s: AppView, hkl: isize, now: u64)
    requires
        !s.paused,
        s.initialized,
        hkl == 0 || hkl == s.last_hkl,
        !starts_typing_session(s, now),
    ensures
        poll_step(s, hkl, true, now) == (
            AppView { last_typing_press: Some(now), ..s },
            Seq::<Action>::empty(),
        ),
{
}

/// Every action a poll asks for shows the indicator for the display time in
/// use, after which the hide timer takes it away.
pub proof fn lemma_poll_only_shows(s: AppView, hkl: isize, typing: bool, now: u64)
    ensures
        ({
            let actions = poll_step(s, hkl, typing, now).1;
            &&& actions.len() <= 2
            &&& forall|i: int| 0 <= i < actions.len() ==> actions[i] == show_action(s)
        }),
{
}

/// Pausing twice restores the paused flag and both times ends the typing
/// session; pausing hides the indicator and resuming asks for the current
/// layout.
pub proof fn lemma_toggle_pause_twice(s: AppView)
    ensures
        ({
            let (t, a1) = command_step(s, Command::TogglePause);
            let (u, a2) = command_step(t, Command::TogglePause);
            &&& u == AppView { last_typing_press: None, ..s }
            &&& t.paused == !s.paused
            &&& a1 == (if t.paused { seq![Action::HideIndicator] } else { seq![Action::ShowCurrentLayout] })
            &&& a2 == (if u.paused { seq![Action::HideIndicator] } else { seq![Action::ShowCurrentLayout] })
        }),
{
}

/// Every command that a menu item sends carries values the menu offers, so
/// every menu notification keeps the state invariant.
pub proof fn lemma_menu_commands_are_offered(id: int)
    ensures
        command_for_id(id) matches Some(cmd) ==> is_menu_command(cmd),
{
}

/// Every item of the menu sends a command.
pub proof fn lemma_menu_items_have_commands(s: AppView)
    ensures
        forall|i: int|
            0 <= i < menu_model(s).len() ==> (#[trigger] menu_model(s)[i] matches MenuEntryView::Item { id, .. }
                ==> command_for_id(id as int) is Some),
{
    assert forall|i: int| 0 <= i < menu_model(s).len() implies (#[trigger] menu_model(s)[i] matches MenuEntryView::Item { id, .. }
        ==> command_for_id(id as int) is Some) by {
        assert(0 <= i < 19);
    }
}

/// A setting chosen in the menu is checked the next time the menu opens:
/// after the notification of a size, poll, display or typing-pause item,
/// that item carries the check mark.
pub proof fn lemma_chosen_item_is_checked(s: AppView, wparam: usize)
    requires
        command_for_id(wparam as int % 0x10000) matches Some(cmd) && !(cmd is TogglePause)
            && !(cmd is Exit),
    ensures
        forall|i: int|
            0 <= i < menu_model(notification_step(s, wparam).0).len() ==> (
            #[trigger] menu_model(notification_step(s, wparam).0)[i] matches MenuEntryView::Item {
                id: j,
                check,
                ..
            } ==> (j == wparam as int % 0x10000 ==> check == MenuCheck::Checked)),
{
    let t = notification_step(s, wparam).0;
    assert forall|i: int| 0 <= i < menu_model(t).len() implies (#[trigger] menu_model(t)[i] matches MenuEntryView::Item {
        id: j,
        check,
        ..
    } ==> (j == wparam as int % 0x10000 ==> check == MenuCheck::Checked)) by {
        assert(0 <= i < 19);
    }
}

/// Number of checked items among menu lines.
pub open spec fn checked_count(entries: Seq<MenuEntryView>) -> nat
    decreases entries.len(),
{
    if entries.len() == 0 {
        0
    } else {
        let rest = checked_count(entries.drop_last());
        match entries.last() {
            MenuEntryView::Item { check: MenuCheck::Checked, .. } => rest + 1,
            _ => rest,
        }
    }
}

/// In a valid state, each group of choices in the menu (sizes, poll
/// intervals, display times, typing pauses) has exactly one checked item,
/// and the pause/resume and quit items are not checked.
pub proof fn lemma_one_check_per_group(s: AppView)
    requires
        s.wf(),
    ensures
        checked_count(menu_model(s).subrange(2, 5)) == 1,
        checked_count(menu_model(s).subrange(6, 9)) == 1,
        checked_count(menu_model(s).subrange(10, 13)) == 1,
        checked_count(menu_model(s).subrange(14, 17)) == 1,
        menu_model(s)[0] matches MenuEntryView::Item { check: MenuCheck::Unchecked, .. },
        menu_model(s)[18] matches MenuEntryView::Item { check: MenuCheck::Unchecked, .. },
{
    let m = menu_model(s);
    reveal_with_fuel(checked_count, 20);
    assert(m.subrange(2, 5).drop_last() =~= m.subrange(2, 4));
    assert(m.subrange(2, 4).drop_last() =~= m.subrange(2, 3));
    assert(m.subrange(2, 3).drop_last() =~= m.subrange(2, 2));
    assert(m.subrange(6, 9).drop_last() =~= m.subrange(6, 8));
    assert(m.subrange(6, 8).drop_last() =~= m.subrange(6, 7));
    assert(m.subrange(6, 7).drop_last() =~= m.subrange(6, 6));
    assert(m.subrange(10, 13).drop_last() =~= m.subrange(10, 12));
    assert(m.subrange(10, 12).drop_last() =~= m.subrange(10, 11));
    assert(m.subrange(10, 11).drop_last() =~= m.subrange(10, 10));
    assert(m.subrange(14, 17).drop_last() =~= m.subrange(14, 16));
    assert(m.subrange(14, 16).drop_last() =~= m.subrange(14, 15));
    assert(m.subrange(14, 15).drop_last() =~= m.subrange(14, 14));
}

/// Value of an upper-case hexadecimal digit.
pub open spec fn hex_value(c: char) -> int {
    if c as int <= 57 {
        c as int - 48
    } else {
        c as int - 55
    }
}

/// Whether `c` is an upper-case hexadecimal digit.
pub open spec fn is_upper_hex(c: char) -> bool {
    (48 <= c as int <= 57) || (65 <= c as int <= 70)
}

proof fn lemma_hex_digit_value(d: int)
    requires
        0 <= d < 16,
    ensures
        is_upper_hex(hex_digit(d)),
        hex_value(hex_digit(d)) == d,
{
}

proof fn lemma_four_digits(n: int)
    requires
        0 <= n < 0x10000,
    ensures
        n == 0x1000 * ((n / 0x1000) % 16) + 0x100 * ((n / 0x100) % 16) + 0x10 * ((n / 0x10) % 16)
            + n % 16,
        0 <= (n / 0x1000) % 16 < 16,
        0 <= (n / 0x100) % 16 < 16,
        0 <= (n / 0x10) % 16 < 16,
        0 <= n % 16 < 16,
{
    assert(n == 0x1000 * ((n / 0x1000) % 16) + 0x100 * ((n / 0x100) % 16) + 0x10 * ((n / 0x10) % 16)
        + n % 16) by (nonlinear_arith)
        requires
            0 <= n < 0x10000,
    ;
}

/// The indicator names the layout's language: `RU` for Russian, `EN` for
/// English, and otherwise four upper-case hexadecimal digits whose value is
/// the language identifier in the low word of the layout handle.
pub proof fn lemma_indicator_text_identifies_language(hkl: isize)
    ensures
        ({
            let lang = (hkl as u16) as int;
            let primary = lang % 0x400;
            let t = indicator_text(hkl);
            &&& primary == 0x19 ==> t == seq!['R', 'U']
            &&& primary == 0x09 ==> t == seq!['E', 'N']
            &&& primary != 0x19 && primary != 0x09 ==> {
                &&& t.len() == 4
                &&& forall|i: int| 0 <= i < 4 ==> is_upper_hex(#[trigger] t[i])
                &&& 0x1000 * hex_value(t[0]) + 0x100 * hex_value(t[1]) + 0x10 * hex_value(t[2])
                    + hex_value(t[3]) == lang
            }
        }),
{
    let n = lang_id(hkl) as int;
    lemma_four_digits(n);
    lemma_hex_digit_value((n / 0x1000) % 16);
    lemma_hex_digit_value((n / 0x100) % 16);
    lemma_hex_digit_value((n / 0x10) % 16);
    lemma_hex_digit_value(n % 16);
    let t = hex4(n);
    assert(forall|i: int| 0 <= i < 4 ==> is_upper_hex(#[trigger] t[i]));
}

/// A text copied into a fixed buffer is always terminated: the buffer keeps
/// its length, its last unit is zero, it starts with as much of the text as
/// fits, and a text shorter than the buffer is read back whole, followed by
/// a zero.
pub proof fn lemma_copy_is_terminated(text: Seq<u16>, capacity: nat)
    ensures
        zero_terminated(text, capacity).len() == capacity,
        capacity > 0 ==> zero_terminated(text, capacity)[capacity - 1] == 0u16,
        forall|i: int|
            0 <= i < text.len() && i + 1 < capacity ==> #[trigger] zero_terminated(text, capacity)[i]
                == text[i],
        forall|i: int|
            0 <= i < capacity && (i >= text.len() || i + 1 == capacity) ==> #[trigger] zero_terminated(
                text,
                capacity,
            )[i] == 0u16,
        text.len() < capacity ==> zero_terminated(text, capacity).take(text.len() as int) == text
            && zero_terminated(text, capacity)[text.len() as int] == 0u16,
{
    let z = zero_terminated(text, capacity);
    if text.len() < capacity {
        assert(z.take(text.len() as int) =~= text);
    }
}

/// The state invariant holds at start-up and every event keeps it: menu
/// notifications, the sampled layout after resuming, and polls.
pub proof fn lemma_steps_keep_invariant(
    s: AppView,
    wparam: usize,
    hkl: isize,
    typing: bool,
    now: u64,
)
    requires
        s.wf(),
    ensures
        initial_view().wf(),
        notification_step(s, wparam).0.wf(),
        sampled_step(s, hkl).0.wf(),
        poll_step(s, hkl, typing, now).0.wf(),
{
}

/// Showing the same layout twice leaves the state as after the first show,
/// and the second show asks for the same action as the first: the
/// indicator shown again and its one hide timer restarted with the display
/// time in use.
pub proof fn lemma_show_is_idempotent(s: AppView, hkl: isize)
    ensures
        shown(shown(s, hkl), hkl) == shown(s, hkl),
        sampled_step(sampled_step(s, hkl).0, hkl).0 == sampled_step(s, hkl).0,
        sampled_step(sampled_step(s, hkl).0, hkl).1 == sampled_step(s, hkl).1,
{
}

/// What a poll does to the state, field by field. A layout is shown when
/// the poll sees a layout for the first time or a different one; a typing
/// key press (once a layout is known) is remembered, and shows the layout
/// when it is the first of the session or comes at least the chosen typing
/// pause after the previous press (a clock that went back counts as no
/// pause). The settings, the paused flag and, without a typing key, the time
/// of the last press never change.
pub proof fn lemma_poll_effect(s: AppView, hkl: isize, typing: bool, now: u64)
    ensures
        ({
            let (t, actions) = poll_step(s, hkl, typing, now);
            let layout_shows = !s.paused && hkl != 0 && (!s.initialized || hkl != s.last_hkl);
            let typing_active = !s.paused && typing && (s.initialized || hkl != 0);
            let pause_over = match s.last_typing_press {
                None => true,
                Some(last) => (if now >= last {
                    now - last
                } else {
                    0
                }) >= s.typing_gap_ms * 1_000_000,
            };
            let target = if hkl != 0 {
                hkl
            } else {
                s.last_hkl
            };
            let typing_shows = typing_active && pause_over && target != 0;
            &&& t.paused == s.paused
            &&& t.poll_interval_ms == s.poll_interval_ms
            &&& t.display_ms == s.display_ms
            &&& t.typing_gap_ms == s.typing_gap_ms
            &&& t.size == s.size
            &&& t.initialized == (s.initialized || (!s.paused && hkl != 0))
            &&& t.last_typing_press == (if typing_active {
                Some(now)
            } else {
                s.last_typing_press
            })
            &&& t.last_hkl == (if layout_shows || typing_shows {
                target
            } else {
                s.last_hkl
            })
            &&& t.text == (if layout_shows || typing_shows {
                utf16_encode(indicator_text(target))
            } else {
                s.text
            })
            &&& actions.len() == (if layout_shows {
                1int
            } else {
                0
            }) + (if typing_shows {
                1int
            } else {
                0
            })
            &&& forall|i: int|
                0 <= i < actions.len() ==> actions[i] == Action::ShowIndicator {
                    display_ms: s.display_ms,
                }
        }),
{
}

/// A key press after an earlier one starts a new typing session exactly
/// when at least the chosen typing pause (in ms) has passed since it; with
/// no earlier press in the session, every press starts one.
pub proof fn lemma_typing_session_rule(s: AppView, now: u64)
    ensures
        s.last_typing_press is None ==> starts_typing_session(s, now),
        s.last_typing_press matches Some(last) ==> (starts_typing_session(s, now) <==> (if now
            >= last {
            now - last
        } else {
            0
        }) >= s.typing_gap_ms * 1_000_000),
{
}

/// Each menu command changes exactly what it names and nothing else: only
/// pause/resume changes the paused flag, and only pause/resume and a new
/// typing pause end the typing session; pausing hides the indicator,
/// resuming asks for the current layout, a new size rebuilds the font and
/// redraws, a new poll interval restarts the poll timer, and quitting
/// closes the window.
pub proof fn lemma_command_effects(s: AppView, cmd: Command)
    ensures
        ({
            let (t, actions) = command_step(s, cmd);
            match cmd {
                Command::TogglePause => {
                    &&& t == AppView { paused: !s.paused, last_typing_press: None, ..s }
                    &&& actions == (if s.paused {
                        seq![Action::ShowCurrentLayout]
                    } else {
                        seq![Action::HideIndicator]
                    })
                },
                Command::SetSize(size) => {
                    &&& t == AppView { size: size, ..s }
                    &&& actions == seq![Action::RebuildFont { size: size }, Action::Redraw]
                },
                Command::SetPollInterval(ms) => {
                    &&& t == AppView { poll_interval_ms: ms, ..s }
                    &&& actions == seq![Action::RestartPollTimer { interval_ms: ms }]
                },
                Command::SetDisplayTime(ms) => {
                    &&& t == AppView { display_ms: ms, ..s }
                    &&& actions == Seq::<Action>::empty()
                },
                Command::SetTypingGap(ms) => {
                    &&& t == AppView { typing_gap_ms: ms, last_typing_press: None, ..s }
                    &&& actions == Seq::<Action>::empty()
                },
                Command::Exit => {
                    &&& t == s
                    &&& actions == seq![Action::DestroyWindow]
                },
            }
        }),
        !(cmd is TogglePause) ==> command_step(s, cmd).0.paused == s.paused,
{
}

/// After resuming, a known layout is shown for the display time in use and
/// becomes the last layout shown; nothing else changes. An unknown layout
/// (zero) changes nothing and asks for nothing.
pub proof fn lemma_sampled_layout_effect(s: AppView, hkl: isize)
    ensures
        hkl != 0 ==> sampled_step(s, hkl) == (
            AppView { last_hkl: hkl, text: utf16_encode(indicator_text(hkl)), ..s },
            seq![Action::ShowIndicator { display_ms: s.display_ms }],
        ),
        hkl == 0 ==> sampled_step(s, hkl) == (s, Seq::<Action>::empty()),
{
}

/// A menu notification acts on the item named by the low word of `wparam`
/// only; the high word does not matter, and a word that names no item
/// changes nothing and asks for nothing.
pub proof fn lemma_notification_low_word(s: AppView, wparam: usize)
    ensures
        notification_step(s, wparam) == notification_step(s, (wparam % 0x10000) as usize),
        command_for_id(wparam as int % 0x10000) is None ==> notification_step(s, wparam) == (
            s,
            Seq::<Action>::empty(),
        ),
{
}

/// The menu items' identifiers and what each one sets: 1001 pause/resume,
/// 1002..1004 small/medium/large, 1101..1103 polling every 80/120/200 ms,
/// 1201..1203 showing for 600/1200/2000 ms, 1301..1303 typing pauses of
/// 2/5/8 s, 1099 quit; no other identifier names an item.
pub proof fn lemma_menu_item_commands(id: int)
    ensures
        command_for_id(1001) == Some(Command::TogglePause),
        command_for_id(1002) == Some(Command::SetSize(IndicatorSize::Small)),
        command_for_id(1003) == Some(Command::SetSize(IndicatorSize::Medium)),
        command_for_id(1004) == Some(Command::SetSize(IndicatorSize::Large)),
        command_for_id(1101) == Some(Command::SetPollInterval(80)),
        command_for_id(1102) == Some(Command::SetPollInterval(120)),
        command_for_id(1103) == Some(Command::SetPollInterval(200)),
        command_for_id(1201) == Some(Command::SetDisplayTime(600)),
        command_for_id(1202) == Some(Command::SetDisplayTime(1200)),
        command_for_id(1203) == Some(Command::SetDisplayTime(2000)),
        command_for_id(1301) == Some(Command::SetTypingGap(2000)),
        command_for_id(1302) == Some(Command::SetTypingGap(5000)),
        command_for_id(1303) == Some(Command::SetTypingGap(8000)),
        command_for_id(1099) == Some(Command::Exit),
        !(id == 1001 || 1002 <= id <= 1004 || 1101 <= id <= 1103 || 1201 <= id <= 1203 || 1301
            <= id <= 1303 || id == 1099) ==> command_for_id(id) is None,
{
}

} // verus!
