use lang_switch_indicator::menu::{
    command_from_id, command_from_wparam, menu_entries, menu_flags_for_duration,
    menu_flags_for_size, menu_flags_for_u32, tray_event_opens_menu, Command, MenuCheck,
    MenuEntry, MENU_DISPLAY_2000, MENU_EXIT, MENU_POLL_200, MENU_SIZE_LARGE, MENU_TOGGLE_PAUSE,
    MENU_TYPING_GAP_2S, MENU_TYPING_GAP_8S,
};
use MenuCheck::{Checked, Unchecked};
use lang_switch_indicator::state::{timer_kind, Action, AppState, TimerKind};
use lang_switch_indicator::{to_utf16, IndicatorSize};

const RU: isize = 0x0419_0419;
const EN: isize = 0x0409_0409;
const SEC: u64 = 1_000_000_000;

fn started(hkl: isize) -> AppState {
    let mut s = AppState::new();
    let actions = s.on_poll_tick(hkl, false, 0);
    assert_eq!(actions, vec![Action::ShowIndicator { display_ms: 1200 }]);
    s
}

#[test]
fn defaults_at_start_up() {
    let s = AppState::new();
    assert_eq!(s.last_layout(), 0);
    assert!(!s.is_initialized());
    assert!(!s.is_paused());
    assert_eq!(s.last_typing_press(), None);
    assert_eq!(s.poll_interval_ms(), 120);
    assert_eq!(s.display_ms(), 1200);
    assert_eq!(s.typing_gap_ms(), 5000);
    assert_eq!(s.size(), IndicatorSize::Medium);
    assert_eq!(s.text_utf16(), to_utf16("EN").as_slice());
}

#[test]
fn startup_builds_font_adds_icon_and_polls() {
    let s = AppState::new();
    assert_eq!(
        s.startup_actions(),
        vec![
            Action::RebuildFont { size: IndicatorSize::Medium },
            Action::AddTrayIcon,
            Action::StartPollTimer { interval_ms: 120 },
            Action::HideWindow,
        ]
    );
}

#[test]
fn indicator_shown_at_first_launch() {
    let s = started(RU);
    assert!(s.is_initialized());
    assert_eq!(s.last_layout(), RU);
    assert_eq!(s.text_utf16(), to_utf16("RU").as_slice());
}

#[test]
fn nothing_shown_while_layout_unknown() {
    let mut s = AppState::new();
    assert_eq!(s.on_poll_tick(0, true, 0), vec![]);
    assert!(!s.is_initialized());
    assert_eq!(s.last_typing_press(), None);
}

#[test]
fn indicator_shown_on_layout_change_only() {
    let mut s = started(RU);
    assert_eq!(s.on_poll_tick(RU, false, SEC), vec![]);
    assert_eq!(s.on_poll_tick(0, false, SEC), vec![]);
    assert_eq!(s.on_poll_tick(EN, false, 2 * SEC), vec![Action::ShowIndicator { display_ms: 1200 }]);
    assert_eq!(s.last_layout(), EN);
    assert_eq!(s.text_utf16(), to_utf16("EN").as_slice());
}

#[test]
fn typing_session_after_pause_shows_indicator() {
    let mut s = started(RU);
    // The first key press of a session shows the indicator.
    assert_eq!(s.on_poll_tick(RU, true, SEC), vec![Action::ShowIndicator { display_ms: 1200 }]);
    assert_eq!(s.last_typing_press(), Some(SEC));
    // Typing on within the five-second pause shows nothing.
    assert_eq!(s.on_poll_tick(RU, true, 2 * SEC), vec![]);
    assert_eq!(s.on_poll_tick(RU, true, 6 * SEC), vec![]);
    // A pause of five seconds or more starts a new session.
    assert_eq!(s.on_poll_tick(RU, true, 11 * SEC), vec![Action::ShowIndicator { display_ms: 1200 }]);
    assert_eq!(s.last_typing_press(), Some(11 * SEC));
    assert_eq!(s.on_poll_tick(RU, true, 16 * SEC - 1), vec![]);
}

#[test]
fn typing_uses_last_layout_when_current_unknown() {
    let mut s = started(EN);
    assert_eq!(s.on_poll_tick(0, true, SEC), vec![Action::ShowIndicator { display_ms: 1200 }]);
    assert_eq!(s.last_layout(), EN);
}

#[test]
fn layout_change_and_new_session_in_one_tick_show_twice() {
    let mut s = started(RU);
    assert_eq!(
        s.on_poll_tick(EN, true, SEC),
        vec![Action::ShowIndicator { display_ms: 1200 }, Action::ShowIndicator { display_ms: 1200 }]
    );
}

#[test]
fn clock_going_back_counts_as_no_pause() {
    let mut s = started(RU);
    s.on_poll_tick(RU, true, 10 * SEC);
    assert_eq!(s.on_poll_tick(RU, true, SEC), vec![]);
    assert_eq!(s.last_typing_press(), Some(SEC));
}

#[test]
fn pause_silences_polls_and_resume_shows_current_layout() {
    let mut s = started(RU);
    assert_eq!(s.on_command(MENU_TOGGLE_PAUSE), vec![Action::HideIndicator]);
    assert!(s.is_paused());
    assert_eq!(s.on_poll_tick(EN, true, SEC), vec![]);
    assert_eq!(s.last_layout(), RU);
    assert_eq!(s.on_command(MENU_TOGGLE_PAUSE), vec![Action::ShowCurrentLayout]);
    assert!(!s.is_paused());
    assert_eq!(s.on_layout_sampled(EN), vec![Action::ShowIndicator { display_ms: 1200 }]);
    assert_eq!(s.last_layout(), EN);
    assert_eq!(s.on_layout_sampled(0), vec![]);
    assert_eq!(s.last_layout(), EN);
}

#[test]
fn pause_ends_typing_session() {
    let mut s = started(RU);
    s.on_poll_tick(RU, true, SEC);
    s.on_command(MENU_TOGGLE_PAUSE);
    assert_eq!(s.last_typing_press(), None);
    s.on_command(MENU_TOGGLE_PAUSE);
    assert_eq!(s.on_poll_tick(RU, true, 2 * SEC), vec![Action::ShowIndicator { display_ms: 1200 }]);
}

#[test]
fn settings_apply_immediately() {
    let mut s = started(RU);
    assert_eq!(
        s.on_command(MENU_SIZE_LARGE),
        vec![Action::RebuildFont { size: IndicatorSize::Large }, Action::Redraw]
    );
    assert_eq!(s.size(), IndicatorSize::Large);
    assert_eq!(s.on_command(MENU_POLL_200), vec![Action::RestartPollTimer { interval_ms: 200 }]);
    assert_eq!(s.poll_interval_ms(), 200);
    assert_eq!(s.on_command(MENU_DISPLAY_2000), vec![]);
    assert_eq!(s.display_ms(), 2000);
    assert_eq!(s.on_poll_tick(EN, false, SEC), vec![Action::ShowIndicator { display_ms: 2000 }]);
}

#[test]
fn typing_gap_change_resets_session() {
    let mut s = started(RU);
    s.on_poll_tick(RU, true, SEC);
    assert_eq!(s.on_command(MENU_TYPING_GAP_2S), vec![]);
    assert_eq!(s.typing_gap_ms(), 2000);
    assert_eq!(s.last_typing_press(), None);
    assert_eq!(s.on_poll_tick(RU, true, SEC + 1), vec![Action::ShowIndicator { display_ms: 1200 }]);
    assert_eq!(s.on_poll_tick(RU, true, 3 * SEC), vec![]);
    assert_eq!(s.on_poll_tick(RU, true, 5 * SEC), vec![Action::ShowIndicator { display_ms: 1200 }]);
    s.on_command(MENU_TYPING_GAP_8S);
    assert_eq!(s.typing_gap_ms(), 8000);
}

#[test]
fn exit_and_unknown_commands() {
    let mut s = started(RU);
    assert_eq!(s.on_command(MENU_EXIT), vec![Action::DestroyWindow]);
    assert_eq!(s.on_command(4242), vec![]);
    assert_eq!(s.poll_interval_ms(), 120);
}

#[test]
fn command_identifier_in_low_word() {
    assert_eq!(command_from_wparam(0x0001_0000 | MENU_EXIT), Some(Command::Exit));
    assert_eq!(command_from_wparam(MENU_POLL_200), Some(Command::SetPollInterval(200)));
    assert_eq!(command_from_wparam(0x0001_0000), None);
    assert_eq!(command_from_id(1302), Some(Command::SetTypingGap(5000)));
    assert_eq!(command_from_id(1004), Some(Command::SetSize(IndicatorSize::Large)));
    assert_eq!(command_from_id(1000), None);
}

#[test]
fn hide_timer_hides() {
    let s = started(RU);
    assert_eq!(s.on_hide_timer(), vec![Action::HideIndicator]);
    assert_eq!(timer_kind(1), Some(TimerKind::Poll));
    assert_eq!(timer_kind(2), Some(TimerKind::Hide));
    assert_eq!(timer_kind(3), None);
}

#[test]
fn tray_menu_opens_on_right_click_or_context_menu() {
    assert!(tray_event_opens_menu(0x007B));
    assert!(tray_event_opens_menu(0x0205));
    assert!(!tray_event_opens_menu(0x0201));
    assert!(!tray_event_opens_menu(0x0202));
}

#[test]
fn check_marks_follow_equality() {
    assert_eq!(menu_flags_for_size(IndicatorSize::Small, IndicatorSize::Small), MenuCheck::Checked);
    assert_eq!(menu_flags_for_size(IndicatorSize::Small, IndicatorSize::Large), MenuCheck::Unchecked);
    assert_eq!(menu_flags_for_u32(120, 120), MenuCheck::Checked);
    assert_eq!(menu_flags_for_u32(120, 80), MenuCheck::Unchecked);
    assert_eq!(menu_flags_for_duration(5000, 5000), MenuCheck::Checked);
    assert_eq!(menu_flags_for_duration(5000, 8000), MenuCheck::Unchecked);
}

fn item(entry: &MenuEntry) -> Option<(usize, String, MenuCheck)> {
    match entry {
        MenuEntry::Separator => None,
        MenuEntry::Item { id, label, check } => Some((*id, label.clone(), *check)),
    }
}

#[test]
fn tray_menu_lists_settings_with_current_checked() {
    let s = AppState::new();
    let entries = menu_entries(&s);
    assert_eq!(entries.len(), 19);
    let items: Vec<Option<(usize, String, MenuCheck)>> = entries.iter().map(item).collect();
    let expected: Vec<Option<(usize, &str, MenuCheck)>> = vec![
        Some((1001, "Пауза", Unchecked)),
        None,
        Some((1002, "Размер: маленький", Unchecked)),
        Some((1003, "Размер: средний", Checked)),
        Some((1004, "Размер: большой", Unchecked)),
        None,
        Some((1101, "Интервал опроса: 80 мс", Unchecked)),
        Some((1102, "Интервал опроса: 120 мс", Checked)),
        Some((1103, "Интервал опроса: 200 мс", Unchecked)),
        None,
        Some((1201, "Время показа: 600 мс", Unchecked)),
        Some((1202, "Время показа: 1200 мс", Checked)),
        Some((1203, "Время показа: 2000 мс", Unchecked)),
        None,
        Some((1301, "Пауза печати: 2 с", Unchecked)),
        Some((1302, "Пауза печати: 5 с", Checked)),
        Some((1303, "Пауза печати: 8 с", Unchecked)),
        None,
        Some((1099, "Выход", Unchecked)),
    ];
    let expected: Vec<Option<(usize, String, MenuCheck)>> = expected
        .into_iter()
        .map(|e| e.map(|(id, label, check)| (id, label.to_string(), check)))
        .collect();
    assert_eq!(items, expected);
}

#[test]
fn tray_menu_after_choices() {
    let mut s = AppState::new();
    s.on_command(MENU_TOGGLE_PAUSE);
    s.on_command(MENU_SIZE_LARGE);
    s.on_command(MENU_TYPING_GAP_8S);
    let items: Vec<Option<(usize, String, MenuCheck)>> = menu_entries(&s).iter().map(item).collect();
    assert_eq!(items[0], Some((1001, "Продолжить".to_string(), MenuCheck::Unchecked)));
    assert_eq!(items[4], Some((1004, "Размер: большой".to_string(), MenuCheck::Checked)));
    assert_eq!(items[3].as_ref().unwrap().2, MenuCheck::Unchecked);
    assert_eq!(items[16], Some((1303, "Пауза печати: 8 с".to_string(), MenuCheck::Checked)));
    assert_eq!(items[15].as_ref().unwrap().2, MenuCheck::Unchecked);
}

#[test]
fn showing_same_layout_twice_is_idempotent() {
    let mut s = started(RU);
    let first = s.on_layout_sampled(EN);
    let text: Vec<u16> = s.text_utf16().to_vec();
    let second = s.on_layout_sampled(EN);
    assert_eq!(first, second);
    assert_eq!(first, vec![Action::ShowIndicator { display_ms: 1200 }]);
    assert_eq!(s.text_utf16(), text.as_slice());
    assert_eq!(s.last_layout(), EN);
}
