use vstd::prelude::*;
use vstd::string::*;
use crate::indicator::IndicatorSize;
use crate::state::{AppState, AppView};

verus! {

/// Menu item: pause or resume.
pub const MENU_TOGGLE_PAUSE: usize = 1001;
/// Menu item: small text.
pub const MENU_SIZE_SMALL: usize = 1002;
/// Menu item: medium text.
pub const MENU_SIZE_MEDIUM: usize = 1003;
/// Menu item: large text.
pub const MENU_SIZE_LARGE: usize = 1004;
/// Menu item: poll every 80 ms.
pub const MENU_POLL_80: usize = 1101;
/// Menu item: poll every 120 ms.
pub const MENU_POLL_120: usize = 1102;
/// Menu item: poll every 200 ms.
pub const MENU_POLL_200: usize = 1103;
/// Menu item: show the indicator for 600 ms.
pub const MENU_DISPLAY_600: usize = 1201;
/// Menu item: show the indicator for 1200 ms.
pub const MENU_DISPLAY_1200: usize = 1202;
/// Menu item: show the indicator for 2000 ms.
pub const MENU_DISPLAY_2000: usize = 1203;
/// Menu item: a typing pause of 2 s starts a new session.
pub const MENU_TYPING_GAP_2S: usize = 1301;
/// Menu item: a typing pause of 5 s starts a new session.
pub const MENU_TYPING_GAP_5S: usize = 1302;
/// Menu item: a typing pause of 8 s starts a new session.
pub const MENU_TYPING_GAP_8S: usize = 1303;
/// Menu item: quit.
pub const MENU_EXIT: usize = 1099;

/// Notification code of a context-menu request on the tray icon.
pub const WM_CONTEXTMENU: u32 = 0x007B;
/// Notification code of a right mouse button release on the tray icon.
pub const WM_RBUTTONUP: u32 = 0x0205;

/// What a tray menu item asks for.
#[derive(Clone, Copy, Debug, PartialEq, Eq, Structural)]
pub enum Command {
    TogglePause,
    SetSize(IndicatorSize),
    SetPollInterval(u32),
    SetDisplayTime(u32),
    SetTypingGap(u32),
    Exit,
}

/// The command of each tray menu item, by item identifier.
pub open spec fn command_for_id(id: int) -> Option<Command> {
    if id == MENU_TOGGLE_PAUSE {
        Some(Command::TogglePause)
    } else if id == MENU_SIZE_SMALL {
        Some(Command::SetSize(IndicatorSize::Small))
    } else if id == MENU_SIZE_MEDIUM {
        Some(Command::SetSize(IndicatorSize::Medium))
    } else if id == MENU_SIZE_LARGE {
        Some(Command::SetSize(IndicatorSize::Large))
    } else if id == MENU_POLL_80 {
        Some(Command::SetPollInterval(80))
    } else if id == MENU_POLL_120 {
        Some(Command::SetPollInterval(120))
    } else if id == MENU_POLL_200 {
        Some(Command::SetPollInterval(200))
    } else if id == MENU_DISPLAY_600 {
        Some(Command::SetDisplayTime(600))
    } else if id == MENU_DISPLAY_1200 {
        Some(Command::SetDisplayTime(1200))
    } else if id == MENU_DISPLAY_2000 {
        Some(Command::SetDisplayTime(2000))
    } else if id == MENU_TYPING_GAP_2S {
        Some(Command::SetTypingGap(2000))
    } else if id == MENU_TYPING_GAP_5S {
        Some(Command::SetTypingGap(5000))
    } else if id == MENU_TYPING_GAP_8S {
        Some(Command::SetTypingGap(8000))
    } else if id == MENU_EXIT {
        Some(Command::Exit)
    } else {
        None
    }
}

/// The poll intervals (ms) the menu offers.
pub open spec fn is_poll_choice(ms: u32) -> bool {
    ms == 80 || ms == 120 || ms == 200
}

/// The display times (ms) the menu offers.
pub open spec fn is_display_choice(ms: u32) -> bool {
    ms == 600 || ms == 1200 || ms == 2000
}

/// The typing pauses (ms) the menu offers.
pub open spec fn is_typing_gap_choice(ms: u32) -> bool {
    ms == 2000 || ms == 5000 || ms == 8000
}

/// Whether `cmd` carries only values that the menu offers.
pub open spec fn is_menu_command(cmd: Command) -> bool {
    match cmd {
        Command::SetPollInterval(ms) => is_poll_choice(ms),
        Command::SetDisplayTime(ms) => is_display_choice(ms),
        Command::SetTypingGap(ms) => is_typing_gap_choice(ms),
        _ => true,
    }
}

/// The command of the tray menu item `id`, if `id` names one.
pub fn command_from_id(id: usize) -> (cmd: Option<Command>)
    ensures
        cmd == command_for_id(id as int),
{
    if id == MENU_TOGGLE_PAUSE {
        Some(Command::TogglePause)
    } else if id == MENU_SIZE_SMALL {
        Some(Command::SetSize(IndicatorSize::Small))
    } else if id == MENU_SIZE_MEDIUM {
        Some(Command::SetSize(IndicatorSize::Medium))
    } else if id == MENU_SIZE_LARGE {
        Some(Command::SetSize(IndicatorSize::Large))
    } else if id == MENU_POLL_80 {
        Some(Command::SetPollInterval(80))
    } else if id == MENU_POLL_120 {
        Some(Command::SetPollInterval(120))
    } else if id == MENU_POLL_200 {
        Some(Command::SetPollInterval(200))
    } else if id == MENU_DISPLAY_600 {
        Some(Command::SetDisplayTime(600))
    } else if id == MENU_DISPLAY_1200 {
        Some(Command::SetDisplayTime(1200))
    } else if id == MENU_DISPLAY_2000 {
        Some(Command::SetDisplayTime(2000))
    } else if id == MENU_TYPING_GAP_2S {
        Some(Command::SetTypingGap(2000))
    } else if id == MENU_TYPING_GAP_5S {
        Some(Command::SetTypingGap(5000))
    } else if id == MENU_TYPING_GAP_8S {
        Some(Command::SetTypingGap(8000))
    } else if id == MENU_EXIT {
        Some(Command::Exit)
    } else {
        None
    }
}

/// The command that a menu notification asks for; the item identifier is
/// the low word of the notification's `wparam`.
pub fn command_from_wparam(wparam: usize) -> (cmd: Option<Command>)
    ensures
        cmd == command_for_id(wparam as int % 0x10000),
{
    assert(wparam & 0xFFFFusize == wparam % 0x10000) by (bit_vector);
    command_from_id(wparam & 0xFFFF)
}

/// Whether a tray icon notification asks for the tray menu.
pub fn tray_event_opens_menu(event: u32) -> (opens: bool)
    ensures
        opens == (event == WM_CONTEXTMENU || event == WM_RBUTTONUP),
{
    event == WM_CONTEXTMENU || event == WM_RBUTTONUP
}

/// Whether a menu item carries a check mark.
#[derive(Clone, Copy, Debug, PartialEq, Eq, Structural)]
pub enum MenuCheck {
    Checked,
    Unchecked,
}

/// `Checked` exactly when `selected` holds.
pub open spec fn check_if(selected: bool) -> MenuCheck {
    if selected {
        MenuCheck::Checked
    } else {
        MenuCheck::Unchecked
    }
}

/// Check mark of the size item `candidate` when `current` is the size in use.
pub fn menu_flags_for_size(current: IndicatorSize, candidate: IndicatorSize) -> (check: MenuCheck)
    ensures
        check == check_if(current == candidate),
{
    if current == candidate {
        MenuCheck::Checked
    } else {
        MenuCheck::Unchecked
    }
}

/// Check mark of the item for `candidate` when `current` is the value in use.
pub fn menu_flags_for_u32(current: u32, candidate: u32) -> (check: MenuCheck)
    ensures
        check == check_if(current == candidate),
{
    if current == candidate {
        MenuCheck::Checked
    } else {
        MenuCheck::Unchecked
    }
}

/// Check mark of the item for the duration `candidate_ms` when `current_ms`
/// is the duration in use (both in milliseconds).
pub fn menu_flags_for_duration(current_ms: u32, candidate_ms: u32) -> (check: MenuCheck)
    ensures
        check == check_if(current_ms == candidate_ms),
{
    if current_ms == candidate_ms {
        MenuCheck::Checked
    } else {
        MenuCheck::Unchecked
    }
}

/// One line of the tray menu.
pub enum MenuEntry {
    Separator,
    Item { id: usize, label: String, check: MenuCheck },
}

/// Abstract view of a tray menu line.
pub enum MenuEntryView {
    Separator,
    Item { id: usize, label: Seq<char>, check: MenuCheck },
}

impl View for MenuEntry {
    type V = MenuEntryView;

    open spec fn view(&self) -> MenuEntryView {
        match self {
            MenuEntry::Separator => MenuEntryView::Separator,
            MenuEntry::Item { id, label, check } => MenuEntryView::Item {
                id: *id,
                label: label@,
                check: *check,
            },
        }
    }
}

/// A menu line that runs item `id`.
pub open spec fn item(id: usize, label: Seq<char>, check: MenuCheck) -> MenuEntryView {
    MenuEntryView::Item { id, label, check }
}

/// The tray menu in state `s`: pause or resume, the three sizes, the three
/// poll intervals, the three display times, the three typing pauses and
/// quit, in groups parted by separators; the setting in use is checked.
pub open spec fn menu_model(s: AppView) -> Seq<MenuEntryView> {
    seq![
        item(
            MENU_TOGGLE_PAUSE,
            if s.paused {
                "Продолжить"@
            } else {
                "Пауза"@
            },
            MenuCheck::Unchecked,
        ),
        MenuEntryView::Separator,
        item(MENU_SIZE_SMALL, "Размер: маленький"@, check_if(s.size == IndicatorSize::Small)),
        item(MENU_SIZE_MEDIUM, "Размер: средний"@, check_if(s.size == IndicatorSize::Medium)),
        item(MENU_SIZE_LARGE, "Размер: большой"@, check_if(s.size == IndicatorSize::Large)),
        MenuEntryView::Separator,
        item(MENU_POLL_80, "Интервал опроса: 80 мс"@, check_if(s.poll_interval_ms == 80)),
        item(MENU_POLL_120, "Интервал опроса: 120 мс"@, check_if(s.poll_interval_ms == 120)),
        item(MENU_POLL_200, "Интервал опроса: 200 мс"@, check_if(s.poll_interval_ms == 200)),
        MenuEntryView::Separator,
        item(MENU_DISPLAY_600, "Время показа: 600 мс"@, check_if(s.display_ms == 600)),
        item(MENU_DISPLAY_1200, "Время показа: 1200 мс"@, check_if(s.display_ms == 1200)),
        item(MENU_DISPLAY_2000, "Время показа: 2000 мс"@, check_if(s.display_ms == 2000)),
        MenuEntryView::Separator,
        item(MENU_TYPING_GAP_2S, "Пауза печати: 2 с"@, check_if(s.typing_gap_ms == 2000)),
        item(MENU_TYPING_GAP_5S, "Пауза печати: 5 с"@, check_if(s.typing_gap_ms == 5000)),
        item(MENU_TYPING_GAP_8S, "Пауза печати: 8 с"@, check_if(s.typing_gap_ms == 8000)),
        MenuEntryView::Separator,
        item(MENU_EXIT, "Выход"@, MenuCheck::Unchecked),
    ]
}

/// The views of a list of menu lines.
pub open spec fn entries_view(entries: Seq<MenuEntry>) -> Seq<MenuEntryView> {
    entries.map_values(|e: MenuEntry| e@)
}

fn push_entry(entries: &mut Vec<MenuEntry>, entry: MenuEntry)
    ensures
        entries_view(final(entries)@) == entries_view(old(entries)@).push(entry@),
{
    let ghost e = entry@;
    entries.push(entry);
    assert(entries_view(entries@) =~= entries_view(old(entries)@).push(e));
}

fn push_item(entries: &mut Vec<MenuEntry>, id: usize, label: &str, check: MenuCheck)
    ensures
        entries_view(final(entries)@) == entries_view(old(entries)@).push(item(id, label@, check)),
{
    push_entry(entries, MenuEntry::Item { id, label: String::from_str(label), check });
}

/// The tray menu for the current state, as `menu_model` describes it.
pub fn menu_entries(state: &AppState) -> (entries: Vec<MenuEntry>)
    ensures
        entries_view(entries@) == menu_model(state@),
{
    let mut entries: Vec<MenuEntry> = Vec::new();
    let size = state.size();
    let poll = state.poll_interval_ms();
    let display = state.display_ms();
    let gap = state.typing_gap_ms();
    let pause_text = if state.is_paused() {
        "Продолжить"
    } else {
        "Пауза"
    };
    push_item(&mut entries, MENU_TOGGLE_PAUSE, pause_text, MenuCheck::Unchecked);
    push_entry(&mut entries, MenuEntry::Separator);
    push_item(&mut entries, MENU_SIZE_SMALL, "Размер: маленький", menu_flags_for_size(size, IndicatorSize::Small));
    push_item(&mut entries, MENU_SIZE_MEDIUM, "Размер: средний", menu_flags_for_size(size, IndicatorSize::Medium));
    push_item(&mut entries, MENU_SIZE_LARGE, "Размер: большой", menu_flags_for_size(size, IndicatorSize::Large));
    push_entry(&mut entries, MenuEntry::Separator);
    push_item(&mut entries, MENU_POLL_80, "Интервал опроса: 80 мс", menu_flags_for_u32(poll, 80));
    push_item(&mut entries, MENU_POLL_120, "Интервал опроса: 120 мс", menu_flags_for_u32(poll, 120));
    push_item(&mut entries, MENU_POLL_200, "Интервал опроса: 200 мс", menu_flags_for_u32(poll, 200));
    push_entry(&mut entries, MenuEntry::Separator);
    push_item(&mut entries, MENU_DISPLAY_600, "Время показа: 600 мс", menu_flags_for_u32(display, 600));
    push_item(&mut entries, MENU_DISPLAY_1200, "Время показа: 1200 мс", menu_flags_for_u32(display, 1200));
    push_item(&mut entries, MENU_DISPLAY_2000, "Время показа: 2000 мс", menu_flags_for_u32(display, 2000));
    push_entry(&mut entries, MenuEntry::Separator);
    push_item(&mut entries, MENU_TYPING_GAP_2S, "Пауза печати: 2 с", menu_flags_for_duration(gap, 2000));
    push_item(&mut entries, MENU_TYPING_GAP_5S, "Пауза печати: 5 с", menu_flags_for_duration(gap, 5000));
    push_item(&mut entries, MENU_TYPING_GAP_8S, "Пауза печати: 8 с", menu_flags_for_duration(gap, 8000));
    push_entry(&mut entries, MenuEntry::Separator);
    push_item(&mut entries, MENU_EXIT, "Выход", MenuCheck::Unchecked);
    assert(entries_view(entries@) =~= menu_model(state@));
    entries
}

} // verus!
