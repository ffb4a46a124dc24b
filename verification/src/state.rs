use vstd::prelude::*;
use crate::indicator::IndicatorSize;
use crate::layout::{indicator_text, layout_to_indicator};
use crate::menu::{
    Command, command_from_wparam, command_for_id, is_display_choice, is_menu_command,
    is_poll_choice, is_typing_gap_choice,
};
use crate::utf16::{to_utf16, utf16_encode};

verus! {

/// Poll interval at start-up (ms).
pub const DEFAULT_POLL_INTERVAL_MS: u32 = 120;
/// Display time at start-up (ms).
pub const DEFAULT_DISPLAY_MS: u32 = 1200;
/// Typing pause that starts a new session, at start-up (ms).
pub const DEFAULT_TYPING_GAP_MS: u32 = 5000;

/// Identifier of the timer that polls the keyboard layout.
pub const POLL_TIMER_ID: usize = 1;
/// Identifier of the timer that hides the indicator.
pub const HIDE_TIMER_ID: usize = 2;

/// Nanoseconds per millisecond.
pub const NANOS_PER_MILLI: u64 = 1_000_000;

/// Work that the window around the state machine must carry out.
#[derive(Clone, Copy, Debug, PartialEq, Eq, Structural)]
pub enum Action {
    /// Centre the window, repaint it, show it without activating it, and
    /// (re)start the hide timer with the given period.
    ShowIndicator { display_ms: u32 },
    /// Stop the hide timer and hide the window.
    HideIndicator,
    /// Hide the window.
    HideWindow,
    /// Read the current keyboard layout and report it with `on_layout_sampled`.
    ShowCurrentLayout,
    /// Replace the indicator font by one of the given size.
    RebuildFont { size: IndicatorSize },
    /// Repaint the window.
    Redraw,
    /// Put the icon into the notification area.
    AddTrayIcon,
    /// Start the poll timer with the given period.
    StartPollTimer { interval_ms: u32 },
    /// Stop the poll timer and start it again with the given period.
    RestartPollTimer { interval_ms: u32 },
    /// Close the window, which ends the program.
    DestroyWindow,
}

/// Which timer fired.
#[derive(Clone, Copy, Debug, PartialEq, Eq, Structural)]
pub enum TimerKind {
    Poll,
    Hide,
}

/// Abstract state of the indicator.
pub struct AppView {
    pub last_hkl: isize,
    pub initialized: bool,
    pub paused: bool,
    pub last_typing_press: Option<u64>,
    pub poll_interval_ms: u32,
    pub display_ms: u32,
    pub typing_gap_ms: u32,
    pub size: IndicatorSize,
    pub text: Seq<u16>,
}

/// Text the indicator shows before any layout is known.
pub open spec fn initial_text() -> Seq<char> {
    seq!['E', 'N']
}

/// Text (UTF-16) the indicator shows for the last layout `last_hkl`.
pub open spec fn text_for(last_hkl: isize) -> Seq<u16> {
    if last_hkl == 0 {
        utf16_encode(initial_text())
    } else {
        utf16_encode(indicator_text(last_hkl))
    }
}

impl AppView {
    /// The state invariant: settings are ones the menu offers, the text is
    /// that of the last layout shown, and a started indicator knows a layout.
    pub open spec fn wf(self) -> bool {
        &&& is_poll_choice(self.poll_interval_ms)
        &&& is_display_choice(self.display_ms)
        &&& is_typing_gap_choice(self.typing_gap_ms)
        &&& self.text == text_for(self.last_hkl)
        &&& self.initialized ==> self.last_hkl != 0
    }
}

/// The state at start-up.
pub open spec fn initial_view() -> AppView {
    AppView {
        last_hkl: 0,
        initialized: false,
        paused: false,
        last_typing_press: None,
        poll_interval_ms: DEFAULT_POLL_INTERVAL_MS,
        display_ms: DEFAULT_DISPLAY_MS,
        typing_gap_ms: DEFAULT_TYPING_GAP_MS,
        size: IndicatorSize::Medium,
        text: utf16_encode(initial_text()),
    }
}

/// The state after the indicator is shown for layout `hkl`.
pub open spec fn shown(s: AppView, hkl: isize) -> AppView {
    AppView { last_hkl: hkl, text: utf16_encode(indicator_text(hkl)), ..s }
}

/// The action that shows the indicator in state `s`.
pub open spec fn show_action(s: AppView) -> Action {
    Action::ShowIndicator { display_ms: s.display_ms }
}

/// Effect of a menu command.
pub open spec fn command_step(s: AppView, cmd: Command) -> (AppView, Seq<Action>) {
    match cmd {
        Command::TogglePause => {
            let paused = !s.paused;
            (
                AppView { paused: paused, last_typing_press: None, ..s },
                if paused {
                    seq![Action::HideIndicator]
                } else {
                    seq![Action::ShowCurrentLayout]
                },
            )
        },
        Command::SetSize(size) => (
            AppView { size: size, ..s },
            seq![Action::RebuildFont { size: size }, Action::Redraw],
        ),
        Command::SetPollInterval(ms) => (
            AppView { poll_interval_ms: ms, ..s },
            seq![Action::RestartPollTimer { interval_ms: ms }],
        ),
        Command::SetDisplayTime(ms) => (AppView { display_ms: ms, ..s }, Seq::empty()),
        Command::SetTypingGap(ms) => (
            AppView { typing_gap_ms: ms, last_typing_press: None, ..s },
            Seq::empty(),
        ),
        Command::Exit => (s, seq![Action::DestroyWindow]),
    }
}

/// Effect of a menu notification whose `wparam` is `wparam`.
pub open spec fn notification_step(s: AppView, wparam: usize) -> (AppView, Seq<Action>) {
    match command_for_id(wparam as int % 0x10000) {
        Some(cmd) => command_step(s, cmd),
        None => (s, Seq::empty()),
    }
}

/// Effect of learning the current layout after `ShowCurrentLayout`.
pub open spec fn sampled_step(s: AppView, hkl: isize) -> (AppView, Seq<Action>) {
    if hkl != 0 {
        (shown(s, hkl), seq![show_action(s)])
    } else {
        (s, Seq::empty())
    }
}

/// First part of a poll: show the indicator at the first known layout and
/// whenever the layout changes.
pub open spec fn layout_step(s: AppView, hkl: isize) -> (AppView, Seq<Action>) {
    if hkl != 0 && !s.initialized {
        (shown(AppView { initialized: true, ..s }, hkl), seq![show_action(s)])
    } else if hkl != 0 && hkl != s.last_hkl {
        (shown(s, hkl), seq![show_action(s)])
    } else {
        (s, Seq::empty())
    }
}

/// Time from `earlier` to `later`, or zero if `later` comes first (ns).
pub open spec fn elapsed_ns(later: u64, earlier: u64) -> int {
    if later >= earlier {
        later - earlier
    } else {
        0
    }
}

/// Whether a typing key press at `now` starts a new typing session: no key
/// was seen since the session was reset, or the last one is at least the
/// typing pause ago.
pub open spec fn starts_typing_session(s: AppView, now: u64) -> bool {
    match s.last_typing_press {
        None => true,
        Some(last) => elapsed_ns(now, last) >= s.typing_gap_ms * 1_000_000,
    }
}

/// Second part of a poll, when a typing key is down: show the indicator at
/// the start of a typing session and remember the time of the press.
pub open spec fn typing_step(s: AppView, hkl: isize, now: u64) -> (AppView, Seq<Action>) {
    let target = if hkl != 0 {
        hkl
    } else {
        s.last_hkl
    };
    let (s1, actions) = if starts_typing_session(s, now) && target != 0 {
        (shown(s, target), seq![show_action(s)])
    } else {
        (s, Seq::empty())
    };
    (AppView { last_typing_press: Some(now), ..s1 }, actions)
}

/// Effect of a poll: `hkl` is the layout of the foreground window (zero if
/// unknown), `typing` whether a typing key is down and `now` the time (ns).
pub open spec fn poll_step(s: AppView, hkl: isize, typing: bool, now: u64) -> (AppView, Seq<Action>) {
    if s.paused {
        (s, Seq::empty())
    } else {
        let (s1, a1) = layout_step(s, hkl);
        if s1.initialized && typing {
            let (s2, a2) = typing_step(s1, hkl, now);
            (s2, a1 + a2)
        } else {
            (s1, a1)
        }
    }
}

/// The timer with identifier `id`, if it is one of ours.
pub open spec fn timer_for_id(id: usize) -> Option<TimerKind> {
    if id == POLL_TIMER_ID {
        Some(TimerKind::Poll)
    } else if id == HIDE_TIMER_ID {
        Some(TimerKind::Hide)
    } else {
        None
    }
}

/// The timer with identifier `id`, if it is one of ours.
pub fn timer_kind(id: usize) -> (kind: Option<TimerKind>)
    ensures
        kind == timer_for_id(id),
{
    if id == POLL_TIMER_ID {
        Some(TimerKind::Poll)
    } else if id == HIDE_TIMER_ID {
        Some(TimerKind::Hide)
    } else {
        None
    }
}

/// The state of the layout indicator: what it shows, whether it is paused,
/// the typing session, and the settings chosen in the tray menu.
pub struct AppState {
    last_hkl: isize,
    initialized: bool,
    paused: bool,
    last_typing_press: Option<u64>,
    poll_interval_ms: u32,
    display_ms: u32,
    typing_gap_ms: u32,
    size: IndicatorSize,
    text_utf16: Vec<u16>,
}

impl View for AppState {
    type V = AppView;

    closed spec fn view(&self) -> AppView {
        AppView {
            last_hkl: self.last_hkl,
            initialized: self.initialized,
            paused: self.paused,
            last_typing_press: self.last_typing_press,
            poll_interval_ms: self.poll_interval_ms,
            display_ms: self.display_ms,
            typing_gap_ms: self.typing_gap_ms,
            size: self.size,
            text: self.text_utf16@,
        }
    }
}

impl AppState {
    /// The state at start-up: no layout known, not paused, medium size, the
    /// default intervals, and `EN` as text.
    pub fn new() -> (s: Self)
        ensures
            s@ == initial_view(),
            s@.wf(),
    {
        proof {
            reveal_strlit("EN");
        }
        let text_utf16 = to_utf16("EN");
        assert("EN"@ =~= initial_text());
        AppState {
            last_hkl: 0,
            initialized: false,
            paused: false,
            last_typing_press: None,
            poll_interval_ms: DEFAULT_POLL_INTERVAL_MS,
            display_ms: DEFAULT_DISPLAY_MS,
            typing_gap_ms: DEFAULT_TYPING_GAP_MS,
            size: IndicatorSize::Medium,
            text_utf16,
        }
    }

    /// Records layout `hkl` as shown and returns the action that shows it.
    fn show_indicator(&mut self, hkl: isize) -> (action: Action)
        ensures
            final(self)@ == shown(old(self)@, hkl),
            action == show_action(old(self)@),
    {
        self.last_hkl = hkl;
        let text = layout_to_indicator(hkl);
        self.text_utf16 = to_utf16(text.as_str());
        Action::ShowIndicator { display_ms: self.display_ms }
    }

    /// Work to do when the window is created: build the font, add the tray
    /// icon, start polling and keep the window hidden.
    pub fn startup_actions(&self) -> (actions: Vec<Action>)
        ensures
            actions@ == seq![
                Action::RebuildFont { size: self@.size },
                Action::AddTrayIcon,
                Action::StartPollTimer { interval_ms: self@.poll_interval_ms },
                Action::HideWindow,
            ],
    {
        let mut actions: Vec<Action> = Vec::new();
        actions.push(Action::RebuildFont { size: self.size });
        actions.push(Action::AddTrayIcon);
        actions.push(Action::StartPollTimer { interval_ms: self.poll_interval_ms });
        actions.push(Action::HideWindow);
        assert(actions@ =~= seq![
            Action::RebuildFont { size: self@.size },
            Action::AddTrayIcon,
            Action::StartPollTimer { interval_ms: self@.poll_interval_ms },
            Action::HideWindow,
        ]);
        actions
    }

    /// Carries out a menu command.
    pub fn apply_command(&mut self, cmd: Command) -> (actions: Vec<Action>)
        ensures
            (final(self)@, actions@) == command_step(old(self)@, cmd),
            old(self)@.wf() && is_menu_command(cmd) ==> final(self)@.wf(),
    {
        let mut actions: Vec<Action> = Vec::new();
        match cmd {
            Command::TogglePause => {
                self.paused = !self.paused;
                self.last_typing_press = None;
                if self.paused {
                    actions.push(Action::HideIndicator);
                } else {
                    actions.push(Action::ShowCurrentLayout);
                }
            },
            Command::SetSize(size) => {
                self.size = size;
                actions.push(Action::RebuildFont { size });
                actions.push(Action::Redraw);
            },
            Command::SetPollInterval(ms) => {
                self.poll_interval_ms = ms;
                actions.push(Action::RestartPollTimer { interval_ms: ms });
            },
            Command::SetDisplayTime(ms) => {
                self.display_ms = ms;
            },
            Command::SetTypingGap(ms) => {
                self.typing_gap_ms = ms;
                self.last_typing_press = None;
            },
            Command::Exit => {
                actions.push(Action::DestroyWindow);
            },
        }
        assert(actions@ =~= command_step(old(self)@, cmd).1);
        actions
    }

    /// Handles a menu notification; the item identifier is the low word of
    /// `wparam`, and an unknown item changes nothing.
    pub fn on_command(&mut self, wparam: usize) -> (actions: Vec<Action>)
        ensures
            (final(self)@, actions@) == notification_step(old(self)@, wparam),
            old(self)@.wf() ==> final(self)@.wf(),
    {
        match command_from_wparam(wparam) {
            Some(cmd) => self.apply_command(cmd),
            None => Vec::new(),
        }
    }

    /// Shows the indicator for the layout read after `ShowCurrentLayout`,
    /// unless the layout is unknown (zero).
    pub fn on_layout_sampled(&mut self, hkl: isize) -> (actions: Vec<Action>)
        ensures
            (final(self)@, actions@) == sampled_step(old(self)@, hkl),
            old(self)@.wf() ==> final(self)@.wf(),
    {
        let mut actions: Vec<Action> = Vec::new();
        if hkl != 0 {
            let a = self.show_indicator(hkl);
            actions.push(a);
            assert(actions@ =~= seq![a]);
        }
        actions
    }

    /// Handles a tick of the poll timer. `hkl` is the layout of the
    /// foreground window (zero if unknown), `typing` whether a typing key
    /// is down, and `now_ns` the current time in nanoseconds.
    pub fn on_poll_tick(&mut self, hkl: isize, typing: bool, now_ns: u64) -> (actions: Vec<Action>)
        ensures
            (final(self)@, actions@) == poll_step(old(self)@, hkl, typing, now_ns),
            old(self)@.wf() ==> final(self)@.wf(),
    {
        let mut actions: Vec<Action> = Vec::new();
        if self.paused {
            return actions;
        }
        if hkl != 0 {
            if !self.initialized {
                self.initialized = true;
                let a = self.show_indicator(hkl);
                actions.push(a);
            } else if hkl != self.last_hkl {
                let a = self.show_indicator(hkl);
                actions.push(a);
            }
        }
        let ghost s1 = self@;
        let ghost a1 = actions@;
        assert((s1, a1) == layout_step(old(self)@, hkl));
        if self.initialized && typing {
            let session_over = match self.last_typing_press {
                None => true,
                Some(last) => {
                    let elapsed: u64 = if now_ns >= last {
                        now_ns - last
                    } else {
                        0
                    };
                    elapsed >= self.typing_gap_ms as u64 * NANOS_PER_MILLI
                },
            };
            if session_over {
                let typing_hkl = if hkl != 0 {
                    hkl
                } else {
                    self.last_hkl
                };
                if typing_hkl != 0 {
                    let a = self.show_indicator(typing_hkl);
                    actions.push(a);
                }
            }
            self.last_typing_press = Some(now_ns);
            assert(actions@ =~= a1 + typing_step(s1, hkl, now_ns).1);
        }
        actions
    }

    /// Handles a tick of the hide timer: the indicator goes away.
    pub fn on_hide_timer(&self) -> (actions: Vec<Action>)
        ensures
            actions@ == seq![Action::HideIndicator],
    {
        let mut actions: Vec<Action> = Vec::new();
        actions.push(Action::HideIndicator);
        assert(actions@ =~= seq![Action::HideIndicator]);
        actions
    }

    /// Layout handle of the last layout shown (zero before any).
    pub fn last_layout(&self) -> (hkl: isize)
        ensures
            hkl == self@.last_hkl,
    {
        self.last_hkl
    }

    /// Whether a first layout has been seen by the poll.
    pub fn is_initialized(&self) -> (b: bool)
        ensures
            b == self@.initialized,
    {
        self.initialized
    }

    /// Whether the indicator is paused.
    pub fn is_paused(&self) -> (b: bool)
        ensures
            b == self@.paused,
    {
        self.paused
    }

    /// Time (ns) of the last typing key press of the current session, if any.
    pub fn last_typing_press(&self) -> (t: Option<u64>)
        ensures
            t == self@.last_typing_press,
    {
        self.last_typing_press
    }

    /// Poll interval in milliseconds.
    pub fn poll_interval_ms(&self) -> (ms: u32)
        ensures
            ms == self@.poll_interval_ms,
    {
        self.poll_interval_ms
    }

    /// How long the indicator stays visible, in milliseconds.
    pub fn display_ms(&self) -> (ms: u32)
        ensures
            ms == self@.display_ms,
    {
        self.display_ms
    }

    /// Typing pause that starts a new session, in milliseconds.
    pub fn typing_gap_ms(&self) -> (ms: u32)
        ensures
            ms == self@.typing_gap_ms,
    {
        self.typing_gap_ms
    }

    /// Text size.
    pub fn size(&self) -> (size: IndicatorSize)
        ensures
            size == self@.size,
    {
        self.size
    }

    /// The indicator text in UTF-16 code units.
    pub fn text_utf16(&self) -> (text: &[u16])
        ensures
            text@ == self@.text,
    {
        self.text_utf16.as_slice()
    }
}

} // verus!
