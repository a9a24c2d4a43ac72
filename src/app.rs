//! The application controller: which tab is shown, which remote command is
//! highlighted, and what a button release means in that context.

use vstd::prelude::*;

use crate::events::{Button, Event, Remote, Stats, StickHat};
use crate::remote::{spec_next_command, spec_next_row, spec_prev_command, TVState};

verus! {

/// The screens, in the order the tab bar shows them.
#[derive(Clone, Copy, Debug, PartialEq, Eq, Structural)]
pub enum SelectedTab {
    Remote,
    Info,
}

/// Number of enabled tabs.
pub const TAB_COUNT: usize = 2;

impl SelectedTab {
    /// Position of the tab in the tab bar.
    pub open spec fn ord(self) -> int {
        match self {
            SelectedTab::Remote => 0,
            SelectedTab::Info => 1,
        }
    }

    /// The tab at position `i` (meaningful for `i < TAB_COUNT`).
    pub open spec fn at(i: int) -> SelectedTab {
        if i == 0 {
            SelectedTab::Remote
        } else {
            SelectedTab::Info
        }
    }

    /// The tab after this one, wrapping to the first.
    pub open spec fn spec_next(self) -> SelectedTab {
        SelectedTab::at((self.ord() + 1) % TAB_COUNT as int)
    }

    /// The tab before this one, wrapping to the last.
    pub open spec fn spec_prev(self) -> SelectedTab {
        SelectedTab::at((self.ord() + TAB_COUNT - 1) % TAB_COUNT as int)
    }

    pub open spec fn title_text(self) -> Seq<char> {
        match self {
            SelectedTab::Remote => "tv"@,
            SelectedTab::Info => "info"@,
        }
    }

    /// Position of the tab in the tab bar.
    pub fn index(self) -> (r: usize)
        ensures
            r == self.ord(),
            r < TAB_COUNT,
    {
        match self {
            SelectedTab::Remote => 0,
            SelectedTab::Info => 1,
        }
    }

    /// The tab at position `i`, if there is one.
    pub fn from_repr(i: usize) -> (r: Option<SelectedTab>)
        ensures
            i < TAB_COUNT ==> r == Some(SelectedTab::at(i as int)),
            i >= TAB_COUNT ==> r.is_none(),
    {
        match i {
            0 => Some(SelectedTab::Remote),
            1 => Some(SelectedTab::Info),
            _ => None,
        }
    }

    /// The label of the tab in the tab bar.
    pub fn title(self) -> (r: String)
        ensures
            r@ == self.title_text(),
    {
        let s: &str = match self {
            SelectedTab::Remote => "tv",
            SelectedTab::Info => "info",
        };
        s.to_owned()
    }

    /// The tab after this one, wrapping to the first.
    pub fn next(self) -> (r: SelectedTab)
        ensures
            r == self.spec_next(),
    {
        let i = (self.index() + 1) % TAB_COUNT;
        match SelectedTab::from_repr(i) {
            Some(t) => t,
            None => self,
        }
    }

    /// The tab before this one, wrapping to the last.
    pub fn prev(self) -> (r: SelectedTab)
        ensures
            r == self.spec_prev(),
    {
        let len = TAB_COUNT;
        let i = (self.index() + len - 1) % len;
        match SelectedTab::from_repr(i) {
            Some(t) => t,
            None => self,
        }
    }

    /// The labels of all tabs, in tab-bar order.
    pub fn titles() -> (r: Vec<String>)
        ensures
            r.len() == TAB_COUNT,
            forall|i: int| 0 <= i < TAB_COUNT ==> #[trigger] r[i]@ == SelectedTab::at(i).title_text(),
    {
        let mut titles: Vec<String> = Vec::new();
        let mut i: usize = 0;
        while i < TAB_COUNT
            invariant
                i <= TAB_COUNT,
                titles.len() == i,
                forall|j: int| 0 <= j < i ==> #[trigger] titles[j]@ == SelectedTab::at(j).title_text(),
            decreases TAB_COUNT - i,
        {
            match SelectedTab::from_repr(i) {
                Some(t) => titles.push(t.title()),
                None => {},
            }
            i = i + 1;
        }
        titles
    }
}

/// The tab reached from `t` by `n` steps forward.
pub open spec fn advance_tab(t: SelectedTab, n: nat) -> SelectedTab
    decreases n,
{
    if n == 0 {
        t
    } else {
        advance_tab(t, (n - 1) as nat).spec_next()
    }
}

/// Stepping forward once per enabled tab comes back to the starting tab.
pub proof fn lemma_tab_cycle(t: SelectedTab)
    ensures
        advance_tab(t, TAB_COUNT as nat) == t,
{
    reveal_with_fuel(advance_tab, 3);
}

/// Hold time (ms) up to which the tab bar keeps its base red.
pub const RED_HOLD_MS: u64 = 500;
pub const RED_MAX_MS: u64 = 3000;
pub const RED_MIN: u64 = 50;
pub const RED_MAX: u64 = 255;

/// Red level for a hold of `ms` milliseconds: 50 at 0 ms, rising evenly to
/// 255 at 3000 ms and staying there.
pub open spec fn spec_ms_to_red(ms: u64) -> int {
    let clamped: int = if ms < RED_MAX_MS {
        ms as int
    } else {
        RED_MAX_MS as int
    };
    RED_MIN + clamped * (RED_MAX - RED_MIN) / (RED_MAX_MS as int)
}

/// Red level for a hold of `ms` milliseconds.
pub fn ms_to_red(ms: u64) -> (r: u8)
    ensures
        r == spec_ms_to_red(ms),
{
    let clamped_ms = if ms < RED_MAX_MS {
        ms
    } else {
        RED_MAX_MS
    };
    assert(clamped_ms * (RED_MAX - RED_MIN) <= 3000 * 205) by (nonlinear_arith)
        requires
            clamped_ms <= 3000,
    ;
    assert((clamped_ms * 205) / 3000 <= 205) by (nonlinear_arith)
        requires
            clamped_ms <= 3000,
    ;
    (RED_MIN + (clamped_ms * (RED_MAX - RED_MIN)) / RED_MAX_MS) as u8
}

/// A release of B held longer than this (ms) moves the highlight a row down.
pub const ROW_HOLD_MS: u64 = 300;

/// A release of C held longer than this (ms) switches tabs even after the
/// tab was touched.
pub const TAB_SWITCH_HOLD_MS: u64 = 500;

/// A hold of C longer than this (ms) shows the shut-down hint.
pub const SHUTDOWN_HINT_MS: u64 = 1000;

/// Milliseconds since `start` at time `now`; zero when no hold is recorded
/// (or the clock reads earlier than the start).
pub open spec fn held_ms(start: Option<u64>, now: u64) -> u64 {
    match start {
        Some(s) => if now >= s {
            (now - s) as u64
        } else {
            0
        },
        None => 0,
    }
}

fn held_ms_exec(start: Option<u64>, now: u64) -> (r: u64)
    ensures
        r == held_ms(start, now),
{
    match start {
        Some(s) => if now >= s {
            now - s
        } else {
            0
        },
        None => 0,
    }
}

/// Relies on `embassy_time::Instant::now` and `Instant::as_millis`: the time
/// since boot in milliseconds. Nothing is assumed of its value.
#[verifier::external_body]
fn now_millis() -> (r: u64) {
    embassy_time::Instant::now().as_millis()
}

/// State of the controller.
#[derive(Clone, Copy, Debug, PartialEq, Eq, Structural)]
pub struct App {
    /// When C went down (ms), while it is held.
    pub c_start: Option<u64>,
    /// When B went down (ms), while it is held.
    pub b_start: Option<u64>,
    pub selected_tab: SelectedTab,
    /// Whether a button was used on this tab since it was entered.
    pub tab_touched: bool,
    /// The latest battery and heap figures.
    pub stats: Stats,
    /// The highlighted remote command.
    pub tv: TVState,
    /// The input peripheral that announced itself, if any.
    pub hat: Option<StickHat>,
}

impl App {
    /// The state after switching to the next tab: the highlight goes back to
    /// the power command and the new tab is untouched.
    pub open spec fn after_next_tab(self) -> App {
        App {
            tv: TVState { current_btn: Remote::OnOff },
            selected_tab: self.selected_tab.spec_next(),
            tab_touched: false,
            ..self
        }
    }

    /// The state after `event` is handled at time `now`.
    pub open spec fn after(self, event: Event, now: u64) -> App {
        match event {
            Event::ButtonUp(Button::A) => {
                if self.selected_tab == SelectedTab::Remote {
                    App { tab_touched: true, ..self }
                } else {
                    self
                }
            },
            Event::ButtonDown(Button::B) => {
                if self.b_start.is_none() {
                    App { b_start: Some(now), ..self }
                } else {
                    self
                }
            },
            Event::ButtonUp(Button::B) => {
                let moved = if self.selected_tab == SelectedTab::Remote {
                    App {
                        tab_touched: true,
                        tv: TVState {
                            current_btn: if held_ms(self.b_start, now) > ROW_HOLD_MS {
                                spec_next_row(self.tv.current_btn)
                            } else {
                                spec_next_command(self.tv.current_btn)
                            },
                        },
                        ..self
                    }
                } else {
                    self
                };
                App { b_start: None, ..moved }
            },
            Event::ButtonDown(Button::C) => {
                if self.c_start.is_none() {
                    App { c_start: Some(now), ..self }
                } else {
                    self
                }
            },
            Event::ButtonUp(Button::C) => {
                let moved = if !self.tab_touched || held_ms(self.c_start, now)
                    > TAB_SWITCH_HOLD_MS {
                    self.after_next_tab()
                } else if self.selected_tab == SelectedTab::Remote {
                    App { tv: TVState { current_btn: spec_prev_command(self.tv.current_btn) }, ..self }
                } else {
                    self
                };
                App { c_start: None, ..moved }
            },
            Event::StatsUpdated(stats) => App { stats, ..self },
            Event::InitHat(hat) => App { hat: Some(hat), ..self },
            _ => self,
        }
    }

    /// The command to send when `event` is handled: the highlighted one on a
    /// release of A on the remote tab, else none.
    pub open spec fn output(self, event: Event) -> Option<Remote> {
        match event {
            Event::ButtonUp(Button::A) => {
                if self.selected_tab == SelectedTab::Remote {
                    Some(self.tv.current_btn)
                } else {
                    None
                }
            },
            _ => None,
        }
    }

    /// The first tab, the power command highlighted, nothing held or touched.
    pub open spec fn initial() -> App {
        App {
            c_start: None,
            b_start: None,
            selected_tab: SelectedTab::Remote,
            tab_touched: false,
            stats: Stats { battery_level: 0, heap_used: 0, heap_free: 0 },
            tv: TVState { current_btn: Remote::OnOff },
            hat: None,
        }
    }

    pub fn new() -> (r: App)
        ensures
            r == App::initial(),
    {
        App {
            c_start: None,
            b_start: None,
            selected_tab: SelectedTab::Remote,
            tab_touched: false,
            stats: Stats::new(),
            tv: TVState::new(),
            hat: None,
        }
    }

    /// Switches to the next tab, resetting the highlight and the touched flag.
    pub fn next_tab(&mut self)
        ensures
            *final(self) == old(self).after_next_tab(),
    {
        self.tv.current_btn = Remote::OnOff;
        self.selected_tab = self.selected_tab.next();
        self.tab_touched = false;
    }

    /// Switches to the previous tab and clears the touched flag.
    pub fn prev_tab(&mut self)
        ensures
            *final(self) == (App {
                selected_tab: old(self).selected_tab.spec_prev(),
                tab_touched: false,
                ..*old(self)
            }),
    {
        self.selected_tab = self.selected_tab.prev();
        self.tab_touched = false;
    }

    /// Marks the current tab as used.
    pub fn touch_tab(&mut self)
        ensures
            *final(self) == (App { tab_touched: true, ..*old(self) }),
    {
        self.tab_touched = true;
    }

    /// How long C has been held at time `now` (ms); zero when it is up.
    pub fn c_held_time_at(&self, now: u64) -> (r: u64)
        ensures
            r == held_ms(self.c_start, now),
    {
        held_ms_exec(self.c_start, now)
    }

    /// How long B has been held at time `now` (ms); zero when it is up.
    pub fn b_held_time_at(&self, now: u64) -> (r: u64)
        ensures
            r == held_ms(self.b_start, now),
    {
        held_ms_exec(self.b_start, now)
    }

    /// How long C has been held (ms), by the clock at the call.
    pub fn c_held_time(&self) -> (r: u64)
        ensures
            exists|now: u64| r == held_ms(self.c_start, now),
    {
        let now = now_millis();
        let r = self.c_held_time_at(now);
        assert(r == held_ms(self.c_start, now));
        r
    }

    /// How long B has been held (ms), by the clock at the call.
    pub fn b_held_time(&self) -> (r: u64)
        ensures
            exists|now: u64| r == held_ms(self.b_start, now),
    {
        let now = now_millis();
        let r = self.b_held_time_at(now);
        assert(r == held_ms(self.b_start, now));
        r
    }

    /// Handles one event at time `now` (ms) and returns the command to send,
    /// if any.
    pub fn handle_event_at(&mut self, event: Event, now: u64) -> (r: Option<Remote>)
        ensures
            *final(self) == old(self).after(event, now),
            r == old(self).output(event),
    {
        match event {
            Event::ButtonUp(Button::A) => {
                if self.selected_tab == SelectedTab::Remote {
                    self.touch_tab();
                    return Some(self.tv.current_btn);
                }
                None
            },
            Event::ButtonDown(Button::B) => {
                if self.b_start.is_none() {
                    self.b_start = Some(now);
                }
                None
            },
            Event::ButtonUp(Button::B) => {
                if self.selected_tab == SelectedTab::Remote {
                    self.touch_tab();
                    if self.b_held_time_at(now) > ROW_HOLD_MS {
                        self.tv.next_row();
                    } else {
                        self.tv.next_btn();
                    }
                }
                self.b_start = None;
                None
            },
            Event::ButtonDown(Button::C) => {
                if self.c_start.is_none() {
                    self.c_start = Some(now);
                }
                None
            },
            Event::ButtonUp(Button::C) => {
                if self.tab_touched {
                    if self.c_held_time_at(now) > TAB_SWITCH_HOLD_MS {
                        self.next_tab();
                    } else if self.selected_tab == SelectedTab::Remote {
                        self.tv.prev_btn();
                    }
                } else {
                    self.next_tab();
                }
                self.c_start = None;
                None
            },
            Event::StatsUpdated(stats) => {
                self.stats = stats;
                None
            },
            Event::InitHat(hat) => {
                self.hat = Some(hat);
                None
            },
            _ => None,
        }
    }

    /// Red level of the tab bar at time `now`: the base level while C is
    /// held for up to `RED_HOLD_MS`, then rising with the hold time.
    pub fn tab_bar_red_at(&self, now: u64) -> (r: u8)
        ensures
            r == (if held_ms(self.c_start, now) < RED_HOLD_MS {
                RED_MIN as int
            } else {
                spec_ms_to_red(held_ms(self.c_start, now))
            }),
    {
        let held = self.c_held_time_at(now);
        if held < RED_HOLD_MS {
            RED_MIN as u8
        } else {
            ms_to_red(held)
        }
    }

    /// The hint line under the screen at time `now`, if one is shown.
    pub open spec fn footer_text(self, now: u64) -> Option<Seq<char>> {
        if held_ms(self.c_start, now) > SHUTDOWN_HINT_MS {
            Some(" hold to shut down..."@)
        } else if self.selected_tab == SelectedTab::Remote {
            let c_prev = self.tab_touched && held_ms(self.c_start, now) < TAB_SWITCH_HOLD_MS;
            let b_row = held_ms(self.b_start, now) > ROW_HOLD_MS;
            Some(
                if c_prev && b_row {
                    " c - prev btn, b - next row"@
                } else if c_prev {
                    " c - prev btn, b - next btn"@
                } else if b_row {
                    " c - next tab, b - next row"@
                } else {
                    " c - next tab, b - next btn"@
                },
            )
        } else {
            None
        }
    }

    /// The hint line under the screen at time `now`, if one is shown.
    pub fn footer_hint_at(&self, now: u64) -> (r: Option<&'static str>)
        ensures
            r.is_some() == self.footer_text(now).is_some(),
            r.is_some() ==> r.unwrap()@ == self.footer_text(now).unwrap(),
    {
        let c_held = self.c_held_time_at(now);
        if c_held > SHUTDOWN_HINT_MS {
            return Some(" hold to shut down...");
        }
        match self.selected_tab {
            SelectedTab::Remote => {
                let c_prev = self.tab_touched && c_held < TAB_SWITCH_HOLD_MS;
                let b_row = self.b_held_time_at(now) > ROW_HOLD_MS;
                if c_prev && b_row {
                    Some(" c - prev btn, b - next row")
                } else if c_prev {
                    Some(" c - prev btn, b - next btn")
                } else if b_row {
                    Some(" c - next tab, b - next row")
                } else {
                    Some(" c - next tab, b - next btn")
                }
            },
            SelectedTab::Info => None,
        }
    }

    /// Handles one event by the clock at the call and returns the command to
    /// send, if any.
    pub fn handle_events(&mut self, event: Event) -> (r: Option<Remote>)
        ensures
            exists|now: u64| *final(self) == old(self).after(event, now),
            r == old(self).output(event),
    {
        let now = now_millis();
        let r = self.handle_event_at(event, now);
        assert(*self == old(self).after(event, now));
        r
    }
}

/// A release of C on a touched tab switches tabs only when the hold was
/// strictly longer than the threshold; a hold of exactly the threshold stays
/// on the tab. An untouched tab is always left.
pub proof fn lemma_c_release_threshold(app: App, now: u64)
    ensures
        app.tab_touched && held_ms(app.c_start, now) <= TAB_SWITCH_HOLD_MS ==> app.after(
            Event::ButtonUp(Button::C),
            now,
        ).selected_tab == app.selected_tab,
        app.tab_touched && held_ms(app.c_start, now) > TAB_SWITCH_HOLD_MS ==> app.after(
            Event::ButtonUp(Button::C),
            now,
        ).selected_tab == app.selected_tab.spec_next(),
        !app.tab_touched ==> app.after(Event::ButtonUp(Button::C), now).selected_tab
            == app.selected_tab.spec_next(),
        app.selected_tab.spec_next() != app.selected_tab,
{
}

} // verus!
