use vstd::prelude::*;

use crate::text::{chars_of, push_char, push_str};
use std::collections::VecDeque;

verus! {

/// Refresh interval of the monitor when no watch interval is given, in seconds.
pub const DEFAULT_WATCH_INTERVAL: u64 = 10;

/// Which panels of the live monitor are shown.
#[derive(Debug, Clone, Copy, PartialEq, Eq, Structural)]
pub struct PanelState {
    pub show_header: bool,
    pub show_quota: bool,
    pub show_alerts: bool,
    pub show_agents: bool,
    pub show_footer: bool,
    pub show_help: bool,
}

impl PanelState {
    /// Panels `1`..`5` are header, quota, alerts, agents and footer; toggling
    /// flips that one panel and any other number changes nothing.
    pub open spec fn toggled(self, panel: u8) -> PanelState {
        if panel == 1 {
            PanelState { show_header: !self.show_header, ..self }
        } else if panel == 2 {
            PanelState { show_quota: !self.show_quota, ..self }
        } else if panel == 3 {
            PanelState { show_alerts: !self.show_alerts, ..self }
        } else if panel == 4 {
            PanelState { show_agents: !self.show_agents, ..self }
        } else if panel == 5 {
            PanelState { show_footer: !self.show_footer, ..self }
        } else {
            self
        }
    }

    /// Flips the visibility of panel `panel` (1 to 5).
    pub fn toggle(&mut self, panel: u8)
        ensures
            *final(self) == old(self).toggled(panel),
    {
        match panel {
            1 => self.show_header = !self.show_header,
            2 => self.show_quota = !self.show_quota,
            3 => self.show_alerts = !self.show_alerts,
            4 => self.show_agents = !self.show_agents,
            5 => self.show_footer = !self.show_footer,
            _ => {},
        }
    }
}

impl Default for PanelState {
    /// Every panel shown, the help overlay hidden.
    fn default() -> (p: PanelState)
        ensures
            p == (PanelState {
                show_header: true,
                show_quota: true,
                show_alerts: true,
                show_agents: true,
                show_footer: true,
                show_help: false,
            }),
    {
        PanelState {
            show_header: true,
            show_quota: true,
            show_alerts: true,
            show_agents: true,
            show_footer: true,
            show_help: false,
        }
    }
}

/// `n` copies of `c`.
pub open spec fn repeat_char(c: char, n: nat) -> Seq<char> {
    Seq::new(n, |i: int| c)
}

/// `a - b`, or 0 when `b > a` (as `usize::saturating_sub`).
pub open spec fn sat_sub(a: int, b: int) -> nat {
    if a > b {
        (a - b) as nat
    } else {
        0
    }
}

/// Appends `n` copies of `c` to `s`.
fn push_repeat(s: &mut String, c: char, n: usize)
    ensures
        final(s)@ == old(s)@ + repeat_char(c, n as nat),
{
    let mut i: usize = 0;
    while i < n
        invariant
            i <= n,
            s@ == old(s)@ + repeat_char(c, i as nat),
        decreases n - i,
    {
        push_char(s, c);
        assert(repeat_char(c, (i + 1) as nat) == repeat_char(c, i as nat).push(c));
        i = i + 1;
    }
}

/// `text` cut to `width` characters; when it had to be cut and there is
/// room for more than one character, the last kept character becomes `~`.
pub open spec fn fitted(text: Seq<char>, width: nat) -> Seq<char> {
    if text.len() <= width {
        text
    } else if width > 1 {
        text.take(width - 1).push('~')
    } else {
        text.take(width as int)
    }
}

/// Cuts `text` to at most `width` characters, marking a cut with `~`.
pub fn fit_text(text: &str, width: usize) -> (res: String)
    ensures
        res@ == fitted(text@, width as nat),
{
    let v = chars_of(text);
    let mut out = String::new();
    if v.len() <= width {
        push_str(&mut out, text);
        return out;
    }
    let keep = if width > 1 {
        width - 1
    } else {
        width
    };
    let mut i: usize = 0;
    while i < keep
        invariant
            keep <= width < v.len(),
            i <= keep,
            out@ == v@.take(i as int),
        decreases keep - i,
    {
        push_char(&mut out, v[i]);
        assert(v@.take(i + 1) == v@.take(i as int).push(v@[i as int]));
        i = i + 1;
    }
    if width > 1 {
        push_char(&mut out, '~');
    }
    out
}

/// The top border of a panel of `width` columns titled `title`: `+`, the
/// title between spaces, dashes up to the width (counted in bytes), `+`.
pub open spec fn panel_top_text(title: Seq<char>, width: nat, label_bytes: nat) -> Seq<char> {
    seq!['+', ' '] + title + seq![' '] + repeat_char('-', sat_sub(sat_sub(width as int, 2) as int, label_bytes as int)) + seq!['+']
}

/// The top border of a panel.
pub fn panel_top(title: &str, width: usize) -> (res: String)
    ensures
        res@ == panel_top_text(
            title@,
            width as nat,
            vstd::utf8::encode_utf8(seq![' '] + title@ + seq![' ']).len(),
        ),
{
    let mut label = String::new();
    push_char(&mut label, ' ');
    push_str(&mut label, title);
    push_char(&mut label, ' ');
    let inner = width.saturating_sub(2);
    let mut out = String::new();
    push_char(&mut out, '+');
    push_str(&mut out, label.as_str());
    let label_bytes = label.as_str().as_bytes().len();
    push_repeat(&mut out, '-', inner.saturating_sub(label_bytes));
    push_char(&mut out, '+');
    assert(label@ =~= seq![' '] + title@ + seq![' ']);
    assert(out@ =~= panel_top_text(
        title@,
        width as nat,
        vstd::utf8::encode_utf8(seq![' '] + title@ + seq![' ']).len(),
    ));
    out
}

/// The bottom border of a panel of `width` columns.
pub open spec fn panel_bottom_text(width: nat) -> Seq<char> {
    seq!['+'] + repeat_char('-', sat_sub(width as int, 2)) + seq!['+']
}

/// The bottom border of a panel.
pub fn panel_bottom(width: usize) -> (res: String)
    ensures
        res@ == panel_bottom_text(width as nat),
{
    let mut out = String::new();
    push_char(&mut out, '+');
    push_repeat(&mut out, '-', width.saturating_sub(2));
    push_char(&mut out, '+');
    out
}

/// A content line of a panel: `| `, the fitted text padded with spaces to
/// the inner width, ` |`.
pub open spec fn panel_line_text(text: Seq<char>, width: nat) -> Seq<char> {
    let inner = sat_sub(width as int, 4);
    let f = fitted(text, inner);
    seq!['|', ' '] + f + repeat_char(' ', sat_sub(inner as int, f.len() as int)) + seq![' ', '|']
}

/// A content line of a panel.
pub fn panel_line(text: &str, width: usize) -> (res: String)
    ensures
        res@ == panel_line_text(text@, width as nat),
{
    let inner = width.saturating_sub(4);
    let f = fit_text(text, inner);
    let count = chars_of(f.as_str()).len();
    let padding = inner.saturating_sub(count);
    let mut out = String::new();
    push_char(&mut out, '|');
    push_char(&mut out, ' ');
    push_str(&mut out, f.as_str());
    push_repeat(&mut out, ' ', padding);
    push_char(&mut out, ' ');
    push_char(&mut out, '|');
    assert(out@ =~= panel_line_text(text@, width as nat));
    out
}

/// Width of a usage bar for a terminal `width` columns wide.
pub open spec fn bar_width_for(width: nat) -> nat {
    if width >= 120 {
        28
    } else if width >= 90 {
        22
    } else {
        16
    }
}

/// Width of a usage bar for a terminal `width` columns wide.
pub fn bar_width(width: usize) -> (w: usize)
    ensures
        w == bar_width_for(width as nat),
{
    if width >= 120 {
        28
    } else if width >= 90 {
        22
    } else {
        16
    }
}

/// The monitor's refresh interval for a watch interval (0 meaning unset).
pub fn monitor_interval(watch: u64) -> (secs: u64)
    ensures
        watch == 0 ==> secs == DEFAULT_WATCH_INTERVAL,
        watch != 0 ==> secs == watch,
        secs >= 1,
{
    if watch == 0 {
        DEFAULT_WATCH_INTERVAL
    } else if watch > 1 {
        watch
    } else {
        1
    }
}

/// A key press the monitor reacts to.
#[derive(Debug, Clone, Copy, PartialEq, Eq, Structural)]
pub enum MonitorKey {
    /// `q` or Esc.
    Quit,
    /// Ctrl-C.
    Interrupt,
    /// `r`.
    Refresh,
    /// `?`.
    Help,
    /// A digit key.
    Panel(u8),
    /// Tab.
    NextAccount,
    /// Any other key.
    Other,
}

/// The monitor's interactive state.
#[derive(Debug, Clone, Copy, PartialEq, Eq, Structural)]
pub struct MonitorState {
    pub panels: PanelState,
    /// Index of the account shown (meaningful with more than one account).
    pub current_account: usize,
    /// How many accounts are configured.
    pub account_count: usize,
    /// A refresh was asked for and has not happened yet.
    pub force_refresh: bool,
    /// Clock time (ms) of the next scheduled refresh.
    pub next_refresh_ms: u64,
}

impl MonitorState {
    /// The state after a key press: quit keys end the monitor with an exit
    /// code (0, or 130 for Ctrl-C); `r` asks for a refresh; `?` flips the
    /// help overlay; digits toggle panels; Tab moves to the next account
    /// (wrapping to the first) and asks for a refresh when there is more than
    /// one account.
    pub open spec fn after_key(self, key: MonitorKey) -> (MonitorState, Option<i32>) {
        match key {
            MonitorKey::Quit => (self, Some(0)),
            MonitorKey::Interrupt => (self, Some(130)),
            MonitorKey::Refresh => (MonitorState { force_refresh: true, ..self }, None),
            MonitorKey::Help => (
                MonitorState {
                    panels: PanelState { show_help: !self.panels.show_help, ..self.panels },
                    ..self
                },
                None,
            ),
            MonitorKey::Panel(n) => (
                MonitorState { panels: self.panels.toggled(n), ..self },
                None,
            ),
            MonitorKey::NextAccount => if self.account_count > 1 {
                (
                    MonitorState {
                        current_account: if self.current_account + 1 < self.account_count {
                            (self.current_account + 1) as usize
                        } else {
                            0
                        },
                        force_refresh: true,
                        ..self
                    },
                    None,
                )
            } else {
                (self, None)
            },
            MonitorKey::Other => (self, None),
        }
    }

    /// The start state: all panels but help shown, the given account (kept
    /// in range) selected, a refresh due at once.
    pub fn new(account_count: usize, initial_account: usize) -> (s: MonitorState)
        ensures
            s.panels == (PanelState {
                show_header: true,
                show_quota: true,
                show_alerts: true,
                show_agents: true,
                show_footer: true,
                show_help: false,
            }),
            s.account_count == account_count,
            account_count > 0 ==> s.current_account == if initial_account < account_count {
                initial_account
            } else {
                (account_count - 1) as usize
            },
            account_count == 0 ==> s.current_account == 0,
            s.force_refresh,
            s.next_refresh_ms == 0,
    {
        let current_account = if account_count > 0 {
            if initial_account < account_count {
                initial_account
            } else {
                account_count - 1
            }
        } else {
            0
        };
        MonitorState {
            panels: PanelState::default(),
            current_account,
            account_count,
            force_refresh: true,
            next_refresh_ms: 0,
        }
    }

    /// Applies a key press; returns the exit code when the monitor should end.
    pub fn handle_key(&mut self, key: MonitorKey) -> (exit: Option<i32>)
        ensures
            (*final(self), exit) == old(self).after_key(key),
    {
        match key {
            MonitorKey::Quit => Some(0),
            MonitorKey::Interrupt => Some(130),
            MonitorKey::Refresh => {
                self.force_refresh = true;
                None
            },
            MonitorKey::Help => {
                self.panels.show_help = !self.panels.show_help;
                None
            },
            MonitorKey::Panel(n) => {
                self.panels.toggle(n);
                None
            },
            MonitorKey::NextAccount => {
                if self.account_count > 1 {
                    self.current_account = if self.current_account < self.account_count - 1 {
                        self.current_account + 1
                    } else {
                        0
                    };
                    self.force_refresh = true;
                }
                None
            },
            MonitorKey::Other => None,
        }
    }

    /// Whether a refresh is due at clock time `now` (ms).
    pub fn refresh_due(&self, now_ms: u64) -> (due: bool)
        ensures
            due == (self.force_refresh || now_ms >= self.next_refresh_ms),
    {
        self.force_refresh || now_ms >= self.next_refresh_ms
    }

    /// Notes a refresh made at `now` (ms); the next one is `interval_ms` later.
    pub fn mark_refreshed(&mut self, now_ms: u64, interval_ms: u64)
        ensures
            !final(self).force_refresh,
            final(self).next_refresh_ms == if now_ms + interval_ms > u64::MAX {
                u64::MAX as int
            } else {
                now_ms + interval_ms
            },
            final(self).panels == old(self).panels,
            final(self).current_account == old(self).current_account,
            final(self).account_count == old(self).account_count,
    {
        self.force_refresh = false;
        self.next_refresh_ms = now_ms.saturating_add(interval_ms);
    }

    /// Whole seconds until the next scheduled refresh (0 when due).
    pub fn secs_until_refresh(&self, now_ms: u64) -> (secs: u64)
        ensures
            secs == sat_sub(self.next_refresh_ms as int, now_ms as int) / 1000,
    {
        self.next_refresh_ms.saturating_sub(now_ms) / 1000
    }

    /// The account to show, when there is more than one to choose from.
    pub fn selected_account(&self) -> (idx: Option<usize>)
        ensures
            self.account_count > 1 ==> idx == Some(self.current_account),
            self.account_count <= 1 ==> idx is None,
    {
        if self.account_count > 1 {
            Some(self.current_account)
        } else {
            None
        }
    }
}


/// How many recent peaks a window's sparkline keeps.
pub const SPARKLINE_LEN: usize = 20;

/// The most recent peak percentages of one quota window, oldest first.
#[derive(Debug)]
pub struct WindowHistory {
    values: VecDeque<u64>,
}

impl View for WindowHistory {
    type V = Seq<u64>;

    closed spec fn view(&self) -> Seq<u64> {
        self.values@
    }
}

/// `h` with `v` appended, dropping the oldest value when it is full.
pub open spec fn history_after(h: Seq<u64>, v: u64) -> Seq<u64> {
    if h.len() >= SPARKLINE_LEN {
        h.drop_first().push(v)
    } else {
        h.push(v)
    }
}

impl WindowHistory {
    /// An empty history with room for a full sparkline.
    pub fn new() -> (h: WindowHistory)
        ensures
            h@ == Seq::<u64>::empty(),
    {
        WindowHistory { values: VecDeque::with_capacity(SPARKLINE_LEN) }
    }

    /// Appends a peak, dropping the oldest one when the history is full.
    pub fn record(&mut self, peak: u64)
        ensures
            final(self)@ == history_after(old(self)@, peak),
    {
        broadcast use vstd::std_specs::vecdeque::group_vec_dequeue_axioms;

        if self.values.len() >= SPARKLINE_LEN {
            self.values.pop_front();
            assert(self.values@ == old(self)@.drop_first());
        }
        self.values.push_back(peak);
    }

    /// The recorded peaks, oldest first.
    pub fn sparkline_values(&self) -> (v: Vec<u64>)
        ensures
            v@ == self@,
    {
        broadcast use vstd::std_specs::vecdeque::group_vec_dequeue_axioms;

        let mut v: Vec<u64> = Vec::new();
        let mut i: usize = 0;
        while i < self.values.len()
            invariant
                i <= self.values@.len(),
                v@ == self.values@.take(i as int),
            decreases self.values@.len() - i,
        {
            v.push(self.values[i]);
            assert(self.values@.take(i + 1) == self.values@.take(i as int).push(self.values@[i as int]));
            i = i + 1;
        }
        assert(self.values@.take(self.values@.len() as int) == self.values@);
        v
    }
}

} // verus!
