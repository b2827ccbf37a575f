use vstd::prelude::*;

use crate::strmap::StrMap;
use crate::text::{chars_of, push_char, push_str};

verus! {

/// How serious a quota window's state is.
#[derive(Debug, Clone, Copy, PartialEq, Eq, Structural)]
pub enum AlertLevel {
    Normal,
    Warning,
    Danger,
}

/// The alert level named by a window's level text.
pub open spec fn level_named(level: Seq<char>) -> AlertLevel {
    if level == "danger"@ {
        AlertLevel::Danger
    } else if level == "warning"@ {
        AlertLevel::Warning
    } else {
        AlertLevel::Normal
    }
}

impl AlertLevel {
    /// 1 for ok, 2 for warning, 3 for danger.
    pub open spec fn rank(self) -> u8 {
        match self {
            AlertLevel::Normal => 1,
            AlertLevel::Warning => 2,
            AlertLevel::Danger => 3,
        }
    }

    /// A rise in severity into a level that is not ok.
    pub open spec fn escalates_from(self, previous: AlertLevel) -> bool {
        self.rank() > previous.rank() && self != AlertLevel::Normal
    }

    /// The level that a window's level text names (`danger`, `warning`,
    /// anything else ok).
    pub fn from_summary(level: &str) -> (res: AlertLevel)
        ensures
            res == level_named(level@),
    {
        let l = level.to_owned();
        if l == "danger".to_owned() {
            AlertLevel::Danger
        } else if l == "warning".to_owned() {
            AlertLevel::Warning
        } else {
            AlertLevel::Normal
        }
    }

    /// The numeric severity.
    pub fn severity(self) -> (s: u8)
        ensures
            s == self.rank(),
    {
        match self {
            AlertLevel::Normal => 1,
            AlertLevel::Warning => 2,
            AlertLevel::Danger => 3,
        }
    }

    /// Whether going from `previous` to this level deserves an alert.
    pub fn is_escalation_from(self, previous: AlertLevel) -> (res: bool)
        ensures
            res == self.escalates_from(previous),
    {
        self.severity() > previous.severity() && self != AlertLevel::Normal
    }

    /// `ok`, `warning` or `danger`.
    pub fn label(self) -> (res: &'static str)
        ensures
            res@ == level_label(self),
    {
        match self {
            AlertLevel::Normal => "ok",
            AlertLevel::Warning => "warning",
            AlertLevel::Danger => "danger",
        }
    }
}

/// The lower-case name of a level.
pub open spec fn level_label(level: AlertLevel) -> Seq<char> {
    match level {
        AlertLevel::Normal => "ok"@,
        AlertLevel::Warning => "warning"@,
        AlertLevel::Danger => "danger"@,
    }
}

/// The most severe level named among `levels` (ok when there are none).
pub open spec fn worst_named(levels: Seq<Seq<char>>) -> AlertLevel
    decreases levels.len(),
{
    if levels.len() == 0 {
        AlertLevel::Normal
    } else {
        let earlier = worst_named(levels.drop_last());
        let last = level_named(levels.last());
        if last.rank() > earlier.rank() {
            last
        } else {
            earlier
        }
    }
}

/// The label of the most severe level among the windows' level texts
/// (`ok` when there are no windows).
pub fn worst_level(levels: &Vec<String>) -> (res: &'static str)
    ensures
        res@ == level_label(worst_named(levels@.map_values(|s: String| s@))),
{
    let ghost names = levels@.map_values(|s: String| s@);
    let mut worst = AlertLevel::Normal;
    let mut i: usize = 0;
    while i < levels.len()
        invariant
            i <= levels.len(),
            names == levels@.map_values(|s: String| s@),
            worst == worst_named(names.take(i as int)),
        decreases levels.len() - i,
    {
        let level = AlertLevel::from_summary(levels[i].as_str());
        assert(names.take(i + 1).drop_last() == names.take(i as int));
        if level.severity() > worst.severity() {
            worst = level;
        }
        i = i + 1;
    }
    assert(names.take(levels.len() as int) == names);
    worst.label()
}

/// A desktop notification to show.
#[derive(Debug, PartialEq, Eq)]
pub struct NotificationMessage {
    pub window: String,
    pub level: AlertLevel,
    pub title: String,
    pub body: String,
}

/// The notification title for a window entering `level`.
pub open spec fn notification_title(window: Seq<char>, level: AlertLevel) -> Seq<char> {
    if level == AlertLevel::Danger {
        "NeuroGate: "@ + window + " window critical"@
    } else {
        "NeuroGate: "@ + window + " window high usage"@
    }
}

/// The level last seen for `window`, ok when never seen.
pub open spec fn last_level(levels: Map<Seq<char>, AlertLevel>, window: Seq<char>) -> AlertLevel {
    if levels.dom().contains(window) {
        levels[window]
    } else {
        AlertLevel::Normal
    }
}

/// Whether observing `level` for `window` after `levels` raises a notification.
pub open spec fn notifies(
    levels: Map<Seq<char>, AlertLevel>,
    window: Seq<char>,
    level: Seq<char>,
) -> bool {
    level_named(level).escalates_from(last_level(levels, window))
}

/// Records the level now shown by `window` and, when it escalated (into
/// warning or danger, above what was last seen), returns the notification.
pub fn next_notification(
    last_levels: &mut StrMap<AlertLevel>,
    window: &str,
    window_level: &str,
    body: String,
) -> (msg: Option<NotificationMessage>)
    ensures
        final(last_levels)@ == old(last_levels)@.insert(window@, level_named(window_level@)),
        msg is Some <==> notifies(old(last_levels)@, window@, window_level@),
        msg matches Some(m) ==> m.window@ == window@ && m.level == level_named(window_level@)
            && m.title@ == notification_title(window@, m.level) && m.body@ == body@,
{
    let level = AlertLevel::from_summary(window_level);
    let previous = match last_levels.get(window) {
        Some(l) => *l,
        None => AlertLevel::Normal,
    };
    last_levels.insert(window.to_owned(), level);
    if !level.is_escalation_from(previous) {
        return None;
    }
    let mut title = String::new();
    push_str(&mut title, "NeuroGate: ");
    push_str(&mut title, window);
    match level {
        AlertLevel::Danger => push_str(&mut title, " window critical"),
        _ => push_str(&mut title, " window high usage"),
    }
    Some(NotificationMessage { window: window.to_owned(), level, title, body })
}

/// Sends desktop alerts when quota windows escalate; remembers each
/// window's last level so repeated polls do not repeat an alert.
#[derive(Debug)]
pub struct Notifier {
    pub enabled: bool,
    pub last_levels: StrMap<AlertLevel>,
    pub failure_reported: bool,
}

impl Notifier {
    /// A notifier with no history; `enabled` says whether it alerts at all.
    pub fn new(enabled: bool) -> (n: Notifier)
        ensures
            n.enabled == enabled,
            n.last_levels@ == Map::<Seq<char>, AlertLevel>::empty(),
            !n.failure_reported,
    {
        Notifier { enabled, last_levels: StrMap::new(), failure_reported: false }
    }

    /// Observes one window: a disabled notifier ignores it; an enabled one
    /// records its level and returns the notification on an escalation.
    pub fn observe(&mut self, window: &str, window_level: &str, body: String) -> (msg: Option<
        NotificationMessage,
    >)
        ensures
            final(self).enabled == old(self).enabled,
            final(self).failure_reported == old(self).failure_reported,
            !old(self).enabled ==> final(self).last_levels@ == old(self).last_levels@ && msg is None,
            old(self).enabled ==> final(self).last_levels@ == old(self).last_levels@.insert(
                window@,
                level_named(window_level@),
            ),
            old(self).enabled ==> (msg is Some <==> notifies(
                old(self).last_levels@,
                window@,
                window_level@,
            )),
            msg matches Some(m) ==> m.window@ == window@ && m.level == level_named(window_level@)
                && m.title@ == notification_title(window@, m.level) && m.body@ == body@,
    {
        if !self.enabled {
            return None;
        }
        next_notification(&mut self.last_levels, window, window_level, body)
    }

    /// Notes that delivering a notification failed; true only the first
    /// time, so the failure is reported once.
    pub fn note_failure(&mut self) -> (first: bool)
        ensures
            first == !old(self).failure_reported,
            final(self).failure_reported,
            final(self).enabled == old(self).enabled,
            final(self).last_levels@ == old(self).last_levels@,
    {
        let first = !self.failure_reported;
        self.failure_reported = true;
        first
    }
}

/// `notify-send` urgency for a level.
pub open spec fn urgency_text(level: AlertLevel) -> Seq<char> {
    match level {
        AlertLevel::Danger => "critical"@,
        AlertLevel::Warning => "normal"@,
        AlertLevel::Normal => "low"@,
    }
}

/// The `notify-send` urgency for a level.
pub fn notify_urgency(level: AlertLevel) -> (res: &'static str)
    ensures
        res@ == urgency_text(level),
{
    match level {
        AlertLevel::Danger => "critical",
        AlertLevel::Warning => "normal",
        AlertLevel::Normal => "low",
    }
}

/// A character as it appears inside a single-quoted PowerShell string:
/// quotes doubled, line breaks turned into spaces.
pub open spec fn ps_char(c: char) -> Seq<char> {
    if c == '\'' {
        seq!['\'', '\'']
    } else if c == '\r' || c == '\n' {
        seq![' ']
    } else {
        seq![c]
    }
}

/// Text escaped for a single-quoted PowerShell string.
pub open spec fn ps_quoted(s: Seq<char>) -> Seq<char>
    decreases s.len(),
{
    if s.len() == 0 {
        Seq::empty()
    } else {
        ps_quoted(s.drop_last()) + ps_char(s.last())
    }
}

/// Escapes text for a single-quoted PowerShell string.
pub fn powershell_quote(text: &str) -> (res: String)
    ensures
        res@ == ps_quoted(text@),
{
    let v = chars_of(text);
    let mut out = String::new();
    let mut i: usize = 0;
    while i < v.len()
        invariant
            i <= v.len(),
            out@ == ps_quoted(v@.take(i as int)),
        decreases v.len() - i,
    {
        let c = v[i];
        if c == '\'' {
            push_char(&mut out, '\'');
            push_char(&mut out, '\'');
        } else if c == '\r' || c == '\n' {
            push_char(&mut out, ' ');
        } else {
            push_char(&mut out, c);
        }
        assert(v@.take(i + 1).drop_last() == v@.take(i as int));
        assert(out@ == ps_quoted(v@.take(i as int)) + ps_char(c));
        i = i + 1;
    }
    assert(v@.take(v.len() as int) == v@);
    out
}

/// A character as it appears inside a double-quoted AppleScript string.
pub open spec fn as_char(c: char) -> Seq<char> {
    if c == '\\' {
        seq!['\\', '\\']
    } else if c == '"' {
        seq!['\\', '"']
    } else {
        seq![c]
    }
}

/// Text escaped for a double-quoted AppleScript string.
pub open spec fn as_escaped(s: Seq<char>) -> Seq<char>
    decreases s.len(),
{
    if s.len() == 0 {
        Seq::empty()
    } else {
        as_escaped(s.drop_last()) + as_char(s.last())
    }
}

/// Text as a double-quoted AppleScript string literal.
pub fn applescript_quote(text: &str) -> (res: String)
    ensures
        res@ == seq!['"'] + as_escaped(text@) + seq!['"'],
{
    let v = chars_of(text);
    let mut out = String::new();
    push_char(&mut out, '"');
    let mut i: usize = 0;
    while i < v.len()
        invariant
            i <= v.len(),
            out@ == seq!['"'] + as_escaped(v@.take(i as int)),
        decreases v.len() - i,
    {
        let c = v[i];
        if c == '\\' {
            push_char(&mut out, '\\');
            push_char(&mut out, '\\');
        } else if c == '"' {
            push_char(&mut out, '\\');
            push_char(&mut out, '"');
        } else {
            push_char(&mut out, c);
        }
        assert(v@.take(i + 1).drop_last() == v@.take(i as int));
        assert(out@ == seq!['"'] + as_escaped(v@.take(i as int)) + as_char(c));
        i = i + 1;
    }
    assert(v@.take(v.len() as int) == v@);
    push_char(&mut out, '"');
    out
}

} // verus!
