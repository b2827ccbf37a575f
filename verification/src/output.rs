use vstd::prelude::*;

use crate::text::push_str;

verus! {

/// When a one-shot run should end with a non-zero exit code.
#[derive(Debug, Clone, Copy, PartialEq, Eq, Structural)]
pub enum FailOn {
    /// Always exit 0.
    Never,
    /// Exit 2 when some window is at warning or danger.
    Warning,
    /// Exit 3 when some window is at danger.
    Danger,
}

/// The fail-on policy a configuration value names (`warning`, `danger`,
/// anything else or nothing: never).
pub open spec fn fail_on_named(value: Option<Seq<char>>) -> FailOn {
    match value {
        Some(v) => if v == "warning"@ {
            FailOn::Warning
        } else if v == "danger"@ {
            FailOn::Danger
        } else {
            FailOn::Never
        },
        None => FailOn::Never,
    }
}

impl FailOn {
    /// The policy named by a configuration value.
    pub fn from_config(value: Option<&str>) -> (f: FailOn)
        ensures
            f == fail_on_named(match value {
                Some(v) => Some(v@),
                None => None,
            }),
    {
        match value {
            Some(v) => {
                let s = v.to_owned();
                if s == "warning".to_owned() {
                    FailOn::Warning
                } else if s == "danger".to_owned() {
                    FailOn::Danger
                } else {
                    FailOn::Never
                }
            },
            None => FailOn::Never,
        }
    }
}

/// Layout of the live monitor.
#[derive(Debug, Clone, Copy, PartialEq, Eq, Structural)]
pub enum Preset {
    Full,
    Compact,
    Mini,
}

/// The preset a configuration value names (`compact`, `mini`, anything else
/// or nothing: full).
pub open spec fn preset_named(value: Option<Seq<char>>) -> Preset {
    match value {
        Some(v) => if v == "compact"@ {
            Preset::Compact
        } else if v == "mini"@ {
            Preset::Mini
        } else {
            Preset::Full
        },
        None => Preset::Full,
    }
}

impl Preset {
    /// The preset named by a configuration value.
    pub fn from_config(value: Option<&str>) -> (p: Preset)
        ensures
            p == preset_named(match value {
                Some(v) => Some(v@),
                None => None,
            }),
    {
        match value {
            Some(v) => {
                let s = v.to_owned();
                if s == "compact".to_owned() {
                    Preset::Compact
                } else if s == "mini".to_owned() {
                    Preset::Mini
                } else {
                    Preset::Full
                }
            },
            None => Preset::Full,
        }
    }
}

/// Some window's level is `danger`.
pub open spec fn any_danger(levels: Seq<Seq<char>>) -> bool {
    exists|i: int| 0 <= i < levels.len() && #[trigger] levels[i] == "danger"@
}

/// Some window's level is `warning` or `danger`.
pub open spec fn any_warning(levels: Seq<Seq<char>>) -> bool {
    exists|i: int| 0 <= i < levels.len() && (#[trigger] levels[i] == "warning"@ || levels[i] == "danger"@)
}

/// The exit code of a one-shot run whose windows are at `levels`.
pub open spec fn exit_code_for(levels: Seq<Seq<char>>, fail_on: FailOn) -> i32 {
    match fail_on {
        FailOn::Never => 0,
        FailOn::Danger => if any_danger(levels) {
            3
        } else {
            0
        },
        FailOn::Warning => if any_warning(levels) {
            2
        } else {
            0
        },
    }
}

/// The exit code of a one-shot run, given each window's level text.
pub fn exit_code(levels: &Vec<String>, fail_on: FailOn) -> (code: i32)
    ensures
        code == exit_code_for(levels@.map_values(|s: String| s@), fail_on),
{
    let ghost lv = levels@.map_values(|s: String| s@);
    let danger = "danger".to_owned();
    let warning = "warning".to_owned();
    let mut seen_danger = false;
    let mut seen_warning = false;
    let mut i: usize = 0;
    while i < levels.len()
        invariant
            i <= levels.len(),
            lv == levels@.map_values(|s: String| s@),
            danger@ == "danger"@,
            warning@ == "warning"@,
            seen_danger <==> exists|j: int| 0 <= j < i && #[trigger] lv[j] == "danger"@,
            seen_warning <==> exists|j: int| 0 <= j < i && (#[trigger] lv[j] == "warning"@ || lv[j] == "danger"@),
        decreases levels.len() - i,
    {
        if levels[i] == danger {
            seen_danger = true;
            seen_warning = true;
        } else if levels[i] == warning {
            seen_warning = true;
        }
        assert(lv[i as int] == levels@[i as int]@);
        i = i + 1;
    }
    match fail_on {
        FailOn::Never => 0,
        FailOn::Danger => if seen_danger {
            3
        } else {
            0
        },
        FailOn::Warning => if seen_warning {
            2
        } else {
            0
        },
    }
}

/// The ANSI color code for a level: red for danger, yellow for warning,
/// green otherwise.
pub open spec fn level_color_code(level: Seq<char>) -> Seq<char> {
    if level == "danger"@ {
        "31"@
    } else if level == "warning"@ {
        "33"@
    } else {
        "32"@
    }
}

/// A level text wrapped in its ANSI color.
pub fn color_level(level: &str) -> (res: String)
    ensures
        res@ == "\x1b["@ + level_color_code(level@) + "m"@ + level@ + "\x1b[0m"@,
{
    let l = level.to_owned();
    let code = if l == "danger".to_owned() {
        "31"
    } else if l == "warning".to_owned() {
        "33"
    } else {
        "32"
    };
    let mut out = String::new();
    push_str(&mut out, "\x1b[");
    push_str(&mut out, code);
    push_str(&mut out, "m");
    push_str(&mut out, level);
    push_str(&mut out, "\x1b[0m");
    out
}


/// Whether a watch loop stops after a run that ended with `code`: a single
/// run (no interval) always stops; otherwise a failing run stops it when a
/// fail-on policy is set.
pub open spec fn watch_stops(watch_secs: u64, fail_on: FailOn, code: i32) -> bool {
    watch_secs == 0 || (fail_on != FailOn::Never && code != 0)
}

/// Whether the watch loop ends after a run that returned `code`.
pub fn watch_should_stop(watch_secs: u64, fail_on: FailOn, code: i32) -> (stop: bool)
    ensures
        stop == watch_stops(watch_secs, fail_on, code),
{
    watch_secs == 0 || (fail_on != FailOn::Never && code != 0)
}

/// `offline` while an outage is running, `online` otherwise.
pub fn api_status_label(offline_minutes: Option<u64>) -> (s: &'static str)
    ensures
        offline_minutes is Some ==> s@ == "offline"@,
        offline_minutes is None ==> s@ == "online"@,
{
    match offline_minutes {
        Some(_) => "offline",
        None => "online",
    }
}

} // verus!
