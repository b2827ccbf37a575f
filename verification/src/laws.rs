//! Properties of the library that span several calls or all inputs.

use vstd::prelude::*;

use crate::api::{
    backoff_ms, me_outcome_text, missing_key_message, pow2, retryable, status_error_text,
    status_hint, MeReply, BASE_DELAY_MS,
};
use crate::config::{key_aliases, lookup_keys, nonempty_value};
use crate::dotenv::{line_meaning, parse_lines, unquote};
use crate::monitor::{
    MonitorKey, MonitorState,
    fitted, history_after, panel_bottom_text, panel_line_text, sat_sub, PanelState, SPARKLINE_LEN,
};
use crate::notify::{last_level, level_named, notifies, AlertLevel};
use crate::offline::{offline_after, OfflineState};
use crate::output::{exit_code_for, watch_stops, FailOn};
use crate::order::{lemma_lt_asym, seq_lt, strictly_sorted};
use crate::router::{wrap_index, RouterModel};
use crate::text::{digit_char, int_text, nat_text, occurs_at, seq_contains, trim};
use crate::theme::{theme_name, theme_named, Theme};
use crate::update::{check_due, UpdateState, CHECK_INTERVAL_SECS};

verus! {

/// A comment line (first non-blank character `#`) adds nothing to a `.env` file.
pub proof fn law_comment_lines_ignored(lines: Seq<Seq<char>>, comment: Seq<char>)
    requires
        trim(comment).len() > 0,
        trim(comment)[0] == '#',
    ensures
        parse_lines(lines.push(comment)) == parse_lines(lines),
{
    assert(lines.push(comment).drop_last() == lines);
    assert(line_meaning(comment) is Blank);
}

/// A later assignment of a key overrides an earlier one.
pub proof fn law_last_assignment_wins(lines: Seq<Seq<char>>, line: Seq<char>)
    requires
        parse_lines(lines) is Ok,
        line_meaning(line) is Assign,
    ensures
        parse_lines(lines.push(line)) == Ok::<Map<Seq<char>, Seq<char>>, nat>(
            parse_lines(lines)->Ok_0.insert(line_meaning(line)->Assign_0, line_meaning(line)->Assign_1),
        ),
{
    assert(lines.push(line).drop_last() == lines);
}

/// Quoting a value and unquoting it gives it back.
pub proof fn law_unquote_quoted(x: Seq<char>)
    ensures
        unquote(seq!['"'] + x + seq!['"']) == x,
        unquote(seq!['\''] + x + seq!['\'']) == x,
{
    let a = seq!['"'] + x + seq!['"'];
    assert(a.subrange(1, a.len() - 1) =~= x);
    let b = seq!['\''] + x + seq!['\''];
    assert(b.subrange(1, b.len() - 1) =~= x);
}

/// For each spelling of a key, a non-empty environment variable wins over
/// the `.env` file: when the first spelling is set in the environment, its
/// value is the result whatever the `.env` file says.
pub proof fn law_environment_wins(
    key: Seq<char>,
    env: Map<Seq<char>, String>,
    dotenv: Map<Seq<char>, String>,
)
    requires
        nonempty_value(env, key_aliases(key)[0]) is Some,
    ensures
        lookup_keys(key_aliases(key), env, dotenv) == Some(
            (key_aliases(key)[0], nonempty_value(env, key_aliases(key)[0])->Some_0),
        ),
{
}

/// The old `NEUROGATE_API_KEY` spelling still supplies the API key when the
/// current spellings are unset or empty everywhere.
pub proof fn law_deprecated_key_fallback(
    env: Map<Seq<char>, String>,
    dotenv: Map<Seq<char>, String>,
    value: Seq<char>,
)
    requires
        nonempty_value(env, "VIBEMODE_API_KEY"@) is None,
        nonempty_value(dotenv, "VIBEMODE_API_KEY"@) is None,
        nonempty_value(env, "VIBEMOD_API_KEY"@) is None,
        nonempty_value(dotenv, "VIBEMOD_API_KEY"@) is None,
        nonempty_value(env, "NEUROGATE_API_KEY"@) == Some(value),
    ensures
        lookup_keys(key_aliases("VIBEMODE_API_KEY"@), env, dotenv) == Some(
            ("NEUROGATE_API_KEY"@, value),
        ),
{
    let ks = key_aliases("VIBEMODE_API_KEY"@);
    assert(ks == seq!["VIBEMODE_API_KEY"@, "VIBEMOD_API_KEY"@, "NEUROGATE_API_KEY"@]);
    assert(lookup_keys(ks, env, dotenv) == lookup_keys(ks.drop_first(), env, dotenv));
    assert(ks.drop_first()[0] == "VIBEMOD_API_KEY"@);
    assert(lookup_keys(ks.drop_first(), env, dotenv) == lookup_keys(
        ks.drop_first().drop_first(),
        env,
        dotenv,
    ));
    assert(ks.drop_first().drop_first()[0] == "NEUROGATE_API_KEY"@);
}

/// Failover never lands on an endpoint that is cooling down: either the
/// router moves to one that is available, or it stays because every other
/// endpoint is cooling down.
pub proof fn law_failover_avoids_degraded(m: RouterModel, now: nat, offset: nat)
    requires
        m.wf(),
        offset >= 1,
    ensures
        m.failover_target(now, offset) != m.current ==> !m.is_degraded(
            m.failover_target(now, offset),
            now,
        ),
        m.failover_target(now, offset) == m.current ==> forall|o: nat|
            offset <= o < m.endpoints.len() ==> m.is_degraded(
                #[trigger] wrap_index(m.current, o, m.endpoints.len()),
                now,
            ),
    decreases m.endpoints.len() - offset,
{
    if offset < m.endpoints.len() {
        if m.is_degraded(wrap_index(m.current, offset, m.endpoints.len()), now) {
            law_failover_avoids_degraded(m, now, offset + 1);
        }
    }
}

/// From a clean count, the first two failures keep the active endpoint and
/// the third trips the threshold.
pub proof fn law_third_failure_trips(m: RouterModel, t1: nat, t2: nat)
    requires
        m.wf(),
        m.failures[m.current as int] == 0,
    ensures
        !m.failure_trips(),
        m.after_failure(t1).current == m.current,
        !m.after_failure(t1).failure_trips(),
        m.after_failure(t1).after_failure(t2).current == m.current,
        m.after_failure(t1).after_failure(t2).failure_trips(),
{
}

/// A success clears the count, so the next failure never trips.
pub proof fn law_success_resets(m: RouterModel, now: nat)
    requires
        m.wf(),
    ensures
        !m.after_success().failure_trips(),
        m.after_success().after_failure(now).current == m.current,
{
}

/// A router with a single endpoint never moves.
pub proof fn law_single_endpoint_stays(m: RouterModel, now: nat)
    requires
        m.wf(),
        m.endpoints.len() == 1,
    ensures
        m.after_failure(now).current == m.current,
{
}

/// During an outage, the start of the streak is the first failure: later
/// failures do not move it, and a success ends the outage.
pub proof fn law_outage_starts_at_first_failure(s: OfflineState, t1: u64, t2: u64, t3: u64)
    requires
        s.since_ms is None,
    ensures
        offline_after(offline_after(s, true, t1), true, t2).since_ms == Some(t1),
        offline_after(offline_after(s, true, t1), false, t3).since_ms is None,
{
}

/// Repeating the level a window already showed never alerts again.
pub proof fn law_no_repeat_alert(levels: Map<Seq<char>, AlertLevel>, w: Seq<char>, level: Seq<char>)
    ensures
        !notifies(levels.insert(w, level_named(level)), w, level),
{
}

/// Falling back to a lower level (or ok) is silent.
pub proof fn law_deescalation_silent(
    levels: Map<Seq<char>, AlertLevel>,
    w: Seq<char>,
    level: Seq<char>,
)
    requires
        level_named(level).rank() <= last_level(levels, w).rank(),
    ensures
        !notifies(levels, w, level),
{
}

/// Rising into warning or danger always alerts.
pub proof fn law_escalation_alerts(levels: Map<Seq<char>, AlertLevel>, w: Seq<char>, level: Seq<char>)
    requires
        level_named(level) != AlertLevel::Normal,
        level_named(level).rank() > last_level(levels, w).rank(),
    ensures
        notifies(levels, w, level),
{
}

/// Observing one window leaves every other window's history alone.
pub proof fn law_windows_independent(
    levels: Map<Seq<char>, AlertLevel>,
    w: Seq<char>,
    level: Seq<char>,
    other: Seq<char>,
)
    requires
        other != w,
    ensures
        last_level(levels.insert(w, level_named(level)), other) == last_level(levels, other),
{
}

/// Failing on warning is at least as strict as failing on danger.
pub proof fn law_warning_policy_stricter(levels: Seq<Seq<char>>)
    ensures
        exit_code_for(levels, FailOn::Danger) != 0 ==> exit_code_for(levels, FailOn::Warning) != 0,
        exit_code_for(levels, FailOn::Never) == 0,
{
    if exit_code_for(levels, FailOn::Danger) != 0 {
        let i = choose|i: int| 0 <= i < levels.len() && #[trigger] levels[i] == "danger"@;
        assert(levels[i] == "warning"@ || levels[i] == "danger"@);
    }
}

/// Every theme is found again under its own name.
pub proof fn law_theme_name_roundtrip(t: Theme)
    ensures
        theme_named(theme_name(t)) == Some(t),
        theme_name(t).len() > 0,
{
    reveal_strlit("btop");
    reveal_strlit("dracula");
    reveal_strlit("catppuccin");
    reveal_strlit("tokyo-night");
    reveal_strlit("tokyonight");
    reveal_strlit("tokyo_night");
    reveal_strlit("gruvbox");
    reveal_strlit("nord");
    reveal_strlit("high-contrast");
    reveal_strlit("high_contrast");
    reveal_strlit("highcontrast");
    reveal_strlit("protanopia");
    reveal_strlit("deuteranopia");
    reveal_strlit("tritanopia");
    reveal_strlit("solarized");
    reveal_strlit("monokai");
    match t {
        Theme::Btop => {

        },
        Theme::Dracula => {
            assert("dracula"@.len() != "btop"@.len());
        },
        Theme::Catppuccin => {
            assert("catppuccin"@.len() != "btop"@.len());
            assert("catppuccin"@.len() != "dracula"@.len());
        },
        Theme::TokyoNight => {
            assert("tokyo-night"@.len() != "btop"@.len());
            assert("tokyo-night"@.len() != "dracula"@.len());
            assert("tokyo-night"@.len() != "catppuccin"@.len());
        },
        Theme::Gruvbox => {
            assert("gruvbox"@.len() != "btop"@.len());
            assert("gruvbox"@[0] != "dracula"@[0]);
            assert("gruvbox"@.len() != "catppuccin"@.len());
            assert("gruvbox"@.len() != "tokyo-night"@.len());
            assert("gruvbox"@.len() != "tokyonight"@.len());
            assert("gruvbox"@.len() != "tokyo_night"@.len());
        },
        Theme::Nord => {
            assert("nord"@[0] != "btop"@[0]);
            assert("nord"@.len() != "dracula"@.len());
            assert("nord"@.len() != "catppuccin"@.len());
            assert("nord"@.len() != "tokyo-night"@.len());
            assert("nord"@.len() != "tokyonight"@.len());
            assert("nord"@.len() != "tokyo_night"@.len());
            assert("nord"@.len() != "gruvbox"@.len());
        },
        Theme::HighContrast => {
            assert("high-contrast"@.len() != "btop"@.len());
            assert("high-contrast"@.len() != "dracula"@.len());
            assert("high-contrast"@.len() != "catppuccin"@.len());
            assert("high-contrast"@.len() != "tokyo-night"@.len());
            assert("high-contrast"@.len() != "tokyonight"@.len());
            assert("high-contrast"@.len() != "tokyo_night"@.len());
            assert("high-contrast"@.len() != "gruvbox"@.len());
            assert("high-contrast"@.len() != "nord"@.len());
        },
        Theme::Protanopia => {
            assert("protanopia"@.len() != "btop"@.len());
            assert("protanopia"@.len() != "dracula"@.len());
            assert("protanopia"@[0] != "catppuccin"@[0]);
            assert("protanopia"@.len() != "tokyo-night"@.len());
            assert("protanopia"@[0] != "tokyonight"@[0]);
            assert("protanopia"@.len() != "tokyo_night"@.len());
            assert("protanopia"@.len() != "gruvbox"@.len());
            assert("protanopia"@.len() != "nord"@.len());
            assert("protanopia"@.len() != "high-contrast"@.len());
            assert("protanopia"@.len() != "high_contrast"@.len());
            assert("protanopia"@.len() != "highcontrast"@.len());
        },
        Theme::Deuteranopia => {
            assert("deuteranopia"@.len() != "btop"@.len());
            assert("deuteranopia"@.len() != "dracula"@.len());
            assert("deuteranopia"@.len() != "catppuccin"@.len());
            assert("deuteranopia"@.len() != "tokyo-night"@.len());
            assert("deuteranopia"@.len() != "tokyonight"@.len());
            assert("deuteranopia"@.len() != "tokyo_night"@.len());
            assert("deuteranopia"@.len() != "gruvbox"@.len());
            assert("deuteranopia"@.len() != "nord"@.len());
            assert("deuteranopia"@.len() != "high-contrast"@.len());
            assert("deuteranopia"@.len() != "high_contrast"@.len());
            assert("deuteranopia"@[0] != "highcontrast"@[0]);
            assert("deuteranopia"@.len() != "protanopia"@.len());
        },
        Theme::Tritanopia => {
            assert("tritanopia"@.len() != "btop"@.len());
            assert("tritanopia"@.len() != "dracula"@.len());
            assert("tritanopia"@[0] != "catppuccin"@[0]);
            assert("tritanopia"@.len() != "tokyo-night"@.len());
            assert("tritanopia"@[1] != "tokyonight"@[1]);
            assert("tritanopia"@.len() != "tokyo_night"@.len());
            assert("tritanopia"@.len() != "gruvbox"@.len());
            assert("tritanopia"@.len() != "nord"@.len());
            assert("tritanopia"@.len() != "high-contrast"@.len());
            assert("tritanopia"@.len() != "high_contrast"@.len());
            assert("tritanopia"@.len() != "highcontrast"@.len());
            assert("tritanopia"@[0] != "protanopia"@[0]);
            assert("tritanopia"@.len() != "deuteranopia"@.len());
        },
        Theme::Solarized => {
            assert("solarized"@.len() != "btop"@.len());
            assert("solarized"@.len() != "dracula"@.len());
            assert("solarized"@.len() != "catppuccin"@.len());
            assert("solarized"@.len() != "tokyo-night"@.len());
            assert("solarized"@.len() != "tokyonight"@.len());
            assert("solarized"@.len() != "tokyo_night"@.len());
            assert("solarized"@.len() != "gruvbox"@.len());
            assert("solarized"@.len() != "nord"@.len());
            assert("solarized"@.len() != "high-contrast"@.len());
            assert("solarized"@.len() != "high_contrast"@.len());
            assert("solarized"@.len() != "highcontrast"@.len());
            assert("solarized"@.len() != "protanopia"@.len());
            assert("solarized"@.len() != "deuteranopia"@.len());
            assert("solarized"@.len() != "tritanopia"@.len());
        },
        Theme::Monokai => {
            assert("monokai"@.len() != "btop"@.len());
            assert("monokai"@[0] != "dracula"@[0]);
            assert("monokai"@.len() != "catppuccin"@.len());
            assert("monokai"@.len() != "tokyo-night"@.len());
            assert("monokai"@.len() != "tokyonight"@.len());
            assert("monokai"@.len() != "tokyo_night"@.len());
            assert("monokai"@[0] != "gruvbox"@[0]);
            assert("monokai"@.len() != "nord"@.len());
            assert("monokai"@.len() != "high-contrast"@.len());
            assert("monokai"@.len() != "high_contrast"@.len());
            assert("monokai"@.len() != "highcontrast"@.len());
            assert("monokai"@.len() != "protanopia"@.len());
            assert("monokai"@.len() != "deuteranopia"@.len());
            assert("monokai"@.len() != "tritanopia"@.len());
            assert("monokai"@.len() != "solarized"@.len());
        },
    }
}

/// Toggling a panel twice restores the layout.
pub proof fn law_toggle_involution(p: PanelState, panel: u8)
    ensures
        p.toggled(panel).toggled(panel) == p,
{
}

/// A fitted text never exceeds the width, and a text that fits is unchanged.
pub proof fn law_fit_within_width(text: Seq<char>, width: nat)
    ensures
        fitted(text, width).len() <= width,
        text.len() <= width ==> fitted(text, width) == text,
{
}

/// Panel lines and bottom borders are exactly as wide as the panel.
pub proof fn law_panel_width(text: Seq<char>, width: nat)
    requires
        width >= 4,
    ensures
        panel_line_text(text, width).len() == width,
        panel_bottom_text(width).len() == width,
{
    law_fit_within_width(text, sat_sub(width as int, 4));
}

/// Within a day of a check, no background check is due.
pub proof fn law_checks_at_most_daily(state: &UpdateState, last: u64, now: u64)
    requires
        state.last_update_check == Some(last),
        last <= now < last + CHECK_INTERVAL_SECS,
    ensures
        !check_due(state, now),
{
}

/// A sparkline history never holds more than its capacity, and its newest
/// value is the one just recorded.
pub proof fn law_history_bounded(h: Seq<u64>, v: u64)
    requires
        h.len() <= SPARKLINE_LEN,
    ensures
        history_after(h, v).len() <= SPARKLINE_LEN,
        history_after(h, v).last() == v,
        h.len() < SPARKLINE_LEN ==> history_after(h, v).len() == h.len() + 1,
{
}

/// The back-off before a retry is the doubled base delay plus a jitter of
/// at most half of it.
pub proof fn law_backoff_bounds(attempt: nat, random: nat)
    ensures
        BASE_DELAY_MS * pow2(attempt) <= backoff_ms(attempt, random),
        backoff_ms(attempt, random) <= BASE_DELAY_MS * pow2(attempt) + (BASE_DELAY_MS * pow2(
            attempt,
        )) / 2,
        backoff_ms(attempt, random) < BASE_DELAY_MS * pow2(attempt) + 500,
{
}

/// A strictly sorted list of names (as `list_names` returns) holds each
/// name once.
pub proof fn law_sorted_names_distinct(names: Seq<Seq<char>>, i: int, j: int)
    requires
        strictly_sorted(names),
        0 <= i < j < names.len(),
    ensures
        names[i] != names[j],
{
    assert(seq_lt(names[i], names[j]));
    if names[i] == names[j] {
        lemma_lt_asym(names[i], names[j]);
    }
}

/// Errors never show the API key: with the same reply from the server, any
/// two non-empty keys give the same outcome, and an empty key is refused
/// with the same message whatever the reply.
pub proof fn law_fetch_outcome_ignores_key(k1: Seq<char>, k2: Seq<char>, reply: MeReply)
    ensures
        k1.len() > 0 && k2.len() > 0 ==> me_outcome_text(k1, reply) == me_outcome_text(k2, reply),
        me_outcome_text(Seq::empty(), reply) == Err::<(), Seq<char>>(missing_key_message()),
{
}

/// For every spelling of the API base key, the current spelling
/// `VIBEMODE_API_BASE` is consulted first and the old `NEUROGATE_API_BASE`
/// last: a non-empty `VIBEMODE_API_BASE`, in the environment or else in the
/// `.env` file, is the resolved base whatever the other spellings say.
pub proof fn law_current_base_spelling_first(
    key: Seq<char>,
    env: Map<Seq<char>, String>,
    dotenv: Map<Seq<char>, String>,
)
    requires
        key == "VIBEMODE_API_BASE"@ || key == "VIBEMOD_API_BASE"@ || key == "NEUROGATE_API_BASE"@,
    ensures
        key_aliases(key) == seq!["VIBEMODE_API_BASE"@, "VIBEMOD_API_BASE"@, "NEUROGATE_API_BASE"@],
        env.dom().contains("VIBEMODE_API_BASE"@) && env["VIBEMODE_API_BASE"@]@.len() > 0
            ==> lookup_keys(key_aliases(key), env, dotenv) == Some(
            ("VIBEMODE_API_BASE"@, env["VIBEMODE_API_BASE"@]@),
        ),
        !(env.dom().contains("VIBEMODE_API_BASE"@) && env["VIBEMODE_API_BASE"@]@.len() > 0)
            && dotenv.dom().contains("VIBEMODE_API_BASE"@) && dotenv["VIBEMODE_API_BASE"@]@.len()
            > 0 ==> lookup_keys(key_aliases(key), env, dotenv) == Some(
            ("VIBEMODE_API_BASE"@, dotenv["VIBEMODE_API_BASE"@]@),
        ),
{
    let ks = seq!["VIBEMODE_API_BASE"@, "VIBEMOD_API_BASE"@, "NEUROGATE_API_BASE"@];
    reveal_strlit("VIBEMODE_API_BASE");
    reveal_strlit("VIBEMOD_API_BASE");
    reveal_strlit("NEUROGATE_API_BASE");
    reveal_strlit("VIBEMODE_API_KEY");
    reveal_strlit("VIBEMOD_API_KEY");
    reveal_strlit("NEUROGATE_API_KEY");
    assert(key != "VIBEMODE_API_KEY"@ && key != "VIBEMOD_API_KEY"@ && key != "NEUROGATE_API_KEY"@) by {
        if key == "VIBEMODE_API_KEY"@ || key == "VIBEMOD_API_KEY"@ || key == "NEUROGATE_API_KEY"@ {
            assert(key[key.len() - 1] == 'Y');
        }
    }
    assert(key_aliases(key) == ks);
    assert(ks[0] == "VIBEMODE_API_BASE"@);
}

/// For every spelling of the API key, the current spelling
/// `VIBEMODE_API_KEY` is consulted first and the old `NEUROGATE_API_KEY`
/// last: a non-empty `VIBEMODE_API_KEY`, in the environment or else in the
/// `.env` file, is the resolved key whatever the other spellings say.
pub proof fn law_current_key_spelling_first(
    key: Seq<char>,
    env: Map<Seq<char>, String>,
    dotenv: Map<Seq<char>, String>,
)
    requires
        key == "VIBEMODE_API_KEY"@ || key == "VIBEMOD_API_KEY"@ || key == "NEUROGATE_API_KEY"@,
    ensures
        key_aliases(key) == seq!["VIBEMODE_API_KEY"@, "VIBEMOD_API_KEY"@, "NEUROGATE_API_KEY"@],
        env.dom().contains("VIBEMODE_API_KEY"@) && env["VIBEMODE_API_KEY"@]@.len() > 0
            ==> lookup_keys(key_aliases(key), env, dotenv) == Some(
            ("VIBEMODE_API_KEY"@, env["VIBEMODE_API_KEY"@]@),
        ),
        !(env.dom().contains("VIBEMODE_API_KEY"@) && env["VIBEMODE_API_KEY"@]@.len() > 0)
            && dotenv.dom().contains("VIBEMODE_API_KEY"@) && dotenv["VIBEMODE_API_KEY"@]@.len()
            > 0 ==> lookup_keys(key_aliases(key), env, dotenv) == Some(
            ("VIBEMODE_API_KEY"@, dotenv["VIBEMODE_API_KEY"@]@),
        ),
{
    let ks = seq!["VIBEMODE_API_KEY"@, "VIBEMOD_API_KEY"@, "NEUROGATE_API_KEY"@];
    assert(key_aliases(key) == ks);
    assert(ks[0] == "VIBEMODE_API_KEY"@);
}

/// Pressing `r` asks for a refresh at once and changes nothing else: the
/// refresh is then due whatever the clock says, and the monitor goes on.
pub proof fn law_refresh_key_forces_refresh(s: MonitorState)
    ensures
        s.after_key(MonitorKey::Refresh).0.force_refresh,
        s.after_key(MonitorKey::Refresh).0.panels == s.panels,
        s.after_key(MonitorKey::Refresh).0.current_account == s.current_account,
        s.after_key(MonitorKey::Refresh).0.account_count == s.account_count,
        s.after_key(MonitorKey::Refresh).0.next_refresh_ms == s.next_refresh_ms,
        s.after_key(MonitorKey::Refresh).1 is None,
{
}

/// Under `--fail-on danger` a window at danger, wherever it stands, makes the
/// exit code 3; under `--fail-on warning` a window at warning or danger makes
/// it 2; with no window at the level the code is 0, and without a policy it
/// is always 0.
pub proof fn law_exit_code_levels(levels: Seq<Seq<char>>, i: int)
    ensures
        0 <= i < levels.len() && levels[i] == "danger"@ ==> exit_code_for(levels, FailOn::Danger) == 3
            && exit_code_for(levels, FailOn::Warning) == 2,
        0 <= i < levels.len() && levels[i] == "warning"@ ==> exit_code_for(levels, FailOn::Warning)
            == 2,
        (forall|j: int| 0 <= j < levels.len() ==> levels[j] != "danger"@) ==> exit_code_for(
            levels,
            FailOn::Danger,
        ) == 0,
        (forall|j: int| 0 <= j < levels.len() ==> levels[j] != "danger"@ && levels[j]
            != "warning"@) ==> exit_code_for(levels, FailOn::Warning) == 0,
        exit_code_for(levels, FailOn::Never) == 0,
{
}

/// A single run (no watch interval) always ends the loop; while watching, a
/// failing run (non-zero code) ends it exactly when a fail-on policy is set.
pub proof fn law_watch_stops_on_failure(watch_secs: u64, fail_on: FailOn, code: i32)
    ensures
        watch_secs == 0 ==> watch_stops(watch_secs, fail_on, code),
        fail_on != FailOn::Never && code != 0 ==> watch_stops(watch_secs, fail_on, code),
        watch_secs > 0 && (fail_on == FailOn::Never || code == 0) ==> !watch_stops(
            watch_secs,
            fail_on,
            code,
        ),
{
}

/// Somewhere in `s` the character `a` is directly followed by `b`.
spec fn has_pair(s: Seq<char>, a: char, b: char) -> bool {
    exists|j: int| 0 <= j && j + 1 < s.len() && #[trigger] s[j] == a && s[j + 1] == b
}

/// A needle with an adjacent pair that never occurs in `hay` does not occur
/// in `hay`.
proof fn lemma_pair_blocks(hay: Seq<char>, needle: Seq<char>, k: int)
    requires
        0 <= k && k + 1 < needle.len(),
        !has_pair(hay, needle[k], needle[k + 1]),
    ensures
        !seq_contains(hay, needle),
{
    assert forall|i: int| !occurs_at(hay, needle, i) by {
        if occurs_at(hay, needle, i) {
            let w = hay.subrange(i, i + needle.len());
            assert(w[k] == needle[k] && w[k + 1] == needle[k + 1]);
            assert(hay[i + k] == needle[k] && hay[i + k + 1] == needle[k + 1]);
        }
    }
}

/// A pair missing from both parts, and not formed where they meet, is missing
/// from their concatenation.
proof fn lemma_pair_concat(x: Seq<char>, y: Seq<char>, a: char, b: char)
    requires
        !has_pair(x, a, b),
        !has_pair(y, a, b),
        !(x.len() > 0 && y.len() > 0 && x.last() == a && y[0] == b),
    ensures
        !has_pair(x + y, a, b),
{
    let z = x + y;
    assert forall|j: int| 0 <= j && j + 1 < z.len() && #[trigger] z[j] == a implies z[j + 1] != b by {
        if j + 1 < x.len() {
            assert(z[j] == x[j] && z[j + 1] == x[j + 1]);
        } else if j >= x.len() {
            assert(z[j] == y[j - x.len()] && z[j + 1] == y[j + 1 - x.len()]);
        } else {
            assert(z[j] == x.last() && z[j + 1] == y[0]);
        }
    }
}

/// The decimal text of a code in the 400s: `4` and two more digits.
proof fn lemma_four_hundreds_text(c: u16)
    requires
        400 <= c < 500,
    ensures
        int_text(c as int) == seq![digit_char(4), digit_char(((c / 10) % 10) as nat), digit_char((c % 10) as nat)],
        digit_char(4) == '4',
        forall|d: nat| d < 10 ==> ('0' <= #[trigger] digit_char(d) <= '9'),
        digit_char(((c / 10) % 10) as nat) == '2' && digit_char((c % 10) as nat) == '9' ==> c == 429,
{
    reveal_with_fuel(nat_text, 3);
    assert((c / 10) / 10 == 4);
    assert(nat_text((c / 10) as nat) == seq![digit_char(4)].push(digit_char(((c / 10) % 10) as nat)));
    assert(int_text(c as int) =~= seq![digit_char(4), digit_char(((c / 10) % 10) as nat), digit_char((c % 10) as nat)]);
}

/// The error text for status `c` in the 400s lacks the pair `a b` when the
/// pieces it is made of lack it and the pair is not formed where they meet.
proof fn lemma_client_text_lacks_pair(c: u16, a: char, b: char)
    requires
        400 <= c < 500,
        !has_pair("VibeMode /v1/me returned HTTP "@, a, b),
        !has_pair(int_text(c as int), a, b),
        status_hint(c).len() > 0 ==> !has_pair("\n  hint: "@ + status_hint(c), a, b),
        !(a == ' ' && b == '4'),
        !(('0' <= a <= '9') && b == '\n'),
    ensures
        !has_pair(status_error_text(c), a, b),
{
    let p = "VibeMode /v1/me returned HTTP "@;
    let d = int_text(c as int);
    let h = if status_hint(c).len() == 0 {
        Seq::<char>::empty()
    } else {
        "\n  hint: "@ + status_hint(c)
    };
    lemma_four_hundreds_text(c);
    reveal_strlit("VibeMode /v1/me returned HTTP ");
    reveal_strlit("\n  hint: ");
    assert(!has_pair(h, a, b));
    lemma_pair_concat(p, d, a, b);
    if h.len() > 0 {
        assert(h[0] == '\n');
        assert((p + d).last() == d.last());
    }
    lemma_pair_concat(p + d, h, a, b);
    assert(status_error_text(c) == p + d + h);
}

/// A client error other than 429 is permanent: the error text for any
/// status from 400 to 499 except 429 is not retryable, so the fetch loop
/// reports it at once instead of retrying or failing over.
pub proof fn law_client_errors_not_retried(c: u16)
    requires
        400 <= c < 500,
        c != 429,
    ensures
        !retryable(status_error_text(c)),
{
    let text = status_error_text(c);
    lemma_four_hundreds_text(c);
    let d = int_text(c as int);
    reveal_strlit("VibeMode /v1/me returned HTTP ");
    reveal_strlit("\n  hint: ");
    reveal_strlit("check your VIBEMODE_API_KEY");
    reveal_strlit("your API key does not have access");
    reveal_strlit("check VIBEMODE_API_BASE");
    reveal_strlit("HTTP 429");
    reveal_strlit("HTTP 5");
    reveal_strlit("cannot reach");
    reveal_strlit("timed out");
    reveal_strlit("connection");
    assert(!has_pair(d, '2', '9'));
    assert(!has_pair(d, ' ', '5'));
    assert(!has_pair(d, 'n', 'n'));
    assert(!has_pair(d, 'i', 'm'));
    assert(status_hint(c).len() > 0 ==> !has_pair("\n  hint: "@ + status_hint(c), '2', '9'));
    assert(status_hint(c).len() > 0 ==> !has_pair("\n  hint: "@ + status_hint(c), ' ', '5'));
    assert(status_hint(c).len() > 0 ==> !has_pair("\n  hint: "@ + status_hint(c), 'n', 'n'));
    assert(status_hint(c).len() > 0 ==> !has_pair("\n  hint: "@ + status_hint(c), 'i', 'm'));
    lemma_client_text_lacks_pair(c, '2', '9');
    lemma_client_text_lacks_pair(c, ' ', '5');
    lemma_client_text_lacks_pair(c, 'n', 'n');
    lemma_client_text_lacks_pair(c, 'i', 'm');
    lemma_pair_blocks(text, "HTTP 429"@, 6);
    lemma_pair_blocks(text, "HTTP 5"@, 4);
    lemma_pair_blocks(text, "cannot reach"@, 2);
    lemma_pair_blocks(text, "timed out"@, 1);
    lemma_pair_blocks(text, "connection"@, 2);
}

/// Rate limiting (429) and server errors (500 to 599) are transient: their
/// error texts are retryable, so the fetch loop backs off or fails over.
pub proof fn law_server_errors_retried(c: u16)
    requires
        c == 429 || 500 <= c < 600,
    ensures
        retryable(status_error_text(c)),
{
    let text = status_error_text(c);
    let p = "VibeMode /v1/me returned HTTP "@;
    reveal_strlit("VibeMode /v1/me returned HTTP ");
    reveal_strlit("HTTP 429");
    reveal_strlit("HTTP 5");
    reveal_with_fuel(nat_text, 3);
    assert((c / 10) / 10 == c / 100);
    let d = int_text(c as int);
    assert(d =~= seq![digit_char((c / 100) as nat), digit_char(((c / 10) % 10) as nat), digit_char((c % 10) as nat)]);
    assert(text[25] == 'H' && text[26] == 'T' && text[27] == 'T' && text[28] == 'P' && text[29] == ' ');
    assert(text[30] == digit_char((c / 100) as nat));
    if c == 429 {
        assert(text.subrange(25, 33) =~= "HTTP 429"@);
        assert(occurs_at(text, "HTTP 429"@, 25));
    } else {
        assert(text.subrange(25, 31) =~= "HTTP 5"@);
        assert(occurs_at(text, "HTTP 5"@, 25));
    }
}

} // verus!
