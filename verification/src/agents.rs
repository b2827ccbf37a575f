use vstd::prelude::*;

use crate::text::{nat_text, push_str, push_u64_text};

verus! {

/// Local agent activity as shown in the dashboard.
#[derive(Debug)]
pub struct AgentStatus {
    pub summary: String,
    pub token_rate: String,
}

/// Why the agent-status probe gave nothing usable.
#[derive(Debug, Clone, Copy, PartialEq, Eq, Structural)]
pub enum AgentProbeFailure {
    /// The status binary could not be started.
    NotFound,
    /// It ran but reported failure.
    Failed,
    /// Its output was not valid JSON.
    InvalidJson,
}

/// The token-rate line when the probe gave no data.
pub open spec fn no_rate_text() -> Seq<char> {
    "токены/мин: нет данных abtop"@
}

/// The summary line for a failed probe.
pub open spec fn failure_summary(f: AgentProbeFailure) -> Seq<char> {
    match f {
        AgentProbeFailure::NotFound => "агенты: abtop не найден; задайте ABTOP_BIN"@,
        AgentProbeFailure::Failed => "агенты: статус abtop недоступен"@,
        AgentProbeFailure::InvalidJson => "агенты: abtop вернул невалидный JSON"@,
    }
}

/// The summary line for a successful probe; `ctx` is the rendered peak
/// context usage.
pub open spec fn agents_summary_text(sessions: u64, active: u64, ctx: Seq<char>) -> Seq<char> {
    "агенты: сессий "@ + nat_text(sessions as nat) + ", активных "@ + nat_text(active as nat)
        + ", контекст макс. "@ + ctx
}

impl AgentStatus {
    /// The status shown when the probe failed.
    pub fn from_failure(f: AgentProbeFailure) -> (s: AgentStatus)
        ensures
            s.summary@ == failure_summary(f),
            s.token_rate@ == no_rate_text(),
    {
        let mut summary = String::new();
        match f {
            AgentProbeFailure::NotFound => push_str(
                &mut summary,
                "агенты: abtop не найден; задайте ABTOP_BIN",
            ),
            AgentProbeFailure::Failed => push_str(&mut summary, "агенты: статус abtop недоступен"),
            AgentProbeFailure::InvalidJson => push_str(
                &mut summary,
                "агенты: abtop вернул невалидный JSON",
            ),
        }
        let mut token_rate = String::new();
        push_str(&mut token_rate, "токены/мин: нет данных abtop");
        AgentStatus { summary, token_rate }
    }

    /// The status for a successful probe: session counts and peak context
    /// in the summary; the rendered rate, or the no-data line.
    pub fn from_counts(sessions: u64, active: u64, ctx: &str, rate: Option<&str>) -> (s:
        AgentStatus)
        ensures
            s.summary@ == agents_summary_text(sessions, active, ctx@),
            rate matches Some(r) ==> s.token_rate@ == "токены/мин: "@ + r@,
            rate is None ==> s.token_rate@ == no_rate_text(),
    {
        let mut summary = String::new();
        push_str(&mut summary, "агенты: сессий ");
        push_u64_text(&mut summary, sessions);
        push_str(&mut summary, ", активных ");
        push_u64_text(&mut summary, active);
        push_str(&mut summary, ", контекст макс. ");
        push_str(&mut summary, ctx);
        let mut token_rate = String::new();
        match rate {
            Some(r) => {
                push_str(&mut token_rate, "токены/мин: ");
                push_str(&mut token_rate, r);
            },
            None => push_str(&mut token_rate, "токены/мин: нет данных abtop"),
        }
        AgentStatus { summary, token_rate }
    }
}

} // verus!
