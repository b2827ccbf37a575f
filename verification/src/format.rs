use vstd::prelude::*;

use crate::text::{int_text, push_i64_text, push_str};

verus! {

/// The Russian "in <duration>" text for a reset that is `seconds` away:
/// seconds below a minute, minutes below an hour, hours and minutes below
/// a day, and days and hours beyond.
pub open spec fn duration_text(seconds: int) -> Seq<char> {
    if seconds < 60 {
        "через "@ + int_text(seconds) + "с"@
    } else if seconds < 3600 {
        "через "@ + int_text(seconds / 60) + "м"@
    } else if seconds < 86400 {
        "через "@ + int_text(seconds / 3600) + "ч "@ + int_text((seconds % 3600) / 60) + "м"@
    } else {
        "через "@ + int_text(seconds / 86400) + "д "@ + int_text((seconds % 86400) / 3600) + "ч"@
    }
}

/// Text for an optional reset delay: `unknown` when absent.
pub open spec fn duration_opt_text(seconds: Option<i64>) -> Seq<char> {
    match seconds {
        None => "unknown"@,
        Some(s) => duration_text(s as int),
    }
}

/// Renders a delay in seconds as "через N<unit>" text.
pub fn format_duration_secs(seconds: i64) -> (res: String)
    ensures
        res@ == duration_text(seconds as int),
{
    let mut out = String::new();
    push_str(&mut out, "через ");
    if seconds < 60 {
        push_i64_text(&mut out, seconds);
        push_str(&mut out, "с");
    } else if seconds < 3600 {
        push_i64_text(&mut out, seconds / 60);
        push_str(&mut out, "м");
    } else if seconds < 86_400 {
        push_i64_text(&mut out, seconds / 3600);
        push_str(&mut out, "ч ");
        push_i64_text(&mut out, (seconds % 3600) / 60);
        push_str(&mut out, "м");
    } else {
        push_i64_text(&mut out, seconds / 86_400);
        push_str(&mut out, "д ");
        push_i64_text(&mut out, (seconds % 86_400) / 3600);
        push_str(&mut out, "ч");
    }
    out
}

/// Renders an optional delay; `unknown` when there is none.
pub fn format_duration_opt(seconds: Option<i64>) -> (res: String)
    ensures
        res@ == duration_opt_text(seconds),
{
    match seconds {
        None => {
            let mut out = String::new();
            push_str(&mut out, "unknown");
            out
        },
        Some(s) => format_duration_secs(s),
    }
}

} // verus!
