//! Small status words of the panels: workflow markers, hook event
//! descriptions, tool-server states and the running animation.
use vstd::prelude::*;
use crate::text::str_eq;

verus! {

/// Marker of a workflow run: running ●, completed ✓, failed or killed ✗, else ○.
pub fn status_emoji_for_run(status: &str) -> (r: &'static str)
    ensures
        r@ == if status@ == "running"@ { "\u{25cf}"@ } else if status@ == "completed"@ { "\u{2713}"@ }
            else if status@ == "failed"@ || status@ == "killed"@ { "\u{2717}"@ } else { "\u{25cb}"@ },
{
    if str_eq(status, "running") {
        "\u{25cf}"
    } else if str_eq(status, "completed") {
        "\u{2713}"
    } else if str_eq(status, "failed") || str_eq(status, "killed") {
        "\u{2717}"
    } else {
        "\u{25cb}"
    }
}

/// Marker of a workflow phase: active ●, done ✓, else ○.
pub fn status_emoji_for_phase(status: &str) -> (r: &'static str)
    ensures
        r@ == if status@ == "active"@ { "\u{25cf}"@ } else if status@ == "done"@ { "\u{2713}"@ } else { "\u{25cb}"@ },
{
    if str_eq(status, "active") {
        "\u{25cf}"
    } else if str_eq(status, "done") {
        "\u{2713}"
    } else {
        "\u{25cb}"
    }
}

/// Marker of a workflow agent: running ●, done ✓, dead or skipped ✗, else ○.
pub fn status_emoji_for_agent(status: &str) -> (r: &'static str)
    ensures
        r@ == if status@ == "running"@ { "\u{25cf}"@ } else if status@ == "done"@ { "\u{2713}"@ }
            else if status@ == "dead"@ || status@ == "skipped"@ { "\u{2717}"@ } else { "\u{25cb}"@ },
{
    if str_eq(status, "running") {
        "\u{25cf}"
    } else if str_eq(status, "done") {
        "\u{2713}"
    } else if str_eq(status, "dead") || str_eq(status, "skipped") {
        "\u{2717}"
    } else {
        "\u{25cb}"
    }
}

/// Colour role of a workflow status.
#[derive(Debug, Clone, Copy, PartialEq, Eq, Structural)]
pub enum StatusTone {
    Running,
    Success,
    Error,
    Muted,
}

/// Colour role of a phase: active running, done success, failed error, else muted.
pub fn phase_status_color(status: &str) -> (r: StatusTone)
    ensures
        r == if status@ == "active"@ { StatusTone::Running } else if status@ == "done"@ { StatusTone::Success }
            else if status@ == "failed"@ { StatusTone::Error } else { StatusTone::Muted },
{
    if str_eq(status, "active") {
        StatusTone::Running
    } else if str_eq(status, "done") {
        StatusTone::Success
    } else if str_eq(status, "failed") {
        StatusTone::Error
    } else {
        StatusTone::Muted
    }
}

/// Colour role of an agent: running, done success, dead or skipped error, else muted.
pub fn agent_status_color(status: &str) -> (r: StatusTone)
    ensures
        r == if status@ == "running"@ { StatusTone::Running } else if status@ == "done"@ { StatusTone::Success }
            else if status@ == "dead"@ || status@ == "skipped"@ { StatusTone::Error } else { StatusTone::Muted },
{
    if str_eq(status, "running") {
        StatusTone::Running
    } else if str_eq(status, "done") {
        StatusTone::Success
    } else if str_eq(status, "dead") || str_eq(status, "skipped") {
        StatusTone::Error
    } else {
        StatusTone::Muted
    }
}

/// Frames of the running animation.
pub open spec fn running_frames() -> Seq<char> {
    seq!['✳', '✴', '✵', '✶', '✷', '✸', '✹', '✺', '✻', '✼', '❃', '❊', '✼', '✻', '✺', '✸']
}

/// The running animation's frame after `elapsed_ms`: one frame per 100 ms.
pub fn running_indicator(elapsed_ms: u64) -> (r: char)
    ensures
        r == running_frames()[((elapsed_ms / 100) % 16) as int],
{
    let i = (elapsed_ms / 100) % 16;
    if i == 0 { '✳' } else if i == 1 { '✴' } else if i == 2 { '✵' } else if i == 3 { '✶' }
    else if i == 4 { '✷' } else if i == 5 { '✸' } else if i == 6 { '✹' } else if i == 7 { '✺' }
    else if i == 8 { '✻' } else if i == 9 { '✼' } else if i == 10 { '❃' } else if i == 11 { '❊' }
    else if i == 12 { '✼' } else if i == 13 { '✻' } else if i == 14 { '✺' } else { '✸' }
}

/// Description of a hook event, empty for unknown events.
pub open spec fn event_text(event: Seq<char>) -> Seq<char> {
    if event == "pretooluse"@ { "Before tool execution"@ }
    else if event == "posttooluse"@ { "After tool execution"@ }
    else if event == "posttoolusefailure"@ { "After tool execution fails"@ }
    else if event == "permissionrequest"@ { "Before auto mode classifier decides"@ }
    else if event == "userpromptsubmit"@ { "When user submits a prompt"@ }
    else if event == "sessionstart"@ { "When a new session starts"@ }
    else if event == "sessionend"@ { "When a session ends"@ }
    else if event == "stop"@ { "When agent stops"@ }
    else if event == "stopfailure"@ { "When agent stops with failure"@ }
    else if event == "posttoolbatch"@ { "When all parallel tools complete"@ }
    else if event == "subagentstart"@ { "When a subagent starts"@ }
    else if event == "subagentstop"@ { "When a subagent stops"@ }
    else if event == "precompact"@ { "Before context compaction"@ }
    else if event == "postcompact"@ { "After context compaction"@ }
    else if event == "notification"@ { "When agent needs user input"@ }
    else { ""@ }
}

/// The description of a hook event.
pub fn event_description(event: &str) -> (r: &'static str)
    ensures
        r@ == event_text(event@),
{
    if str_eq(event, "pretooluse") { "Before tool execution" }
    else if str_eq(event, "posttooluse") { "After tool execution" }
    else if str_eq(event, "posttoolusefailure") { "After tool execution fails" }
    else if str_eq(event, "permissionrequest") { "Before auto mode classifier decides" }
    else if str_eq(event, "userpromptsubmit") { "When user submits a prompt" }
    else if str_eq(event, "sessionstart") { "When a new session starts" }
    else if str_eq(event, "sessionend") { "When a session ends" }
    else if str_eq(event, "stop") { "When agent stops" }
    else if str_eq(event, "stopfailure") { "When agent stops with failure" }
    else if str_eq(event, "posttoolbatch") { "When all parallel tools complete" }
    else if str_eq(event, "subagentstart") { "When a subagent starts" }
    else if str_eq(event, "subagentstop") { "When a subagent stops" }
    else if str_eq(event, "precompact") { "Before context compaction" }
    else if str_eq(event, "postcompact") { "After context compaction" }
    else if str_eq(event, "notification") { "When agent needs user input" }
    else { "" }
}

/// Class of a tool server's status text.
#[derive(Debug, Clone, Copy, PartialEq, Eq, Structural)]
pub enum ServerStatusClass {
    Connected,
    Error,
    Unknown,
}

/// A status text mentioning "connected" is connected; one mentioning
/// "error" or "failed" is an error; anything else is unknown.
pub fn derive_status_style(status: &str) -> (r: ServerStatusClass)
    ensures
        r == if crate::plugin::has_sub(status@, "connected"@) { ServerStatusClass::Connected }
            else if crate::plugin::has_sub(status@, "error"@) || crate::plugin::has_sub(status@, "failed"@) { ServerStatusClass::Error }
            else { ServerStatusClass::Unknown },
{
    let s = crate::text::chars_of(status);
    if crate::plugin::contains_str(&s, "connected") {
        ServerStatusClass::Connected
    } else if crate::plugin::contains_str(&s, "error") || crate::plugin::contains_str(&s, "failed") {
        ServerStatusClass::Error
    } else {
        ServerStatusClass::Unknown
    }
}

} // verus!
