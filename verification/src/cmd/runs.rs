//! `forgeos runs <subcommand>`: inspect runs by their handle, the continuation id
//! that `invoke` returns.

use vstd::prelude::*;

use crate::cmd::run_poll;
use crate::cmd::run_poll::RunState;
use crate::codec;
use crate::effect;
use crate::effect::{Channel, Output, OutputV, Request, Span, Style};
use crate::json;
use crate::json::Json;
use crate::text::{cat2, cat3, cat5, same};

verus! {

/// A subcommand.
#[derive(Debug)]
pub enum RunsCmd {
    /// Show a run's current status (running | paused | completed | failed).
    Status {
        run_id: String,
        /// Emit raw JSON (for piping into jq).
        json: bool,
    },
    /// Poll a run until it reaches a terminal state.
    Watch { run_id: String },
}

/// A tool call parked on a human-approval gate.
#[derive(Debug)]
pub struct Pending {
    pub request_id: Option<String>,
    pub tool: Option<String>,
}

/// A run as the platform describes it.
#[derive(Debug)]
pub struct Run {
    pub run_id: Option<String>,
    pub status: Option<String>,
    pub suspend_reason: Option<String>,
    pub pending: Option<Vec<Pending>>,
    pub result: Option<String>,
    pub error: Option<String>,
}

/// How a subcommand goes on. Each stops with the error where its request fails.
pub enum Step {
    /// Send the request, show the reply with `dump`, and exit with 0.
    Dump(Request),
    /// Send the request, show the run with `render`, and exit with 0.
    Show(Request),
    /// Send the request and go by `watch`; where that does not end, do so again
    /// after `POLL_SECONDS`.
    Watch(Request),
}

/// The request that reads a run.
pub fn fetch(run_id: &str) -> (r: Request)
    ensures
        r@ == effect::getting(run_poll::run_path(run_id@)),
{
    run_poll::run_request(run_id)
}

/// What a subcommand leads to.
pub open spec fn step_of(cmd: RunsCmd, step: Step) -> bool {
    match (cmd, step) {
        (RunsCmd::Status { run_id, json }, Step::Dump(r)) => json && r@ == effect::getting(
            run_poll::run_path(run_id@),
        ),
        (RunsCmd::Status { run_id, json }, Step::Show(r)) => !json && r@ == effect::getting(
            run_poll::run_path(run_id@),
        ),
        (RunsCmd::Watch { run_id }, Step::Watch(r)) => r@ == effect::getting(
            run_poll::run_path(run_id@),
        ),
        _ => false,
    }
}

/// Decides what a subcommand asks of the platform.
pub fn run(cmd: RunsCmd) -> (step: Step)
    ensures
        step_of(cmd, step),
{
    match cmd {
        RunsCmd::Status { run_id, json } => {
            let request: Request = fetch(run_id.as_str());
            if json {
                Step::Dump(request)
            } else {
                Step::Show(request)
            }
        },
        RunsCmd::Watch { run_id } => Step::Watch(fetch(run_id.as_str())),
    }
}

/// A JSON text on standard output.
pub open spec fn dumped(json: Result<Seq<char>, Seq<char>>) -> Result<Seq<OutputV>, Seq<char>> {
    match json {
        Ok(t) => Ok(seq![effect::line(Channel::Out, t)]),
        Err(e) => Err(e),
    }
}

/// Shows a JSON text.
pub fn dump_text(json: Result<String, String>) -> (r: Result<Vec<Output>, String>)
    ensures
        effect::lines_or_error(r) == dumped(codec::outcome(json)),
{
    match json {
        Ok(t) => Ok(effect::single(Channel::Out, t)),
        Err(e) => Err(e),
    }
}

/// Shows a reply as JSON text.
pub fn dump(v: &Json) -> (r: Result<Vec<Output>, String>)
    ensures
        effect::lines_or_error(r) == dumped(codec::pretty_text(v@)),
{
    dump_text(v.to_string_pretty())
}

/// The style of a status.
pub open spec fn badge(status: Seq<char>) -> Style {
    if status == "completed"@ {
        Style::Green
    } else if status == "failed"@ {
        Style::Red
    } else if status == "paused"@ {
        Style::Yellow
    } else {
        Style::Plain
    }
}

/// The line that names a run and its status.
pub open spec fn status_line(r: Run) -> OutputV {
    let status = effect::or_else(r.status, "unknown"@);
    OutputV {
        channel: Channel::Out,
        spans: seq![
            effect::span("run "@ + effect::or_else(r.run_id, "?"@) + "  ["@, Style::Plain),
            effect::span(status, badge(status)),
            effect::span("]"@, Style::Plain),
        ],
    }
}

/// The line for one pending approval.
pub open spec fn approval_line(p: Pending) -> OutputV {
    let rid = effect::or_else(p.request_id, "?"@);
    effect::line(
        Channel::Out,
        "  approval "@ + rid + "  (tool: "@ + effect::or_else(p.tool, ""@)
            + ")  → forgeos approvals approve "@ + rid,
    )
}

/// A line for a text, where there is one.
pub open spec fn optional_line(label: Seq<char>, text: Option<String>) -> Seq<OutputV> {
    match text {
        Some(t) => seq![effect::line(Channel::Out, label + t@)],
        None => Seq::empty(),
    }
}

/// The lines for what a paused run awaits.
pub open spec fn parked_lines(r: Run) -> Seq<OutputV> {
    optional_line("  awaiting: "@, r.suspend_reason) + match r.pending {
        Some(ps) => ps@.map_values(|p: Pending| approval_line(p)),
        None => Seq::empty(),
    }
}

/// The lines that show a run.
pub open spec fn run_lines(r: Run) -> Seq<OutputV> {
    seq![status_line(r)] + (if json::opt(r.status) == Some("paused"@) {
        parked_lines(r)
    } else {
        Seq::empty()
    }) + (if effect::or_else(r.result, ""@).len() > 0 {
        optional_line("  result: "@, r.result)
    } else {
        Seq::empty()
    }) + optional_line("  error: "@, r.error)
}

fn emit_optional(out: &mut Vec<Output>, label: &str, text: &Option<String>)
    ensures
        effect::shown(final(out)@) == effect::shown(old(out)@) + optional_line(label@, *text),
{
    if let Some(t) = text {
        effect::emit(out, Channel::Out, cat2(label, t.as_str()));
    }
    assert(effect::shown(out@) == effect::shown(old(out)@) + optional_line(label@, *text));
}

fn render_parked(out: &mut Vec<Output>, r: &Run)
    ensures
        effect::shown(final(out)@) == effect::shown(old(out)@) + parked_lines(*r),
{
    emit_optional(out, "  awaiting: ", &r.suspend_reason);
    let ghost first = effect::shown(out@);
    if let Some(ps) = &r.pending {
        let n: usize = ps.len();
        let ghost all = ps@.map_values(|p: Pending| approval_line(p));
        assert(first + all.take(0) == first);
        for i in 0..n
            invariant
                n == ps@.len(),
                all == ps@.map_values(|p: Pending| approval_line(p)),
                effect::shown(out@) == first + all.take(i as int),
        {
            let p: &Pending = &ps[i];
            let rid: &str = effect::text_or(&p.request_id, "?");
            let tool: &str = effect::text_or(&p.tool, "");
            let mut text: String = cat5(
                "  approval ",
                rid,
                "  (tool: ",
                tool,
                ")  → forgeos approvals approve ",
            );
            text.append(rid);
            effect::emit(out, Channel::Out, text);
            assert(all.take(i + 1) == all.take(i as int).push(approval_line(ps@[i as int])));
            assert(effect::shown(out@) == first + all.take(i + 1));
        }
        assert(all.take(n as int) == all);
    }
    assert(effect::shown(out@) == effect::shown(old(out)@) + parked_lines(*r));
}

fn badge_of(status: &str) -> (r: Style)
    ensures
        r == badge(status@),
{
    if same(status, "completed") {
        Style::Green
    } else if same(status, "failed") {
        Style::Red
    } else if same(status, "paused") {
        Style::Yellow
    } else {
        Style::Plain
    }
}

/// Shows a run.
pub fn render(r: &Run) -> (out: Vec<Output>)
    ensures
        effect::shown(out@) == run_lines(*r),
{
    proof {
        reveal_strlit("");
        reveal_strlit("unknown");
        reveal_strlit("paused");
    }
    let status: &str = effect::text_or(&r.status, "unknown");
    let mut spans: Vec<Span> = Vec::new();
    spans.push(
        Span { text: cat3("run ", effect::text_or(&r.run_id, "?"), "  ["), style: Style::Plain },
    );
    spans.push(Span { text: status.to_owned(), style: badge_of(status) });
    spans.push(Span { text: "]".to_owned(), style: Style::Plain });
    let ghost pieces = spans@.map_values(|s: Span| s@);
    let mut out: Vec<Output> = effect::silent();
    effect::emit_spans(&mut out, Channel::Out, spans);
    proof {
        assert(pieces == status_line(*r).spans);
        assert(effect::shown(out@) == seq![status_line(*r)]);
        assert("unknown"@.len() == 7);
        assert("paused"@.len() == 6);
    }
    let ghost first = effect::shown(out@);
    if same(status, "paused") {
        render_parked(&mut out, r);
    }
    let ghost second = effect::shown(out@);
    assert(second == first + if json::opt(r.status) == Some("paused"@) {
        parked_lines(*r)
    } else {
        Seq::empty()
    });
    if let Some(text) = &r.result {
        if !text.as_str().is_empty() {
            emit_optional(&mut out, "  result: ", &r.result);
        }
    }
    let ghost third = effect::shown(out@);
    assert(third == second + if effect::or_else(r.result, ""@).len() > 0 {
        optional_line("  result: "@, r.result)
    } else {
        Seq::empty()
    });
    emit_optional(&mut out, "  error: ", &r.error);
    out
}

/// The report at the end of a watch, and the exit code: a run that is completed or
/// failed ends it.
pub open spec fn ending(status: Option<Seq<char>>) -> Option<(OutputV, int)> {
    if status == Some("completed"@) {
        Some((effect::line(Channel::Success, "run completed"@), 0))
    } else if status == Some("failed"@) {
        Some((effect::line(Channel::Failure, "run failed"@), 1))
    } else {
        None
    }
}

/// What one look at a run that is being watched leads to.
pub open spec fn watched(r: Run, w: (Vec<Output>, Option<i32>)) -> bool {
    match ending(json::opt(r.status)) {
        Some((report, code)) => {
            &&& effect::shown(w.0@) == run_lines(r).push(report)
            &&& w.1 is Some
            &&& w.1->Some_0 == code
        },
        None => effect::shown(w.0@) == run_lines(r) && w.1 is None,
    }
}

/// Shows a run that is being watched, and gives the exit code where the watch is
/// over.
pub fn watch(r: &Run) -> (w: (Vec<Output>, Option<i32>))
    ensures
        watched(*r, w),
{
    let mut out: Vec<Output> = render(r);
    match &r.status {
        Some(s) => {
            if same(s.as_str(), "completed") {
                effect::emit(&mut out, Channel::Success, "run completed".to_owned());
                (out, Some(0))
            } else if same(s.as_str(), "failed") {
                effect::emit(&mut out, Channel::Failure, "run failed".to_owned());
                (out, Some(1))
            } else {
                (out, None)
            }
        },
        None => (out, None),
    }
}

/// A watch ends in a terminal state alone, and its exit code tells which: it goes
/// on while the run is running or paused.
pub proof fn law_watch_ends_in_a_terminal_state(status: Option<Seq<char>>)
    ensures
        ending(status) matches Some((_, code)) ==> {
            &&& code == 0 ==> run_poll::state_of(status) == RunState::Completed
            &&& code != 0 ==> code == 1 && run_poll::state_of(status) == RunState::Failed
        },
        run_poll::state_of(status) == RunState::Failed ==> ending(status) is Some,
        run_poll::state_of(status) == RunState::Running ==> ending(status) is None,
        run_poll::state_of(status) == RunState::Paused ==> ending(status) is None,
{
    reveal_strlit("completed");
    reveal_strlit("done");
    reveal_strlit("failed");
    assert("completed"@.len() == 9);
    assert("done"@.len() == 4);
    assert("failed"@.len() == 6);
}

} // verus!
