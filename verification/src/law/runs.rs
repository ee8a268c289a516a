//! Laws of the display of runs.

use vstd::prelude::*;

use crate::cmd::runs;
use crate::cmd::runs::{Run, RunsCmd, Step};
use crate::effect;
use crate::effect::{Channel, Method, Output, OutputV, Request, Style};
use crate::json;

verus! {

/// How many lines a text that may be absent takes.
pub open spec fn one_if(there: bool) -> int {
    if there {
        1
    } else {
        0
    }
}

/// The run has a result that is not empty.
pub open spec fn has_result(r: Run) -> bool {
    r.result matches Some(t) && t@.len() > 0
}

/// How many lines say what the run awaits, and which approvals: none unless it is
/// paused.
pub open spec fn parked(r: Run) -> int {
    if r.status matches Some(s) && s@ == "paused"@ {
        one_if(r.suspend_reason is Some) + match r.pending {
            Some(ps) => ps@.len() as int,
            None => 0,
        }
    } else {
        0
    }
}

/// Whatever the status of a run, its result is shown exactly where it has one that is
/// not empty, after what it awaits; its error is shown last, exactly where it has one;
/// and there are no lines but these and those for what a paused run awaits.
pub proof fn law_result_and_error_are_shown(r: Run)
    ensures
        runs::run_lines(r).len() == 1 + parked(r) + one_if(has_result(r)) + one_if(r.error is Some),
        has_result(r) ==> runs::run_lines(r)[1 + parked(r)] == effect::line(
            Channel::Out,
            "  result: "@ + r.result->Some_0@,
        ),
        r.error matches Some(e) ==> runs::run_lines(r).last() == effect::line(
            Channel::Out,
            "  error: "@ + e@,
        ),
{
    reveal_strlit("");
}

/// A run with a result that is not empty has a line with it.
pub proof fn law_result_is_among_the_lines(r: Run)
    requires
        has_result(r),
    ensures
        runs::run_lines(r).contains(
            effect::line(Channel::Out, "  result: "@ + r.result->Some_0@),
        ),
{
    law_result_and_error_are_shown(r);
    assert(runs::run_lines(r)[1 + parked(r)] == effect::line(
        Channel::Out,
        "  result: "@ + r.result->Some_0@,
    ));
}

/// The first line names the run and its status, with a badge for the statuses that
/// call for one.
pub proof fn law_first_line(r: Run)
    ensures
        ({
            let o: OutputV = runs::run_lines(r)[0];
            &&& o.channel == Channel::Out
            &&& o.spans.len() == 3
            &&& (r.run_id matches Some(id) ==> o.spans[0].text == "run "@ + id@ + "  ["@)
            &&& r.run_id is None ==> o.spans[0].text == "run "@ + "?"@ + "  ["@
            &&& (r.status matches Some(s) ==> o.spans[1].text == s@)
            &&& r.status is None ==> o.spans[1].text == "unknown"@
            &&& o.spans[2].text == "]"@
            &&& o.spans[0].style == Style::Plain && o.spans[2].style == Style::Plain
            &&& o.spans[1].style == Style::Green <==> o.spans[1].text == "completed"@
            &&& o.spans[1].style == Style::Red <==> o.spans[1].text == "failed"@
            &&& o.spans[1].style == Style::Yellow <==> o.spans[1].text == "paused"@
            &&& o.spans[1].style is Green || o.spans[1].style is Red || o.spans[1].style is Yellow
                || o.spans[1].style is Plain
        }),
{
    reveal_strlit("completed");
    reveal_strlit("failed");
    reveal_strlit("paused");
    assert("completed"@[0] == 'c');
    assert("failed"@[0] == 'f');
    assert("paused"@[0] == 'p');
}

/// A paused run says what it awaits, where that is known, and names each pending
/// approval, in order, with the command that approves it.
pub proof fn law_paused_run(r: Run, i: int)
    requires
        r.status matches Some(s) && s@ == "paused"@,
    ensures
        r.suspend_reason matches Some(why) ==> runs::run_lines(r)[1] == effect::line(
            Channel::Out,
            "  awaiting: "@ + why@,
        ),
        r.pending matches Some(ps) && 0 <= i < ps@.len() ==> ({
            let p = r.pending->Some_0@[i];
            let id = match p.request_id {
                Some(id) => id@,
                None => "?"@,
            };
            let tool = match p.tool {
                Some(t) => t@,
                None => ""@,
            };
            runs::run_lines(r)[1 + one_if(r.suspend_reason is Some) + i] == effect::line(
                Channel::Out,
                "  approval "@ + id + "  (tool: "@ + tool + ")  → forgeos approvals approve "@ + id,
            )
        }),
{
}

/// The request that reads a run.
pub open spec fn reads(q: Request, id: String) -> bool {
    &&& q@.method == Method::Get
    &&& q@.path == "/api/platform/runs/"@ + id@
    &&& q@.body is None
}

/// Each subcommand reads the run that it names, and shows or watches it as asked.
pub proof fn law_subcommands(cmd: RunsCmd, step: Step)
    requires
        runs::step_of(cmd, step),
    ensures
        cmd matches RunsCmd::Status { run_id, json } && json ==> (step matches Step::Dump(q)
            && reads(q, cmd->Status_run_id)),
        cmd matches RunsCmd::Status { run_id, json } && !json ==> (step matches Step::Show(q)
            && reads(q, cmd->Status_run_id)),
        cmd matches RunsCmd::Watch { run_id } ==> (step matches Step::Watch(q) && reads(q, run_id)),
{
}

/// A look at a run that is being watched shows the run; where it is completed or
/// failed, it says so and ends the watch with 0 or 1, and else the watch goes on.
pub proof fn law_one_look(r: Run, w: (Vec<Output>, Option<i32>))
    requires
        runs::watched(r, w),
    ensures
        json::opt(r.status) == Some("completed"@) ==> w.1 == Some(0i32) && effect::shown(w.0@)
            == runs::run_lines(r).push(effect::line(Channel::Success, "run completed"@)),
        json::opt(r.status) == Some("failed"@) ==> w.1 == Some(1i32) && effect::shown(w.0@)
            == runs::run_lines(r).push(effect::line(Channel::Failure, "run failed"@)),
        json::opt(r.status) != Some("completed"@) && json::opt(r.status) != Some("failed"@) ==> w.1
            is None && effect::shown(w.0@) == runs::run_lines(r),
{
    reveal_strlit("completed");
    reveal_strlit("failed");
    assert("completed"@.len() == 9);
    assert("failed"@.len() == 6);
}

/// A JSON dump is the text as it is, or the error.
pub proof fn law_dump(t: Seq<char>)
    ensures
        runs::dumped(Ok(t)) == Ok::<_, Seq<char>>(seq![effect::line(Channel::Out, t)]),
        runs::dumped(Err(t)) == Err::<Seq<OutputV>, _>(t),
{
}

} // verus!
