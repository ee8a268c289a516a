//! Laws of the invocation of an agent.

use vstd::prelude::*;

use crate::cmd::invoke;
use crate::cmd::invoke::{Args, Looking, Next, NextV, RunHandle, Start, Step, StepV};
use crate::cmd::run_poll;
use crate::effect;
use crate::effect::{Channel, Method, Output, OutputV, RequestV};
use crate::json;
use crate::json::JsonV;

verus! {

/// The prompt is sent as it is, with an empty context and nothing else.
pub open spec fn sends_prompt(r: RequestV, prompt: Seq<char>) -> bool {
    &&& r.method == Method::Post
    &&& r.body == Some(
        JsonV::Object(
            map!["context"@ => JsonV::Object(Map::empty()), "prompt"@ => JsonV::Text(prompt)],
        ),
    )
}

/// The command waits exactly where the caller asked for that, or asked to wait out
/// approvals; else it queues the run and says how to watch it. Either way the agent
/// that was named gets the prompt that was given.
pub proof fn law_beginning(args: Args, start: Start)
    requires
        invoke::started(args, start),
    ensures
        start is Wait <==> args.wait || args.wait_approvals,
        start matches Start::Wait(r, then) ==> sends_prompt(r@, args.prompt@) && r@.path
            == "/api/platform/agents/"@ + args.agent_id@ + "/invoke"@ && then.wait_approvals()
            == args.wait_approvals,
        start matches Start::Fire(r, done) ==> sends_prompt(r@, args.prompt@) && r@.path
            == "/api/platform/agents/"@ + args.agent_id@ + "/invoke?async_mode=true"@
            && effect::shown(done@) == seq![
            effect::line(Channel::Success, "Invoked "@ + args.agent_id@ + " — run queued."@),
            effect::line(
                Channel::Out,
                "  Watch it:  forgeos logs "@ + args.agent_id@ + " --follow"@,
            ),
        ],
{
    reveal_strlit("context");
    reveal_strlit("prompt");
    assert("context"@.len() == 7);
    assert("prompt"@.len() == 6);
    let m = Map::<Seq<char>, JsonV>::empty().insert("prompt"@, JsonV::Text(args.prompt@)).insert(
        "context"@,
        JsonV::Object(Map::empty()),
    );
    let n = Map::<Seq<char>, JsonV>::empty().insert("context"@, JsonV::Object(Map::empty())).insert(
        "prompt"@,
        JsonV::Text(args.prompt@),
    );
    assert(m =~= n);
}

/// The status of a handle is one of some.
pub open spec fn under_way(h: RunHandle) -> bool {
    h.status matches Some(s) && (s@ == "running"@ || s@ == "queued"@ || s@ == "resuming"@)
}

/// The run is parked on a human-approval gate.
pub open spec fn parked(h: RunHandle) -> bool {
    h.status matches Some(s) && (s@ == "paused"@ || s@ == "suspended"@)
}

proof fn statuses_differ()
    ensures
        "running"@.len() == 7 && "running"@[0] == 'r',
        "resuming"@.len() == 8 && "resuming"@[0] == 'r',
        "queued"@.len() == 6 && "queued"@[0] == 'q',
        "paused"@.len() == 6 && "paused"@[0] == 'p',
        "suspended"@.len() == 9 && "suspended"@[0] == 's',
        "completed"@.len() == 9 && "completed"@[0] == 'c',
        "failed"@.len() == 6 && "failed"@[0] == 'f',
        ""@.len() == 0,
{
    reveal_strlit("running");
    reveal_strlit("resuming");
    reveal_strlit("queued");
    reveal_strlit("paused");
    reveal_strlit("suspended");
    reveal_strlit("completed");
    reveal_strlit("failed");
    reveal_strlit("");
}

/// A run is waited for exactly where the handle has an id and the run is under way, or
/// is parked and the caller waits out approvals; what is read then is that run, from
/// the first look on, and the wait is of the kind that the caller asked for.
pub proof fn law_when_a_run_is_waited_for(h: RunHandle, wait_approvals: bool)
    ensures
        ({
            let step = invoke::invoked(h, wait_approvals);
            &&& step.next is Poll <==> h.run_id is Some && (under_way(h) || (parked(h)
                && wait_approvals))
            &&& step.next is Poll ==> {
                let id = h.run_id->Some_0@;
                let note = effect::line(Channel::Note, "⏳ waiting for run "@ + id + " …"@);
                &&& step.next->Poll_0.method == Method::Get
                &&& step.next->Poll_0.path == "/api/platform/runs/"@ + id
                &&& step.next->Poll_0.body is None
                &&& step.next->Poll_1 == wait_approvals
                &&& step.next->Poll_2 == 0
                &&& under_way(h) ==> step.outputs == seq![note]
                &&& parked(h) ==> step.outputs == invoke::handle_lines(h) + seq![note]
            }
            &&& !(step.next is Poll) ==> step.next == NextV::Exit(0) && step.outputs
                == invoke::handle_lines(h)
        }),
{
    statuses_differ();
}

/// From the command line to the last look, the caller's choice is the one that counts:
/// who asked to wait out approvals is not sent away by a look at a parked run before
/// the last look, and who did not is, at the first one.
pub proof fn law_the_callers_choice_counts(
    args: Args,
    start: Start,
    h: RunHandle,
    looks: nat,
    seen: RunHandle,
)
    requires
        invoke::started(args, start),
        start is Wait,
        invoke::invoked(h, start->Wait_1.wait_approvals()).next is Poll,
        looks + 1 < 300,
        parked(seen),
    ensures
        ({
            let choice = invoke::invoked(h, start->Wait_1.wait_approvals()).next->Poll_1;
            &&& args.wait_approvals ==> invoke::looked(looks, choice, Some(seen)) is None
            &&& !args.wait_approvals ==> (invoke::looked(looks, choice, Some(seen)) matches Some(end)
                && end.next == NextV::Exit(0))
        }),
{
    law_beginning(args, start);
    law_when_a_run_is_waited_for(h, start->Wait_1.wait_approvals());
    statuses_differ();
}

/// The wait of `poll_until_terminal` is for the run that it names, of the kind asked
/// for, after what was shown before.
pub proof fn law_waiting(before: Seq<OutputV>, id: Seq<char>, wait_approvals: bool)
    ensures
        invoke::waiting(before, id, wait_approvals).outputs == before + seq![
            effect::line(Channel::Note, "⏳ waiting for run "@ + id + " …"@),
        ],
        ({
            let next = invoke::waiting(before, id, wait_approvals).next;
            &&& next is Poll
            &&& next->Poll_0.method == Method::Get
            &&& next->Poll_0.path == "/api/platform/runs/"@ + id
            &&& next->Poll_1 == wait_approvals
            &&& next->Poll_2 == 0
        }),
{
}

/// The wait lasts 300 looks at most, which is ten minutes.
pub proof fn law_ten_minutes()
    ensures
        invoke::MAX_LOOKS == 300,
        invoke::MAX_LOOKS * run_poll::POLL_SECONDS == 600,
{
}

/// A result that is not empty.
pub open spec fn has_result(h: RunHandle) -> bool {
    h.result matches Some(t) && t@.len() > 0
}

/// What a look brings: a completed run its result, where it is not empty, and success;
/// a failed one its error and exit code 1; a parked one its approvals, unless they are
/// waited out. A failed read and any other run bring nothing, until the looks are used
/// up.
pub proof fn law_looks(looks: nat, wait_approvals: bool, h: RunHandle)
    ensures
        ({
            let end = invoke::looked(looks, wait_approvals, Some(h));
            let late = effect::line(
                Channel::Warning,
                "timed out waiting for the run; check `forgeos runs status` / `forgeos logs`"@,
            );
            let ok = effect::line(Channel::Success, "run completed"@);
            let reads = |s: Seq<char>| json::opt(h.status) == Some(s);
            &&& reads("completed"@) && has_result(h) ==> end == Some(
                StepV {
                    outputs: seq![effect::line(Channel::Out, h.result->Some_0@), ok],
                    next: NextV::Exit(0),
                },
            )
            &&& reads("completed"@) && !has_result(h) ==> end == Some(
                StepV { outputs: seq![ok], next: NextV::Exit(0) },
            )
            &&& reads("failed"@) ==> (end matches Some(e) && e.next == NextV::Exit(1)
                && e.outputs.len() == 1 && e.outputs[0].channel == Channel::Failure && (
            h.error matches Some(why) ==> e.outputs[0] == effect::line(Channel::Failure, why@)) && (
            h.error is None ==> e.outputs[0] == effect::line(Channel::Failure, "run failed"@)))
            &&& reads("paused"@) && !wait_approvals ==> end == Some(
                StepV { outputs: invoke::handle_lines(h), next: NextV::Exit(0) },
            )
            &&& reads("suspended"@) && !wait_approvals ==> end == Some(
                StepV {
                    outputs: invoke::paused_lines(h) + invoke::handle_lines(h),
                    next: NextV::Exit(0),
                },
            )
            &&& !reads("completed"@) && !reads("failed"@) && !(parked(h) && !wait_approvals) ==> {
                &&& looks + 1 < 300 ==> end is None
                &&& looks + 1 >= 300 ==> end == Some(
                    StepV { outputs: seq![late], next: NextV::Exit(0) },
                )
            }
            &&& invoke::looked(looks, wait_approvals, None) == if looks + 1 < 300 {
                None
            } else {
                Some(StepV { outputs: seq![late], next: NextV::Exit(0) })
            }
        }),
{
    statuses_differ();
    assert(invoke::result_lines(h.result).len() <= 1);
    if has_result(h) {
        assert(invoke::result_lines(h.result).push(
            effect::line(Channel::Success, "run completed"@),
        ) == seq![
            effect::line(Channel::Out, h.result->Some_0@),
            effect::line(Channel::Success, "run completed"@),
        ]);
    } else {
        assert(invoke::result_lines(h.result) == Seq::<OutputV>::empty());
        assert(Seq::<OutputV>::empty().push(effect::line(Channel::Success, "run completed"@))
            == seq![effect::line(Channel::Success, "run completed"@)]);
    }
}

/// A look that ends the wait gives its lines and its exit code; one that does not is
/// counted, and leaves the kind of wait as it is.
pub proof fn law_one_look(
    before: Looking,
    after: Looking,
    reply: Option<RunHandle>,
    r: Option<(Vec<Output>, i32)>,
)
    requires
        invoke::found(before, after, reply, r),
    ensures
        after.wait_approvals() == before.wait_approvals(),
        r is None <==> invoke::looked(before.looks(), before.wait_approvals(), reply) is None,
        r is None ==> after.looks() == before.looks() + 1,
        r matches Some((out, code)) ==> (invoke::looked(
            before.looks(),
            before.wait_approvals(),
            reply,
        ) matches Some(end) && end.outputs == effect::shown(out@) && end.next == NextV::Exit(
            code as int,
        )),
{
}

/// How many lines follow the first part of a handle: one where the run was simulated,
/// and one for each warning.
pub open spec fn after_lines(h: RunHandle) -> int {
    (if h.simulated == Some(true) {
        1int
    } else {
        0int
    }) + match h.warnings {
        Some(ws) => ws@.len() as int,
        None => 0,
    }
}

/// A handle is shown by its status: a paused one by its approvals, a failed one by its
/// error, any other by its result, where it is not empty.
pub proof fn law_handle_by_status(h: RunHandle)
    ensures
        ({
            let out = invoke::handle_lines(h);
            let n = out.len() - after_lines(h);
            let reads = |s: Seq<char>| json::opt(h.status) == Some(s);
            &&& n >= 0
            &&& reads("paused"@) ==> out.take(n) == invoke::paused_lines(h)
            &&& reads("failed"@) ==> n == 1 && (h.error matches Some(why) ==> out[0] == effect::line(
                Channel::Failure,
                why@,
            )) && (h.error is None ==> out[0] == effect::line(Channel::Failure, "run failed"@))
            &&& !reads("paused"@) && !reads("failed"@) && has_result(h) ==> n == 1 && out[0]
                == effect::line(Channel::Out, h.result->Some_0@)
            &&& !reads("paused"@) && !reads("failed"@) && !has_result(h) ==> n == 0
        }),
{
    statuses_differ();
    let out = invoke::handle_lines(h);
    let n = out.len() - after_lines(h);
    if json::opt(h.status) == Some("paused"@) {
        assert(out.take(n) == invoke::paused_lines(h));
    }
}

/// After that, a handle says that the run was simulated, where it was, and then gives
/// each warning, in order.
pub proof fn law_handle_warnings(h: RunHandle, i: int)
    ensures
        h.simulated == Some(true) ==> invoke::handle_lines(h)[invoke::handle_lines(h).len()
            - after_lines(h)] == effect::line(
            Channel::Warning,
            "Agent ran in SIMULATED mode — no real LLM call was made."@,
        ),
        h.warnings matches Some(ws) && 0 <= i < ws@.len() ==> invoke::handle_lines(
            h,
        )[invoke::handle_lines(h).len() - h.warnings->Some_0@.len() + i] == effect::line(
            Channel::Warning,
            h.warnings->Some_0@[i]@,
        ),
{
}

/// How many pending approvals a handle lists.
pub open spec fn pendings(h: RunHandle) -> int {
    match h.pending {
        Some(ps) => ps@.len() as int,
        None => 0,
    }
}

proof fn approval_places(ps: Seq<invoke::Pending>, i: int)
    ensures
        invoke::all_approval_lines(ps).len() == 3 * ps.len(),
        0 <= i < ps.len() ==> invoke::all_approval_lines(ps)[3 * i] == invoke::approval_lines(ps[i])[0]
            && invoke::all_approval_lines(ps)[3 * i + 1] == invoke::approval_lines(ps[i])[1]
            && invoke::all_approval_lines(ps)[3 * i + 2] == invoke::approval_lines(ps[i])[2],
    decreases ps.len(),
{
    if ps.len() > 0 {
        approval_places(ps.drop_last(), i);
    }
}

/// A paused run says what it awaits, names each pending approval, in order, with the
/// commands that approve and reject it, and gives its id where it has one.
pub proof fn law_paused_run(h: RunHandle, i: int)
    ensures
        ({
            let out = invoke::paused_lines(h);
            &&& out.len() == 1 + 3 * pendings(h) + if h.run_id is Some {
                1int
            } else {
                0int
            }
            &&& (h.suspend_reason matches Some(why) ==> out[0] == effect::line(
                Channel::Warning,
                "⏸ run paused — awaiting "@ + why@,
            ))
            &&& h.suspend_reason is None ==> out[0] == effect::line(
                Channel::Warning,
                "⏸ run paused — awaiting "@ + "human_approval"@,
            )
            &&& 0 <= i < pendings(h) ==> {
                let p = h.pending->Some_0@[i];
                let id = match p.request_id {
                    Some(id) => id@,
                    None => "?"@,
                };
                let tool = match p.tool {
                    Some(t) => t@,
                    None => ""@,
                };
                &&& out[1 + 3 * i] == effect::line(
                    Channel::Out,
                    "  approval "@ + id + "  (tool: "@ + tool + ")"@,
                )
                &&& out[2 + 3 * i] == effect::line(
                    Channel::Out,
                    "    approve:  forgeos approvals approve "@ + id,
                )
                &&& out[3 + 3 * i] == effect::line(
                    Channel::Out,
                    "    reject:   forgeos approvals reject "@ + id,
                )
            }
            &&& (h.run_id matches Some(id) ==> out.last() == effect::line(
                Channel::Out,
                "  run id: "@ + id@ + "   (poll: forgeos runs status "@ + id@ + ")"@,
            ))
        }),
{
    if let Some(ps) = h.pending {
        approval_places(ps@, i);
    }
}

/// What the command does next says all there is to it.
pub proof fn law_step_says_all(step: Step)
    ensures
        step@.outputs == effect::shown(step.outputs@),
        step.next matches Next::Exit(code) ==> step@.next == NextV::Exit(code as int),
        step.next matches Next::Poll(r, l) ==> step@.next == NextV::Poll(
            r@,
            l.wait_approvals(),
            l.looks(),
        ),
{
}

} // verus!
