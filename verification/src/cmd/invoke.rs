//! `forgeos invoke <agent_id> "prompt"`: fire-and-return, or wait for the result.

use vstd::prelude::*;

use crate::cmd::run_poll;
use crate::effect;
use crate::effect::{Channel, Output, OutputV, Request, RequestV};
use crate::json;
use crate::json::{Json, JsonV, Member};
use crate::text::{cat2, cat3, cat5, same};

verus! {

/// Arguments of the command.
#[derive(Debug)]
pub struct Args {
    pub agent_id: String,
    pub prompt: String,
    /// Wait for the run to finish (or pause for approval) and print the result.
    /// Default is fire-and-return: queue the run and exit immediately.
    pub wait: bool,
    /// If the run pauses on a human-approval gate, keep polling after you approve
    /// it (in another terminal) until it finishes. Implies --wait.
    pub wait_approvals: bool,
}

/// A tool call parked on a human-approval gate.
#[derive(Debug)]
pub struct Pending {
    pub request_id: Option<String>,
    pub tool: Option<String>,
}

/// A run handle. Every field is optional, so that a legacy response (just
/// `{result, simulated, warnings}`) is one too.
#[derive(Debug)]
pub struct RunHandle {
    pub run_id: Option<String>,
    pub status: Option<String>,
    pub result: Option<String>,
    pub error: Option<String>,
    pub suspend_reason: Option<String>,
    pub pending: Option<Vec<Pending>>,
    pub warnings: Option<Vec<String>>,
    pub simulated: Option<bool>,
}

/// Looks at a run before the wait for it is given up (about ten minutes).
pub const MAX_LOOKS: u32 = 300;

/// How the command begins.
pub enum Start {
    /// Send the request; once it has succeeded, show the lines and exit with 0.
    Fire(Request, Vec<Output>),
    /// Send the request, and hand on the run handle that it returns.
    Wait(Request, Invoked),
}

/// The invocation is on its way.
pub struct Invoked {
    wait_approvals: bool,
}

/// A run is being waited for.
pub struct Looking {
    wait_approvals: bool,
    looks: u32,
}

/// How the command goes on.
pub enum Next {
    /// Read the run every `POLL_SECONDS`, and hand on what comes.
    Poll(Request, Looking),
    /// Exit with this code.
    Exit(i32),
}

/// A step of the command: lines to show, and how it goes on.
pub struct Step {
    pub outputs: Vec<Output>,
    pub next: Next,
}

/// How the command goes on.
pub ghost enum NextV {
    Poll(RequestV, bool, nat),
    Exit(int),
}

/// A step of the command.
pub ghost struct StepV {
    pub outputs: Seq<OutputV>,
    pub next: NextV,
}

impl Invoked {
    /// Whether to wait out approvals.
    pub closed spec fn wait_approvals(&self) -> bool {
        self.wait_approvals
    }
}

impl Looking {
    /// Whether to wait out approvals.
    pub closed spec fn wait_approvals(&self) -> bool {
        self.wait_approvals
    }

    /// How often the run was looked at.
    pub closed spec fn looks(&self) -> nat {
        self.looks as nat
    }
}

impl Next {
    pub open spec fn view(&self) -> NextV {
        match self {
            Next::Poll(r, l) => NextV::Poll(r@, l.wait_approvals(), l.looks()),
            Next::Exit(code) => NextV::Exit(*code as int),
        }
    }
}

impl Step {
    pub open spec fn view(&self) -> StepV {
        StepV { outputs: effect::shown(self.outputs@), next: self.next@ }
    }
}

/// The body of an invocation.
pub open spec fn invoke_body(prompt: Seq<char>) -> JsonV {
    JsonV::Object(
        Map::empty().insert("prompt"@, JsonV::Text(prompt)).insert(
            "context"@,
            JsonV::Object(Map::empty()),
        ),
    )
}

/// The path of an invocation.
pub open spec fn invoke_path(agent_id: Seq<char>, tail: Seq<char>) -> Seq<char> {
    "/api/platform/agents/"@ + agent_id + tail
}

/// The lines that report a queued run.
pub open spec fn queued(agent_id: Seq<char>) -> Seq<OutputV> {
    seq![
        effect::line(Channel::Success, "Invoked "@ + agent_id + " — run queued."@),
        effect::line(Channel::Out, "  Watch it:  forgeos logs "@ + agent_id + " --follow"@),
    ]
}

/// How the command begins.
pub open spec fn started(args: Args, r: Start) -> bool {
    match r {
        Start::Fire(request, done) => {
            &&& !args.wait && !args.wait_approvals
            &&& request@ == effect::posting(
                invoke_path(args.agent_id@, "/invoke?async_mode=true"@),
                invoke_body(args.prompt@),
            )
            &&& effect::shown(done@) == queued(args.agent_id@)
        },
        Start::Wait(request, then) => {
            &&& args.wait || args.wait_approvals
            &&& request@ == effect::posting(
                invoke_path(args.agent_id@, "/invoke"@),
                invoke_body(args.prompt@),
            )
            &&& then.wait_approvals() == args.wait_approvals
        },
    }
}

/// Decides how the agent is invoked: asynchronously, unless the caller waits.
pub fn run(args: Args) -> (r: Start)
    ensures
        started(args, r),
{
    let id: &str = args.agent_id.as_str();
    let mut ms: Vec<Member> = Vec::new();
    json::put(&mut ms, "prompt", Json::Text(args.prompt));
    json::put(&mut ms, "context", Json::Object(Vec::new()));
    let body: Json = Json::Object(ms);
    if !(args.wait || args.wait_approvals) {
        let mut out: Vec<Output> = effect::single(
            Channel::Success,
            cat3("Invoked ", id, " — run queued."),
        );
        effect::emit(&mut out, Channel::Out, cat3("  Watch it:  forgeos logs ", id, " --follow"));
        assert(effect::shown(out@) == queued(id@));
        return Start::Fire(
            effect::post(cat3("/api/platform/agents/", id, "/invoke?async_mode=true"), body),
            out,
        );
    }
    Start::Wait(
        effect::post(cat3("/api/platform/agents/", id, "/invoke"), body),
        Invoked { wait_approvals: args.wait_approvals },
    )
}

/// The lines for one pending approval.
pub open spec fn approval_lines(p: Pending) -> Seq<OutputV> {
    let rid = effect::or_else(p.request_id, "?"@);
    seq![
        effect::line(
            Channel::Out,
            "  approval "@ + rid + "  (tool: "@ + effect::or_else(p.tool, ""@) + ")"@,
        ),
        effect::line(Channel::Out, "    approve:  forgeos approvals approve "@ + rid),
        effect::line(Channel::Out, "    reject:   forgeos approvals reject "@ + rid),
    ]
}

/// The lines for all pending approvals, in order.
pub open spec fn all_approval_lines(ps: Seq<Pending>) -> Seq<OutputV>
    decreases ps.len(),
{
    if ps.len() == 0 {
        Seq::empty()
    } else {
        all_approval_lines(ps.drop_last()) + approval_lines(ps.last())
    }
}

/// The lines for a paused run: what it awaits, its pending approvals, its id.
pub open spec fn paused_lines(h: RunHandle) -> Seq<OutputV> {
    seq![
        effect::line(
            Channel::Warning,
            "⏸ run paused — awaiting "@ + effect::or_else(h.suspend_reason, "human_approval"@),
        ),
    ] + match h.pending {
        Some(ps) => all_approval_lines(ps@),
        None => Seq::empty(),
    } + match h.run_id {
        Some(id) => seq![
            effect::line(
                Channel::Out,
                "  run id: "@ + id@ + "   (poll: forgeos runs status "@ + id@ + ")"@,
            ),
        ],
        None => Seq::empty(),
    }
}

/// The line for a result, where there is one and it is not empty.
pub open spec fn result_lines(result: Option<String>) -> Seq<OutputV> {
    match result {
        Some(r) => if r@.len() > 0 {
            seq![effect::line(Channel::Out, r@)]
        } else {
            Seq::empty()
        },
        None => Seq::empty(),
    }
}

/// One line for each warning.
pub open spec fn warning_lines(warnings: Seq<String>) -> Seq<OutputV> {
    warnings.map_values(|w: String| effect::line(Channel::Warning, w@))
}

/// The lines that show a run handle: by its status, and then whether the run was
/// simulated, and its warnings. A handle without a status is a legacy response,
/// and shows its result.
pub open spec fn handle_lines(h: RunHandle) -> Seq<OutputV> {
    let status = json::opt(h.status);
    (if status == Some("paused"@) {
        paused_lines(h)
    } else if status == Some("failed"@) {
        seq![effect::line(Channel::Failure, effect::or_else(h.error, "run failed"@))]
    } else {
        result_lines(h.result)
    }) + (if h.simulated == Some(true) {
        seq![
            effect::line(
                Channel::Warning,
                "Agent ran in SIMULATED mode — no real LLM call was made."@,
            ),
        ]
    } else {
        Seq::empty()
    }) + match h.warnings {
        Some(ws) => warning_lines(ws@),
        None => Seq::empty(),
    }
}

fn has_status(h: &RunHandle, status: &str) -> (r: bool)
    ensures
        r == (json::opt(h.status) == Some(status@)),
{
    match &h.status {
        Some(s) => same(s.as_str(), status),
        None => false,
    }
}

fn render_approvals(out: &mut Vec<Output>, ps: &Vec<Pending>)
    ensures
        effect::shown(final(out)@) == effect::shown(old(out)@) + all_approval_lines(ps@),
{
    let n: usize = ps.len();
    assert(effect::shown(out@) + all_approval_lines(ps@.take(0)) == effect::shown(out@));
    for i in 0..n
        invariant
            n == ps@.len(),
            effect::shown(out@) == effect::shown(old(out)@) + all_approval_lines(
                ps@.take(i as int),
            ),
    {
        let ghost before = effect::shown(out@);
        let p: &Pending = &ps[i];
        let rid: &str = effect::text_or(&p.request_id, "?");
        let tool: &str = effect::text_or(&p.tool, "");
        effect::emit(out, Channel::Out, cat5("  approval ", rid, "  (tool: ", tool, ")"));
        effect::emit(out, Channel::Out, cat2("    approve:  forgeos approvals approve ", rid));
        effect::emit(out, Channel::Out, cat2("    reject:   forgeos approvals reject ", rid));
        proof {
            assert(ps@.take(i + 1).drop_last() == ps@.take(i as int));
            assert(ps@.take(i + 1).last() == ps@[i as int]);
            assert(effect::shown(out@) == before + approval_lines(ps@[i as int]));
            assert(effect::shown(out@) == effect::shown(old(out)@) + all_approval_lines(
                ps@.take(i + 1),
            ));
        }
    }
    assert(ps@.take(n as int) == ps@);
}

fn render_result(out: &mut Vec<Output>, result: &Option<String>)
    ensures
        effect::shown(final(out)@) == effect::shown(old(out)@) + result_lines(*result),
{
    if let Some(r) = result {
        if !r.as_str().is_empty() {
            effect::emit(out, Channel::Out, r.clone());
        }
    }
    assert(effect::shown(out@) == effect::shown(old(out)@) + result_lines(*result));
}

fn render_paused(h: &RunHandle) -> (out: Vec<Output>)
    ensures
        effect::shown(out@) == paused_lines(*h),
{
    let reason: &str = effect::text_or(&h.suspend_reason, "human_approval");
    let mut out: Vec<Output> = effect::single(
        Channel::Warning,
        cat2("⏸ run paused — awaiting ", reason),
    );
    let ghost first = effect::shown(out@);
    if let Some(ps) = &h.pending {
        render_approvals(&mut out, ps);
    }
    let ghost second = effect::shown(out@);
    assert(second == first + match h.pending {
        Some(ps) => all_approval_lines(ps@),
        None => Seq::empty(),
    });
    if let Some(id) = &h.run_id {
        effect::emit(
            &mut out,
            Channel::Out,
            cat5(
                "  run id: ",
                id.as_str(),
                "   (poll: forgeos runs status ",
                id.as_str(),
                ")",
            ),
        );
    }
    assert(effect::shown(out@) == paused_lines(*h));
    out
}

/// Shows a run handle.
pub fn render(h: &RunHandle) -> (out: Vec<Output>)
    ensures
        effect::shown(out@) == handle_lines(*h),
{
    let mut out: Vec<Output> = if has_status(h, "paused") {
        render_paused(h)
    } else if has_status(h, "failed") {
        effect::single(Channel::Failure, effect::text_or(&h.error, "run failed").to_owned())
    } else {
        let mut shown: Vec<Output> = effect::silent();
        render_result(&mut shown, &h.result);
        shown
    };
    let ghost first = effect::shown(out@);
    assert(first == if json::opt(h.status) == Some("paused"@) {
        paused_lines(*h)
    } else if json::opt(h.status) == Some("failed"@) {
        seq![effect::line(Channel::Failure, effect::or_else(h.error, "run failed"@))]
    } else {
        result_lines(h.result)
    });
    if let Some(true) = h.simulated {
        effect::emit(
            &mut out,
            Channel::Warning,
            "Agent ran in SIMULATED mode — no real LLM call was made.".to_owned(),
        );
    }
    let ghost second = effect::shown(out@);
    assert(second == first + if h.simulated == Some(true) {
        seq![
            effect::line(
                Channel::Warning,
                "Agent ran in SIMULATED mode — no real LLM call was made."@,
            ),
        ]
    } else {
        Seq::empty()
    });
    if let Some(ws) = &h.warnings {
        let n: usize = ws.len();
        assert(second + warning_lines(ws@.take(0)) == second);
        for i in 0..n
            invariant
                n == ws@.len(),
                effect::shown(out@) == second + warning_lines(ws@.take(i as int)),
        {
            effect::emit(&mut out, Channel::Warning, ws[i].clone());
            assert(warning_lines(ws@.take(i + 1)) == warning_lines(ws@.take(i as int)).push(
                effect::line(Channel::Warning, ws@[i as int]@),
            ));
            assert(effect::shown(out@) == second + warning_lines(ws@.take(i + 1)));
        }
        assert(ws@.take(n as int) == ws@);
    }
    assert(effect::shown(out@) == handle_lines(*h));
    out
}

/// The lines that show a run which the wait finds parked on a human-approval gate. A
/// `suspended` run has its pending approvals shown as a `paused` one has.
pub open spec fn parked_lines(h: RunHandle) -> Seq<OutputV> {
    if json::opt(h.status) == Some("suspended"@) {
        paused_lines(h) + handle_lines(h)
    } else {
        handle_lines(h)
    }
}

fn render_parked(h: &RunHandle) -> (out: Vec<Output>)
    ensures
        effect::shown(out@) == parked_lines(*h),
{
    if has_status(h, "suspended") {
        let mut out: Vec<Output> = render_paused(h);
        effect::append(&mut out, render(h));
        out
    } else {
        render(h)
    }
}

/// The wait for a run, after some lines.
pub open spec fn waiting(before: Seq<OutputV>, run_id: Seq<char>, wait_approvals: bool) -> StepV {
    StepV {
        outputs: before.push(
            effect::line(Channel::Note, "⏳ waiting for run "@ + run_id + " …"@),
        ),
        next: NextV::Poll(
            effect::getting(run_poll::run_path(run_id)),
            wait_approvals,
            0,
        ),
    }
}

/// Lines to show, and the end of the command.
pub open spec fn exits(outputs: Seq<OutputV>, code: int) -> StepV {
    StepV { outputs, next: NextV::Exit(code) }
}

/// What the handle of an invocation leads to. A run that has not finished is
/// waited for where the handle has an id; a paused one only where the caller waits
/// out approvals. Anything else is shown, and that is all.
pub open spec fn invoked(h: RunHandle, wait_approvals: bool) -> StepV {
    let status = effect::or_else(h.status, ""@);
    if status == "running"@ || status == "queued"@ || status == "resuming"@ {
        match h.run_id {
            Some(id) => waiting(Seq::empty(), id@, wait_approvals),
            None => exits(handle_lines(h), 0),
        }
    } else if (status == "paused"@ || status == "suspended"@) && wait_approvals && h.run_id is Some {
        waiting(handle_lines(h), h.run_id->Some_0@, true)
    } else {
        exits(handle_lines(h), 0)
    }
}

/// Starts to wait for a run.
pub fn poll_until_terminal(before: Vec<Output>, run_id: &str, wait_approvals: bool) -> (r: Step)
    ensures
        r@ == waiting(effect::shown(before@), run_id@, wait_approvals),
{
    let mut out: Vec<Output> = before;
    effect::emit(&mut out, Channel::Note, cat3("⏳ waiting for run ", run_id, " …"));
    Step {
        outputs: out,
        next: Next::Poll(run_poll::run_request(run_id), Looking { wait_approvals, looks: 0 }),
    }
}

impl Invoked {
    /// Takes the run handle that the invocation returned.
    pub fn on_handle(self, h: RunHandle) -> (r: Step)
        ensures
            r@ == invoked(h, self.wait_approvals()),
    {
        let status: &str = effect::text_or(&h.status, "");
        if same(status, "running") || same(status, "queued") || same(status, "resuming") {
            return match &h.run_id {
                Some(id) => poll_until_terminal(
                    effect::silent(),
                    id.as_str(),
                    self.wait_approvals,
                ),
                None => Step { outputs: render(&h), next: Next::Exit(0) },
            };
        }
        if (same(status, "paused") || same(status, "suspended")) && self.wait_approvals {
            if let Some(id) = &h.run_id {
                return poll_until_terminal(render(&h), id.as_str(), true);
            }
        }
        Step { outputs: render(&h), next: Next::Exit(0) }
    }
}

/// The end that a look at the run brings, where it brings one. A failed read
/// brings none.
pub open spec fn terminal(reply: Option<RunHandle>, wait_approvals: bool) -> Option<StepV> {
    match reply {
        None => None,
        Some(h) => {
            let status = json::opt(h.status);
            if status == Some("completed"@) {
                Some(
                    exits(
                        result_lines(h.result).push(
                            effect::line(Channel::Success, "run completed"@),
                        ),
                        0,
                    ),
                )
            } else if status == Some("failed"@) {
                Some(
                    exits(
                        seq![
                            effect::line(
                                Channel::Failure,
                                effect::or_else(h.error, "run failed"@),
                            ),
                        ],
                        1,
                    ),
                )
            } else if (status == Some("paused"@) || status == Some("suspended"@))
                && !wait_approvals {
                Some(exits(parked_lines(h), 0))
            } else {
                None
            }
        },
    }
}

/// What ends the wait for a run that takes too long.
pub open spec fn timed_out() -> StepV {
    exits(
        seq![
            effect::line(
                Channel::Warning,
                "timed out waiting for the run; check `forgeos runs status` / `forgeos logs`"@,
            ),
        ],
        0,
    )
}

/// What the look number `looks` + 1 leads to: an end, or another look.
pub open spec fn looked(looks: nat, wait_approvals: bool, reply: Option<RunHandle>) -> Option<
    StepV,
> {
    if terminal(reply, wait_approvals) is Some {
        terminal(reply, wait_approvals)
    } else if looks + 1 >= MAX_LOOKS {
        Some(timed_out())
    } else {
        None
    }
}

/// What one look leads to, from and to a state of the wait.
pub open spec fn found(
    before: Looking,
    after: Looking,
    reply: Option<RunHandle>,
    r: Option<(Vec<Output>, i32)>,
) -> bool {
    &&& after.wait_approvals() == before.wait_approvals()
    &&& match r {
        Some((out, code)) => looked(before.looks(), before.wait_approvals(), reply) == Some(
            exits(effect::shown(out@), code as int),
        ),
        None => {
            &&& looked(before.looks(), before.wait_approvals(), reply) is None
            &&& after.looks() == before.looks() + 1
        },
    }
}

impl Looking {
    /// Takes what one look at the run brought: the handle, or nothing where the
    /// read failed. Gives the lines to show and the exit code where the wait is
    /// over.
    pub fn on_look(&mut self, reply: Option<RunHandle>) -> (r: Option<(Vec<Output>, i32)>)
        ensures
            found(*old(self), *final(self), reply, r),
    {
        if let Some(h) = reply {
            if has_status(&h, "completed") {
                let mut out: Vec<Output> = effect::silent();
                render_result(&mut out, &h.result);
                assert(effect::shown(out@) == result_lines(h.result));
                effect::emit(&mut out, Channel::Success, "run completed".to_owned());
                return Some((out, 0));
            }
            if has_status(&h, "failed") {
                proof {
                    reveal_strlit("completed");
                    reveal_strlit("failed");
                }
                return Some(
                    (
                        effect::single(
                            Channel::Failure,
                            effect::text_or(&h.error, "run failed").to_owned(),
                        ),
                        1,
                    ),
                );
            }
            if (has_status(&h, "paused") || has_status(&h, "suspended")) && !self.wait_approvals {
                return Some((render_parked(&h), 0));
            }
        }
        if self.looks >= MAX_LOOKS - 1 {
            return Some(
                (
                    effect::single(
                        Channel::Warning,
                        "timed out waiting for the run; check `forgeos runs status` / `forgeos logs`".to_owned(),
                    ),
                    0,
                ),
            );
        }
        self.looks = self.looks + 1;
        None
    }
}

/// Where the wait for a run stands after some looks, with what comes after its end
/// ignored: how many looks it took so far, or its end.
pub open spec fn waited(replies: Seq<Option<RunHandle>>, wait_approvals: bool) -> Result<
    nat,
    StepV,
>
    decreases replies.len(),
{
    if replies.len() == 0 {
        Ok(0)
    } else {
        match waited(replies.drop_last(), wait_approvals) {
            Ok(looks) => match looked(looks, wait_approvals, replies.last()) {
                Some(end) => Err(end),
                None => Ok(looks + 1),
            },
            Err(end) => Err(end),
        }
    }
}

proof fn waited_counts(replies: Seq<Option<RunHandle>>, wait_approvals: bool)
    requires
        waited(replies, wait_approvals) is Ok,
    ensures
        waited(replies, wait_approvals)->Ok_0 == replies.len(),
        replies.len() < MAX_LOOKS,
    decreases replies.len(),
{
    if replies.len() > 0 {
        waited_counts(replies.drop_last(), wait_approvals);
    }
}

/// A stuck run does not hold the command up for ever: after 300 looks the wait is
/// over, whatever they brought.
pub proof fn law_the_wait_is_bounded(replies: Seq<Option<RunHandle>>, wait_approvals: bool)
    requires
        replies.len() >= MAX_LOOKS,
    ensures
        waited(replies, wait_approvals) is Err,
{
    if waited(replies, wait_approvals) is Ok {
        waited_counts(replies, wait_approvals);
    }
}

/// The wait ends with exit code 1 where the last look showed a failed run, and
/// with 0 otherwise.
pub proof fn law_exit_code_tells_failure(
    replies: Seq<Option<RunHandle>>,
    reply: Option<RunHandle>,
    wait_approvals: bool,
)
    requires
        waited(replies, wait_approvals) is Ok,
        waited(replies.push(reply), wait_approvals) is Err,
    ensures
        waited(replies.push(reply), wait_approvals)->Err_0.next == NextV::Exit(
            if reply is Some && json::opt(reply->Some_0.status) == Some("failed"@) {
                1
            } else {
                0
            },
        ),
{
    reveal_strlit("completed");
    reveal_strlit("failed");
    reveal_strlit("paused");
    reveal_strlit("suspended");
    assert(replies.push(reply).drop_last() == replies);
    assert("completed"@.len() == 9);
    assert("failed"@.len() == 6);
    assert("paused"@.len() == 6);
    assert("failed"@[0] != "paused"@[0]);
}

/// Who does not wait out approvals gets the command back at the first look that
/// shows the run parked on one, with what it awaits and all its pending approvals
/// shown first; who does, stays.
pub proof fn law_parked_runs(h: RunHandle, looks: nat)
    requires
        looks + 1 < MAX_LOOKS,
        json::opt(h.status) == Some("paused"@) || json::opt(h.status) == Some("suspended"@),
    ensures
        looked(looks, false, Some(h)) == Some(exits(parked_lines(h), 0)),
        paused_lines(h).is_prefix_of(parked_lines(h)),
        looked(looks, true, Some(h)) is None,
{
    reveal_strlit("completed");
    reveal_strlit("failed");
    reveal_strlit("paused");
    reveal_strlit("suspended");
    assert("completed"@[0] == 'c');
    assert("failed"@[0] == 'f');
    assert("paused"@[0] == 'p');
    assert("suspended"@[0] == 's');
}

} // verus!
