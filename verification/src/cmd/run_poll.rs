//! The run handle of the durable execution path, and how a run is polled.
//!
//! An invoke against a worker-tier server returns a *run handle* before the run
//! finishes: it may be `running`, `paused` (awaiting human approval), `completed`
//! or `failed`. Callers poll `GET /api/platform/runs/{run_id}` until the run
//! settles. Every field is optional, so that a legacy server's inline
//! `{result, ...}` response, which carries no `status` or `run_id`, is a handle
//! too, and counts as completed.

use vstd::prelude::*;

use crate::effect;
use crate::effect::Request;
use crate::json;
use crate::json::{Json, JsonV, Member};
use crate::text::{cat2, same};

verus! {

/// One tool call parked on a human-approval gate. `extra` holds whatever the
/// server attaches beyond the known fields, notably `args`, the tool input.
#[derive(Debug)]
pub struct Pending {
    pub request_id: Option<String>,
    pub tool: Option<String>,
    pub tool_use_id: Option<String>,
    pub suspend_reason: Option<String>,
    pub extra: Vec<Member>,
}

/// A run handle. Every field is optional.
#[derive(Debug)]
pub struct RunHandle {
    pub run_id: Option<String>,
    pub continuation_id: Option<String>,
    pub status: Option<String>,
    pub result: Option<String>,
    pub error: Option<String>,
    pub suspend_reason: Option<String>,
    pub pending: Option<Vec<Pending>>,
    pub warnings: Option<Vec<String>>,
    pub simulated: Option<bool>,
}

impl Default for Pending {
    /// Nothing known.
    fn default() -> (p: Pending)
        ensures
            p.request_id is None,
            p.tool is None,
            p.tool_use_id is None,
            p.suspend_reason is None,
            p.extra@.len() == 0,
    {
        Pending {
            request_id: None,
            tool: None,
            tool_use_id: None,
            suspend_reason: None,
            extra: Vec::new(),
        }
    }
}

impl Default for RunHandle {
    /// Nothing known.
    fn default() -> (h: RunHandle)
        ensures
            h.run_id is None,
            h.continuation_id is None,
            h.status is None,
            h.result is None,
            h.error is None,
            h.suspend_reason is None,
            h.pending is None,
            h.warnings is None,
            h.simulated is None,
    {
        RunHandle {
            run_id: None,
            continuation_id: None,
            status: None,
            result: None,
            error: None,
            suspend_reason: None,
            pending: None,
            warnings: None,
            simulated: None,
        }
    }
}

/// The object under `key`, where there is one.
pub open spec fn object_at(m: Map<Seq<char>, JsonV>, key: Seq<char>) -> Option<
    Map<Seq<char>, JsonV>,
> {
    match json::entry(m, key) {
        Some(JsonV::Object(o)) => Some(o),
        _ => None,
    }
}

/// The tool input among the extra fields: the object under `args`, else the one
/// under `input`, else the one under `arguments`.
pub open spec fn tool_input(extra: Map<Seq<char>, JsonV>) -> Option<Map<Seq<char>, JsonV>> {
    if object_at(extra, "args"@) is Some {
        object_at(extra, "args"@)
    } else if object_at(extra, "input"@) is Some {
        object_at(extra, "input"@)
    } else {
        object_at(extra, "arguments"@)
    }
}

/// The map of a list of members that may be absent.
pub open spec fn members_seen(ms: Option<&Vec<Member>>) -> Option<Map<Seq<char>, JsonV>> {
    match ms {
        Some(ms) => Some(json::members_view(ms@)),
        None => None,
    }
}

fn object_under<'a>(ms: &'a Vec<Member>, key: &str) -> (r: Option<&'a Vec<Member>>)
    ensures
        members_seen(r) == object_at(json::members_view(ms@), key@),
{
    match json::lookup(ms, key) {
        Some(Json::Object(o)) => Some(o),
        _ => None,
    }
}

impl Pending {
    /// Best-effort tool-input object: the server sends it under `args`, but
    /// `input` and `arguments` will do.
    pub fn args(&self) -> (r: Option<&Vec<Member>>)
        ensures
            members_seen(r) == tool_input(json::members_view(self.extra@)),
    {
        if let Some(m) = object_under(&self.extra, "args") {
            return Some(m);
        }
        if let Some(m) = object_under(&self.extra, "input") {
            return Some(m);
        }
        object_under(&self.extra, "arguments")
    }
}

impl RunHandle {
    /// The id under which the run is polled: `run_id`, else `continuation_id`.
    pub open spec fn polled_as(&self) -> Option<Seq<char>> {
        match (self.run_id, self.continuation_id) {
            (Some(id), _) => Some(id@),
            (None, Some(id)) => Some(id@),
            (None, None) => None,
        }
    }

    /// The id under which the run is polled: `run_id`, else `continuation_id`.
    pub fn poll_id(&self) -> (r: Option<&str>)
        ensures
            json::seen_text(r) == self.polled_as(),
    {
        match &self.run_id {
            Some(id) => Some(id.as_str()),
            None => match &self.continuation_id {
                Some(id) => Some(id.as_str()),
                None => None,
            },
        }
    }
}

/// Where a run stands.
#[derive(Debug, PartialEq, Eq, Clone, Copy, Structural)]
pub enum RunState {
    Running,
    Paused,
    Completed,
    Failed,
    Unknown,
}

/// The state that a status names. A missing status means that the legacy inline
/// path already returned a result, so the run is completed.
pub open spec fn state_of(status: Option<Seq<char>>) -> RunState {
    match status {
        None => RunState::Completed,
        Some(s) => if s == "completed"@ || s == "done"@ {
            RunState::Completed
        } else if s == "failed"@ {
            RunState::Failed
        } else if s == "paused"@ || s == "suspended"@ {
            RunState::Paused
        } else if s == "running"@ || s == "resuming"@ || s == "queued"@ {
            RunState::Running
        } else {
            RunState::Unknown
        },
    }
}

/// Maps a run's `status` to a state.
pub fn classify(status: Option<&str>) -> (r: RunState)
    ensures
        r == state_of(json::seen_text(status)),
{
    match status {
        None => RunState::Completed,
        Some(s) => {
            if same(s, "completed") || same(s, "done") {
                RunState::Completed
            } else if same(s, "failed") {
                RunState::Failed
            } else if same(s, "paused") || same(s, "suspended") {
                RunState::Paused
            } else if same(s, "running") || same(s, "resuming") || same(s, "queued") {
                RunState::Running
            } else {
                RunState::Unknown
            }
        },
    }
}

impl RunHandle {
    /// Where the run stands.
    pub open spec fn state(&self) -> RunState {
        state_of(json::opt(self.status))
    }
}

/// The path of a run.
pub open spec fn run_path(run_id: Seq<char>) -> Seq<char> {
    "/api/platform/runs/"@ + run_id
}

/// The request that reads a run.
pub fn run_request(run_id: &str) -> (r: Request)
    ensures
        r@ == effect::getting(run_path(run_id@)),
{
    effect::get(cat2("/api/platform/runs/", run_id))
}

/// Seconds between two looks at a run.
pub const POLL_SECONDS: u64 = 2;

/// Failed reads in a row after which polling gives up.
pub const MAX_TRANSIENT_ERRORS: u32 = 5;

/// Polling in progress: how many reads in a row have failed.
pub struct Polling {
    transient: u32,
}

/// What to do after one look at a run.
pub enum Poll<E> {
    /// Wait, and look again.
    Again,
    /// The run is no longer running.
    Settled(RunHandle),
    /// Too many reads failed in a row; this is the last error.
    GaveUp(E),
}

/// What one look at a run leads to, after `errors` failed reads in a row: the
/// new number of failed reads in a row, and what to do.
pub open spec fn look<E>(errors: nat, reply: Result<RunHandle, E>) -> (nat, Poll<E>) {
    match reply {
        Ok(h) => (
            0,
            if h.state() != RunState::Running {
                Poll::Settled(h)
            } else {
                Poll::Again
            },
        ),
        Err(e) => (
            errors + 1,
            if errors + 1 >= MAX_TRANSIENT_ERRORS {
                Poll::GaveUp(e)
            } else {
                Poll::Again
            },
        ),
    }
}

/// What the reply to one look leads to, from and to a number of failed reads in a row.
pub open spec fn replied<E>(
    before: nat,
    after: nat,
    reply: Result<RunHandle, E>,
    r: Poll<E>,
) -> bool {
    &&& r == look(before, reply).1
    &&& r is Again ==> after == look(before, reply).0
}

/// Starts to poll a run until it is no longer running: the request to repeat
/// every `POLL_SECONDS`, and the state to take its replies with.
pub fn poll_until_settled(run_id: &str) -> (r: (Request, Polling))
    ensures
        r.0@ == effect::getting(run_path(run_id@)),
        r.1.errors() == 0,
{
    (run_request(run_id), Polling { transient: 0 })
}

impl Polling {
    /// How many reads in a row have failed.
    pub closed spec fn errors(&self) -> nat {
        self.transient as nat
    }

    /// Takes the reply to one look at the run.
    pub fn on_reply<E>(&mut self, reply: Result<RunHandle, E>) -> (r: Poll<E>)
        ensures
            replied(old(self).errors(), final(self).errors(), reply, r),
    {
        match reply {
            Ok(h) => {
                self.transient = 0;
                if !matches!(classify(json::as_deref(&h.status)), RunState::Running) {
                    Poll::Settled(h)
                } else {
                    Poll::Again
                }
            },
            Err(e) => {
                if self.transient >= MAX_TRANSIENT_ERRORS - 1 {
                    return Poll::GaveUp(e);
                }
                self.transient = self.transient + 1;
                Poll::Again
            },
        }
    }
}

/// Where polling stands after some replies.
pub ghost enum Progress<E> {
    Waiting(nat),
    Settled(RunHandle),
    GaveUp(E),
}

/// Where polling stands after `replies`, with what comes after the end ignored.
pub open spec fn progress<E>(replies: Seq<Result<RunHandle, E>>) -> Progress<E>
    decreases replies.len(),
{
    if replies.len() == 0 {
        Progress::Waiting(0)
    } else {
        match progress(replies.drop_last()) {
            Progress::Waiting(errors) => {
                let (now, next) = look(errors, replies.last());
                match next {
                    Poll::Again => Progress::Waiting(now),
                    Poll::Settled(h) => Progress::Settled(h),
                    Poll::GaveUp(e) => Progress::GaveUp(e),
                }
            },
            ended => ended,
        }
    }
}

/// How many replies at the end are errors.
pub open spec fn trailing_errors<E>(replies: Seq<Result<RunHandle, E>>) -> nat
    decreases replies.len(),
{
    if replies.len() == 0 || replies.last() is Ok {
        0
    } else {
        trailing_errors(replies.drop_last()) + 1
    }
}

/// While polling waits, it has counted the errors at the end, and there are fewer
/// than five.
proof fn waiting_counts<E>(replies: Seq<Result<RunHandle, E>>)
    requires
        progress(replies) is Waiting,
    ensures
        progress(replies) == Progress::<E>::Waiting(trailing_errors(replies)),
        trailing_errors(replies) < MAX_TRANSIENT_ERRORS,
    decreases replies.len(),
{
    if replies.len() > 0 {
        waiting_counts(replies.drop_last());
    }
}

/// At least `k` replies at the end are errors where the last `k` are, and the
/// other way round.
proof fn trailing_means<E>(replies: Seq<Result<RunHandle, E>>, k: nat)
    ensures
        trailing_errors(replies) >= k <==> replies.len() >= k && forall|i: int|
            replies.len() - k <= i < replies.len() ==> #[trigger] replies[i] is Err,
    decreases k,
{
    if k > 0 && replies.len() > 0 {
        let front = replies.drop_last();
        trailing_means(front, (k - 1) as nat);
        if replies.len() >= k && (forall|i: int|
            replies.len() - k <= i < replies.len() ==> #[trigger] replies[i] is Err) {
            assert(replies[replies.len() - 1] is Err);
            assert forall|i: int| front.len() - (k - 1) <= i < front.len() implies #[trigger] front[i] is Err by {
                assert(replies[i] is Err);
            }
        }
        if trailing_errors(replies) >= k {
            assert forall|i: int| replies.len() - k <= i < replies.len() implies #[trigger] replies[i] is Err by {
                if i < replies.len() - 1 {
                    assert(front[i] is Err);
                }
            }
        }
    }
}

/// Polling ends at the first reply that shows a run no longer running, or that is
/// the fifth error in a row; it hands back that reply.
pub proof fn law_polling_ends<E>(replies: Seq<Result<RunHandle, E>>, reply: Result<RunHandle, E>)
    requires
        progress(replies) is Waiting,
    ensures
        progress(replies.push(reply)) is Settled <==> reply is Ok && reply->Ok_0.state()
            != RunState::Running,
        progress(replies.push(reply)) is Settled ==> progress(replies.push(reply))
            == Progress::<E>::Settled(reply->Ok_0),
        progress(replies.push(reply)) is GaveUp <==> {
            let all = replies.push(reply);
            all.len() >= MAX_TRANSIENT_ERRORS && forall|i: int|
                all.len() - MAX_TRANSIENT_ERRORS <= i < all.len() ==> #[trigger] all[i] is Err
        },
        progress(replies.push(reply)) is GaveUp ==> progress(replies.push(reply))
            == Progress::<E>::GaveUp(reply->Err_0),
{
    let all = replies.push(reply);
    assert(all.drop_last() == replies);
    waiting_counts(replies);
    trailing_means(all, MAX_TRANSIENT_ERRORS as nat);
}

/// A dead server ends polling: wherever it waits, five errors in a row are
/// enough.
pub proof fn law_dead_server_ends_polling<E>(
    replies: Seq<Result<RunHandle, E>>,
    errors: Seq<E>,
)
    requires
        errors.len() >= MAX_TRANSIENT_ERRORS,
    ensures
        progress(replies + errors.map_values(|e: E| Err::<RunHandle, E>(e))) !is Waiting,
{
    let all = replies + errors.map_values(|e: E| Err::<RunHandle, E>(e));
    if progress(all) is Waiting {
        waiting_counts(all);
        trailing_means(all, MAX_TRANSIENT_ERRORS as nat);
    }
}

} // verus!
