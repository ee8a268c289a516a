//! Laws of run handles.

use vstd::prelude::*;

use crate::cmd::run_poll;
use crate::cmd::run_poll::{Poll, RunHandle, RunState};
use crate::json::JsonV;

verus! {

/// The tool input is the first object there is under `args`, `input` and `arguments`,
/// in this order, whatever else stands under these keys.
pub proof fn law_tool_input(extra: Map<Seq<char>, JsonV>)
    ensures
        ({
            let there = |key: Seq<char>| extra.dom().contains(key) && extra[key] is Object;
            let input = run_poll::tool_input(extra);
            &&& there("args"@) ==> input == Some(extra["args"@]->Object_0)
            &&& !there("args"@) && there("input"@) ==> input == Some(extra["input"@]->Object_0)
            &&& !there("args"@) && !there("input"@) && there("arguments"@) ==> input == Some(
                extra["arguments"@]->Object_0,
            )
            &&& !there("args"@) && !there("input"@) && !there("arguments"@) ==> input is None
        }),
{
}

/// A run is polled under its run id, and under its continuation id where it has no
/// run id.
pub proof fn law_poll_id(h: RunHandle)
    ensures
        h.run_id matches Some(id) ==> h.polled_as() == Some(id@),
        h.run_id is None ==> (h.continuation_id matches Some(id) ==> h.polled_as() == Some(id@)),
        h.run_id is None && h.continuation_id is None ==> h.polled_as() is None,
{
}

/// Which statuses name which state; one that is missing counts as completed, and one
/// that is none of these is unknown.
pub proof fn law_states(s: Seq<char>)
    ensures
        run_poll::state_of(None) == RunState::Completed,
        run_poll::state_of(Some(s)) == RunState::Completed <==> s == "completed"@ || s == "done"@,
        run_poll::state_of(Some(s)) == RunState::Failed <==> s == "failed"@,
        run_poll::state_of(Some(s)) == RunState::Paused <==> s == "paused"@ || s == "suspended"@,
        run_poll::state_of(Some(s)) == RunState::Running <==> s == "running"@ || s == "resuming"@
            || s == "queued"@,
{
    reveal_strlit("completed");
    reveal_strlit("done");
    reveal_strlit("failed");
    reveal_strlit("paused");
    reveal_strlit("suspended");
    reveal_strlit("running");
    reveal_strlit("resuming");
    reveal_strlit("queued");
    assert("completed"@[0] == 'c');
    assert("done"@[0] == 'd');
    assert("failed"@[0] == 'f');
    assert("paused"@[0] == 'p');
    assert("suspended"@[0] == 's');
    assert("running"@[0] == 'r');
    assert("resuming"@[0] == 'r');
    assert("queued"@[0] == 'q');
}

/// The state of a handle is the one that its status names.
pub proof fn law_state_of_a_handle(h: RunHandle)
    ensures
        h.status is None ==> h.state() == RunState::Completed,
        h.status matches Some(s) ==> h.state() == run_poll::state_of(Some(s@)),
{
}

/// A run is read at its own path, every two seconds, and the fifth failed read in a
/// row is one too many.
pub proof fn law_how_a_run_is_read(id: Seq<char>)
    ensures
        run_poll::run_path(id) == "/api/platform/runs/"@ + id,
        run_poll::POLL_SECONDS == 2,
        run_poll::MAX_TRANSIENT_ERRORS == 5,
{
}

/// A read that shows the run no longer running ends the polling with that handle; one
/// that shows it running starts the count of failed reads anew; a failed one is
/// counted, and the fifth in a row ends the polling with its error.
pub proof fn law_one_read<E>(before: nat, after: nat, reply: Result<RunHandle, E>, r: Poll<E>)
    requires
        run_poll::replied(before, after, reply, r),
    ensures
        reply matches Ok(h) && h.state() != RunState::Running ==> r == Poll::<E>::Settled(
            reply->Ok_0,
        ),
        reply matches Ok(h) && h.state() == RunState::Running ==> r is Again && after == 0,
        reply is Err && before + 1 >= 5 ==> r == Poll::<E>::GaveUp(reply->Err_0),
        reply is Err && before + 1 < 5 ==> r is Again && after == before + 1,
{
}

} // verus!
