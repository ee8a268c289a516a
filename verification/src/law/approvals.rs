//! Laws of the approval queue.

use vstd::prelude::*;

use crate::cmd::approvals;
use crate::cmd::approvals::{ApprovalsCmd, Step};
use crate::codec;
use crate::effect;
use crate::effect::{Channel, Method, RequestV};
use crate::json;
use crate::json::{Json, JsonV};
use crate::text;

verus! {

/// The object that a request sends.
pub open spec fn sends(r: RequestV, m: Map<Seq<char>, JsonV>) -> bool {
    r.body == Some(JsonV::Object(m))
}

/// An approval is posted to the request that it is about, with the notes under
/// `notes` and with nothing where there are none.
pub proof fn law_approval_goes_to_its_request(id: Seq<char>, notes: Option<Seq<char>>)
    ensures
        approvals::approval(id, notes).method == Method::Post,
        approvals::approval(id, notes).path == "/api/approvals/"@ + id + "/approve"@,
        notes matches Some(t) ==> sends(
            approvals::approval(id, notes),
            Map::empty().insert("notes"@, JsonV::Text(t)),
        ),
        notes is None ==> sends(approvals::approval(id, notes), Map::empty()),
{
}

/// A rejection is posted to the request that it is about, with the reason under
/// `reason` and with nothing where there is none.
pub proof fn law_rejection_goes_to_its_request(id: Seq<char>, reason: Option<Seq<char>>)
    ensures
        approvals::rejection(id, reason).method == Method::Post,
        approvals::rejection(id, reason).path == "/api/approvals/"@ + id + "/reject"@,
        reason matches Some(t) ==> sends(
            approvals::rejection(id, reason),
            Map::empty().insert("reason"@, JsonV::Text(t)),
        ),
        reason is None ==> sends(approvals::rejection(id, reason), Map::empty()),
{
}

/// Each subcommand does what its name says, to the request that it names: approving
/// approves it, rejecting rejects it, and listing reads the queue, that of one agent
/// where one is named.
pub proof fn law_subcommands(cmd: ApprovalsCmd, step: Step)
    requires
        approvals::step_of(cmd, step),
    ensures
        cmd matches ApprovalsCmd::Approve { request_id, notes } ==> (step matches Step::Send {
            request,
            done,
        } && request@ == approvals::approval(request_id@, json::opt(notes)) && effect::shown(done@)
            == seq![effect::line(Channel::Success, "Approved "@ + request_id@)]),
        cmd matches ApprovalsCmd::Reject { request_id, reason } ==> (step matches Step::Send {
            request,
            done,
        } && request@ == approvals::rejection(request_id@, json::opt(reason)) && effect::shown(
            done@,
        ) == seq![effect::line(Channel::Success, "Rejected "@ + request_id@)]),
        cmd matches ApprovalsCmd::List { from_agent, short } ==> (step matches Step::List {
            request,
            short: s,
        } && s == short && request@.method == Method::Get && request@.body is None && (
        from_agent is None ==> request@.path == "/api/approvals"@) && (from_agent matches Some(a)
            ==> request@.path == "/api/approvals?from_agent="@ + a@)),
{
}

/// A text that a request may have under a key.
pub open spec fn text_at(r: JsonV, key: Seq<char>, default: Seq<char>) -> Seq<char> {
    match r.field(key) {
        Some(JsonV::Text(t)) => t,
        _ => default,
    }
}

/// Where a request has its run under `run_id`, or under `continuation_id` where there
/// is no `run_id` at all.
pub proof fn law_blocked_run(r: JsonV)
    ensures
        r.field("run_id"@) is Some ==> approvals::blocked_run(r) == text_at(r, "run_id"@, ""@),
        r.field("run_id"@) is None ==> approvals::blocked_run(r) == text_at(
            r,
            "continuation_id"@,
            ""@,
        ),
{
}

/// A row of the table has the request's id, the run it blocks, the issue and the
/// question, each in its column; a run or a question that is too long is clipped.
pub proof fn law_row(r: JsonV, content: JsonV, context: JsonV)
    requires
        r.field("content"@) == Some(content),
        content.field("context"@) == Some(context),
    ensures
        approvals::request_row(r) == text::pad(text_at(r, "id"@, "?"@), 18) + "  "@ + text::pad(
            text::clip(approvals::blocked_run(r), 22),
            22,
        ) + "  "@ + text::pad(text_at(context, "issue_key"@, ""@), 16) + "  "@ + text::clip(
            text_at(content, "question"@, ""@),
            40,
        ),
{
}

/// A request without content has no issue and no question to show; one whose content
/// has no context has no issue to show.
pub proof fn law_row_without_content(r: JsonV)
    ensures
        r.field("content"@) is None ==> approvals::request_row(r) == text::pad(
            text_at(r, "id"@, "?"@),
            18,
        ) + "  "@ + text::pad(text::clip(approvals::blocked_run(r), 22), 22) + "  "@ + text::pad(
            ""@,
            16,
        ) + "  "@ + text::clip(""@, 40),
        r.field("content"@) matches Some(content) && content.field("context"@) is None
            ==> approvals::request_row(r) == text::pad(text_at(r, "id"@, "?"@), 18) + "  "@
            + text::pad(text::clip(approvals::blocked_run(r), 22), 22) + "  "@ + text::pad(""@, 16)
            + "  "@ + text::clip(text_at(r.field("content"@)->Some_0, "question"@, ""@), 40),
{
}

/// The table has its two heading lines, then one row for each request, in order, and
/// then the count, which does not go to standard output.
pub proof fn law_table(items: Seq<Json>, i: int)
    requires
        0 <= i < items.len(),
    ensures
        approvals::listing(items, true) is Ok,
        ({
            let out = approvals::listing(items, true)->Ok_0;
            &&& out.len() == items.len() + 3
            &&& out[0] == effect::line(
                Channel::Out,
                text::pad("REQUEST_ID"@, 18) + "  "@ + text::pad("RUN_ID"@, 22) + "  "@ + text::pad(
                    "ISSUE"@,
                    16,
                ) + "  "@ + "QUESTION"@,
            )
            &&& out[1] == effect::line(
                Channel::Out,
                text::pad("------------------"@, 18) + "  "@ + text::pad(
                    "----------------------"@,
                    22,
                ) + "  "@ + text::pad("----------------"@, 16) + "  "@
                    + "----------------------------------------"@,
            )
            &&& out[2 + i] == effect::line(Channel::Out, approvals::request_row(items[i]@))
            &&& out.last() == effect::line(
                Channel::Note,
                "\n"@ + text::decimal(items.len()) + " pending"@,
            )
        }),
{
}

/// The full listing is the JSON text of all requests on standard output, and their
/// count beside it; without such a text it is the error.
pub proof fn law_full_listing(items: Seq<Json>)
    requires
        items.len() > 0,
    ensures
        ({
            let all = codec::pretty_text(JsonV::Array(json::items_view(items)));
            let out = approvals::listing(items, false);
            &&& all is Ok <==> out is Ok
            &&& all is Ok ==> out->Ok_0.len() == 2 && out->Ok_0[0] == effect::line(
                Channel::Out,
                all->Ok_0,
            ) && out->Ok_0[1] == effect::line(
                Channel::Note,
                text::decimal(items.len()) + " pending"@,
            )
            &&& all is Err ==> out->Err_0 == all->Err_0
        }),
{
}

/// An empty queue is a warning and no listing, in either form.
pub proof fn law_empty_queue(short: bool)
    ensures
        approvals::listing(Seq::empty(), short) == Ok::<_, Seq<char>>(
            seq![effect::line(Channel::Warning, "No pending approvals"@)],
        ),
{
}

} // verus!
