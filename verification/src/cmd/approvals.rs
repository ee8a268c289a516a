//! `forgeos approvals <subcommand>`: the human-approval queue.

use vstd::prelude::*;

use crate::codec;
use crate::effect;
use crate::effect::{Channel, Output, OutputV, Request};
use crate::json;
use crate::json::{Json, JsonV, Member};
use crate::text;
use crate::text::{cat2, cat3};

verus! {

/// A subcommand.
#[derive(Debug)]
pub enum ApprovalsCmd {
    /// List pending human-approval requests.
    List {
        /// Filter to requests fired by this agent_id.
        from_agent: Option<String>,
        /// Compact output (just request_id + a one-line summary).
        short: bool,
    },
    /// Approve a pending request.
    Approve { request_id: String, notes: Option<String> },
    /// Reject a pending request.
    Reject { request_id: String, reason: Option<String> },
}

/// An object with the one member `key`, or with none where its text is absent.
pub open spec fn optional_member(key: Seq<char>, text: Option<Seq<char>>) -> JsonV {
    match text {
        Some(t) => JsonV::Object(Map::empty().insert(key, JsonV::Text(t))),
        None => JsonV::Object(Map::empty()),
    }
}

fn optional_body(key: &str, text: Option<&str>) -> (r: Json)
    ensures
        r@ == optional_member(key@, json::seen_text(text)),
{
    let mut ms: Vec<Member> = Vec::new();
    if let Some(t) = text {
        json::put(&mut ms, key, Json::Text(t.to_owned()));
    }
    Json::Object(ms)
}

/// The request that approves `request_id`.
pub open spec fn approval(request_id: Seq<char>, notes: Option<Seq<char>>) -> effect::RequestV {
    effect::posting(
        "/api/approvals/"@ + request_id + "/approve"@,
        optional_member("notes"@, notes),
    )
}

/// The request that rejects `request_id`.
pub open spec fn rejection(request_id: Seq<char>, reason: Option<Seq<char>>) -> effect::RequestV {
    effect::posting(
        "/api/approvals/"@ + request_id + "/reject"@,
        optional_member("reason"@, reason),
    )
}

/// The request that approves `request_id` (shared by the `approve` subcommand and
/// the interactive chat).
pub fn approve(request_id: &str, notes: Option<&str>) -> (r: Request)
    ensures
        r@ == approval(request_id@, json::seen_text(notes)),
{
    effect::post(cat3("/api/approvals/", request_id, "/approve"), optional_body("notes", notes))
}

/// The request that rejects `request_id` (shared by the `reject` subcommand and
/// the interactive chat).
pub fn reject(request_id: &str, reason: Option<&str>) -> (r: Request)
    ensures
        r@ == rejection(request_id@, json::seen_text(reason)),
{
    effect::post(cat3("/api/approvals/", request_id, "/reject"), optional_body("reason", reason))
}

/// How a subcommand goes on.
pub enum Step {
    /// Send the request; once it has succeeded, show the lines and exit with 0.
    Send { request: Request, done: Vec<Output> },
    /// Read the pending requests and show them with `list`.
    List { request: Request, short: bool },
}

/// The path of the queue, for one agent or for all.
pub open spec fn queue_path(from_agent: Option<String>) -> Seq<char> {
    match from_agent {
        Some(a) => "/api/approvals?from_agent="@ + a@,
        None => "/api/approvals"@,
    }
}

/// What a subcommand leads to.
pub open spec fn step_of(cmd: ApprovalsCmd, step: Step) -> bool {
    match (cmd, step) {
        (ApprovalsCmd::List { from_agent, short }, Step::List { request, short: s }) => {
            &&& request@ == effect::getting(queue_path(from_agent))
            &&& s == short
        },
        (ApprovalsCmd::Approve { request_id, notes }, Step::Send { request, done }) => {
            &&& request@ == approval(request_id@, json::opt(notes))
            &&& effect::shown(done@) == seq![
                effect::line(Channel::Success, "Approved "@ + request_id@),
            ]
        },
        (ApprovalsCmd::Reject { request_id, reason }, Step::Send { request, done }) => {
            &&& request@ == rejection(request_id@, json::opt(reason))
            &&& effect::shown(done@) == seq![
                effect::line(Channel::Success, "Rejected "@ + request_id@),
            ]
        },
        _ => false,
    }
}

/// Decides what a subcommand asks of the platform.
pub fn run(cmd: ApprovalsCmd) -> (step: Step)
    ensures
        step_of(cmd, step),
{
    match cmd {
        ApprovalsCmd::List { from_agent, short } => {
            let path: String = match from_agent {
                Some(a) => cat2("/api/approvals?from_agent=", a.as_str()),
                None => "/api/approvals".to_owned(),
            };
            Step::List { request: effect::get(path), short }
        },
        ApprovalsCmd::Approve { request_id, notes } => {
            Step::Send {
                request: approve(request_id.as_str(), json::as_deref(&notes)),
                done: effect::single(Channel::Success, cat2("Approved ", request_id.as_str())),
            }
        },
        ApprovalsCmd::Reject { request_id, reason } => {
            Step::Send {
                request: reject(request_id.as_str(), json::as_deref(&reason)),
                done: effect::single(Channel::Success, cat2("Rejected ", request_id.as_str())),
            }
        },
    }
}

/// A row of the compact listing: three columns of 18, 22 and 16, and a rest.
pub open spec fn row(id: Seq<char>, run: Seq<char>, issue: Seq<char>, question: Seq<char>) -> Seq<
    char,
> {
    text::pad(id, 18) + "  "@ + text::pad(run, 22) + "  "@ + text::pad(issue, 16) + "  "@ + question
}

fn row_text(id: &str, run: &str, issue: &str, question: &str) -> (r: String)
    ensures
        r@ == row(id@, run@, issue@, question@),
{
    let mut r: String = text::padded(id, 18);
    r.append("  ");
    r.append(text::padded(run, 22).as_str());
    r.append("  ");
    r.append(text::padded(issue, 16).as_str());
    r.append("  ");
    r.append(question);
    r
}

/// The run that an approval blocks: the text under `run_id`, or where there is no
/// `run_id`, the one under `continuation_id`; empty where there is no text.
pub open spec fn blocked_run(r: JsonV) -> Seq<char> {
    if r.field("run_id"@) is Some {
        json::text_or(r.field("run_id"@), ""@)
    } else {
        json::text_or(r.field("continuation_id"@), ""@)
    }
}

/// The row for one pending request.
pub open spec fn request_row(r: JsonV) -> Seq<char> {
    let content = r.field("content"@);
    row(
        json::text_or(r.field("id"@), "?"@),
        text::clip(blocked_run(r), 22),
        json::text_or(json::within(json::within(content, "context"@), "issue_key"@), ""@),
        text::clip(json::text_or(json::within(content, "question"@), ""@), 40),
    )
}

fn request_row_text(r: &Json) -> (t: String)
    ensures
        t@ == request_row(r@),
{
    let id: &str = json::str_or(r.get("id"), "?");
    let run_id: &str = match r.get("run_id") {
        Some(v) => json::str_or(Some(v), ""),
        None => json::str_or(r.get("continuation_id"), ""),
    };
    let content: Option<&Json> = r.get("content");
    let issue: &str = json::str_or(json::dig(json::dig(content, "context"), "issue_key"), "");
    let q: &str = json::str_or(json::dig(content, "question"), "");
    row_text(id, text::clipped(run_id, 22), issue, text::clipped(q, 40))
}

/// The heading of the compact listing.
pub open spec fn heading() -> Seq<OutputV> {
    seq![
        effect::line(
            Channel::Out,
            row("REQUEST_ID"@, "RUN_ID"@, "ISSUE"@, "QUESTION"@),
        ),
        effect::line(
            Channel::Out,
            row(
                "------------------"@,
                "----------------------"@,
                "----------------"@,
                "----------------------------------------"@,
            ),
        ),
    ]
}

/// One line for each pending request.
pub open spec fn rows(items: Seq<Json>) -> Seq<OutputV> {
    items.map_values(|r: Json| effect::line(Channel::Out, request_row(r@)))
}

/// The listing of pending requests. The count goes to standard error, so that
/// standard output can be piped on.
pub open spec fn listing(items: Seq<Json>, short: bool) -> Result<Seq<OutputV>, Seq<char>> {
    if items.len() == 0 {
        Ok(seq![effect::line(Channel::Warning, "No pending approvals"@)])
    } else if short {
        Ok(
            heading() + rows(items) + seq![
                effect::line(Channel::Note, "\n"@ + text::decimal(items.len()) + " pending"@),
            ],
        )
    } else {
        in_full(items.len(), codec::pretty_text(JsonV::Array(json::items_view(items))))
    }
}

/// `count` pending requests in full, given their JSON text.
pub open spec fn in_full(count: nat, json: Result<Seq<char>, Seq<char>>) -> Result<
    Seq<OutputV>,
    Seq<char>,
> {
    match json {
        Ok(t) => Ok(
            seq![
                effect::line(Channel::Out, t),
                effect::line(Channel::Note, text::decimal(count) + " pending"@),
            ],
        ),
        Err(e) => Err(e),
    }
}

/// Shows `count` pending requests in full, given their JSON text.
pub fn list_in_full(count: usize, json: Result<String, String>) -> (r: Result<Vec<Output>, String>)
    ensures
        effect::lines_or_error(r) == in_full(count as nat, codec::outcome(json)),
{
    match json {
        Ok(t) => {
            let n: String = text::decimal_text(count as u64);
            let mut out: Vec<Output> = effect::single(Channel::Out, t);
            effect::emit(&mut out, Channel::Note, cat2(n.as_str(), " pending"));
            assert(effect::shown(out@) == seq![
                effect::line(Channel::Out, t@),
                effect::line(Channel::Note, n@ + " pending"@),
            ]);
            Ok(out)
        },
        Err(e) => Err(e),
    }
}

/// Shows the pending requests: as a table, or in full as JSON. The exit code is 0.
pub fn list(items: Vec<Json>, short: bool) -> (r: Result<Vec<Output>, String>)
    ensures
        effect::lines_or_error(r) == listing(items@, short),
{
    if items.len() == 0 {
        return Ok(effect::single(Channel::Warning, "No pending approvals".to_owned()));
    }
    if short {
        return Ok(short_list(&items));
    }
    let n: usize = items.len();
    let all: Json = Json::Array(items);
    list_in_full(n, all.to_string_pretty())
}

fn short_list(items: &Vec<Json>) -> (out: Vec<Output>)
    ensures
        effect::shown(out@) == heading() + rows(items@) + seq![
            effect::line(Channel::Note, "\n"@ + text::decimal(items@.len()) + " pending"@),
        ],
{
    let mut out: Vec<Output> = effect::single(
        Channel::Out,
        row_text("REQUEST_ID", "RUN_ID", "ISSUE", "QUESTION"),
    );
    effect::emit(
        &mut out,
        Channel::Out,
        row_text(
            "------------------",
            "----------------------",
            "----------------",
            "----------------------------------------",
        ),
    );
    assert(effect::shown(out@) == heading() + rows(items@.take(0)));
    let n: usize = items.len();
    for i in 0..n
        invariant
            n == items@.len(),
            effect::shown(out@) == heading() + rows(items@.take(i as int)),
    {
        effect::emit(&mut out, Channel::Out, request_row_text(&items[i]));
        assert(rows(items@.take(i + 1)) == rows(items@.take(i as int)).push(
            effect::line(Channel::Out, request_row(items@[i as int]@)),
        ));
        assert(effect::shown(out@) == heading() + rows(items@.take(i + 1)));
    }
    assert(items@.take(n as int) == items@);
    let count: String = text::decimal_text(n as u64);
    effect::emit(&mut out, Channel::Note, cat3("\n", count.as_str(), " pending"));
    out
}

/// The lines of a listing that go to standard output are the JSON text alone, or
/// in the compact form the heading and one row for each request; the count is
/// never among them.
pub proof fn law_listing_can_be_piped(items: Seq<Json>, short: bool)
    requires
        items.len() > 0,
        listing(items, short) is Ok,
    ensures
        effect::stdout(listing(items, short)->Ok_0) == if short {
            heading() + rows(items)
        } else {
            seq![
                effect::line(
                    Channel::Out,
                    codec::pretty_text(JsonV::Array(json::items_view(items)))->Ok_0,
                ),
            ]
        },
{
    let all = listing(items, short)->Ok_0;
    let body = if short {
        heading() + rows(items)
    } else {
        seq![
            effect::line(
                Channel::Out,
                codec::pretty_text(JsonV::Array(json::items_view(items)))->Ok_0,
            ),
        ]
    };
    assert(all == body.push(all.last()));
    assert(all.drop_last() == body);
    effect::stdout_of_out_lines(body);
    assert(effect::stdout(all) == effect::stdout(body)) by {
        reveal(Seq::filter);
    }
}

} // verus!
