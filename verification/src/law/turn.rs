//! Laws of one turn of a chat.

use vstd::prelude::*;

use crate::cmd::approvals;
use crate::cmd::run_poll;
use crate::cmd::run_poll::{Pending, RunHandle, RunState};
use crate::cmd::turn;
use crate::cmd::turn::{
    Answer, OutcomeV, TurnNext, TurnNextV, TurnOutcome, TurnStep, TurnStepV, TurnV, Verdict,
};
use crate::codec;
use crate::effect;
use crate::effect::{Channel, Style};
use crate::json;
use crate::json::JsonV;
use crate::text;

verus! {

/// The turn is over, with this reply and without a word.
pub open spec fn replies(step: TurnStepV, reply: Seq<char>) -> bool {
    step.outputs.len() == 0 && step.next == TurnNextV::Done(OutcomeV::Reply(reply))
}

/// The turn is over without a reply, for this reason and without a word.
pub open spec fn fails(step: TurnStepV, why: Seq<char>) -> bool {
    step.outputs.len() == 0 && step.next == TurnNextV::Done(OutcomeV::Failed(why))
}

/// A completed run's result is the reply, exactly as it is, whatever was decided on in
/// the turn before; `(no output)` is the reply only where there is no result or an
/// empty one.
pub proof fn law_the_result_is_the_reply(h: RunHandle, handled: Set<Seq<char>>)
    requires
        h.state() == RunState::Completed,
    ensures
        h.result matches Some(t) && t@.len() > 0 ==> replies(
            turn::taken(h, handled),
            h.result->Some_0@,
        ),
        h.result matches Some(t) && t@.len() == 0 ==> replies(
            turn::taken(h, handled),
            "(no output)"@,
        ),
        h.result is None ==> replies(turn::taken(h, handled), "(no output)"@),
{
    reveal_strlit("");
}

/// However the turn went before, a poll that finds the run completed with a result
/// ends it with that result as the reply.
pub proof fn law_the_reply_survives_approvals(
    first: RunHandle,
    path: Seq<TurnNextV>,
    i: int,
    h: RunHandle,
)
    requires
        turn::course(first, path),
        0 <= i < path.len() - 1,
        path[i] is Poll,
        path[i + 1] == turn::taken(h, turn::decided(path[i])).next,
        h.status matches Some(s) && s@ == "completed"@,
        h.result matches Some(t) && t@.len() > 0,
    ensures
        path[i + 1] == TurnNextV::Done(OutcomeV::Reply(h.result->Some_0@)),
{
    law_the_result_is_the_reply(h, turn::decided(path[i]));
}

/// A failed run ends the turn with its error.
pub proof fn law_a_failed_run_fails_the_turn(h: RunHandle, handled: Set<Seq<char>>)
    requires
        h.state() == RunState::Failed,
    ensures
        h.error matches Some(e) ==> fails(turn::taken(h, handled), e@),
        h.error is None ==> fails(turn::taken(h, handled), "run failed"@),
{
}

/// A running run is polled under its id, with all that was decided on kept in mind;
/// without an id it cannot be.
pub proof fn law_a_running_run_is_polled(h: RunHandle, handled: Set<Seq<char>>)
    requires
        h.state() == RunState::Running,
    ensures
        h.polled_as() matches Some(id) ==> turn::taken(h, handled).outputs.len() == 0
            && turn::taken(h, handled).next == TurnNextV::Poll(id, handled),
        h.polled_as() is None ==> fails(
            turn::taken(h, handled),
            "run is running but the server returned no run id to poll"@,
        ),
{
}

/// A run of unknown status ends the turn: with its result where it has one, even an
/// empty one, and else with its status.
pub proof fn law_an_unknown_run_ends_the_turn(h: RunHandle, handled: Set<Seq<char>>)
    requires
        h.state() == RunState::Unknown,
    ensures
        h.result matches Some(t) ==> replies(turn::taken(h, handled), t@),
        h.result is None ==> (h.status matches Some(s) ==> fails(
            turn::taken(h, handled),
            "unknown run status: "@ + s@,
        )),
{
}

/// A paused run has its pending actions taken one by one from the first on; without
/// any it ends the turn.
pub proof fn law_a_paused_run_asks(h: RunHandle, handled: Set<Seq<char>>)
    requires
        h.state() == RunState::Paused,
    ensures
        (h.pending is None || h.pending->Some_0@.len() == 0) ==> fails(
            turn::taken(h, handled),
            "run paused for approval but the server listed no pending action"@,
        ),
        h.pending matches Some(ps) && ps@.len() > 0 ==> turn::taken(h, handled) == turn::scan(
            TurnV { poll_id: h.polled_as(), pendings: h.pending->Some_0@, next: 0, handled },
        ),
{
}

/// The turn with the next pending action in turn.
pub open spec fn onward(t: TurnV) -> TurnV {
    TurnV { poll_id: t.poll_id, pendings: t.pendings, next: t.next + 1, handled: t.handled }
}

/// An action that nobody decided on in this turn is shown and put to the operator, and
/// nothing else is done before there is an answer.
pub proof fn law_an_open_action_is_asked_about(t: TurnV)
    requires
        t.next < t.pendings.len(),
        t.pendings[t.next as int].request_id matches Some(id) && !t.handled.contains(id@),
    ensures
        turn::scan(t).outputs == turn::pending_lines(t.pendings[t.next as int]) + seq![
            turn::question(),
        ],
        turn::scan(t).next == TurnNextV::Ask(t, 0),
        t.request_id() == t.pendings[t.next as int].request_id->Some_0@,
{
}

/// An action that was decided on is passed over without a word.
pub proof fn law_a_decided_action_is_passed_over(t: TurnV)
    requires
        t.next < t.pendings.len(),
        t.pendings[t.next as int].request_id matches Some(id) && t.handled.contains(id@),
    ensures
        turn::scan(t).outputs == turn::scan(onward(t)).outputs,
        turn::scan(t).next == turn::scan(onward(t)).next,
{
}

/// An action without a request id cannot be decided on: that is said, and it is passed
/// over.
pub proof fn law_an_action_without_id_is_passed_over(t: TurnV)
    requires
        t.next < t.pendings.len(),
        t.pendings[t.next as int].request_id is None,
    ensures
        turn::scan(t).outputs == seq![
            effect::line(Channel::Warning, "pending approval has no request id; skipping"@),
        ] + turn::scan(onward(t)).outputs,
        turn::scan(t).next == turn::scan(onward(t)).next,
{
}

/// After the last action the run is polled, with all that was decided on kept in mind.
pub proof fn law_after_the_last_action(t: TurnV)
    requires
        t.next >= t.pendings.len(),
    ensures
        t.poll_id matches Some(id) ==> turn::scan(t).outputs.len() == 0 && turn::scan(t).next
            == TurnNextV::Poll(id, t.handled),
        t.poll_id is None ==> fails(
            turn::scan(t),
            "run paused but the server returned no run id to poll"@,
        ),
{
}

/// The prompt for a decision stays on its line.
pub proof fn law_question()
    ensures
        turn::question().channel == Channel::Prompt,
        turn::question().spans.len() == 2,
        turn::question().spans[0].text == "Approve? [Y/n]"@,
        turn::question().spans[0].style == Style::Bold,
        turn::question().spans[1].text == " "@,
{
}

/// A pending action is shown by its tool, and then by its input where it has one.
pub proof fn law_pending_action_is_shown(p: Pending)
    ensures
        ({
            let out = turn::pending_lines(p);
            let input = run_poll::tool_input(json::members_view(p.extra@));
            &&& out.len() >= 1
            &&& out[0].channel == Channel::Warning
            &&& out[0].spans.len() == 2
            &&& out[0].spans[0].text == "⏸ the agent wants to run "@
            &&& (p.tool matches Some(t) ==> out[0].spans[1].text == t@)
            &&& p.tool is None ==> out[0].spans[1].text == "(tool)"@
            &&& out[0].spans[1].style == Style::BoldYellow
            &&& input is None ==> out.len() == 1
            &&& (input matches Some(m) ==> out.skip(1) == turn::input_lines(
                m,
                codec::compact_text(JsonV::Object(m)),
            ))
        }),
{
    let input = run_poll::tool_input(json::members_view(p.extra@));
    if let Some(m) = input {
        let rest = turn::input_lines(m, codec::compact_text(JsonV::Object(m)));
        assert(turn::pending_lines(p).skip(1) == rest);
    }
}

/// The text under the first of two keys that is there, where it is a text.
pub open spec fn text_under(m: Map<Seq<char>, JsonV>, a: Seq<char>, b: Seq<char>) -> Option<
    Seq<char>,
> {
    let v = if m.dom().contains(a) {
        m[a]
    } else if m.dom().contains(b) {
        m[b]
    } else {
        JsonV::Null
    };
    match v {
        JsonV::Text(t) => Some(t),
        _ => None,
    }
}

/// How many lines a text that may be absent takes.
pub open spec fn one_if(t: Option<Seq<char>>) -> int {
    match t {
        Some(_) => 1,
        None => 0,
    }
}

/// An input that looks like an email is shown by recipient, subject and body, each
/// where it is there, in this order; any other input is shown whole, as JSON text.
pub proof fn law_input_is_shown(m: Map<Seq<char>, JsonV>, whole: Result<Seq<char>, Seq<char>>)
    ensures
        ({
            let to = text_under(m, "to"@, "recipient"@);
            let subject = text_under(m, "subject"@, "subject"@);
            let body = text_under(m, "body"@, "text"@);
            let out = turn::input_lines(m, whole);
            &&& (to is Some || subject is Some || body is Some) ==> {
                &&& out.len() == one_if(to) + one_if(subject) + one_if(body)
                &&& (to matches Some(t) ==> out[0] == effect::line(
                    Channel::Out,
                    "    to:      "@ + t,
                ))
                &&& (subject matches Some(t) ==> out[one_if(to)] == effect::line(
                    Channel::Out,
                    "    subject: "@ + t,
                ))
                &&& (body matches Some(t) ==> out.last() == effect::line(
                    Channel::Out,
                    "    body:    "@ + turn::preview(t),
                ))
            }
            &&& (to is None && subject is None && body is None) ==> {
                &&& (whole matches Ok(t) ==> out == seq![
                    effect::line(Channel::Out, "    args: "@ + t),
                ])
                &&& whole is Err ==> out.len() == 0
            }
        }),
{
}

/// A body is shown as it is up to 200 characters; of a longer one the first 200 are
/// shown, and that there is more.
pub proof fn law_preview(body: Seq<char>)
    ensures
        body.len() <= 200 ==> turn::preview(body) == body,
        body.len() > 200 ==> turn::preview(body) == body.take(200) + "…"@,
{
    reveal_strlit("");
}

/// What an answer means.
pub proof fn law_meaning(a: Seq<char>)
    ensures
        turn::meaning(a) == Answer::Yes <==> a.len() == 0 || a == "y"@ || a == "yes"@,
        turn::meaning(a) == Answer::No <==> a == "n"@ || a == "no"@,
{
    reveal_strlit("");
    reveal_strlit("y");
    reveal_strlit("yes");
    reveal_strlit("n");
    reveal_strlit("no");
    assert("y"@[0] == 'y');
    assert("yes"@[0] == 'y');
    assert("n"@[0] == 'n');
    assert("no"@[0] == 'n');
    if a.len() == 0 {
        assert(a == ""@);
    }
}

/// White space round an answer makes no difference, and neither do capitals; the end of
/// input rejects.
pub proof fn law_what_is_heard(
    t: TurnV,
    tries: nat,
    a: Seq<char>,
    s: Seq<char>,
    b: Seq<char>,
)
    requires
        text::blank(a),
        text::blank(b),
        s.len() > 0 ==> !text::white_space(s[0]) && !text::white_space(s.last()),
    ensures
        turn::answer_in(a + s + b) == text::lowercase(s),
        turn::heard(t, tries, Some(a + s + b)) == turn::answered(
            t,
            tries,
            Some(text::lowercase(s)),
        ),
        turn::heard(t, tries, None).outputs.len() == 0,
        turn::heard(t, tries, None).next == TurnNextV::Send(
            approvals::rejection(t.request_id(), Some("rejected (eof)"@)),
            t,
            Verdict::Abort,
        ),
{
    crate::law::text::law_trim(a, s, b);
}

/// A yes sends the approval of the action in turn, a no its rejection, and an unclear
/// answer asks again, until the third, which rejects.
pub proof fn law_answers(t: TurnV, tries: nat, a: Seq<char>)
    ensures
        ({
            let step = turn::answered(t, tries, Some(a));
            let id = t.request_id();
            let warning = effect::line(Channel::Warning, "please answer y or n"@);
            let no = TurnNextV::Send(
                approvals::rejection(id, Some("rejected from chat"@)),
                t,
                Verdict::Reject,
            );
            &&& turn::meaning(a) == Answer::Yes ==> step.outputs.len() == 0 && step.next
                == TurnNextV::Send(approvals::approval(id, None), t, Verdict::Approve)
            &&& turn::meaning(a) == Answer::No ==> step.outputs.len() == 0 && step.next == no
            &&& turn::meaning(a) == Answer::Unclear && tries + 1 < 3 ==> step.outputs == seq![
                warning,
                turn::question(),
            ] && step.next == TurnNextV::Ask(t, tries + 1)
            &&& turn::meaning(a) == Answer::Unclear && tries + 1 >= 3 ==> step.outputs == seq![
                warning,
            ] && step.next == no
        }),
{
}

/// Once a decision was sent, it is reported and kept in mind, and the turn goes on with
/// the next action; at the end of input the turn is over.
pub proof fn law_after_a_decision(t: TurnV)
    ensures
        ({
            let id = t.request_id();
            let on = turn::scan(
                TurnV {
                    poll_id: t.poll_id,
                    pendings: t.pendings,
                    next: t.next + 1,
                    handled: t.handled.insert(id),
                },
            );
            &&& turn::sent(t, Verdict::Approve).next == on.next
            &&& turn::sent(t, Verdict::Approve).outputs == seq![
                effect::line(Channel::Success, "approved "@ + id),
            ] + on.outputs
            &&& turn::sent(t, Verdict::Reject).next == on.next
            &&& turn::sent(t, Verdict::Reject).outputs == seq![
                effect::line(Channel::Warning, "rejected "@ + id),
            ] + on.outputs
            &&& fails(turn::sent(t, Verdict::Abort), "approval aborted (EOF)"@)
        }),
{
}

/// The requests in mind are those in the list.
pub proof fn law_requests_in_mind(v: Seq<String>, id: Seq<char>)
    ensures
        turn::text_set(v).contains(id) <==> exists|i: int|
            0 <= i < v.len() && (#[trigger] v[i])@ == id,
{
    let all = text::texts(v);
    if turn::text_set(v).contains(id) {
        let i = choose|i: int| 0 <= i < all.len() && all[i] == id;
        assert(v[i]@ == id);
    }
    if exists|i: int| 0 <= i < v.len() && (#[trigger] v[i])@ == id {
        let i = choose|i: int| 0 <= i < v.len() && (#[trigger] v[i])@ == id;
        assert(all[i] == id);
    }
}

/// What a turn needs next says all there is to it.
pub proof fn law_step_says_all(step: TurnStep)
    ensures
        step@.outputs == effect::shown(step.outputs@),
        step.next matches TurnNext::Done(TurnOutcome::Reply(t)) ==> step@.next == TurnNextV::Done(
            OutcomeV::Reply(t@),
        ),
        step.next matches TurnNext::Done(TurnOutcome::Failed(e)) ==> step@.next == TurnNextV::Done(
            OutcomeV::Failed(e@),
        ),
        step.next matches TurnNext::Poll(id, w) ==> step@.next == TurnNextV::Poll(id@, w.handled()),
        step.next matches TurnNext::Send(r, s) ==> step@.next == TurnNextV::Send(
            r@,
            s.turn(),
            s.verdict(),
        ),
        step.next matches TurnNext::Ask(a) ==> step@.next == TurnNextV::Ask(a.turn(), a.tries()),
{
}

} // verus!
