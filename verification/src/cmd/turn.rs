//! One conversational turn of a chat: a run handle driven to a reply.
//!
//! A run that is `running` is polled. One that is `paused` has its pending
//! actions shown one by one; the operator approves or rejects each, and then the
//! run is polled again, so that a turn may pause several times.

use vstd::prelude::*;

use crate::cmd::approvals;
use crate::cmd::run_poll;
use crate::cmd::run_poll::{classify, Pending, RunHandle, RunState};
use crate::codec;
use crate::effect;
use crate::effect::{Channel, Output, OutputV, Request, RequestV, Style};
use crate::json;
use crate::json::{JsonV, Member};
use crate::text;
use crate::text::{cat2, same};

verus! {

/// What a turn produced.
pub enum TurnOutcome {
    Reply(String),
    Failed(String),
}

/// What the operator decided on a pending action.
#[derive(Clone, Copy, Debug, PartialEq, Eq, Structural)]
pub enum Verdict {
    /// Approved.
    Approve,
    /// Rejected.
    Reject,
    /// Input ended at the prompt: rejected, and the turn is over.
    Abort,
}

/// What an answer at the prompt means.
#[derive(Clone, Copy, Debug, PartialEq, Eq, Structural)]
pub enum Answer {
    Yes,
    No,
    Unclear,
}

/// Answers at one prompt before a rejection is taken for granted.
pub const MAX_TRIES: u32 = 3;

struct Turn {
    poll_id: Option<String>,
    pendings: Vec<Pending>,
    next: usize,
    handled: Vec<String>,
}

/// The turn waits for an answer on a pending action.
pub struct Asking {
    turn: Turn,
    request_id: String,
    tries: u32,
}

/// The turn waits for an approval or a rejection to be sent.
pub struct Sending {
    turn: Turn,
    request_id: String,
    verdict: Verdict,
}

/// The turn waits for the run to be polled.
pub struct Waiting {
    handled: Vec<String>,
}

/// What a turn needs next.
pub enum TurnNext {
    /// Read a line from the operator.
    Ask(Asking),
    /// Send the request; go on once it has succeeded.
    Send(Request, Sending),
    /// Poll the run of this id until it is no longer running.
    Poll(String, Waiting),
    /// The turn is over.
    Done(TurnOutcome),
}

/// A step of a turn: lines to show, and what the turn needs then.
pub struct TurnStep {
    pub outputs: Vec<Output>,
    pub next: TurnNext,
}

/// What a turn has in hand while a run is paused.
pub ghost struct TurnV {
    /// The id to poll the run under.
    pub poll_id: Option<Seq<char>>,
    /// The pending actions of the run.
    pub pendings: Seq<Pending>,
    /// The pending action in turn.
    pub next: nat,
    /// The requests approved or rejected in this turn.
    pub handled: Set<Seq<char>>,
}

/// What a turn produced.
pub ghost enum OutcomeV {
    Reply(Seq<char>),
    Failed(Seq<char>),
}

/// What a turn needs next.
pub ghost enum TurnNextV {
    Ask(TurnV, nat),
    Send(RequestV, TurnV, Verdict),
    Poll(Seq<char>, Set<Seq<char>>),
    Done(OutcomeV),
}

/// A step of a turn.
pub ghost struct TurnStepV {
    pub outputs: Seq<OutputV>,
    pub next: TurnNextV,
}

/// The set of texts in a list.
pub open spec fn text_set(v: Seq<String>) -> Set<Seq<char>> {
    text::texts(v).to_set()
}

impl Turn {
    spec fn view(&self) -> TurnV {
        TurnV {
            poll_id: json::opt(self.poll_id),
            pendings: self.pendings@,
            next: self.next as nat,
            handled: text_set(self.handled@),
        }
    }
}

impl TurnV {
    /// The request id of the pending action in turn.
    pub open spec fn request_id(self) -> Seq<char> {
        self.pendings[self.next as int].request_id->Some_0@
    }

    /// There is a pending action in turn, it has a request id, and nobody has
    /// decided on it in this turn.
    pub open spec fn open_question(self) -> bool {
        &&& self.next < self.pendings.len()
        &&& self.pendings[self.next as int].request_id is Some
        &&& !self.handled.contains(self.request_id())
    }
}

impl Asking {
    /// What the turn has in hand.
    pub closed spec fn turn(&self) -> TurnV {
        self.turn@
    }

    /// How many answers were unclear so far.
    pub closed spec fn tries(&self) -> nat {
        self.tries as nat
    }

    #[verifier::type_invariant]
    spec fn inv(&self) -> bool {
        &&& self.turn@.open_question()
        &&& self.turn@.request_id() == self.request_id@
        &&& self.tries < MAX_TRIES
    }
}

impl Sending {
    /// What the turn has in hand.
    pub closed spec fn turn(&self) -> TurnV {
        self.turn@
    }

    /// What the operator decided.
    pub closed spec fn verdict(&self) -> Verdict {
        self.verdict
    }

    #[verifier::type_invariant]
    spec fn inv(&self) -> bool {
        &&& self.turn@.open_question()
        &&& self.turn@.request_id() == self.request_id@
    }
}

impl Waiting {
    /// The requests approved or rejected in this turn.
    pub closed spec fn handled(&self) -> Set<Seq<char>> {
        text_set(self.handled@)
    }
}

impl TurnOutcome {
    pub open spec fn view(&self) -> OutcomeV {
        match self {
            TurnOutcome::Reply(s) => OutcomeV::Reply(s@),
            TurnOutcome::Failed(s) => OutcomeV::Failed(s@),
        }
    }
}

impl TurnNext {
    pub open spec fn view(&self) -> TurnNextV {
        match self {
            TurnNext::Ask(a) => TurnNextV::Ask(a.turn(), a.tries()),
            TurnNext::Send(r, s) => TurnNextV::Send(r@, s.turn(), s.verdict()),
            TurnNext::Poll(id, w) => TurnNextV::Poll(id@, w.handled()),
            TurnNext::Done(o) => TurnNextV::Done(o@),
        }
    }
}

impl TurnStep {
    pub open spec fn view(&self) -> TurnStepV {
        TurnStepV { outputs: effect::shown(self.outputs@), next: self.next@ }
    }
}

/// The value under the first of two keys that is there.
pub open spec fn either(m: Map<Seq<char>, JsonV>, a: Seq<char>, b: Seq<char>) -> Option<JsonV> {
    if json::entry(m, a) is Some {
        json::entry(m, a)
    } else {
        json::entry(m, b)
    }
}

/// At most 200 characters of a text, with an ellipsis where there are more.
pub open spec fn preview(body: Seq<char>) -> Seq<char> {
    text::clip(body, 200) + if body.len() > 200 {
        "…"@
    } else {
        ""@
    }
}

/// A line of its own, or none where the text is absent.
pub open spec fn labelled(label: Seq<char>, text: Option<Seq<char>>) -> Seq<OutputV> {
    match text {
        Some(t) => seq![effect::line(Channel::Out, label + t)],
        None => Seq::empty(),
    }
}

/// The lines that show a tool's input: recipient, subject and body where the
/// input looks like an email, and else the whole input as JSON text.
pub open spec fn input_lines(
    input: Map<Seq<char>, JsonV>,
    whole: Result<Seq<char>, Seq<char>>,
) -> Seq<OutputV> {
    let to = json::text_in(either(input, "to"@, "recipient"@));
    let subject = json::text_in(json::entry(input, "subject"@));
    let body = json::text_in(either(input, "body"@, "text"@));
    if to is Some || subject is Some || body is Some {
        labelled("    to:      "@, to) + labelled("    subject: "@, subject) + labelled(
            "    body:    "@,
            match body {
                Some(b) => Some(preview(b)),
                None => None,
            },
        )
    } else {
        labelled(
            "    args: "@,
            match whole {
                Ok(t) => Some(t),
                Err(_) => None,
            },
        )
    }
}

/// The lines that show a pending action.
pub open spec fn pending_lines(p: Pending) -> Seq<OutputV> {
    seq![
        effect::line2(
            Channel::Warning,
            effect::span("⏸ the agent wants to run "@, Style::Plain),
            effect::span(effect::or_else(p.tool, "(tool)"@), Style::BoldYellow),
        ),
    ] + match run_poll::tool_input(json::members_view(p.extra@)) {
        Some(input) => input_lines(input, codec::compact_text(JsonV::Object(input))),
        None => Seq::empty(),
    }
}

fn either_str<'a>(ms: &'a Vec<Member>, a: &str, b: &str) -> (r: Option<&'a str>)
    ensures
        json::seen_text(r) == json::text_in(either(json::members_view(ms@), a@, b@)),
{
    match json::lookup(ms, a) {
        Some(v) => v.as_str(),
        None => match json::lookup(ms, b) {
            Some(v) => v.as_str(),
            None => None,
        },
    }
}

fn emit_labelled(out: &mut Vec<Output>, label: &str, text: Option<&str>)
    ensures
        effect::shown(final(out)@) == effect::shown(old(out)@) + labelled(
            label@,
            json::seen_text(text),
        ),
{
    if let Some(t) = text {
        effect::emit(out, Channel::Out, cat2(label, t));
    }
    assert(effect::shown(out@) == effect::shown(old(out)@) + labelled(
        label@,
        json::seen_text(text),
    ));
}

/// The lines that show a tool's input, given the whole input as JSON text.
pub fn print_input(input: &Vec<Member>, whole: Result<String, String>) -> (out: Vec<Output>)
    ensures
        effect::shown(out@) == input_lines(json::members_view(input@), codec::outcome(whole)),
{
    let to: Option<&str> = either_str(input, "to", "recipient");
    let subject: Option<&str> = match json::lookup(input, "subject") {
        Some(v) => v.as_str(),
        None => None,
    };
    let body: Option<&str> = either_str(input, "body", "text");
    let mut out: Vec<Output> = effect::silent();
    if to.is_some() || subject.is_some() || body.is_some() {
        emit_labelled(&mut out, "    to:      ", to);
        emit_labelled(&mut out, "    subject: ", subject);
        match body {
            Some(b) => {
                let ell: &str = if b.unicode_len() > 200 {
                    "…"
                } else {
                    ""
                };
                let shortened: String = cat2(text::clipped(b, 200), ell);
                emit_labelled(&mut out, "    body:    ", Some(shortened.as_str()));
            },
            None => emit_labelled(&mut out, "    body:    ", None),
        }
    } else {
        match &whole {
            Ok(t) => emit_labelled(&mut out, "    args: ", Some(t.as_str())),
            Err(_) => emit_labelled(&mut out, "    args: ", None),
        }
    }
    assert(effect::shown(out@) == input_lines(json::members_view(input@), codec::outcome(whole)));
    out
}

/// Shows the operator what the agent wants to do.
pub fn print_pending(p: &Pending) -> (out: Vec<Output>)
    ensures
        effect::shown(out@) == pending_lines(*p),
{
    let tool: &str = effect::text_or(&p.tool, "(tool)");
    let mut out: Vec<Output> = effect::silent();
    effect::emit2(
        &mut out,
        Channel::Warning,
        "⏸ the agent wants to run ",
        Style::Plain,
        tool,
        Style::BoldYellow,
    );
    if let Some(input) = p.args() {
        effect::append(&mut out, print_input(input, codec::object_to_string(input)));
    }
    assert(effect::shown(out@) == pending_lines(*p));
    out
}

/// The prompt for a decision.
pub open spec fn question() -> OutputV {
    effect::line2(
        Channel::Prompt,
        effect::span("Approve? [Y/n]"@, Style::Bold),
        effect::span(" "@, Style::Plain),
    )
}

fn ask(out: &mut Vec<Output>)
    ensures
        effect::shown(final(out)@) == effect::shown(old(out)@).push(question()),
{
    effect::emit2(out, Channel::Prompt, "Approve? [Y/n]", Style::Bold, " ", Style::Plain);
}

/// A step with some lines before its own.
pub open spec fn after(outputs: Seq<OutputV>, step: TurnStepV) -> TurnStepV {
    TurnStepV { outputs: outputs + step.outputs, next: step.next }
}

/// A step that shows nothing.
pub open spec fn quiet(next: TurnNextV) -> TurnStepV {
    TurnStepV { outputs: Seq::empty(), next }
}

/// A turn that ends without a reply.
pub open spec fn failed(why: Seq<char>) -> TurnStepV {
    quiet(TurnNextV::Done(OutcomeV::Failed(why)))
}

/// The first open question from the pending action in turn on: it is shown and
/// put to the operator. Actions without a request id and actions that were
/// decided on in this turn are passed over; after the last one the run is polled.
pub open spec fn scan(t: TurnV) -> TurnStepV
    decreases t.pendings.len() - t.next,
{
    if t.next >= t.pendings.len() {
        match t.poll_id {
            Some(id) => quiet(TurnNextV::Poll(id, t.handled)),
            None => failed("run paused but the server returned no run id to poll"@),
        }
    } else if t.open_question() {
        TurnStepV {
            outputs: pending_lines(t.pendings[t.next as int]).push(question()),
            next: TurnNextV::Ask(t, 0),
        }
    } else {
        after(
            if t.pendings[t.next as int].request_id is None {
                seq![effect::line(Channel::Warning, "pending approval has no request id; skipping"@)]
            } else {
                Seq::empty()
            },
            scan(TurnV { next: t.next + 1, ..t }),
        )
    }
}

fn contains(v: &Vec<String>, s: &str) -> (r: bool)
    ensures
        r == text_set(v@).contains(s@),
{
    let n: usize = v.len();
    for i in 0..n
        invariant
            n == v@.len(),
            forall|j: int| 0 <= j < i ==> text::texts(v@)[j] != s@,
    {
        if same(v[i].as_str(), s) {
            assert(text::texts(v@)[i as int] == s@);
            return true;
        }
    }
    false
}

fn scan_from(turn: Turn, before: Vec<Output>) -> (r: TurnStep)
    ensures
        r@ == after(effect::shown(before@), scan(turn@)),
{
    let mut t: Turn = turn;
    let mut out: Vec<Output> = before;
    assert(after(effect::shown(out@), scan(t@)) == after(effect::shown(before@), scan(turn@)));
    while t.next < t.pendings.len()
        invariant
            after(effect::shown(out@), scan(t@)) == after(effect::shown(before@), scan(turn@)),
        decreases t.pendings@.len() - t.next,
    {
        let ghost was = t@;
        let ghost shown = effect::shown(out@);
        match &t.pendings[t.next].request_id {
            None => {
                effect::emit(
                    &mut out,
                    Channel::Warning,
                    "pending approval has no request id; skipping".to_owned(),
                );
            },
            Some(id) => {
                if !contains(&t.handled, id.as_str()) {
                    let request_id: String = id.clone();
                    effect::append(&mut out, print_pending(&t.pendings[t.next]));
                    ask(&mut out);
                    assert(effect::shown(out@) == shown + scan(was).outputs);
                    return TurnStep {
                        outputs: out,
                        next: TurnNext::Ask(Asking { turn: t, request_id, tries: 0 }),
                    };
                }
            },
        }
        t.next = t.next + 1;
        assert(t@ == TurnV { next: was.next + 1, ..was });
        assert(effect::shown(out@) + scan(t@).outputs == shown + scan(was).outputs);
    }
    assert(effect::shown(out@) + scan(t@).outputs == effect::shown(out@));
    match t.poll_id {
        Some(id) => TurnStep {
            outputs: out,
            next: TurnNext::Poll(id, Waiting { handled: t.handled }),
        },
        None => TurnStep {
            outputs: out,
            next: TurnNext::Done(
                TurnOutcome::Failed(
                    "run paused but the server returned no run id to poll".to_owned(),
                ),
            ),
        },
    }
}

/// What a turn does with a run handle, after the requests in `handled` were
/// decided on.
pub open spec fn taken(h: RunHandle, handled: Set<Seq<char>>) -> TurnStepV {
    match h.state() {
        RunState::Completed => quiet(
            TurnNextV::Done(
                OutcomeV::Reply(
                    if effect::or_else(h.result, ""@).len() == 0 {
                        "(no output)"@
                    } else {
                        h.result->Some_0@
                    },
                ),
            ),
        ),
        RunState::Failed => failed(effect::or_else(h.error, "run failed"@)),
        RunState::Running => match h.polled_as() {
            Some(id) => quiet(TurnNextV::Poll(id, handled)),
            None => failed("run is running but the server returned no run id to poll"@),
        },
        RunState::Paused => {
            let pendings = match h.pending {
                Some(ps) => ps@,
                None => Seq::empty(),
            };
            if pendings.len() == 0 {
                failed("run paused for approval but the server listed no pending action"@)
            } else {
                scan(TurnV { poll_id: h.polled_as(), pendings, next: 0, handled })
            }
        },
        RunState::Unknown => match h.result {
            Some(text) => quiet(TurnNextV::Done(OutcomeV::Reply(text@))),
            None => failed("unknown run status: "@ + effect::or_else(h.status, "?"@)),
        },
    }
}

fn done(outcome: TurnOutcome) -> (r: TurnStep)
    ensures
        r@ == quiet(TurnNextV::Done(outcome@)),
{
    TurnStep { outputs: effect::silent(), next: TurnNext::Done(outcome) }
}

fn fail(why: &str) -> (r: TurnStep)
    ensures
        r@ == failed(why@),
{
    done(TurnOutcome::Failed(why.to_owned()))
}

fn owned(s: Option<&str>) -> (r: Option<String>)
    ensures
        json::opt(r) == json::seen_text(s),
{
    match s {
        Some(s) => Some(s.to_owned()),
        None => None,
    }
}

fn take(h: RunHandle, handled: Vec<String>) -> (r: TurnStep)
    ensures
        r@ == taken(h, text_set(handled@)),
{
    let poll_id: Option<String> = owned(h.poll_id());
    match classify(json::as_deref(&h.status)) {
        RunState::Completed => {
            proof {
                reveal_strlit("");
            }
            match h.result {
                Some(text) => {
                    if text.as_str().is_empty() {
                        done(TurnOutcome::Reply("(no output)".to_owned()))
                    } else {
                        done(TurnOutcome::Reply(text))
                    }
                },
                None => done(TurnOutcome::Reply("(no output)".to_owned())),
            }
        },
        RunState::Failed => fail(effect::text_or(&h.error, "run failed")),
        RunState::Running => match poll_id {
            Some(id) => TurnStep {
                outputs: effect::silent(),
                next: TurnNext::Poll(id, Waiting { handled }),
            },
            None => fail("run is running but the server returned no run id to poll"),
        },
        RunState::Paused => {
            let pendings: Vec<Pending> = match h.pending {
                Some(ps) => ps,
                None => Vec::new(),
            };
            if pendings.len() == 0 {
                fail("run paused for approval but the server listed no pending action")
            } else {
                let turn: Turn = Turn { poll_id, pendings, next: 0, handled };
                let r: TurnStep = scan_from(turn, effect::silent());
                assert(r@.outputs == scan(turn@).outputs);
                r
            }
        },
        RunState::Unknown => match h.result {
            Some(text) => done(TurnOutcome::Reply(text)),
            None => {
                let why: String = cat2("unknown run status: ", effect::text_or(&h.status, "?"));
                fail(why.as_str())
            },
        },
    }
}

/// Starts a turn with the run handle that the invocation returned.
pub fn resolve_turn(handle: RunHandle) -> (r: TurnStep)
    ensures
        r@ == taken(handle, Set::empty()),
{
    let handled: Vec<String> = Vec::new();
    assert(text_set(handled@) == Set::<Seq<char>>::empty());
    take(handle, handled)
}

impl Waiting {
    /// Goes on with the handle that polling returned.
    pub fn on_polled(self, handle: RunHandle) -> (r: TurnStep)
        ensures
            r@ == taken(handle, self.handled()),
    {
        take(handle, self.handled)
    }
}

/// What an answer means, once it is trimmed and in lower case: an empty one, `y`
/// and `yes` approve; `n` and `no` reject.
pub open spec fn meaning(answer: Seq<char>) -> Answer {
    if answer == ""@ || answer == "y"@ || answer == "yes"@ {
        Answer::Yes
    } else if answer == "n"@ || answer == "no"@ {
        Answer::No
    } else {
        Answer::Unclear
    }
}

/// What an answer means, once it is trimmed and in lower case.
pub fn meaning_of(answer: &str) -> (r: Answer)
    ensures
        r == meaning(answer@),
{
    if same(answer, "") || same(answer, "y") || same(answer, "yes") {
        Answer::Yes
    } else if same(answer, "n") || same(answer, "no") {
        Answer::No
    } else {
        Answer::Unclear
    }
}

/// What is sent for a verdict.
pub open spec fn ruling(request_id: Seq<char>, verdict: Verdict) -> RequestV {
    match verdict {
        Verdict::Approve => approvals::approval(request_id, None),
        Verdict::Reject => approvals::rejection(request_id, Some("rejected from chat"@)),
        Verdict::Abort => approvals::rejection(request_id, Some("rejected (eof)"@)),
    }
}

/// A verdict on its way.
pub open spec fn ruled(t: TurnV, verdict: Verdict) -> TurnNextV {
    TurnNextV::Send(ruling(t.request_id(), verdict), t, verdict)
}

/// What an answer, or the end of input, leads to. An unclear answer is asked for
/// again; the third one rejects.
pub open spec fn answered(t: TurnV, tries: nat, answer: Option<Seq<char>>) -> TurnStepV {
    match answer {
        None => quiet(ruled(t, Verdict::Abort)),
        Some(a) => match meaning(a) {
            Answer::Yes => quiet(ruled(t, Verdict::Approve)),
            Answer::No => quiet(ruled(t, Verdict::Reject)),
            Answer::Unclear => {
                let warning = effect::line(Channel::Warning, "please answer y or n"@);
                if tries + 1 < MAX_TRIES {
                    TurnStepV {
                        outputs: seq![warning, question()],
                        next: TurnNextV::Ask(t, tries + 1),
                    }
                } else {
                    TurnStepV { outputs: seq![warning], next: ruled(t, Verdict::Reject) }
                }
            },
        },
    }
}

/// The answer in a line as the operator typed it: trimmed, in lower case.
pub open spec fn answer_in(line: Seq<char>) -> Seq<char> {
    text::lowercase(text::trim(line))
}

/// What a line as the operator typed it, or the end of input, leads to.
pub open spec fn heard(t: TurnV, tries: nat, line: Option<Seq<char>>) -> TurnStepV {
    match line {
        None => answered(t, tries, None),
        Some(l) => answered(t, tries, Some(answer_in(l))),
    }
}

impl Asking {
    fn rule(self, verdict: Verdict, outputs: Vec<Output>) -> (r: TurnStep)
        ensures
            r@ == (TurnStepV {
                outputs: effect::shown(outputs@),
                next: ruled(self.turn(), verdict),
            }),
    {
        proof {
            use_type_invariant(&self);
        }
        let id: &str = self.request_id.as_str();
        let request: Request = match verdict {
            Verdict::Approve => approvals::approve(id, None),
            Verdict::Reject => approvals::reject(id, Some("rejected from chat")),
            Verdict::Abort => approvals::reject(id, Some("rejected (eof)")),
        };
        TurnStep {
            outputs,
            next: TurnNext::Send(
                request,
                Sending { turn: self.turn, request_id: self.request_id, verdict },
            ),
        }
    }

    /// Takes an answer that is trimmed and in lower case, or the end of input.
    pub fn prompt_approval(self, answer: Option<&str>) -> (r: TurnStep)
        ensures
            r@ == answered(self.turn(), self.tries(), json::seen_text(answer)),
    {
        proof {
            use_type_invariant(&self);
        }
        match answer {
            None => self.rule(Verdict::Abort, effect::silent()),
            Some(a) => match meaning_of(a) {
                Answer::Yes => self.rule(Verdict::Approve, effect::silent()),
                Answer::No => self.rule(Verdict::Reject, effect::silent()),
                Answer::Unclear => {
                    let mut out: Vec<Output> = effect::single(
                        Channel::Warning,
                        "please answer y or n".to_owned(),
                    );
                    if self.tries + 1 < MAX_TRIES {
                        ask(&mut out);
                        assert(effect::shown(out@) == seq![
                            effect::line(Channel::Warning, "please answer y or n"@),
                            question(),
                        ]);
                        TurnStep {
                            outputs: out,
                            next: TurnNext::Ask(
                                Asking {
                                    turn: self.turn,
                                    request_id: self.request_id,
                                    tries: self.tries + 1,
                                },
                            ),
                        }
                    } else {
                        self.rule(Verdict::Reject, out)
                    }
                },
            },
        }
    }

    /// Takes a line as the operator typed it, or the end of input.
    pub fn on_line(self, line: Option<&str>) -> (r: TurnStep)
        ensures
            r@ == heard(self.turn(), self.tries(), json::seen_text(line)),
            line is Some && text::plain(text::trim(line->Some_0@)) ==> r@ == answered(
                self.turn(),
                self.tries(),
                Some(text::lowered(text::trim(line->Some_0@))),
            ),
    {
        match line {
            None => self.prompt_approval(None),
            Some(l) => {
                let lowered: String = text::to_lowercase(text::trimmed(l));
                self.prompt_approval(Some(lowered.as_str()))
            },
        }
    }
}

/// What a turn does once a verdict was sent: an approval or a rejection is
/// reported, and the turn goes on with the next pending action; where input had
/// ended, the turn is over.
pub open spec fn sent(t: TurnV, verdict: Verdict) -> TurnStepV {
    let on = TurnV { next: t.next + 1, handled: t.handled.insert(t.request_id()), ..t };
    match verdict {
        Verdict::Approve => after(
            seq![effect::line(Channel::Success, "approved "@ + t.request_id())],
            scan(on),
        ),
        Verdict::Reject => after(
            seq![effect::line(Channel::Warning, "rejected "@ + t.request_id())],
            scan(on),
        ),
        Verdict::Abort => failed("approval aborted (EOF)"@),
    }
}

impl Sending {
    /// Goes on once the verdict was sent.
    pub fn on_sent(self) -> (r: TurnStep)
        ensures
            r@ == sent(self.turn(), self.verdict()),
    {
        proof {
            use_type_invariant(&self);
        }
        let was: Verdict = self.verdict;
        if let Verdict::Abort = was {
            return fail("approval aborted (EOF)");
        }
        let out: Vec<Output> = if let Verdict::Approve = was {
            effect::single(Channel::Success, cat2("approved ", self.request_id.as_str()))
        } else {
            effect::single(Channel::Warning, cat2("rejected ", self.request_id.as_str()))
        };
        let mut turn: Turn = self.turn;
        let ghost before = turn.handled@;
        turn.handled.push(self.request_id);
        let n: usize = turn.pendings.len();
        assert(turn.next < n);
        turn.next = turn.next + 1;
        proof {
            assert(text::texts(turn.handled@) == text::texts(before).push(self.request_id@));
            text_set_push(text::texts(before), self.request_id@);
        }
        scan_from(turn, out)
    }
}

proof fn text_set_push(s: Seq<Seq<char>>, x: Seq<char>)
    ensures
        s.push(x).to_set() == s.to_set().insert(x),
{
    assert forall|y: Seq<char>| s.push(x).contains(y) == (s.contains(y) || y == x) by {
        if s.contains(y) {
            let i = choose|i: int| 0 <= i < s.len() && s[i] == y;
            assert(s.push(x)[i] == y);
        }
        if y == x {
            assert(s.push(x)[s.len() as int] == y);
        }
    }
    assert forall|y: Seq<char>|
        s.push(x).to_set().contains(y) == s.to_set().insert(x).contains(y) by {
        assert(s.push(x).contains(y) == (s.contains(y) || y == x));
    }
    assert(s.push(x).to_set() =~= s.to_set().insert(x));
}

/// Nothing but an empty answer, `y` or `yes` approves. The end of input and unclear
/// answers never do.
pub proof fn law_only_a_yes_approves(t: TurnV, tries: nat, answer: Option<Seq<char>>)
    ensures
        answered(t, tries, answer).next matches TurnNextV::Send(_, _, Verdict::Approve) ==> answer
            is Some && (answer->Some_0 == ""@ || answer->Some_0 == "y"@ || answer->Some_0
            == "yes"@),
        (answered(t, tries, answer).next matches TurnNextV::Send(r, _, _) && r
            == approvals::approval(t.request_id(), None)) ==> answered(t, tries, answer).next
            matches TurnNextV::Send(_, _, Verdict::Approve),
{
    reveal_strlit("/approve");
    reveal_strlit("/reject");
    let id = t.request_id();
    let a = "/api/approvals/"@ + id + "/approve"@;
    let r = "/api/approvals/"@ + id + "/reject"@;
    assert(a.len() != r.len());
}

/// The end of input at the prompt rejects the request and ends the turn without a
/// reply.
pub proof fn law_end_of_input_rejects(t: TurnV, tries: nat)
    ensures
        answered(t, tries, None).next == TurnNextV::Send(
            approvals::rejection(t.request_id(), Some("rejected (eof)"@)),
            t,
            Verdict::Abort,
        ),
        sent(t, Verdict::Abort).next is Done,
        sent(t, Verdict::Abort).next->Done_0 is Failed,
{
}

/// Three unclear answers in a row reject the request.
pub proof fn law_three_unclear_answers_reject(t: TurnV, a: Seq<char>, b: Seq<char>, c: Seq<char>)
    requires
        meaning(a) == Answer::Unclear,
        meaning(b) == Answer::Unclear,
        meaning(c) == Answer::Unclear,
    ensures
        answered(t, 0, Some(a)).next == TurnNextV::Ask(t, 1),
        answered(t, 1, Some(b)).next == TurnNextV::Ask(t, 2),
        answered(t, 2, Some(c)).next == TurnNextV::Send(
            approvals::rejection(t.request_id(), Some("rejected from chat"@)),
            t,
            Verdict::Reject,
        ),
{
}

/// An action is put to the operator only right after it was shown, and only where
/// nobody decided on it in this turn.
pub proof fn law_shown_before_asked(t: TurnV)
    ensures
        scan(t).next matches TurnNextV::Ask(u, tries) ==> {
            &&& u.open_question()
            &&& u.handled == t.handled
            &&& tries == 0
            &&& pending_lines(u.pendings[u.next as int]).push(question()).is_suffix_of(
                scan(t).outputs,
            )
        },
        scan(t).next matches TurnNextV::Poll(_, handled) ==> handled == t.handled,
        !(scan(t).next is Send),
    decreases t.pendings.len() - t.next,
{
    if t.next < t.pendings.len() && !t.open_question() {
        law_shown_before_asked(TurnV { next: t.next + 1, ..t });
        let rest = scan(TurnV { next: t.next + 1, ..t });
        if rest.next is Ask {
            let u = rest.next->Ask_0;
            let tail = pending_lines(u.pendings[u.next as int]).push(question());
            let all = scan(t).outputs;
            assert(all.subrange(all.len() - rest.outputs.len(), all.len() as int) == rest.outputs);
            assert(all.subrange(all.len() - tail.len(), all.len() as int) == rest.outputs.subrange(
                rest.outputs.len() - tail.len(),
                rest.outputs.len() as int,
            ));
        }
    }
}

/// One thing that a turn needs follows another, by whatever the operator answers
/// and whatever handle polling returns.
pub open spec fn follows(a: TurnNextV, b: TurnNextV) -> bool {
    match a {
        TurnNextV::Ask(t, tries) => exists|answer: Option<Seq<char>>|
            b == (#[trigger] answered(t, tries, answer)).next,
        TurnNextV::Send(_, t, verdict) => b == sent(t, verdict).next,
        TurnNextV::Poll(_, handled) => exists|h: RunHandle| b == (#[trigger] taken(h, handled)).next,
        TurnNextV::Done(_) => false,
    }
}

/// A course that a turn can take from its first handle on.
pub open spec fn course(h: RunHandle, path: Seq<TurnNextV>) -> bool {
    &&& path.len() > 0
    &&& path[0] == taken(h, Set::empty()).next
    &&& forall|i: int| 0 <= i < path.len() - 1 ==> #[trigger] follows(path[i], path[i + 1])
}

/// The requests decided on so far.
pub open spec fn decided(n: TurnNextV) -> Set<Seq<char>> {
    match n {
        TurnNextV::Ask(t, _) => t.handled,
        TurnNextV::Send(_, t, _) => t.handled,
        TurnNextV::Poll(_, handled) => handled,
        TurnNextV::Done(_) => Set::empty(),
    }
}

/// The question that is open, or being ruled on, is about a request that nobody
/// decided on.
pub open spec fn undecided(n: TurnNextV) -> bool {
    match n {
        TurnNextV::Ask(t, _) => t.open_question(),
        TurnNextV::Send(_, t, _) => t.open_question(),
        _ => true,
    }
}

proof fn taken_keeps(h: RunHandle, handled: Set<Seq<char>>)
    ensures
        undecided(taken(h, handled).next),
        !(taken(h, handled).next is Done) ==> decided(taken(h, handled).next) == handled,
        !(taken(h, handled).next is Send),
{
    if h.state() == RunState::Paused && h.pending is Some {
        law_shown_before_asked(
            TurnV { poll_id: h.polled_as(), pendings: h.pending->Some_0@, next: 0, handled },
        );
    }
}

proof fn step_keeps(a: TurnNextV, b: TurnNextV)
    requires
        follows(a, b),
        undecided(a),
    ensures
        undecided(b),
        !(b is Done) ==> decided(a).subset_of(decided(b)),
        (a is Send && !(b is Done)) ==> decided(b).contains(a->Send_1.request_id()),
        b is Send ==> a is Ask && b->Send_1 == a->Ask_0,
{
    match a {
        TurnNextV::Ask(t, tries) => {},
        TurnNextV::Send(_, t, verdict) => {
            law_shown_before_asked(
                TurnV { next: t.next + 1, handled: t.handled.insert(t.request_id()), ..t },
            );
        },
        TurnNextV::Poll(_, handled) => {
            let h = choose|h: RunHandle| b == (#[trigger] taken(h, handled)).next;
            taken_keeps(h, handled);
        },
        TurnNextV::Done(_) => {},
    }
}

proof fn course_keeps(h: RunHandle, path: Seq<TurnNextV>, i: int)
    requires
        course(h, path),
        0 <= i < path.len(),
    ensures
        undecided(path[i]),
    decreases i,
{
    if i == 0 {
        taken_keeps(h, Set::empty());
    } else {
        course_keeps(h, path, i - 1);
        assert(follows(path[i - 1], path[i - 1 + 1]));
        step_keeps(path[i - 1], path[i]);
    }
}

proof fn decision_stays(h: RunHandle, path: Seq<TurnNextV>, i: int, j: int)
    requires
        course(h, path),
        0 <= i < j < path.len(),
        path[i] is Send,
        !(path[j] is Done),
    ensures
        decided(path[j]).contains(path[i]->Send_1.request_id()),
    decreases j,
{
    course_keeps(h, path, j - 1);
    assert(follows(path[j - 1], path[j - 1 + 1]));
    step_keeps(path[j - 1], path[j]);
    if i < j - 1 {
        decision_stays(h, path, i, j - 1);
    }
}

/// A request is decided on at most once in a turn: once its approval or rejection
/// was sent, the operator is not asked about it again, and nothing more is sent
/// for it, however often the run reads `paused` with it.
pub proof fn law_decided_once(h: RunHandle, path: Seq<TurnNextV>, i: int, j: int)
    requires
        course(h, path),
        0 <= i < j < path.len(),
        path[i] is Send,
    ensures
        path[j] matches TurnNextV::Ask(t, _) ==> t.request_id() != path[i]->Send_1.request_id(),
        path[j] matches TurnNextV::Send(_, t, _) ==> t.request_id()
            != path[i]->Send_1.request_id(),
{
    course_keeps(h, path, j);
    if !(path[j] is Done) {
        decision_stays(h, path, i, j);
    }
}

} // verus!
