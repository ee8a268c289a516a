//! `forgeos chat <agent_id>`: an interactive chat session with an agent.
//!
//! Each message becomes a durable run on the server. One turn goes like this:
//!   1. read a line from the user
//!   2. post it as a `human` chat message (audit trail)
//!   3. invoke the agent with `session_id` = chat id (the server keeps memory)
//!   4. drive the run to a reply, asking for approvals on the way (see `turn`)
//!   5. post the agent's reply as an `agent` chat message and show it
//! `/exit`, `/quit`, or the end of input closes the session.

use vstd::prelude::*;

use crate::cmd::run_poll::RunHandle;
use crate::cmd::turn;
use crate::cmd::turn::{TurnOutcome, TurnStep, TurnStepV};
use crate::effect;
use crate::effect::{Channel, Output, OutputV, Request, RequestV, Span, Style};
use crate::json;
use crate::json::{Json, JsonV, Member};
use crate::text;
use crate::text::{cat2, cat3, same};

verus! {

/// Arguments of the command.
#[derive(Debug)]
pub struct Args {
    /// Agent id (from `forgeos list`).
    pub agent_id: String,
    /// Your name in the chat. Default: "operator".
    pub as_user: String,
    /// Optional opening topic / title for the session.
    pub topic: Option<String>,
}

/// The session waits for the agent's description.
pub struct Resolving {
    args: Args,
}

/// The session waits to be opened.
pub struct Joining {
    agent_id: String,
    as_user: String,
    agent_name: String,
    namespace: String,
}

/// An open session.
pub struct Session {
    agent_id: String,
    as_user: String,
    agent_name: String,
    chat_id: String,
}

/// A human message is on its way.
pub struct Telling {
    session: Session,
    message: String,
}

/// An agent's reply is on its way.
pub struct Replying {
    session: Session,
    reply: String,
}

/// What an open session is about.
pub ghost struct SessionV {
    pub agent_id: Seq<char>,
    pub as_user: Seq<char>,
    pub agent_name: Seq<char>,
    pub chat_id: Seq<char>,
}

/// What a session needs next.
pub enum ChatNext {
    /// Read a line from the user.
    Read(Session),
    /// Post the human message; stop with the error where that fails.
    Tell(Request, Telling),
    /// Invoke the agent, and hand on the run handle or the error.
    Invoke(Request, Session),
    /// Drive the turn to its outcome, and hand that on, or the error.
    Turn(TurnStep, Session),
    /// Post the agent's reply; stop with the error where that fails.
    Reply(Request, Replying),
    /// Close the session; stop with the error where that fails. Show the lines
    /// then, and exit with 0.
    Close(Request, Vec<Output>),
}

/// A step of a session: lines to show, and what the session needs then.
pub struct ChatStep {
    pub outputs: Vec<Output>,
    pub next: ChatNext,
}

/// What a session needs next.
pub ghost enum ChatNextV {
    Read(SessionV),
    Tell(RequestV, SessionV, Seq<char>),
    Invoke(RequestV, SessionV),
    Turn(TurnStepV, SessionV),
    Reply(RequestV, SessionV, Seq<char>),
    Close(RequestV, Seq<OutputV>),
}

/// A step of a session.
pub ghost struct ChatStepV {
    pub outputs: Seq<OutputV>,
    pub next: ChatNextV,
}

impl Resolving {
    /// The agent to talk to.
    pub closed spec fn agent_id(&self) -> Seq<char> {
        self.args.agent_id@
    }

    /// The user's name.
    pub closed spec fn as_user(&self) -> Seq<char> {
        self.args.as_user@
    }

    /// The topic; empty where none was given.
    pub closed spec fn topic(&self) -> Seq<char> {
        effect::or_else(self.args.topic, ""@)
    }
}

impl Joining {
    /// The agent to talk to.
    pub closed spec fn agent_id(&self) -> Seq<char> {
        self.agent_id@
    }

    /// The user's name.
    pub closed spec fn as_user(&self) -> Seq<char> {
        self.as_user@
    }

    /// The agent's name.
    pub closed spec fn agent_name(&self) -> Seq<char> {
        self.agent_name@
    }

    /// The agent's namespace.
    pub closed spec fn namespace(&self) -> Seq<char> {
        self.namespace@
    }
}

impl Session {
    pub closed spec fn view(&self) -> SessionV {
        SessionV {
            agent_id: self.agent_id@,
            as_user: self.as_user@,
            agent_name: self.agent_name@,
            chat_id: self.chat_id@,
        }
    }
}

impl Telling {
    /// The session.
    pub closed spec fn session(&self) -> SessionV {
        self.session@
    }

    /// The user's message.
    pub closed spec fn message(&self) -> Seq<char> {
        self.message@
    }
}

impl Replying {
    /// The session.
    pub closed spec fn session(&self) -> SessionV {
        self.session@
    }

    /// The agent's reply.
    pub closed spec fn reply(&self) -> Seq<char> {
        self.reply@
    }
}

impl ChatNext {
    pub open spec fn view(&self) -> ChatNextV {
        match self {
            ChatNext::Read(s) => ChatNextV::Read(s@),
            ChatNext::Tell(r, t) => ChatNextV::Tell(r@, t.session(), t.message()),
            ChatNext::Invoke(r, s) => ChatNextV::Invoke(r@, s@),
            ChatNext::Turn(t, s) => ChatNextV::Turn(t@, s@),
            ChatNext::Reply(r, p) => ChatNextV::Reply(r@, p.session(), p.reply()),
            ChatNext::Close(r, out) => ChatNextV::Close(r@, effect::shown(out@)),
        }
    }
}

impl ChatStep {
    pub open spec fn view(&self) -> ChatStepV {
        ChatStepV { outputs: effect::shown(self.outputs@), next: self.next@ }
    }
}

/// The path of an agent.
pub open spec fn agent_path(agent_id: Seq<char>) -> Seq<char> {
    "/api/platform/agents/"@ + agent_id
}

/// The path of something in a chat.
pub open spec fn chat_path(chat_id: Seq<char>, tail: Seq<char>) -> Seq<char> {
    "/api/a2h/v1/chats/"@ + chat_id + tail
}

/// What a session begins with.
pub open spec fn begins(args: Args, r: (Request, Resolving)) -> bool {
    &&& r.0@ == effect::getting(agent_path(args.agent_id@))
    &&& r.1.agent_id() == args.agent_id@
    &&& r.1.as_user() == args.as_user@
    &&& r.1.topic() == effect::or_else(args.topic, ""@)
}

/// Starts a session: the request for the agent's description.
pub fn run(args: Args) -> (r: (Request, Resolving))
    ensures
        begins(args, r),
{
    (
        effect::get(cat2("/api/platform/agents/", args.agent_id.as_str())),
        Resolving { args },
    )
}

/// The body that opens a session.
pub open spec fn opening(
    agent_id: Seq<char>,
    namespace: Seq<char>,
    agent_name: Seq<char>,
    as_user: Seq<char>,
    topic: Seq<char>,
) -> JsonV {
    JsonV::Object(
        Map::empty().insert("agent_pid"@, JsonV::Text(agent_id)).insert(
            "agent_namespace"@,
            JsonV::Text(namespace),
        ).insert("agent_name"@, JsonV::Text(agent_name)).insert(
            "human_name"@,
            JsonV::Text(as_user),
        ).insert("human_namespace"@, JsonV::Text(namespace)).insert("topic"@, JsonV::Text(topic)),
    )
}

fn text_of(s: &str) -> (r: Json)
    ensures
        r@ == JsonV::Text(s@),
{
    Json::Text(s.to_owned())
}

/// What the agent's description leads to.
pub open spec fn resolved(w: Resolving, agent: JsonV, r: (Request, Joining)) -> bool {
    &&& r.1.agent_id() == w.agent_id()
    &&& r.1.as_user() == w.as_user()
    &&& r.1.agent_name() == json::text_or(agent.field("name"@), "agent"@)
    &&& r.1.namespace() == json::text_or(agent.field("namespace"@), "default"@)
    &&& r.0@ == effect::posting(
        "/api/a2h/v1/chats"@,
        opening(w.agent_id(), r.1.namespace(), r.1.agent_name(), w.as_user(), w.topic()),
    )
}

impl Resolving {
    /// Takes the agent's description: the request that opens the session.
    pub fn on_agent(self, agent: &Json) -> (r: (Request, Joining))
        ensures
            resolved(self, agent@, r),
    {
        let agent_name: &str = json::str_or(agent.get("name"), "agent");
        let namespace: &str = json::str_or(agent.get("namespace"), "default");
        let mut ms: Vec<Member> = Vec::new();
        json::put(&mut ms, "agent_pid", text_of(self.args.agent_id.as_str()));
        json::put(&mut ms, "agent_namespace", text_of(namespace));
        json::put(&mut ms, "agent_name", text_of(agent_name));
        json::put(&mut ms, "human_name", text_of(self.args.as_user.as_str()));
        json::put(&mut ms, "human_namespace", text_of(namespace));
        json::put(&mut ms, "topic", text_of(effect::text_or(&self.args.topic, "")));
        (
            effect::post("/api/a2h/v1/chats".to_owned(), Json::Object(ms)),
            Joining {
                agent_id: self.args.agent_id,
                as_user: self.args.as_user,
                agent_name: agent_name.to_owned(),
                namespace: namespace.to_owned(),
            },
        )
    }
}

/// The prompt for a message.
pub open spec fn your_turn() -> OutputV {
    effect::line2(
        Channel::Prompt,
        effect::span("You>"@, Style::BoldCyan),
        effect::span(" "@, Style::Plain),
    )
}

fn prompt(out: &mut Vec<Output>)
    ensures
        effect::shown(final(out)@) == effect::shown(old(out)@).push(your_turn()),
{
    effect::emit2(out, Channel::Prompt, "You>", Style::BoldCyan, " ", Style::Plain);
}

/// A step that shows some lines and asks for the next message.
pub open spec fn asking(before: Seq<OutputV>, s: SessionV) -> ChatStepV {
    ChatStepV { outputs: before.push(your_turn()), next: ChatNextV::Read(s) }
}

/// The greeting of an open session.
pub open spec fn greeting(chat_id: Seq<char>, namespace: Seq<char>, agent_name: Seq<char>) -> Seq<
    OutputV,
> {
    seq![
        effect::line(
            Channel::Success,
            "chat opened: "@ + chat_id + "  (agent: "@ + namespace + "/"@ + agent_name + ")"@,
        ),
        OutputV {
            channel: Channel::Out,
            spans: seq![
                effect::span("  type "@, Style::Plain),
                effect::span("/exit"@, Style::Bold),
                effect::span(" (or "@, Style::Plain),
                effect::span("/quit"@, Style::Bold),
                effect::span(") to end. EOF / Ctrl-D also works.\n"@, Style::Plain),
            ],
        },
    ]
}

fn piece(text: &str, style: Style) -> (r: Span)
    ensures
        r@ == effect::span(text@, style),
{
    Span { text: text.to_owned(), style }
}

/// What the server's answer to the opening of a session leads to.
pub open spec fn opened(w: Joining, session: JsonV, r: Result<ChatStep, String>) -> bool {
    let id = json::text_or(session.field("id"@), ""@);
    match r {
        Ok(step) => id.len() > 0 && step@ == asking(
            greeting(id, w.namespace(), w.agent_name()),
            SessionV {
                agent_id: w.agent_id(),
                as_user: w.as_user(),
                agent_name: w.agent_name(),
                chat_id: id,
            },
        ),
        Err(e) => id.len() == 0 && e@ == "server did not return a chat id"@,
    }
}

impl Joining {
    /// Takes the server's answer to the opening of the session. Without a chat id
    /// there is no session.
    pub fn on_session(self, session: &Json) -> (r: Result<ChatStep, String>)
        ensures
            opened(self, session@, r),
    {
        let id: &str = json::str_or(session.get("id"), "");
        if id.is_empty() {
            return Err("server did not return a chat id".to_owned());
        }
        let mut opened: String = cat3("chat opened: ", id, "  (agent: ");
        opened.append(self.namespace.as_str());
        opened.append("/");
        opened.append(self.agent_name.as_str());
        opened.append(")");
        let mut out: Vec<Output> = effect::single(Channel::Success, opened);
        let mut spans: Vec<Span> = Vec::new();
        spans.push(piece("  type ", Style::Plain));
        spans.push(piece("/exit", Style::Bold));
        spans.push(piece(" (or ", Style::Plain));
        spans.push(piece("/quit", Style::Bold));
        spans.push(piece(") to end. EOF / Ctrl-D also works.\n", Style::Plain));
        let ghost pieces = spans@.map_values(|s: Span| s@);
        effect::emit_spans(&mut out, Channel::Out, spans);
        proof {
            assert(pieces == greeting(id@, self.namespace@, self.agent_name@)[1].spans);
            assert(effect::shown(out@) == greeting(id@, self.namespace@, self.agent_name@));
        }
        prompt(&mut out);
        Ok(
            ChatStep {
                outputs: out,
                next: ChatNext::Read(
                    Session {
                        agent_id: self.agent_id,
                        as_user: self.as_user,
                        agent_name: self.agent_name,
                        chat_id: id.to_owned(),
                    },
                ),
            },
        )
    }
}

/// The request that posts a human message. `client_drives` tells the server not
/// to invoke the agent itself.
pub open spec fn human_message(s: SessionV, message: Seq<char>) -> RequestV {
    effect::posting(
        chat_path(s.chat_id, "/messages"@),
        JsonV::Object(
            Map::empty().insert("role"@, JsonV::Text("human"@)).insert(
                "sender"@,
                JsonV::Text(s.as_user),
            ).insert("content"@, JsonV::Text(message)).insert(
                "client_drives"@,
                JsonV::Bool(true),
            ),
        ),
    )
}

/// The request that invokes the agent on a message.
pub open spec fn invocation(s: SessionV, message: Seq<char>) -> RequestV {
    effect::posting(
        agent_path(s.agent_id) + "/invoke"@,
        JsonV::Object(
            Map::empty().insert("prompt"@, JsonV::Text(message)).insert(
                "session_id"@,
                JsonV::Text(s.chat_id),
            ).insert(
                "context"@,
                JsonV::Object(
                    Map::empty().insert("chat_id"@, JsonV::Text(s.chat_id)).insert(
                        "session_id"@,
                        JsonV::Text(s.chat_id),
                    ),
                ),
            ),
        ),
    )
}

/// The request that posts the agent's reply.
pub open spec fn agent_message(s: SessionV, reply: Seq<char>) -> RequestV {
    effect::posting(
        chat_path(s.chat_id, "/messages"@),
        JsonV::Object(
            Map::empty().insert("role"@, JsonV::Text("agent"@)).insert(
                "sender"@,
                JsonV::Text(s.agent_name),
            ).insert("content"@, JsonV::Text(reply)),
        ),
    )
}

/// The request that closes the session.
pub open spec fn closing(s: SessionV) -> RequestV {
    effect::posting(
        chat_path(s.chat_id, "/close"@),
        JsonV::Object(Map::empty().insert("reason"@, JsonV::Text("user exit"@))),
    )
}

/// What a line from the user, or the end of input, leads to.
pub open spec fn said(s: SessionV, line: Option<Seq<char>>) -> ChatStepV {
    let leave = ChatStepV {
        outputs: Seq::empty(),
        next: ChatNextV::Close(
            closing(s),
            seq![effect::line(Channel::Success, "chat closed."@)],
        ),
    };
    match line {
        None => leave,
        Some(l) => {
            let message = text::trim(l);
            if message.len() == 0 {
                asking(Seq::empty(), s)
            } else if message == "/exit"@ || message == "/quit"@ {
                leave
            } else {
                ChatStepV {
                    outputs: Seq::empty(),
                    next: ChatNextV::Tell(human_message(s, message), s, message),
                }
            }
        },
    }
}

/// A step that reports a failure and keeps the session open.
pub open spec fn complaint(s: SessionV, what: Seq<char>) -> ChatStepV {
    asking(seq![effect::line(Channel::Failure, what)], s)
}

/// What the answer to an invocation leads to.
pub open spec fn invoked(s: SessionV, reply: Result<RunHandle, String>) -> ChatStepV {
    match reply {
        Ok(h) => ChatStepV {
            outputs: Seq::empty(),
            next: ChatNextV::Turn(turn::taken(h, Set::empty()), s),
        },
        Err(e) => complaint(s, "invoke failed: "@ + e@),
    }
}

/// What the end of a turn leads to.
pub open spec fn turned(s: SessionV, outcome: Result<TurnOutcome, String>) -> ChatStepV {
    match outcome {
        Ok(TurnOutcome::Reply(reply)) => ChatStepV {
            outputs: Seq::empty(),
            next: ChatNextV::Reply(agent_message(s, reply@), s, reply@),
        },
        Ok(TurnOutcome::Failed(e)) => complaint(s, "agent run failed: "@ + e@),
        Err(e) => complaint(s, "turn failed: "@ + e@),
    }
}

/// What a human message that was posted leads to.
pub open spec fn told(s: SessionV, message: Seq<char>) -> ChatStepV {
    ChatStepV { outputs: Seq::empty(), next: ChatNextV::Invoke(invocation(s, message), s) }
}

/// What a reply that was posted leads to.
pub open spec fn posted(s: SessionV, reply: Seq<char>) -> ChatStepV {
    asking(seq![reply_line(reply)], s)
}

impl Session {
    fn ask(self, before: Vec<Output>) -> (r: ChatStep)
        ensures
            r@ == asking(effect::shown(before@), self@),
    {
        let mut out: Vec<Output> = before;
        prompt(&mut out);
        ChatStep { outputs: out, next: ChatNext::Read(self) }
    }

    fn complain(self, what: String) -> (r: ChatStep)
        ensures
            r@ == complaint(self@, what@),
    {
        self.ask(effect::single(Channel::Failure, what))
    }

    fn messages(&self) -> (r: String)
        ensures
            r@ == chat_path(self@.chat_id, "/messages"@),
    {
        cat3("/api/a2h/v1/chats/", self.chat_id.as_str(), "/messages")
    }

    fn leave(self) -> (r: ChatStep)
        ensures
            r@ == said(self@, None),
    {
        let mut ms: Vec<Member> = Vec::new();
        json::put(&mut ms, "reason", text_of("user exit"));
        ChatStep {
            outputs: effect::silent(),
            next: ChatNext::Close(
                effect::post(
                    cat3("/api/a2h/v1/chats/", self.chat_id.as_str(), "/close"),
                    Json::Object(ms),
                ),
                effect::single(Channel::Success, "chat closed.".to_owned()),
            ),
        }
    }

    /// Takes a line from the user, or the end of input.
    pub fn on_line(self, line: Option<&str>) -> (r: ChatStep)
        ensures
            r@ == said(self@, json::seen_text(line)),
    {
        match line {
            None => self.leave(),
            Some(l) => {
                let message: &str = text::trimmed(l);
                if message.is_empty() {
                    return self.ask(effect::silent());
                }
                if same(message, "/exit") || same(message, "/quit") {
                    return self.leave();
                }
                let mut ms: Vec<Member> = Vec::new();
                json::put(&mut ms, "role", text_of("human"));
                json::put(&mut ms, "sender", text_of(self.as_user.as_str()));
                json::put(&mut ms, "content", text_of(message));
                json::put(&mut ms, "client_drives", Json::Bool(true));
                ChatStep {
                    outputs: effect::silent(),
                    next: ChatNext::Tell(
                        effect::post(self.messages(), Json::Object(ms)),
                        Telling { session: self, message: message.to_owned() },
                    ),
                }
            },
        }
    }

    /// Takes the run handle that the invocation returned, or its error, which
    /// leaves the session open.
    pub fn on_invoked(self, reply: Result<RunHandle, String>) -> (r: ChatStep)
        ensures
            r@ == invoked(self@, reply),
    {
        match reply {
            Ok(h) => ChatStep {
                outputs: effect::silent(),
                next: ChatNext::Turn(turn::resolve_turn(h), self),
            },
            Err(e) => self.complain(cat2("invoke failed: ", e.as_str())),
        }
    }

    /// Takes the outcome of the turn, or the error that broke it off. Only a reply
    /// is posted; whatever else happened leaves the session open.
    pub fn on_turn(self, outcome: Result<TurnOutcome, String>) -> (r: ChatStep)
        ensures
            r@ == turned(self@, outcome),
    {
        match outcome {
            Ok(TurnOutcome::Reply(reply)) => {
                let mut ms: Vec<Member> = Vec::new();
                json::put(&mut ms, "role", text_of("agent"));
                json::put(&mut ms, "sender", text_of(self.agent_name.as_str()));
                json::put(&mut ms, "content", text_of(reply.as_str()));
                ChatStep {
                    outputs: effect::silent(),
                    next: ChatNext::Reply(
                        effect::post(self.messages(), Json::Object(ms)),
                        Replying { session: self, reply },
                    ),
                }
            },
            Ok(TurnOutcome::Failed(e)) => self.complain(cat2("agent run failed: ", e.as_str())),
            Err(e) => self.complain(cat2("turn failed: ", e.as_str())),
        }
    }
}

impl Telling {
    /// Goes on once the human message was posted: the agent is invoked on it.
    pub fn on_told(self) -> (r: ChatStep)
        ensures
            r@ == told(self.session(), self.message()),
    {
        let session: Session = self.session;
        let chat_id: &str = session.chat_id.as_str();
        let mut context: Vec<Member> = Vec::new();
        json::put(&mut context, "chat_id", text_of(chat_id));
        json::put(&mut context, "session_id", text_of(chat_id));
        let mut ms: Vec<Member> = Vec::new();
        json::put(&mut ms, "prompt", Json::Text(self.message));
        json::put(&mut ms, "session_id", text_of(chat_id));
        json::put(&mut ms, "context", Json::Object(context));
        let path: String = cat3("/api/platform/agents/", session.agent_id.as_str(), "/invoke");
        ChatStep {
            outputs: effect::silent(),
            next: ChatNext::Invoke(effect::post(path, Json::Object(ms)), session),
        }
    }
}

/// The line that shows the agent's reply.
pub open spec fn reply_line(reply: Seq<char>) -> OutputV {
    effect::line2(
        Channel::Out,
        effect::span("Agent>"@, Style::BoldGreen),
        effect::span(" "@ + reply + "\n"@, Style::Plain),
    )
}

impl Replying {
    /// Goes on once the reply was posted: it is shown, and the next message asked
    /// for.
    pub fn on_posted(self) -> (r: ChatStep)
        ensures
            r@ == posted(self.session(), self.reply()),
    {
        let mut out: Vec<Output> = effect::silent();
        let rest: String = cat3(" ", self.reply.as_str(), "\n");
        effect::emit2(
            &mut out,
            Channel::Out,
            "Agent>",
            Style::BoldGreen,
            rest.as_str(),
            Style::Plain,
        );
        assert(effect::shown(out@) == seq![reply_line(self.reply@)]);
        self.session.ask(out)
    }
}

/// `/exit`, `/quit` and the end of input close the session, and nothing else that
/// the user enters does. A blank line is passed over.
pub proof fn law_how_a_chat_ends(s: SessionV, line: Option<Seq<char>>)
    ensures
        said(s, line).next is Close <==> (line is None || text::trim(line->Some_0) == "/exit"@
            || text::trim(line->Some_0) == "/quit"@),
        said(s, line).next is Close ==> said(s, line).next->Close_0 == closing(s),
        (line is Some && text::trim(line->Some_0).len() == 0) ==> said(s, line).next
            == ChatNextV::Read(s),
{
    reveal_strlit("/exit");
    reveal_strlit("/quit");
}

/// One thing that a session needs follows another, whatever the user enters,
/// whatever the server answers and whatever fails short of stopping the session.
pub open spec fn follows(a: ChatNextV, b: ChatNextV) -> bool {
    match a {
        ChatNextV::Read(s) => exists|line: Option<Seq<char>>| b == (#[trigger] said(s, line)).next,
        ChatNextV::Tell(_, s, message) => b == told(s, message).next,
        ChatNextV::Invoke(_, s) => exists|reply: Result<RunHandle, String>|
            b == (#[trigger] invoked(s, reply)).next,
        ChatNextV::Turn(_, s) => exists|outcome: Result<TurnOutcome, String>|
            b == (#[trigger] turned(s, outcome)).next,
        ChatNextV::Reply(_, s, reply) => b == posted(s, reply).next,
        ChatNextV::Close(_, _) => false,
    }
}

/// A course that a session can take once it is open.
pub open spec fn course(s: SessionV, path: Seq<ChatNextV>) -> bool {
    &&& path.len() > 0
    &&& path[0] == ChatNextV::Read(s)
    &&& forall|i: int| 0 <= i < path.len() - 1 ==> #[trigger] follows(path[i], path[i + 1])
}

/// What a session needs, and its place in the protocol.
pub open spec fn in_order(s: SessionV, n: ChatNextV) -> bool {
    match n {
        ChatNextV::Read(t) => t == s,
        ChatNextV::Tell(r, t, message) => t == s && r == human_message(s, message),
        ChatNextV::Invoke(_, t) => t == s,
        ChatNextV::Turn(_, t) => t == s,
        ChatNextV::Reply(r, t, reply) => t == s && r == agent_message(s, reply),
        ChatNextV::Close(r, _) => r == closing(s),
    }
}

/// All of a session goes to the one chat that was opened: each human message and
/// each reply is posted there under the right name, and that chat is the one that
/// is closed.
pub proof fn law_one_chat(s: SessionV, path: Seq<ChatNextV>, i: int)
    requires
        course(s, path),
        0 <= i < path.len(),
    ensures
        in_order(s, path[i]),
    decreases i,
{
    if i > 0 {
        law_one_chat(s, path, i - 1);
        assert(follows(path[i - 1], path[i - 1 + 1]));
    }
}

/// The agent is invoked only on a message that was just posted to the chat, with
/// the server told not to invoke it too.
pub proof fn law_messages_are_on_record(s: SessionV, path: Seq<ChatNextV>, i: int)
    requires
        course(s, path),
        0 <= i < path.len(),
        path[i] is Invoke,
    ensures
        i > 0,
        path[i - 1] is Tell,
        path[i - 1]->Tell_0 == human_message(s, path[i - 1]->Tell_2),
        path[i]->Invoke_0 == invocation(s, path[i - 1]->Tell_2),
        human_message(s, path[i - 1]->Tell_2).body->Some_0.field("client_drives"@) == Some(
            JsonV::Bool(true),
        ),
{
    law_one_chat(s, path, i);
    assert(i > 0);
    law_one_chat(s, path, i - 1);
    assert(follows(path[i - 1], path[i - 1 + 1]));
}

} // verus!
