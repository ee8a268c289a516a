//! Laws of a chat session.

use vstd::prelude::*;

use crate::cmd::chat;
use crate::cmd::chat::{
    Args, ChatNext, ChatNextV, ChatStep, ChatStepV, Joining, Resolving, SessionV,
};
use crate::cmd::run_poll::RunHandle;
use crate::cmd::turn;
use crate::cmd::turn::TurnOutcome;
use crate::effect;
use crate::effect::{Channel, Method, Request, RequestV, Style};
use crate::json::JsonV;
use crate::text;

verus! {

/// The text that a request sends under a key.
pub open spec fn sent_text(r: RequestV, key: Seq<char>) -> Option<Seq<char>> {
    match r.body {
        Some(JsonV::Object(m)) => if m.dom().contains(key) && m[key] is Text {
            Some(m[key]->Text_0)
        } else {
            None
        },
        _ => None,
    }
}

/// A session begins with the agent's description, and keeps what it was called with;
/// no topic is an empty one.
pub proof fn law_beginning(args: Args, r: (Request, Resolving))
    requires
        chat::begins(args, r),
    ensures
        r.0@.method == Method::Get,
        r.0@.path == "/api/platform/agents/"@ + args.agent_id@,
        r.0@.body is None,
        r.1.agent_id() == args.agent_id@,
        r.1.as_user() == args.as_user@,
        args.topic matches Some(t) ==> r.1.topic() == t@,
        args.topic is None ==> r.1.topic().len() == 0,
{
    reveal_strlit("");
}

/// A session is opened between the agent, by its id and by the name and namespace that
/// its description gives, and the user, in the agent's namespace; what the description
/// leaves out has a default.
pub proof fn law_opening(w: Resolving, agent: JsonV, r: (Request, Joining))
    requires
        chat::resolved(w, agent, r),
    ensures
        r.0@.method == Method::Post,
        r.0@.path == "/api/a2h/v1/chats"@,
        agent.field("name"@) matches Some(JsonV::Text(t)) ==> r.1.agent_name() == t,
        !(agent.field("name"@) matches Some(JsonV::Text(_))) ==> r.1.agent_name() == "agent"@,
        agent.field("namespace"@) matches Some(JsonV::Text(t)) ==> r.1.namespace() == t,
        !(agent.field("namespace"@) matches Some(JsonV::Text(_))) ==> r.1.namespace()
            == "default"@,
        r.1.agent_id() == w.agent_id(),
        r.1.as_user() == w.as_user(),
        sent_text(r.0@, "agent_pid"@) == Some(w.agent_id()),
        sent_text(r.0@, "agent_namespace"@) == Some(r.1.namespace()),
        sent_text(r.0@, "agent_name"@) == Some(r.1.agent_name()),
        sent_text(r.0@, "human_name"@) == Some(w.as_user()),
        sent_text(r.0@, "human_namespace"@) == Some(r.1.namespace()),
        sent_text(r.0@, "topic"@) == Some(w.topic()),
{
    reveal_strlit("agent_pid");
    reveal_strlit("agent_namespace");
    reveal_strlit("agent_name");
    reveal_strlit("human_name");
    reveal_strlit("human_namespace");
    reveal_strlit("topic");
    assert("agent_pid"@.len() == 9);
    assert("agent_namespace"@.len() == 15 && "agent_namespace"@[0] == 'a');
    assert("agent_name"@.len() == 10 && "agent_name"@[0] == 'a');
    assert("human_name"@.len() == 10 && "human_name"@[0] == 'h');
    assert("human_namespace"@.len() == 15 && "human_namespace"@[0] == 'h');
    assert("topic"@.len() == 5);
}

/// A session needs the chat id that the server returned; with it, the session is about
/// that chat and the agent and the user that it was opened for.
pub proof fn law_a_session_has_an_id(w: Joining, session: JsonV, r: Result<ChatStep, String>)
    requires
        chat::opened(w, session, r),
    ensures
        session.field("id"@) matches Some(JsonV::Text(t)) && t.len() > 0 ==> (r matches Ok(step)
            && step@.next == ChatNextV::Read(
            SessionV {
                agent_id: w.agent_id(),
                as_user: w.as_user(),
                agent_name: w.agent_name(),
                chat_id: session.field("id"@)->Some_0->Text_0,
            },
        )),
        !(session.field("id"@) matches Some(JsonV::Text(t)) && t.len() > 0) ==> (r matches Err(e)
            && e@ == "server did not return a chat id"@),
{
    reveal_strlit("");
}

/// An open session says which chat it is, with which agent, and how it is left, and
/// asks for a message.
pub proof fn law_greeting(w: Joining, session: JsonV, step: ChatStep)
    requires
        chat::opened(w, session, Ok(step)),
    ensures
        step@.outputs.len() == 3,
        step@.outputs[0] == effect::line(
            Channel::Success,
            "chat opened: "@ + step@.next->Read_0.chat_id + "  (agent: "@ + w.namespace() + "/"@
                + w.agent_name() + ")"@,
        ),
        step@.outputs[1].channel == Channel::Out,
        step@.outputs[1].spans.len() == 5,
        step@.outputs[1].spans[0].text == "  type "@,
        step@.outputs[1].spans[1].text == "/exit"@,
        step@.outputs[1].spans[1].style == Style::Bold,
        step@.outputs[1].spans[2].text == " (or "@,
        step@.outputs[1].spans[3].text == "/quit"@,
        step@.outputs[1].spans[3].style == Style::Bold,
        step@.outputs[1].spans[4].text == ") to end. EOF / Ctrl-D also works.\n"@,
        step@.outputs[2] == chat::your_turn(),
{
}

/// The prompt for a message stays on its line.
pub proof fn law_prompt()
    ensures
        chat::your_turn().channel == Channel::Prompt,
        chat::your_turn().spans.len() == 2,
        chat::your_turn().spans[0].text == "You>"@,
        chat::your_turn().spans[0].style == Style::BoldCyan,
        chat::your_turn().spans[1].text == " "@,
{
}

/// What the user enters is put on record exactly as it is, but for the white space
/// round it, under the user's name and with the server told not to invoke the agent;
/// and once it is on record, the agent is invoked on exactly the same text, in that
/// chat.
pub proof fn law_the_message_is_the_users(
    s: SessionV,
    a: Seq<char>,
    message: Seq<char>,
    b: Seq<char>,
)
    requires
        text::blank(a),
        text::blank(b),
        message.len() > 0,
        !text::white_space(message[0]),
        !text::white_space(message.last()),
        message != "/exit"@,
        message != "/quit"@,
    ensures
        ({
            let step = chat::said(s, Some(a + message + b));
            let then = chat::told(step.next->Tell_1, step.next->Tell_2);
            &&& step.outputs.len() == 0
            &&& step.next is Tell
            &&& step.next->Tell_1 == s
            &&& step.next->Tell_2 == message
            &&& sent_text(step.next->Tell_0, "content"@) == Some(message)
            &&& sent_text(step.next->Tell_0, "sender"@) == Some(s.as_user)
            &&& sent_text(step.next->Tell_0, "role"@) == Some("human"@)
            &&& step.next->Tell_0.body->Some_0.field("client_drives"@) == Some(JsonV::Bool(true))
            &&& step.next->Tell_0.method == Method::Post
            &&& step.next->Tell_0.path == "/api/a2h/v1/chats/"@ + s.chat_id + "/messages"@
            &&& then.outputs.len() == 0
            &&& then.next is Invoke
            &&& then.next->Invoke_1 == s
            &&& sent_text(then.next->Invoke_0, "prompt"@) == Some(message)
            &&& sent_text(then.next->Invoke_0, "session_id"@) == Some(s.chat_id)
            &&& then.next->Invoke_0.method == Method::Post
            &&& then.next->Invoke_0.path == "/api/platform/agents/"@ + s.agent_id + "/invoke"@
        }),
{
    crate::law::text::law_trim(a, message, b);
    keys_differ();
    law_invocation(s, message);
}

proof fn keys_differ()
    ensures
        "role"@.len() == 4,
        "sender"@.len() == 6,
        "content"@.len() == 7 && "content"@[3] == 't',
        "context"@.len() == 7 && "context"@[4] == 'e',
        "client_drives"@.len() == 13,
        "prompt"@.len() == 6,
        "session_id"@.len() == 10,
        "chat_id"@.len() == 7 && "chat_id"@[0] == 'c',
{
    reveal_strlit("role");
    reveal_strlit("sender");
    reveal_strlit("content");
    reveal_strlit("client_drives");
    reveal_strlit("prompt");
    reveal_strlit("session_id");
    reveal_strlit("context");
    reveal_strlit("chat_id");
}

/// The agent is invoked with the message as the prompt, and with the chat as the
/// session and as the context.
pub proof fn law_invocation(s: SessionV, message: Seq<char>)
    ensures
        ({
            let r = chat::invocation(s, message);
            let context = r.body->Some_0.field("context"@);
            &&& r.method == Method::Post
            &&& r.path == "/api/platform/agents/"@ + s.agent_id + "/invoke"@
            &&& sent_text(r, "prompt"@) == Some(message)
            &&& sent_text(r, "session_id"@) == Some(s.chat_id)
            &&& context is Some
            &&& context->Some_0.field("chat_id"@) == Some(JsonV::Text(s.chat_id))
            &&& context->Some_0.field("session_id"@) == Some(JsonV::Text(s.chat_id))
        }),
{
    keys_differ();
    assert("context"@ != "session_id"@);
    assert("chat_id"@ != "session_id"@);
}

/// Leaving closes the chat of the session, with a word once that is done; a blank line
/// asks again.
pub proof fn law_leaving(s: SessionV, a: Seq<char>, b: Seq<char>, word: Seq<char>)
    requires
        text::blank(a),
        text::blank(b),
        word == "/exit"@ || word == "/quit"@,
    ensures
        ({
            let ends = |step: ChatStepV|
                {
                    &&& step.outputs.len() == 0
                    &&& step.next is Close
                    &&& step.next->Close_0.method == Method::Post
                    &&& step.next->Close_0.path == "/api/a2h/v1/chats/"@ + s.chat_id + "/close"@
                    &&& sent_text(step.next->Close_0, "reason"@) == Some("user exit"@)
                    &&& step.next->Close_1 == seq![effect::line(Channel::Success, "chat closed."@)]
                };
            &&& ends(chat::said(s, None))
            &&& ends(chat::said(s, Some(a + word + b)))
            &&& chat::said(s, Some(a)).outputs == seq![chat::your_turn()]
            &&& chat::said(s, Some(a)).next == ChatNextV::Read(s)
        }),
{
    reveal_strlit("/exit");
    reveal_strlit("/quit");
    assert("/exit"@[0] == '/' && "/exit"@.last() == 't');
    assert("/quit"@[0] == '/' && "/quit"@.last() == 't');
    crate::law::text::law_trim(a, word, b);
    text::trim_blank(a);
}

/// A failed invocation is reported and the session stays open; a handle begins a turn
/// on which nothing was decided yet.
pub proof fn law_after_the_invocation(s: SessionV, h: RunHandle, e: String)
    ensures
        chat::invoked(s, Err(e)).outputs == seq![
            effect::line(Channel::Failure, "invoke failed: "@ + e@),
            chat::your_turn(),
        ],
        chat::invoked(s, Err(e)).next == ChatNextV::Read(s),
        chat::invoked(s, Ok(h)).outputs.len() == 0,
        chat::invoked(s, Ok(h)).next == ChatNextV::Turn(turn::taken(h, Set::empty()), s),
{
}

/// The reply of a turn is put on record exactly as it is, under the agent's name, and
/// then shown exactly as it is; anything else is reported, and the session stays open.
pub proof fn law_the_reply_is_the_agents(s: SessionV, reply: String, e: String)
    ensures
        ({
            let step = chat::turned(s, Ok(TurnOutcome::Reply(reply)));
            let then = chat::posted(step.next->Reply_1, step.next->Reply_2);
            &&& step.outputs.len() == 0
            &&& step.next is Reply
            &&& step.next->Reply_1 == s
            &&& sent_text(step.next->Reply_0, "content"@) == Some(reply@)
            &&& sent_text(step.next->Reply_0, "sender"@) == Some(s.agent_name)
            &&& sent_text(step.next->Reply_0, "role"@) == Some("agent"@)
            &&& step.next->Reply_0.method == Method::Post
            &&& step.next->Reply_0.path == "/api/a2h/v1/chats/"@ + s.chat_id + "/messages"@
            &&& then.next == ChatNextV::Read(s)
            &&& then.outputs.len() == 2
            &&& then.outputs[0].channel == Channel::Out
            &&& then.outputs[0].spans.len() == 2
            &&& then.outputs[0].spans[0].text == "Agent>"@
            &&& then.outputs[0].spans[0].style == Style::BoldGreen
            &&& then.outputs[0].spans[1].text == " "@ + reply@ + "\n"@
            &&& then.outputs[1] == chat::your_turn()
        }),
        chat::turned(s, Ok(TurnOutcome::Failed(e))).outputs == seq![
            effect::line(Channel::Failure, "agent run failed: "@ + e@),
            chat::your_turn(),
        ],
        chat::turned(s, Ok(TurnOutcome::Failed(e))).next == ChatNextV::Read(s),
        chat::turned(s, Err(e)).outputs == seq![
            effect::line(Channel::Failure, "turn failed: "@ + e@),
            chat::your_turn(),
        ],
        chat::turned(s, Err(e)).next == ChatNextV::Read(s),
{
    keys_differ();
}

/// A request sends something under a key.
pub open spec fn sends(r: RequestV, key: Seq<char>) -> bool {
    r.body matches Some(JsonV::Object(m)) && m.dom().contains(key)
}

/// Nothing is sent to the chat or to the agent under any other key.
pub proof fn law_nothing_else_is_sent(s: SessionV, t: Seq<char>, key: Seq<char>)
    ensures
        sends(chat::human_message(s, t), key) ==> key == "role"@ || key == "sender"@ || key
            == "content"@ || key == "client_drives"@,
        sends(chat::agent_message(s, t), key) ==> key == "role"@ || key == "sender"@ || key
            == "content"@,
        sends(chat::invocation(s, t), key) ==> key == "prompt"@ || key == "session_id"@ || key
            == "context"@,
        sends(chat::closing(s), key) ==> key == "reason"@,
{
}

/// What a session needs next says all there is to it.
pub proof fn law_step_says_all(step: ChatStep)
    ensures
        step@.outputs == effect::shown(step.outputs@),
        step.next matches ChatNext::Read(s) ==> step@.next == ChatNextV::Read(s@),
        step.next matches ChatNext::Tell(r, t) ==> step@.next == ChatNextV::Tell(
            r@,
            t.session(),
            t.message(),
        ),
        step.next matches ChatNext::Invoke(r, s) ==> step@.next == ChatNextV::Invoke(r@, s@),
        step.next matches ChatNext::Turn(t, s) ==> step@.next == ChatNextV::Turn(t@, s@),
        step.next matches ChatNext::Reply(r, p) ==> step@.next == ChatNextV::Reply(
            r@,
            p.session(),
            p.reply(),
        ),
        step.next matches ChatNext::Close(r, out) ==> step@.next == ChatNextV::Close(
            r@,
            effect::shown(out@),
        ),
{
}

} // verus!
