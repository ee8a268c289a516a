use forgeos::cmd::chat::{run, Args, ChatNext, ChatStep, Session};
use forgeos::cmd::run_poll::RunHandle;
use forgeos::cmd::turn::{TurnNext, TurnOutcome};
use forgeos::effect::{Channel, Method, Output, Request, Style};
use forgeos::json::{Json, Member};

fn object(members: &[(&str, &str)]) -> Json {
    Json::Object(
        members
            .iter()
            .map(|(k, v)| Member { key: k.to_string(), value: Json::Text(v.to_string()) })
            .collect(),
    )
}

fn args(topic: Option<&str>) -> Args {
    Args {
        agent_id: "a1".to_string(),
        as_user: "ann".to_string(),
        topic: topic.map(str::to_string),
    }
}

fn plain(out: &[Output]) -> Vec<(Channel, String)> {
    out.iter().map(|o| (o.channel, o.spans.iter().map(|s| s.text.as_str()).collect())).collect()
}

fn body(r: &Request) -> String {
    r.body.as_ref().unwrap().to_value().to_string()
}

fn opened() -> ChatStep {
    let (_, resolving) = run(args(None));
    let agent = object(&[("name", "bot"), ("namespace", "ops")]);
    let (_, joining) = resolving.on_agent(&agent);
    joining.on_session(&object(&[("id", "c1")])).ok().unwrap()
}

fn reading(step: ChatStep) -> Session {
    assert_eq!(
        plain(&step.outputs).pop(),
        Some((Channel::Prompt, "You> ".to_string()))
    );
    match step.next {
        ChatNext::Read(s) => s,
        _ => panic!("nothing is read"),
    }
}

fn invoking(line: &str) -> Session {
    match reading(opened()).on_line(Some(line)).next {
        ChatNext::Tell(_, telling) => match telling.on_told().next {
            ChatNext::Invoke(_, s) => s,
            _ => panic!("not invoked"),
        },
        _ => panic!("not told"),
    }
}

#[test]
fn the_agent_is_looked_up_first() {
    let (request, _) = run(args(None));
    assert_eq!(request.method, Method::Get);
    assert_eq!(request.path, "/api/platform/agents/a1");
}

#[test]
fn opening_a_session() {
    let (_, resolving) = run(args(Some("plans")));
    let (request, _) = resolving.on_agent(&object(&[("name", "bot"), ("namespace", "ops")]));
    assert_eq!(request.method, Method::Post);
    assert_eq!(request.path, "/api/a2h/v1/chats");
    assert_eq!(
        body(&request),
        "{\"agent_name\":\"bot\",\"agent_namespace\":\"ops\",\"agent_pid\":\"a1\",\
         \"human_name\":\"ann\",\"human_namespace\":\"ops\",\"topic\":\"plans\"}"
    );
    let (_, resolving) = run(args(None));
    let (request, _) = resolving.on_agent(&Json::Null);
    assert_eq!(
        body(&request),
        "{\"agent_name\":\"agent\",\"agent_namespace\":\"default\",\"agent_pid\":\"a1\",\
         \"human_name\":\"ann\",\"human_namespace\":\"default\",\"topic\":\"\"}"
    );
}

#[test]
fn a_session_needs_an_id() {
    for session in [object(&[]), object(&[("id", "")]), Json::Null] {
        let (_, resolving) = run(args(None));
        let (_, joining) = resolving.on_agent(&Json::Null);
        assert_eq!(
            joining.on_session(&session).err().unwrap(),
            "server did not return a chat id"
        );
    }
}

#[test]
fn an_open_session_greets() {
    let step = opened();
    assert_eq!(
        plain(&step.outputs),
        vec![
            (Channel::Success, "chat opened: c1  (agent: ops/bot)".to_string()),
            (
                Channel::Out,
                "  type /exit (or /quit) to end. EOF / Ctrl-D also works.\n".to_string()
            ),
            (Channel::Prompt, "You> ".to_string()),
        ]
    );
    assert_eq!(step.outputs[1].spans[1].style, Style::Bold);
    assert_eq!(step.outputs[2].spans[0].style, Style::BoldCyan);
}

#[test]
fn leaving_closes_the_chat() {
    for line in [None, Some("/exit\n"), Some("  /quit ")] {
        let step = reading(opened()).on_line(line);
        assert!(step.outputs.is_empty());
        match step.next {
            ChatNext::Close(request, done) => {
                assert_eq!(request.method, Method::Post);
                assert_eq!(request.path, "/api/a2h/v1/chats/c1/close");
                assert_eq!(body(&request), "{\"reason\":\"user exit\"}");
                assert_eq!(plain(&done), vec![(Channel::Success, "chat closed.".to_string())]);
            }
            _ => panic!("not closed"),
        }
    }
}

#[test]
fn a_blank_line_is_passed_over() {
    for line in ["\n", " \t\r\n", ""] {
        let step = reading(opened()).on_line(Some(line));
        assert_eq!(step.outputs.len(), 1);
        reading(step);
    }
}

#[test]
fn a_message_is_posted_and_then_put_to_the_agent() {
    match reading(opened()).on_line(Some("  hi /exit \n")).next {
        ChatNext::Tell(request, telling) => {
            assert_eq!(request.method, Method::Post);
            assert_eq!(request.path, "/api/a2h/v1/chats/c1/messages");
            assert_eq!(
                body(&request),
                "{\"client_drives\":true,\"content\":\"hi /exit\",\"role\":\"human\",\
                 \"sender\":\"ann\"}"
            );
            match telling.on_told().next {
                ChatNext::Invoke(request, _) => {
                    assert_eq!(request.path, "/api/platform/agents/a1/invoke");
                    assert_eq!(
                        body(&request),
                        "{\"context\":{\"chat_id\":\"c1\",\"session_id\":\"c1\"},\
                         \"prompt\":\"hi /exit\",\"session_id\":\"c1\"}"
                    );
                }
                _ => panic!("not invoked"),
            }
        }
        _ => panic!("not told"),
    }
}

#[test]
fn a_turn_begins_with_the_handle() {
    let h = RunHandle { result: Some("hello".to_string()), ..Default::default() };
    let step = invoking("hi").on_invoked(Ok(h));
    assert!(step.outputs.is_empty());
    match step.next {
        ChatNext::Turn(turn, _) => {
            assert!(matches!(turn.next, TurnNext::Done(TurnOutcome::Reply(r)) if r == "hello"))
        }
        _ => panic!("no turn"),
    }
}

#[test]
fn failures_leave_the_session_open() {
    let step = invoking("hi").on_invoked(Err("no route".to_string()));
    assert_eq!(
        plain(&step.outputs)[0],
        (Channel::Failure, "invoke failed: no route".to_string())
    );
    let session = reading(step);
    let step = session.on_turn(Err("lost".to_string()));
    assert_eq!(plain(&step.outputs)[0], (Channel::Failure, "turn failed: lost".to_string()));
    let session = reading(step);
    let step = session.on_turn(Ok(TurnOutcome::Failed("boom".to_string())));
    assert_eq!(
        plain(&step.outputs)[0],
        (Channel::Failure, "agent run failed: boom".to_string())
    );
    reading(step);
}

#[test]
fn a_reply_is_posted_and_then_shown() {
    match invoking("hi").on_turn(Ok(TurnOutcome::Reply("hello".to_string()))).next {
        ChatNext::Reply(request, replying) => {
            assert_eq!(request.path, "/api/a2h/v1/chats/c1/messages");
            assert_eq!(
                body(&request),
                "{\"content\":\"hello\",\"role\":\"agent\",\"sender\":\"bot\"}"
            );
            let step = replying.on_posted();
            assert_eq!(
                plain(&step.outputs)[0],
                (Channel::Out, "Agent> hello\n".to_string())
            );
            assert_eq!(step.outputs[0].spans[0].style, Style::BoldGreen);
            // The session goes on in the same chat.
            match reading(step).on_line(None).next {
                ChatNext::Close(request, _) => {
                    assert_eq!(request.path, "/api/a2h/v1/chats/c1/close")
                }
                _ => panic!("not closed"),
            }
        }
        _ => panic!("no reply"),
    }
}
