use forgeos::cmd::run_poll::{Pending, RunHandle};
use forgeos::cmd::turn::{
    meaning_of, print_input, print_pending, resolve_turn, Answer, Asking, Sending, TurnNext,
    TurnOutcome, TurnStep, MAX_TRIES,
};
use forgeos::effect::{Channel, Method, Output, Request, Style};
use forgeos::json::{Json, Member};

fn some(s: &str) -> Option<String> {
    Some(s.to_string())
}

fn member(key: &str, value: &str) -> Member {
    Member { key: key.to_string(), value: Json::Text(value.to_string()) }
}

fn pending(id: Option<&str>, input: Vec<Member>) -> Pending {
    Pending {
        request_id: id.map(str::to_string),
        tool: some("mail"),
        extra: vec![Member { key: "args".to_string(), value: Json::Object(input) }],
        ..Default::default()
    }
}

fn paused(ids: &[Option<&str>]) -> RunHandle {
    RunHandle {
        run_id: some("r1"),
        status: some("paused"),
        pending: Some(ids.iter().map(|id| pending(*id, vec![member("to", "x")])).collect()),
        ..Default::default()
    }
}

fn plain(out: &[Output]) -> Vec<(Channel, String)> {
    out.iter().map(|o| (o.channel, o.spans.iter().map(|s| s.text.as_str()).collect())).collect()
}

fn asked(step: TurnStep) -> Asking {
    match step.next {
        TurnNext::Ask(a) => a,
        _ => panic!("nothing was asked"),
    }
}

fn sent(step: TurnStep) -> (Request, Sending) {
    match step.next {
        TurnNext::Send(r, s) => (r, s),
        _ => panic!("nothing was sent"),
    }
}

fn failure(step: TurnStep) -> String {
    match step.next {
        TurnNext::Done(TurnOutcome::Failed(e)) => e,
        _ => panic!("no failure"),
    }
}

fn reply(step: TurnStep) -> String {
    match step.next {
        TurnNext::Done(TurnOutcome::Reply(r)) => r,
        _ => panic!("no reply"),
    }
}

fn body(r: &Request) -> String {
    r.body.as_ref().unwrap().to_value().to_string()
}

#[test]
fn a_completed_run_replies() {
    let h = |result: Option<&str>| RunHandle {
        status: some("completed"),
        result: result.map(str::to_string),
        ..Default::default()
    };
    assert_eq!(reply(resolve_turn(h(Some("hello")))), "hello");
    assert_eq!(reply(resolve_turn(h(Some("")))), "(no output)");
    assert_eq!(reply(resolve_turn(h(None))), "(no output)");
    let inline = RunHandle { result: some("inline"), ..Default::default() };
    assert_eq!(reply(resolve_turn(inline)), "inline");
}

#[test]
fn a_failed_run_fails_the_turn() {
    let h = |error: Option<&str>| RunHandle {
        status: some("failed"),
        error: error.map(str::to_string),
        ..Default::default()
    };
    assert_eq!(failure(resolve_turn(h(Some("boom")))), "boom");
    assert_eq!(failure(resolve_turn(h(None))), "run failed");
}

#[test]
fn an_unknown_status_ends_the_turn() {
    let h = RunHandle { status: some("weird"), result: some(""), ..Default::default() };
    assert_eq!(reply(resolve_turn(h)), "");
    let h = RunHandle { status: some("weird"), ..Default::default() };
    assert_eq!(failure(resolve_turn(h)), "unknown run status: weird");
}

#[test]
fn a_running_run_is_polled() {
    let h = RunHandle { status: some("running"), continuation_id: some("c"), ..Default::default() };
    match resolve_turn(h).next {
        TurnNext::Poll(id, waiting) => {
            assert_eq!(id, "c");
            let done = RunHandle { result: some("x"), ..Default::default() };
            assert_eq!(reply(waiting.on_polled(done)), "x");
        }
        _ => panic!("not polled"),
    }
    let h = RunHandle { status: some("queued"), ..Default::default() };
    assert_eq!(
        failure(resolve_turn(h)),
        "run is running but the server returned no run id to poll"
    );
}

#[test]
fn a_paused_run_needs_pending_actions() {
    let message = "run paused for approval but the server listed no pending action";
    assert_eq!(failure(resolve_turn(paused(&[]))), message);
    let h = RunHandle { status: some("suspended"), ..Default::default() };
    assert_eq!(failure(resolve_turn(h)), message);
}

#[test]
fn an_action_is_shown_before_it_is_asked_about() {
    let step = resolve_turn(paused(&[None, Some("q1")]));
    assert_eq!(
        plain(&step.outputs),
        vec![
            (Channel::Warning, "pending approval has no request id; skipping".to_string()),
            (Channel::Warning, "⏸ the agent wants to run mail".to_string()),
            (Channel::Out, "    to:      x".to_string()),
            (Channel::Prompt, "Approve? [Y/n] ".to_string()),
        ]
    );
    assert_eq!(step.outputs[1].spans[1].style, Style::BoldYellow);
    assert_eq!(step.outputs[3].spans[0].style, Style::Bold);
    asked(step);
}

#[test]
fn a_yes_approves() {
    for answer in ["\n", "y\n", "  YES \r\n", "Yes", "Y"] {
        let (r, s) = sent(asked(resolve_turn(paused(&[Some("q1")]))).on_line(Some(answer)));
        assert_eq!(r.method, Method::Post);
        assert_eq!(r.path, "/api/approvals/q1/approve");
        assert_eq!(body(&r), "{}");
        let step = s.on_sent();
        assert_eq!(plain(&step.outputs), vec![(Channel::Success, "approved q1".to_string())]);
        assert!(matches!(step.next, TurnNext::Poll(id, _) if id == "r1"));
    }
}

#[test]
fn a_no_rejects() {
    for answer in ["n\n", " No ", "NO"] {
        let (r, s) = sent(asked(resolve_turn(paused(&[Some("q1")]))).on_line(Some(answer)));
        assert_eq!(r.path, "/api/approvals/q1/reject");
        assert_eq!(body(&r), "{\"reason\":\"rejected from chat\"}");
        let step = s.on_sent();
        assert_eq!(plain(&step.outputs), vec![(Channel::Warning, "rejected q1".to_string())]);
        assert!(matches!(step.next, TurnNext::Poll(..)));
    }
}

#[test]
fn the_end_of_input_rejects_and_ends_the_turn() {
    let (r, s) = sent(asked(resolve_turn(paused(&[Some("q1"), Some("q2")]))).on_line(None));
    assert_eq!(r.path, "/api/approvals/q1/reject");
    assert_eq!(body(&r), "{\"reason\":\"rejected (eof)\"}");
    let step = s.on_sent();
    assert!(step.outputs.is_empty());
    assert_eq!(failure(step), "approval aborted (EOF)");
}

#[test]
fn three_unclear_answers_reject() {
    assert_eq!(MAX_TRIES, 3);
    let mut asking = asked(resolve_turn(paused(&[Some("q1")])));
    for answer in ["maybe", "yess"] {
        let step = asking.on_line(Some(answer));
        assert_eq!(
            plain(&step.outputs),
            vec![
                (Channel::Warning, "please answer y or n".to_string()),
                (Channel::Prompt, "Approve? [Y/n] ".to_string()),
            ]
        );
        asking = asked(step);
    }
    let step = asking.on_line(Some("ja"));
    assert_eq!(
        plain(&step.outputs),
        vec![(Channel::Warning, "please answer y or n".to_string())]
    );
    let (r, _) = sent(step);
    assert_eq!(r.path, "/api/approvals/q1/reject");
    assert_eq!(body(&r), "{\"reason\":\"rejected from chat\"}");
}

#[test]
fn the_count_of_answers_is_per_action() {
    let asking = asked(resolve_turn(paused(&[Some("q1"), Some("q2")])));
    let asking = asked(asking.prompt_approval(Some("?")));
    let (_, s) = sent(asked(asking.prompt_approval(Some("?"))).prompt_approval(Some("y")));
    let asking = asked(s.on_sent());
    let asking = asked(asking.prompt_approval(Some("?")));
    let (r, _) = sent(asking.prompt_approval(Some("n")));
    assert_eq!(r.path, "/api/approvals/q2/reject");
}

#[test]
fn an_action_is_decided_once() {
    let (_, s) = sent(asked(resolve_turn(paused(&[Some("q1"), Some("q1")]))).on_line(Some("y")));
    // The second mention of the same request is passed over.
    let waiting = match s.on_sent().next {
        TurnNext::Poll(_, w) => w,
        _ => panic!("not polled"),
    };
    // The run still reads `paused` with it: polled again, without a word.
    let step = waiting.on_polled(paused(&[Some("q1")]));
    assert!(step.outputs.is_empty());
    let waiting = match step.next {
        TurnNext::Poll(_, w) => w,
        _ => panic!("not polled"),
    };
    // A new request is asked about.
    let (r, _) = sent(asked(waiting.on_polled(paused(&[Some("q1"), Some("q2")]))).on_line(None));
    assert_eq!(r.path, "/api/approvals/q2/reject");
}

#[test]
fn a_paused_run_needs_an_id_to_be_polled() {
    let h = RunHandle { run_id: None, ..paused(&[Some("q1")]) };
    let (_, s) = sent(asked(resolve_turn(h)).on_line(Some("y")));
    let step = s.on_sent();
    assert_eq!(plain(&step.outputs), vec![(Channel::Success, "approved q1".to_string())]);
    assert_eq!(failure(step), "run paused but the server returned no run id to poll");
}

#[test]
fn answers() {
    for yes in ["", "y", "yes"] {
        assert_eq!(meaning_of(yes), Answer::Yes);
    }
    for no in ["n", "no"] {
        assert_eq!(meaning_of(no), Answer::No);
    }
    for other in ["Y", " y", "nope"] {
        assert_eq!(meaning_of(other), Answer::Unclear);
    }
}

#[test]
fn email_input_is_shown_by_field() {
    let body = "ä".repeat(201);
    let p = pending(
        Some("q"),
        vec![
            member("recipient", "a@b.com"),
            member("subject", "Q2"),
            member("text", &body),
            member("other", "z"),
        ],
    );
    let lines = plain(&print_pending(&p));
    assert_eq!(lines.len(), 4);
    assert_eq!(lines[1].1, "    to:      a@b.com");
    assert_eq!(lines[2].1, "    subject: Q2");
    assert_eq!(lines[3].1, format!("    body:    {}…", "ä".repeat(200)));
    let exact = pending(Some("q"), vec![member("body", &"b".repeat(200))]);
    assert_eq!(plain(&print_pending(&exact))[1].1, format!("    body:    {}", "b".repeat(200)));
}

#[test]
fn a_field_of_the_wrong_kind_hides_its_stand_in() {
    let input = vec![
        Member { key: "to".to_string(), value: Json::Null },
        member("recipient", "a@b.com"),
        member("subject", "s"),
    ];
    let lines = plain(&print_input(&input, Ok("unused".to_string())));
    assert_eq!(lines, vec![(Channel::Out, "    subject: s".to_string())]);
}

#[test]
fn other_input_is_shown_as_json() {
    let p = pending(Some("q"), vec![member("url", "u"), member("q", "\"")]);
    assert_eq!(
        plain(&print_pending(&p))[1],
        (Channel::Out, "    args: {\"q\":\"\\\"\",\"url\":\"u\"}".to_string())
    );
    assert!(print_input(&vec![], Err("bad".to_string())).is_empty());
    let bare = Pending { request_id: some("q"), ..Default::default() };
    assert_eq!(
        plain(&print_pending(&bare)),
        vec![(Channel::Warning, "⏸ the agent wants to run (tool)".to_string())]
    );
}
