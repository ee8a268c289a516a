use forgeos::cmd::run_poll::{classify, poll_until_settled, Pending, Poll, RunHandle, RunState};
use forgeos::effect::Method;
use forgeos::json::{lookup, Json, Member};

fn text(s: &str) -> Json {
    Json::Text(s.to_string())
}

fn member(key: &str, value: Json) -> Member {
    Member { key: key.to_string(), value }
}

fn with_status(status: &str) -> RunHandle {
    RunHandle { status: Some(status.to_string()), ..Default::default() }
}

#[test]
fn classify_states() {
    assert_eq!(classify(Some("completed")), RunState::Completed);
    assert_eq!(classify(Some("done")), RunState::Completed);
    assert_eq!(classify(Some("failed")), RunState::Failed);
    assert_eq!(classify(Some("paused")), RunState::Paused);
    assert_eq!(classify(Some("suspended")), RunState::Paused);
    assert_eq!(classify(Some("running")), RunState::Running);
    // Legacy inline response: no status == already done.
    assert_eq!(classify(None), RunState::Completed);
    assert_eq!(classify(Some("weird")), RunState::Unknown);
}

#[test]
fn classify_other_running_states() {
    assert_eq!(classify(Some("resuming")), RunState::Running);
    assert_eq!(classify(Some("queued")), RunState::Running);
    assert_eq!(classify(Some("Completed")), RunState::Unknown);
    assert_eq!(classify(Some("")), RunState::Unknown);
}

#[test]
fn legacy_inline_body_deserializes() {
    let h = RunHandle {
        result: Some("hi there".to_string()),
        simulated: Some(false),
        ..Default::default()
    };
    assert_eq!(h.result.as_deref(), Some("hi there"));
    assert_eq!(h.status, None);
    assert_eq!(classify(h.status.as_deref()), RunState::Completed);
}

#[test]
fn worker_paused_body_with_args() {
    let h = RunHandle {
        run_id: Some("cont_abc".to_string()),
        status: Some("paused".to_string()),
        suspend_reason: Some("human_approval".to_string()),
        pending: Some(vec![Pending {
            request_id: Some("req_123".to_string()),
            tool: Some("notify__email".to_string()),
            tool_use_id: Some("tu_1".to_string()),
            extra: vec![member(
                "args",
                Json::Object(vec![
                    member("to", text("a@b.com")),
                    member("subject", text("Q2")),
                    member("body", text("hello")),
                ]),
            )],
            ..Default::default()
        }]),
        ..Default::default()
    };
    assert_eq!(classify(h.status.as_deref()), RunState::Paused);
    assert_eq!(h.poll_id(), Some("cont_abc"));
    let p = &h.pending.as_ref().unwrap()[0];
    assert_eq!(p.request_id.as_deref(), Some("req_123"));
    assert_eq!(p.tool.as_deref(), Some("notify__email"));
    let args = p.args().unwrap();
    assert_eq!(lookup(args, "to").unwrap().as_str(), Some("a@b.com"));
    assert_eq!(lookup(args, "subject").unwrap().as_str(), Some("Q2"));
}

#[test]
fn args_fall_back_to_other_names() {
    let p = Pending {
        extra: vec![
            member("args", text("not an object")),
            member("arguments", Json::Object(vec![member("a", text("third"))])),
            member("input", Json::Object(vec![member("a", text("second"))])),
        ],
        ..Default::default()
    };
    assert_eq!(lookup(p.args().unwrap(), "a").unwrap().as_str(), Some("second"));
    let q = Pending {
        extra: vec![member("arguments", Json::Object(vec![]))],
        ..Default::default()
    };
    assert_eq!(q.args().unwrap().len(), 0);
    assert!(Pending::default().args().is_none());
}

#[test]
fn poll_id_prefers_run_id() {
    let both = RunHandle {
        run_id: Some("r".to_string()),
        continuation_id: Some("c".to_string()),
        ..Default::default()
    };
    assert_eq!(both.poll_id(), Some("r"));
    let one = RunHandle { continuation_id: Some("c".to_string()), ..Default::default() };
    assert_eq!(one.poll_id(), Some("c"));
    assert_eq!(RunHandle::default().poll_id(), None);
}

#[test]
fn polling_asks_for_the_run() {
    let (request, _) = poll_until_settled("run_7");
    assert_eq!(request.method, Method::Get);
    assert_eq!(request.path, "/api/platform/runs/run_7");
    assert!(request.body.is_none());
}

#[test]
fn polling_settles_on_anything_but_running() {
    for status in ["paused", "completed", "failed", "weird"] {
        let (_, mut polling) = poll_until_settled("r");
        assert!(matches!(polling.on_reply::<u32>(Ok(with_status("running"))), Poll::Again));
        match polling.on_reply::<u32>(Ok(with_status(status))) {
            Poll::Settled(h) => assert_eq!(h.status.as_deref(), Some(status)),
            _ => panic!("not settled on {status}"),
        }
    }
}

#[test]
fn polling_gives_up_at_the_fifth_error_in_a_row() {
    let (_, mut polling) = poll_until_settled("r");
    for e in 0..4 {
        assert!(matches!(polling.on_reply(Err(e)), Poll::Again));
    }
    match polling.on_reply(Err(4)) {
        Poll::GaveUp(e) => assert_eq!(e, 4),
        _ => panic!("did not give up"),
    }
}

#[test]
fn a_good_read_starts_the_count_anew() {
    let (_, mut polling) = poll_until_settled("r");
    for e in 0..4 {
        assert!(matches!(polling.on_reply(Err(e)), Poll::Again));
    }
    assert!(matches!(polling.on_reply::<i32>(Ok(with_status("queued"))), Poll::Again));
    for e in 0..4 {
        assert!(matches!(polling.on_reply(Err(e)), Poll::Again));
    }
    assert!(matches!(polling.on_reply(Err(9)), Poll::GaveUp(9)));
}
