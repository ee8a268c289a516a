use forgeos::cmd::invoke::{
    poll_until_terminal, render, run, Args, Looking, Next, Pending, RunHandle, Start, Step,
    MAX_LOOKS,
};
use forgeos::effect::{Channel, Method, Output};

fn some(s: &str) -> Option<String> {
    Some(s.to_string())
}

fn handle(status: Option<&str>) -> RunHandle {
    RunHandle {
        run_id: None,
        status: status.map(str::to_string),
        result: None,
        error: None,
        suspend_reason: None,
        pending: None,
        warnings: None,
        simulated: None,
    }
}

fn args(wait: bool, wait_approvals: bool) -> Args {
    Args { agent_id: "a1".to_string(), prompt: "hi".to_string(), wait, wait_approvals }
}

fn plain(out: &[Output]) -> Vec<(Channel, String)> {
    out.iter().map(|o| (o.channel, o.spans.iter().map(|s| s.text.as_str()).collect())).collect()
}

fn on_handle(wait_approvals: bool, h: RunHandle) -> Step {
    match run(args(true, wait_approvals)) {
        Start::Wait(_, invoked) => invoked.on_handle(h),
        Start::Fire(..) => panic!("did not wait"),
    }
}

fn looking(wait_approvals: bool) -> Looking {
    match poll_until_terminal(vec![], "r1", wait_approvals).next {
        Next::Poll(_, looking) => looking,
        Next::Exit(_) => panic!("did not poll"),
    }
}

#[test]
fn fire_and_return() {
    match run(args(false, false)) {
        Start::Fire(request, done) => {
            assert_eq!(request.method, Method::Post);
            assert_eq!(request.path, "/api/platform/agents/a1/invoke?async_mode=true");
            assert_eq!(
                request.body.unwrap().to_value().to_string(),
                "{\"context\":{},\"prompt\":\"hi\"}"
            );
            assert_eq!(
                plain(&done),
                vec![
                    (Channel::Success, "Invoked a1 — run queued.".to_string()),
                    (Channel::Out, "  Watch it:  forgeos logs a1 --follow".to_string()),
                ]
            );
        }
        Start::Wait(..) => panic!("waited"),
    }
}

#[test]
fn waiting_out_approvals_implies_waiting() {
    for (wait, approvals) in [(true, false), (false, true), (true, true)] {
        match run(args(wait, approvals)) {
            Start::Wait(request, _) => {
                assert_eq!(request.path, "/api/platform/agents/a1/invoke");
                assert_eq!(
                    request.body.unwrap().to_value().to_string(),
                    "{\"context\":{},\"prompt\":\"hi\"}"
                );
            }
            Start::Fire(..) => panic!("did not wait"),
        }
    }
}

#[test]
fn a_run_that_is_under_way_is_waited_for() {
    for status in ["running", "queued", "resuming"] {
        let step = on_handle(false, RunHandle { run_id: some("r1"), ..handle(Some(status)) });
        assert_eq!(
            plain(&step.outputs),
            vec![(Channel::Note, "⏳ waiting for run r1 …".to_string())]
        );
        match step.next {
            Next::Poll(request, _) => {
                assert_eq!(request.method, Method::Get);
                assert_eq!(request.path, "/api/platform/runs/r1");
            }
            Next::Exit(_) => panic!("did not poll"),
        }
        let step = on_handle(true, RunHandle { result: some("so far"), ..handle(Some(status)) });
        assert_eq!(plain(&step.outputs), vec![(Channel::Out, "so far".to_string())]);
        assert!(matches!(step.next, Next::Exit(0)));
    }
}

#[test]
fn a_paused_run_is_waited_for_on_request() {
    let parked = || RunHandle { run_id: some("r1"), ..handle(Some("paused")) };
    let step = on_handle(false, parked());
    assert!(matches!(step.next, Next::Exit(0)));
    assert_eq!(step.outputs.len(), 2);
    let step = on_handle(true, parked());
    assert!(matches!(step.next, Next::Poll(..)));
    assert_eq!(step.outputs.len(), 3);
    assert_eq!(plain(&step.outputs)[2].1, "⏳ waiting for run r1 …");
    let step = on_handle(true, handle(Some("suspended")));
    assert!(matches!(step.next, Next::Exit(0)));
    assert!(step.outputs.is_empty());
}

#[test]
fn a_look_at_a_suspended_run_shows_its_approvals() {
    let parked = || RunHandle {
        run_id: some("r1"),
        pending: Some(vec![Pending { request_id: some("q1"), tool: some("t") }]),
        warnings: Some(vec!["w".to_string()]),
        ..handle(Some("suspended"))
    };
    let shown = vec![
        (Channel::Warning, "⏸ run paused — awaiting human_approval".to_string()),
        (Channel::Out, "  approval q1  (tool: t)".to_string()),
        (Channel::Out, "    approve:  forgeos approvals approve q1".to_string()),
        (Channel::Out, "    reject:   forgeos approvals reject q1".to_string()),
        (Channel::Out, "  run id: r1   (poll: forgeos runs status r1)".to_string()),
        (Channel::Warning, "w".to_string()),
    ];
    // The handle of the invocation itself shows no more than its result and warnings.
    let step = on_handle(false, parked());
    assert_eq!(plain(&step.outputs), shown[5..]);
    assert!(matches!(step.next, Next::Exit(0)));
    let step = on_handle(true, parked());
    assert_eq!(step.outputs.len(), 2);
    assert_eq!(plain(&step.outputs)[1].1, "⏳ waiting for run r1 …");
    assert!(matches!(step.next, Next::Poll(..)));
    let (out, code) = looking(false).on_look(Some(parked())).unwrap();
    assert_eq!(plain(&out), shown);
    assert_eq!(code, 0);
}

#[test]
fn a_finished_run_is_shown() {
    for status in [None, Some("completed"), Some("weird")] {
        let step = on_handle(true, RunHandle { result: some("done"), ..handle(status) });
        assert_eq!(plain(&step.outputs), vec![(Channel::Out, "done".to_string())]);
        assert!(matches!(step.next, Next::Exit(0)));
    }
    let step = on_handle(true, handle(Some("failed")));
    assert_eq!(plain(&step.outputs), vec![(Channel::Failure, "run failed".to_string())]);
    assert!(matches!(step.next, Next::Exit(0)));
}

#[test]
fn rendering_a_paused_run() {
    let h = RunHandle {
        run_id: some("r1"),
        suspend_reason: some("budget"),
        pending: Some(vec![
            Pending { request_id: some("q1"), tool: some("mail") },
            Pending { request_id: None, tool: None },
        ]),
        simulated: Some(true),
        warnings: Some(vec!["w1".to_string(), "w2".to_string()]),
        result: some("not shown"),
        ..handle(Some("paused"))
    };
    let out = |s: &str| (Channel::Out, s.to_string());
    let warn = |s: &str| (Channel::Warning, s.to_string());
    assert_eq!(
        plain(&render(&h)),
        vec![
            warn("⏸ run paused — awaiting budget"),
            out("  approval q1  (tool: mail)"),
            out("    approve:  forgeos approvals approve q1"),
            out("    reject:   forgeos approvals reject q1"),
            out("  approval ?  (tool: )"),
            out("    approve:  forgeos approvals approve ?"),
            out("    reject:   forgeos approvals reject ?"),
            out("  run id: r1   (poll: forgeos runs status r1)"),
            warn("Agent ran in SIMULATED mode — no real LLM call was made."),
            warn("w1"),
            warn("w2"),
        ]
    );
    assert_eq!(
        plain(&render(&handle(Some("paused")))),
        vec![warn("⏸ run paused — awaiting human_approval")]
    );
}

#[test]
fn rendering_other_runs() {
    let failed = RunHandle { error: some("boom"), ..handle(Some("failed")) };
    assert_eq!(plain(&render(&failed)), vec![(Channel::Failure, "boom".to_string())]);
    let empty = RunHandle { result: some(""), simulated: Some(false), ..handle(None) };
    assert!(render(&empty).is_empty());
    let other = RunHandle { result: some("so far"), ..handle(Some("running")) };
    assert_eq!(plain(&render(&other)), vec![(Channel::Out, "so far".to_string())]);
}

#[test]
fn the_wait_ends_with_the_run() {
    let mut l = looking(true);
    let (out, code) =
        l.on_look(Some(RunHandle { result: some("42"), ..handle(Some("completed")) })).unwrap();
    assert_eq!(
        plain(&out),
        vec![(Channel::Out, "42".to_string()), (Channel::Success, "run completed".to_string())]
    );
    assert_eq!(code, 0);
    let mut l = looking(false);
    let (out, code) =
        l.on_look(Some(RunHandle { error: some("boom"), ..handle(Some("failed")) })).unwrap();
    assert_eq!(plain(&out), vec![(Channel::Failure, "boom".to_string())]);
    assert_eq!(code, 1);
}

#[test]
fn a_parked_run_ends_the_wait_unless_approvals_are_waited_out() {
    for status in ["paused", "suspended"] {
        let mut l = looking(false);
        let (out, code) = l.on_look(Some(handle(Some(status)))).unwrap();
        assert_eq!(
            plain(&out),
            vec![(Channel::Warning, "⏸ run paused — awaiting human_approval".to_string())]
        );
        assert_eq!(code, 0);
        let mut l = looking(true);
        assert!(l.on_look(Some(handle(Some(status)))).is_none());
    }
}

#[test]
fn other_looks_go_on() {
    let mut l = looking(false);
    assert!(l.on_look(None).is_none());
    for status in [None, Some("running"), Some("done"), Some("weird")] {
        assert!(l.on_look(Some(handle(status))).is_none());
    }
}

#[test]
fn the_wait_is_given_up_at_the_last_look() {
    assert_eq!(MAX_LOOKS, 300);
    let mut l = looking(true);
    for _ in 0..299 {
        assert!(l.on_look(None).is_none());
    }
    let (out, code) = l.on_look(Some(handle(Some("running")))).unwrap();
    assert_eq!(
        plain(&out),
        vec![(
            Channel::Warning,
            "timed out waiting for the run; check `forgeos runs status` / `forgeos logs`"
                .to_string()
        )]
    );
    assert_eq!(code, 0);
    let mut l = looking(false);
    for _ in 0..299 {
        assert!(l.on_look(None).is_none());
    }
    assert_eq!(l.on_look(Some(handle(Some("failed")))).unwrap().1, 1);
}
