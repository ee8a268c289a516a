use forgeos::cmd::runs::{dump, dump_text, fetch, render, run, watch, Pending, Run, RunsCmd, Step};
use forgeos::effect::{Channel, Method, Output, Style};
use forgeos::json::Json;

fn some(s: &str) -> Option<String> {
    Some(s.to_string())
}

fn a_run(status: Option<&str>) -> Run {
    Run {
        run_id: some("r1"),
        status: status.map(str::to_string),
        suspend_reason: None,
        pending: None,
        result: None,
        error: None,
    }
}

fn plain(out: &[Output]) -> Vec<(Channel, String)> {
    out.iter().map(|o| (o.channel, o.spans.iter().map(|s| s.text.as_str()).collect())).collect()
}

fn line(s: &str) -> (Channel, String) {
    (Channel::Out, s.to_string())
}

#[test]
fn runs_subcommands_read_the_run() {
    let path = "/api/platform/runs/r1";
    match run(RunsCmd::Status { run_id: "r1".to_string(), json: true }) {
        Step::Dump(r) => assert_eq!((r.method, r.path.as_str()), (Method::Get, path)),
        _ => panic!("no dump"),
    }
    match run(RunsCmd::Status { run_id: "r1".to_string(), json: false }) {
        Step::Show(r) => assert_eq!((r.method, r.path.as_str()), (Method::Get, path)),
        _ => panic!("no show"),
    }
    match run(RunsCmd::Watch { run_id: "r1".to_string() }) {
        Step::Watch(r) => assert_eq!((r.method, r.path.as_str()), (Method::Get, path)),
        _ => panic!("no watch"),
    }
    assert_eq!(fetch("x").path, "/api/platform/runs/x");
}

#[test]
fn the_badge_goes_by_the_status() {
    let cases = [
        (Some("completed"), "completed", Style::Green),
        (Some("failed"), "failed", Style::Red),
        (Some("paused"), "paused", Style::Yellow),
        (Some("running"), "running", Style::Plain),
        (None, "unknown", Style::Plain),
    ];
    for (status, shown, style) in cases {
        let out = render(&a_run(status));
        assert_eq!(plain(&out)[0], line(&format!("run r1  [{shown}]")));
        assert_eq!(out[0].spans[1].style, style);
        assert_eq!(out[0].spans[0].style, Style::Plain);
    }
}

#[test]
fn a_paused_run_shows_its_approvals() {
    let r = Run {
        run_id: None,
        suspend_reason: some("human_approval"),
        pending: Some(vec![
            Pending { request_id: some("q1"), tool: some("mail") },
            Pending { request_id: None, tool: None },
        ]),
        result: some(""),
        error: some(""),
        ..a_run(Some("paused"))
    };
    assert_eq!(
        plain(&render(&r)),
        vec![
            line("run ?  [paused]"),
            line("  awaiting: human_approval"),
            line("  approval q1  (tool: mail)  → forgeos approvals approve q1"),
            line("  approval ?  (tool: )  → forgeos approvals approve ?"),
            line("  error: "),
        ]
    );
}

#[test]
fn other_runs_show_result_and_error_alone() {
    let r = Run {
        suspend_reason: some("x"),
        pending: Some(vec![Pending { request_id: some("q"), tool: None }]),
        result: some("out"),
        error: some("bad"),
        ..a_run(Some("suspended"))
    };
    assert_eq!(
        plain(&render(&r)),
        vec![line("run r1  [suspended]"), line("  result: out"), line("  error: bad")]
    );
}

#[test]
fn a_watch_ends_when_the_run_does() {
    let (out, code) = watch(&a_run(Some("completed")));
    assert_eq!(plain(&out)[1], (Channel::Success, "run completed".to_string()));
    assert_eq!(code, Some(0));
    let (out, code) = watch(&a_run(Some("failed")));
    assert_eq!(plain(&out)[1], (Channel::Failure, "run failed".to_string()));
    assert_eq!(code, Some(1));
    for status in [Some("running"), Some("paused"), None] {
        let (out, code) = watch(&a_run(status));
        assert_eq!(out.len(), 1);
        assert_eq!(code, None);
    }
}

#[test]
fn a_run_can_be_dumped() {
    let v = Json::Array(vec![Json::Bool(true)]);
    assert_eq!(plain(&dump(&v).unwrap()), vec![line("[\n  true\n]")]);
    assert_eq!(dump_text(Err("bad".to_string())).err(), Some("bad".to_string()));
}
