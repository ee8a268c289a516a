use forgeos::cmd::approvals::{approve, list, list_in_full, reject, run, ApprovalsCmd, Step};
use forgeos::effect::{Channel, Method, Output};
use forgeos::json::{Json, Member};

fn text(s: &str) -> Json {
    Json::Text(s.to_string())
}

fn object(members: Vec<(&str, Json)>) -> Json {
    Json::Object(
        members.into_iter().map(|(k, value)| Member { key: k.to_string(), value }).collect(),
    )
}

fn plain(out: &[Output]) -> Vec<(Channel, String)> {
    out.iter().map(|o| (o.channel, o.spans.iter().map(|s| s.text.as_str()).collect())).collect()
}

#[test]
fn approving_posts_to_the_request() {
    let r = approve("req_1", None);
    assert_eq!(r.method, Method::Post);
    assert_eq!(r.path, "/api/approvals/req_1/approve");
    assert_eq!(r.body.unwrap().to_value().to_string(), "{}");
    let r = approve("req_1", Some("fine"));
    assert_eq!(r.body.unwrap().to_value().to_string(), "{\"notes\":\"fine\"}");
}

#[test]
fn rejecting_posts_to_the_request() {
    let r = reject("req_2", Some("no"));
    assert_eq!(r.method, Method::Post);
    assert_eq!(r.path, "/api/approvals/req_2/reject");
    assert_eq!(r.body.unwrap().to_value().to_string(), "{\"reason\":\"no\"}");
    assert_eq!(reject("x", None).body.unwrap().to_value().to_string(), "{}");
}

#[test]
fn subcommands_lead_to_requests() {
    match run(ApprovalsCmd::Approve { request_id: "r".to_string(), notes: Some("n".to_string()) }) {
        Step::Send { request, done } => {
            assert_eq!(request.path, "/api/approvals/r/approve");
            assert_eq!(plain(&done), vec![(Channel::Success, "Approved r".to_string())]);
        }
        _ => panic!("no request"),
    }
    match run(ApprovalsCmd::Reject { request_id: "r".to_string(), reason: None }) {
        Step::Send { request, done } => {
            assert_eq!(request.path, "/api/approvals/r/reject");
            assert_eq!(plain(&done), vec![(Channel::Success, "Rejected r".to_string())]);
        }
        _ => panic!("no request"),
    }
    match run(ApprovalsCmd::List { from_agent: Some("a1".to_string()), short: true }) {
        Step::List { request, short } => {
            assert_eq!(request.method, Method::Get);
            assert_eq!(request.path, "/api/approvals?from_agent=a1");
            assert!(short);
        }
        _ => panic!("no listing"),
    }
    match run(ApprovalsCmd::List { from_agent: None, short: false }) {
        Step::List { request, short } => {
            assert_eq!(request.path, "/api/approvals");
            assert!(!short);
        }
        _ => panic!("no listing"),
    }
}

#[test]
fn an_empty_queue_is_a_warning() {
    for short in [true, false] {
        assert_eq!(
            plain(&list(vec![], short).unwrap()),
            vec![(Channel::Warning, "No pending approvals".to_string())]
        );
    }
}

#[test]
fn the_short_listing_is_a_table() {
    let long = "q".repeat(50);
    let items = vec![
        object(vec![
            ("id", text("req_1")),
            ("run_id", text("run_0123456789012345678901234")),
            (
                "content",
                object(vec![
                    ("question", text(&long)),
                    ("context", object(vec![("issue_key", text("OPS-7"))])),
                ]),
            ),
        ]),
        object(vec![("continuation_id", text("cont_9")), ("content", text("odd"))]),
        object(vec![("id", text("r3")), ("run_id", Json::Null), ("continuation_id", text("c"))]),
    ];
    let out = plain(&list(items, true).unwrap());
    let row = |id: &str, run: &str, issue: &str, q: &str| {
        (Channel::Out, format!("{id:<18}  {run:<22}  {issue:<16}  {q}"))
    };
    assert_eq!(out.len(), 6);
    assert_eq!(out[0], row("REQUEST_ID", "RUN_ID", "ISSUE", "QUESTION"));
    assert_eq!(
        out[1],
        row(&"-".repeat(18), &"-".repeat(22), &"-".repeat(16), &"-".repeat(40))
    );
    assert_eq!(out[2], row("req_1", "run_012345678901234567", "OPS-7", &"q".repeat(40)));
    assert_eq!(out[3], row("?", "cont_9", "", ""));
    // A run id that is there but is no text hides the continuation id.
    assert_eq!(out[4], row("r3", "", "", ""));
    assert_eq!(out[5], (Channel::Note, "\n3 pending".to_string()));
}

#[test]
fn the_full_listing_is_json_alone_on_stdout() {
    let out = plain(&list(vec![object(vec![("id", text("r"))])], false).unwrap());
    assert_eq!(
        out,
        vec![
            (Channel::Out, "[\n  {\n    \"id\": \"r\"\n  }\n]".to_string()),
            (Channel::Note, "1 pending".to_string()),
        ]
    );
}

#[test]
fn a_listing_that_cannot_be_written_is_an_error() {
    assert_eq!(list_in_full(2, Err("bad".to_string())).err(), Some("bad".to_string()));
    let out = plain(&list_in_full(12, Ok("[]".to_string())).unwrap());
    assert_eq!(out[1], (Channel::Note, "12 pending".to_string()));
}
