use forgeos::cmd::edit::{
    build_editable_yaml, launch_editor, normalize, run, strip_comments, temp_path, to_update_body,
    Args, Editing, Fetching, Verdict, HEADER,
};
use forgeos::effect::{Channel, Method, Output};
use forgeos::json::{Json, Member};
use serde_json::Number;

fn text(s: &str) -> Json {
    Json::Text(s.to_string())
}

fn object(members: Vec<(&str, Json)>) -> Json {
    Json::Object(
        members.into_iter().map(|(k, value)| Member { key: k.to_string(), value }).collect(),
    )
}

fn agent() -> Json {
    object(vec![
        ("id", text("a1")),
        ("name", text("bot")),
        ("description", text("does things")),
        ("schedule", Json::Null),
        ("llm_config", object(vec![("chat_model", text("m1")), ("other", text("x"))])),
        ("tools", Json::Array(vec![text("mail"), Json::Null, text("web")])),
        ("event_triggers", text("not a list")),
        (
            "metadata",
            object(vec![
                ("_internal", text("hidden")),
                ("team", text("ops")),
                ("level", Json::Number(Number::from(3))),
                ("deep", object(vec![("_k", Json::Bool(true))])),
            ]),
        ),
        ("system_prompt", text("be brief\nand kind")),
    ])
}

const BODY: &str = "name: bot
description: does things
department: ''
execution_type: ''
schedule: ''
chat_model: m1
provider: ''
goal: ''
tools:
- mail
- web
event_triggers: []
metadata:
  team: ops
  level: 3
  deep:
    _k: true
system_prompt: |-
  be brief
  and kind
";

fn fetching() -> Fetching {
    run(&Args { agent_id: "a1".to_string(), editor: None }).1
}

fn editing() -> Editing {
    fetching().on_agent(&agent()).ok().unwrap()
}

fn after(edited: &str) -> Verdict {
    editing().on_exit(true).ok().unwrap().on_text(edited, "/tmp/f.yaml")
}

fn plain(out: &[Output]) -> Vec<(Channel, String)> {
    out.iter().map(|o| (o.channel, o.spans.iter().map(|s| s.text.as_str()).collect())).collect()
}

fn discarded(v: Verdict) -> String {
    match v {
        Verdict::Discard(out) => {
            assert_eq!(out.len(), 1);
            assert_eq!(out[0].channel, Channel::Warning);
            plain(&out).pop().unwrap().1
        }
        _ => panic!("not discarded"),
    }
}

fn kept(v: Verdict) -> String {
    match v {
        Verdict::Keep(e) => e,
        _ => panic!("not kept"),
    }
}

#[test]
fn the_agent_is_fetched_first() {
    let (request, _) = run(&Args { agent_id: "a1".to_string(), editor: None });
    assert_eq!(request.method, Method::Get);
    assert_eq!(request.path, "/api/platform/agents/a1");
}

#[test]
fn the_editable_fields_in_order() {
    assert_eq!(build_editable_yaml(&agent()).unwrap(), BODY);
    assert_eq!(
        build_editable_yaml(&Json::Null).unwrap(),
        "name: ''\ndescription: ''\ndepartment: ''\nexecution_type: ''\nschedule: ''\n\
         chat_model: ''\nprovider: ''\ngoal: ''\ntools: []\nevent_triggers: []\nmetadata: {}\n\
         system_prompt: ''\n"
    );
}

#[test]
fn the_buffer_is_the_header_and_the_fields() {
    assert_eq!(editing().text(), format!("{HEADER}\n{BODY}"));
    assert!(HEADER.lines().all(|l| l.starts_with('#')));
    assert!(HEADER.ends_with("set `schedule: \"\"` to clear a schedule.\n"));
    assert_eq!(fetching().on_yaml(Err("bad".to_string())).err(), Some("bad".to_string()));
}

#[test]
fn a_failed_editor_ends_the_edit() {
    match editing().on_exit(false) {
        Err(Verdict::Refuse(e)) => {
            assert_eq!(e, "editor exited with an error — edit aborted, agent unchanged")
        }
        _ => panic!("went on"),
    }
}

#[test]
fn an_empty_buffer_is_no_edit() {
    let message = "Empty manifest — edit aborted, agent unchanged.";
    for edited in ["", " \n\t\n", HEADER, "  # only\n\n#comments"] {
        assert_eq!(discarded(after(edited)), message);
    }
}

#[test]
fn an_unchanged_buffer_is_no_edit() {
    let message = "No changes — edit aborted, agent unchanged.";
    let buffer = format!("{HEADER}\n{BODY}");
    assert_eq!(discarded(after(&buffer)), message);
    assert_eq!(discarded(after(&format!("{buffer}\n \n"))), message);
    assert_eq!(discarded(after(buffer.trim_end())), message);
    assert_eq!(discarded(after(&buffer.replace('\n', "  \r\n"))), message);
}

#[test]
fn edits_are_sent() {
    match after("# note\nname: new\ntools: [a]\nn: 1\n") {
        Verdict::Apply(request, done) => {
            assert_eq!(request.method, Method::Put);
            assert_eq!(request.path, "/api/platform/agents/a1");
            assert_eq!(
                request.body.unwrap().to_value().to_string(),
                "{\"n\":1,\"name\":\"new\",\"tools\":[\"a\"]}"
            );
            assert_eq!(plain(&done), vec![(Channel::Success, "Updated agent a1".to_string())]);
        }
        _ => panic!("not sent"),
    }
}

#[test]
fn broken_yaml_is_kept() {
    let e = kept(after("name: [\n"));
    assert!(e.starts_with("your edits are not valid YAML: "));
    assert!(e.ends_with("\nThey are preserved at /tmp/f.yaml — fix and re-apply."));
    assert_eq!(
        kept(editing().on_parsed(Err("line 1".to_string()), "f")),
        "your edits are not valid YAML: line 1\nThey are preserved at f — fix and re-apply."
    );
}

#[test]
fn a_manifest_that_cannot_be_sent_is_kept() {
    assert_eq!(
        kept(after("- a\n- b\n")),
        "manifest must be a YAML mapping of fields\nYour edits are preserved at /tmp/f.yaml"
    );
    for edited in ["name: ' '\n", "name: 3\n", "goal: x\n"] {
        assert_eq!(
            kept(after(edited)),
            "`name` must not be empty\nYour edits are preserved at /tmp/f.yaml"
        );
    }
}

#[test]
fn update_bodies() {
    let ok = to_update_body(object(vec![("name", text(" x ")), ("extra", Json::Null)])).unwrap();
    assert_eq!(ok.to_value().to_string(), "{\"extra\":null,\"name\":\" x \"}");
    assert_eq!(
        to_update_body(text("name")).err().unwrap(),
        "manifest must be a YAML mapping of fields"
    );
    assert_eq!(to_update_body(object(vec![])).err().unwrap(), "`name` must not be empty");
}

#[test]
fn comments_are_whole_lines() {
    assert_eq!(strip_comments("# a\nb # c\n  # d\n\ne"), "b # c\n\ne");
    assert_eq!(strip_comments(""), "");
}

#[test]
fn normal_form() {
    assert_eq!(normalize("a  \n\tb\t\r\n\n \n"), "a\n\tb");
    assert_eq!(normalize("a\n\nb"), "a\n\nb");
    assert_eq!(normalize("\n\n"), "");
    assert_ne!(normalize(" a"), normalize("a"));
}

#[test]
fn the_choice_of_editor() {
    let some = |s: &str| Some(s.to_string());
    let e = launch_editor(some("nano"), some("a"), some("b"), some("c"));
    assert_eq!((e.program.as_str(), e.args.len()), ("nano", 0));
    assert_eq!(launch_editor(None, some("a"), some("b"), some("c")).program, "a");
    assert_eq!(launch_editor(None, None, some("b"), some("c")).program, "b");
    assert_eq!(launch_editor(None, None, None, some("c")).program, "c");
    assert_eq!(launch_editor(None, None, None, None).program, "vi");
    // A blank choice is not passed on to the next one.
    assert_eq!(launch_editor(some(" "), some("a"), None, None).program, "vi");
    let e = launch_editor(None, None, None, some("  code --wait\t-n "));
    assert_eq!(e.editor, "  code --wait\t-n ");
    assert_eq!(e.program, "code");
    assert_eq!(e.args, vec!["--wait", "-n"]);
}

#[test]
fn temporary_file_names() {
    assert_eq!(temp_path("a-B9", 42), "forgeos-edit-a-B9-42.yaml");
    assert_eq!(temp_path("../é x_", 0), "forgeos-edit-_____x_-0.yaml");
    assert_eq!(temp_path("", u32::MAX), "forgeos-edit--4294967295.yaml");
}

#[test]
fn metadata_of_a_reply_is_shown_in_order_of_its_keys() {
    let reply = serde_json::from_str("{\"metadata\":{\"z\":1,\"_a\":2,\"k\":3,\"b\":4}}").unwrap();
    let same = serde_json::from_str("{\"metadata\":{\"b\":4,\"k\":3,\"z\":1,\"_a\":2}}").unwrap();
    let yaml = build_editable_yaml(&Json::from_value(reply)).unwrap();
    assert!(yaml.contains("metadata:\n  b: 4\n  k: 3\n  z: 1\nsystem_prompt: ''\n"));
    assert_eq!(build_editable_yaml(&Json::from_value(same)).unwrap(), yaml);
}
