use forgeos::cmd::mcp::{
    list, list_json, list_text, parse_env, register, rm, run, split_env, Job, McpCmd, McpServer,
    Step, UserRegistration,
};
use forgeos::effect::{Channel, Method, Output, Style};
use forgeos::env::EnvMap;
use forgeos::json::Json;

fn strings(items: &[&str]) -> Vec<String> {
    items.iter().map(|s| s.to_string()).collect()
}

fn env(items: &[(&str, &str)]) -> EnvMap {
    items.iter().fold(EnvMap::new(), |m, (k, v)| m.insert(k.to_string(), v.to_string()))
}

fn plain(out: &[Output]) -> Vec<(Channel, String)> {
    out.iter().map(|o| (o.channel, o.spans.iter().map(|s| s.text.as_str()).collect())).collect()
}

fn body(job: &Job) -> String {
    job.request.body.as_ref().unwrap().to_value().to_string()
}

fn registration(user: bool, env: &[&str], secret: &[&str]) -> McpCmd {
    McpCmd::Register {
        server_name: "jira".to_string(),
        package: "mcp-atlassian".to_string(),
        env: strings(env),
        secret: strings(secret),
        args: strings(&["-v", "x"]),
        user,
    }
}

fn for_user(env: &[&str], secret: &[&str]) -> UserRegistration {
    match run(registration(true, env, secret)) {
        Ok(Step::Identify(r)) => r,
        _ => panic!("no registration"),
    }
}

#[test]
fn entries_split_at_the_first_equals_sign() {
    let m = parse_env(strings(&["K=a=b", "E=", "ü=ß"])).unwrap();
    let pairs: Vec<(&str, &str)> =
        m.as_pairs().iter().map(|(k, v)| (k.as_str(), v.as_str())).collect();
    assert_eq!(pairs, vec![("E", ""), ("K", "a=b"), ("ü", "ß")]);
}

#[test]
fn the_first_bad_entry_is_complained_of() {
    let err = |items: &[&str]| parse_env(strings(items)).err().unwrap();
    assert_eq!(err(&["A=1", "oops", "=x"]), "--env expects KEY=VAL, got \"oops\"");
    assert_eq!(err(&["=x", "oops"]), "--env expects KEY=VAL, got \"=x\"");
    assert_eq!(err(&[""]), "--env expects KEY=VAL, got \"\"");
    assert_eq!(err(&["a\"b\n"]), "--env expects KEY=VAL, got \"a\\\"b\\n\"");
    assert_eq!(split_env(&strings(&["A=1", "B"])).err(), Some(1));
    assert!(parse_env(vec![]).is_ok());
}

#[test]
fn the_last_entry_of_a_name_counts() {
    let m = split_env(&strings(&["A=1", "B=2", "A=3"])).ok().unwrap();
    assert_eq!(m.len(), 2);
    assert_eq!(m.as_pairs()[0], ("A".to_string(), "3".to_string()));
}

#[test]
fn platform_registration() {
    match run(registration(false, &["B=2", "A=1"], &[])) {
        Ok(Step::Send(job)) => {
            assert_eq!(job.request.method, Method::Post);
            assert_eq!(job.request.path, "/api/platform/mcp/servers");
            assert_eq!(
                body(&job),
                "{\"args\":[\"-v\",\"x\"],\"env_vars\":{\"A\":\"1\",\"B\":\"2\"},\
                 \"package\":\"mcp-atlassian\",\"server_name\":\"jira\"}"
            );
            assert_eq!(
                plain(&job.done),
                vec![(Channel::Success, "Registered MCP server \"jira\" (platform)".to_string())]
            );
        }
        _ => panic!("not sent"),
    }
    assert_eq!(
        register("s".to_string(), "p".to_string(), strings(&["bad"]), vec![]).err().unwrap(),
        "--env expects KEY=VAL, got \"bad\""
    );
    assert_eq!(
        run(registration(false, &["bad"], &[])).err().unwrap(),
        "--env expects KEY=VAL, got \"bad\""
    );
}

#[test]
fn secrets_need_a_user() {
    assert_eq!(
        run(registration(false, &["bad"], &["T=1"])).err().unwrap(),
        "--secret requires --user (per-user encrypted secrets). For a platform server, pass a \
         'secret:<name>' value via --env instead."
    );
}

#[test]
fn user_registration() {
    let r = for_user(&["A=1"], &["T=1", "U=2", "T=3"]);
    let job = r.register_user(Some("ann".to_string())).ok().unwrap();
    assert_eq!(job.request.method, Method::Post);
    assert_eq!(job.request.path, "/api/users/ann/mcp/jira");
    assert_eq!(
        body(&job),
        "{\"args\":[\"-v\",\"x\"],\"env_vars\":{\"A\":\"1\"},\"package\":\"mcp-atlassian\",\
         \"secrets\":{\"T\":\"3\",\"U\":\"2\"}}"
    );
    assert_eq!(
        plain(&job.done),
        vec![(
            Channel::Success,
            "Registered MCP server \"jira\" for user \"ann\" (2 encrypted secret(s))".to_string()
        )]
    );
}

#[test]
fn user_registration_without_a_user() {
    let missing = "no user on the active context. Set one with `forgeos config set-context <name> \
                   --user <id>` (or --user-id on a per-call basis).";
    for user in [None, Some(String::new())] {
        assert_eq!(for_user(&["bad"], &[]).register_user(user).err().unwrap(), missing);
    }
}

#[test]
fn user_registration_with_a_bad_entry() {
    let err = |env: &[&str], secret: &[&str]| {
        for_user(env, secret).register_user(Some("u".to_string())).err().unwrap()
    };
    assert_eq!(err(&["x"], &["y"]), "--env expects KEY=VAL, got \"x\"");
    assert_eq!(err(&["A=1"], &["y"]), "--env expects KEY=VAL, got \"y\"");
}

#[test]
fn removal_of_a_server() {
    let job = rm("a\tb");
    assert_eq!(job.request.method, Method::Delete);
    assert_eq!(job.request.path, "/api/platform/mcp/servers/a\tb");
    assert!(job.request.body.is_none());
    assert_eq!(
        plain(&job.done),
        vec![(Channel::Success, "Removed MCP server \"a\\tb\"".to_string())]
    );
    match run(McpCmd::Rm { server_name: "x".to_string() }) {
        Ok(Step::Send(job)) => assert_eq!(job.request.path, "/api/platform/mcp/servers/x"),
        _ => panic!("not sent"),
    }
}

#[test]
fn servers_are_read_from_the_platform() {
    match run(McpCmd::List { json: true }) {
        Ok(Step::Dump(r)) => {
            assert_eq!((r.method, r.path.as_str()), (Method::Get, "/api/platform/mcp/servers"))
        }
        _ => panic!("no dump"),
    }
    match run(McpCmd::List { json: false }) {
        Ok(Step::List(r)) => {
            assert_eq!((r.method, r.path.as_str()), (Method::Get, "/api/platform/mcp/servers"))
        }
        _ => panic!("no list"),
    }
}

#[test]
fn servers_as_json() {
    let raw = Json::Array(vec![Json::Text("s".to_string())]);
    assert_eq!(plain(&list_json(&raw)), vec![(Channel::Out, "[\n  \"s\"\n]".to_string())]);
    assert_eq!(plain(&list_text(Err("bad".to_string()))), vec![(Channel::Out, String::new())]);
}

#[test]
fn the_listing_hides_values() {
    let server = |secret: &str| McpServer {
        server_name: Some("jira".to_string()),
        package: None,
        env_vars: Some(env(&[("URL", secret), ("TOKEN", secret)])),
    };
    let out = list(Some(vec![
        server("s3cret"),
        McpServer { server_name: None, package: Some("p".to_string()), env_vars: None },
    ]));
    assert_eq!(
        plain(&out),
        vec![
            (Channel::Out, format!("{:<18}  {:<26}  {}", "SERVER", "PACKAGE", "ENV (redacted)")),
            (Channel::Out, format!("{:<18}  {:<26}  {}", "jira", "?", "TOKEN=***,URL=***")),
            (Channel::Out, format!("{:<18}  {:<26}  {}", "?", "p", "")),
        ]
    );
    assert_eq!(out[0].spans[0].style, Style::Dimmed);
    assert_eq!(out[0].spans[1].style, Style::Plain);
    assert_eq!(
        plain(&list(Some(vec![server("one")]))),
        plain(&list(Some(vec![server("other")])))
    );
}

#[test]
fn no_servers_is_a_warning() {
    for servers in [None, Some(vec![])] {
        assert_eq!(
            plain(&list(servers)),
            vec![(Channel::Warning, "No MCP servers registered".to_string())]
        );
    }
}
