//! `forgeos mcp <subcommand>`: register, list and remove MCP servers.

use vstd::prelude::*;

use crate::codec;
use crate::effect;
use crate::effect::{Channel, Method, Output, OutputV, Request, RequestV, Span, Style};
use crate::env;
use crate::env::EnvMap;
use crate::json;
use crate::json::{Json, JsonV, Member};
use crate::text;
use crate::text::{cat2, cat3, cat5};

verus! {

/// A subcommand.
#[derive(Debug)]
pub enum McpCmd {
    /// Register an MCP server — platform-scoped, or per-user with --user.
    Register {
        /// Logical server name (tools surface as mcp__<name>__<tool>).
        server_name: String,
        /// Package / launch spec (e.g. "mcp-atlassian", "@scope/pkg").
        package: String,
        /// Environment variable, repeatable: --env KEY=VAL. Use a 'secret:<name>'
        /// value to resolve from the secret store at connect time.
        env: Vec<String>,
        /// Secret env var, repeatable: --secret KEY=VAL. The value is stored
        /// encrypted server-side and referenced from the MCP env. Requires --user.
        secret: Vec<String>,
        /// Launch argument, repeatable: --arg VALUE.
        args: Vec<String>,
        /// Register for the active context's user (per-user MCP) instead of
        /// platform-wide. The connection uses that user's stored secrets.
        user: bool,
    },
    /// List registered MCP servers (secrets redacted).
    List {
        /// Emit raw JSON (for piping into jq).
        json: bool,
    },
    /// Remove a registered MCP server by name.
    Rm { server_name: String },
}

/// A registered server as the platform lists it.
#[derive(Debug)]
pub struct McpServer {
    pub server_name: Option<String>,
    pub package: Option<String>,
    pub env_vars: Option<EnvMap>,
}

/// What `KEY=VAL` stands for: the key up to the first `=`, which is not empty, and
/// the value after it.
pub open spec fn key_val(p: Seq<char>) -> Option<(Seq<char>, Seq<char>)> {
    let i = text::find(p, '=');
    if 0 < i < p.len() {
        Some((p.take(i), p.skip(i + 1)))
    } else {
        None
    }
}

/// The map that a list of `KEY=VAL` stands for, or the first entry that is not of
/// this form. A later entry replaces an earlier one with the same key.
pub open spec fn env_of(pairs: Seq<Seq<char>>) -> Result<Map<Seq<char>, Seq<char>>, Seq<char>>
    decreases pairs.len(),
{
    if pairs.len() == 0 {
        Ok(Map::empty())
    } else {
        match env_of(pairs.drop_last()) {
            Err(p) => Err(p),
            Ok(m) => match key_val(pairs.last()) {
                Some((k, v)) => Ok(m.insert(k, v)),
                None => Err(pairs.last()),
            },
        }
    }
}

/// The message about an entry that is not of the form `KEY=VAL`.
pub open spec fn env_error(quoted: Seq<char>) -> Seq<char> {
    "--env expects KEY=VAL, got "@ + quoted
}

/// What a parsed list of `KEY=VAL` says.
pub open spec fn env_seen(r: Result<EnvMap, String>) -> Result<
    Map<Seq<char>, Seq<char>>,
    Seq<char>,
> {
    match r {
        Ok(m) => Ok(m@),
        Err(e) => Err(e@),
    }
}

/// The map that a list of `KEY=VAL` stands for, or the message about the first
/// entry that is not of this form.
pub open spec fn env_or_error(pairs: Seq<Seq<char>>) -> Result<
    Map<Seq<char>, Seq<char>>,
    Seq<char>,
> {
    match env_of(pairs) {
        Ok(m) => Ok(m),
        Err(p) => Err(env_error(text::quoted(p))),
    }
}

proof fn env_stops(pairs: Seq<Seq<char>>, i: int)
    requires
        0 <= i <= pairs.len(),
        env_of(pairs.take(i)) is Err,
    ensures
        env_of(pairs) == env_of(pairs.take(i)),
    decreases pairs.len() - i,
{
    if i < pairs.len() {
        assert(pairs.take(i + 1).drop_last() == pairs.take(i));
        env_stops(pairs, i + 1);
    } else {
        assert(pairs.take(i) == pairs);
    }
}

/// The map that a list of `KEY=VAL` stands for, or the place of the first entry
/// that is not of this form.
pub fn split_env(pairs: &Vec<String>) -> (r: Result<EnvMap, usize>)
    ensures
        match r {
            Ok(m) => env_of(text::texts(pairs@)) == Ok::<_, Seq<char>>(m@),
            Err(i) => i < pairs@.len() && env_of(text::texts(pairs@)) == Err::<
                Map<Seq<char>, Seq<char>>,
                _,
            >(pairs@[i as int]@),
        },
{
    let ghost all = text::texts(pairs@);
    let mut map: EnvMap = EnvMap::new();
    let n: usize = pairs.len();
    for i in 0..n
        invariant
            n == pairs@.len(),
            all == text::texts(pairs@),
            env_of(all.take(i as int)) == Ok::<_, Seq<char>>(map@),
    {
        let p: &str = pairs[i].as_str();
        let cs: Vec<char> = text::chars(p);
        let at: usize = text::find_from(&cs, '=', 0);
        proof {
            assert(cs@.skip(0) == p@);
            assert(all.take(i + 1).drop_last() == all.take(i as int));
            assert(all.take(i + 1).last() == p@);
        }
        if 0 < at && at < cs.len() {
            let key: String = p.substring_char(0, at).to_owned();
            let value: String = p.substring_char(at + 1, cs.len()).to_owned();
            assert(value@ == p@.skip(at + 1));
            map = map.insert(key, value);
        } else {
            proof {
                env_stops(all, i + 1);
            }
            return Err(i);
        }
    }
    assert(all.take(n as int) == all);
    Ok(map)
}

/// Reads a list of `KEY=VAL`.
pub fn parse_env(pairs: Vec<String>) -> (r: Result<EnvMap, String>)
    ensures
        env_seen(r) == env_or_error(text::texts(pairs@)),
{
    match split_env(&pairs) {
        Ok(m) => Ok(m),
        Err(i) => Err(cat2("--env expects KEY=VAL, got ", text::quote(pairs[i].as_str()).as_str())),
    }
}

/// A per-user registration that waits for the user of the active context.
pub struct UserRegistration {
    server_name: String,
    package: String,
    env: Vec<String>,
    secret: Vec<String>,
    args: Vec<String>,
}

impl UserRegistration {
    /// The server's name.
    pub closed spec fn server_name(&self) -> Seq<char> {
        self.server_name@
    }

    /// The package to launch.
    pub closed spec fn package(&self) -> Seq<char> {
        self.package@
    }

    /// The environment variables, as `KEY=VAL`.
    pub closed spec fn env(&self) -> Seq<Seq<char>> {
        text::texts(self.env@)
    }

    /// The secrets, as `KEY=VAL`.
    pub closed spec fn secret(&self) -> Seq<Seq<char>> {
        text::texts(self.secret@)
    }

    /// The launch arguments.
    pub closed spec fn args(&self) -> Seq<Seq<char>> {
        text::texts(self.args@)
    }
}

/// A request, and the lines to show once it has succeeded; the exit code is 0
/// then.
pub struct Job {
    pub request: Request,
    pub done: Vec<Output>,
}

/// What a `Job` says.
pub ghost struct JobV {
    pub request: RequestV,
    pub done: Seq<OutputV>,
}

impl Job {
    pub open spec fn view(&self) -> JobV {
        JobV { request: self.request@, done: effect::shown(self.done@) }
    }
}

/// How a subcommand goes on.
pub enum Step {
    /// Send the request.
    Send(Job),
    /// Find out who the user of the active context is, and go on with
    /// `register_user`.
    Identify(UserRegistration),
    /// Read the servers, and show the reply with `list_json`.
    Dump(Request),
    /// Read the servers, and show them with `list`.
    List(Request),
}

/// What a job is, or the message in its place.
pub open spec fn job_seen(r: Result<Job, String>) -> Result<JobV, Seq<char>> {
    match r {
        Ok(j) => Ok(j@),
        Err(e) => Err(e@),
    }
}

/// A list of texts as a JSON array.
pub open spec fn texts_json(items: Seq<Seq<char>>) -> JsonV {
    JsonV::Array(items.map_values(|s: Seq<char>| JsonV::Text(s)))
}

fn texts_array(items: &Vec<String>) -> (r: Json)
    ensures
        r@ == texts_json(text::texts(items@)),
{
    let mut out: Vec<Json> = Vec::new();
    let n: usize = items.len();
    for i in 0..n
        invariant
            n == items@.len(),
            out@.len() == i,
            forall|j: int| 0 <= j < i ==> #[trigger] out@[j]@ == JsonV::Text(items@[j]@),
    {
        out.push(Json::Text(items[i].clone()));
    }
    proof {
        let want = text::texts(items@).map_values(|s: Seq<char>| JsonV::Text(s));
        assert forall|j: int| 0 <= j < want.len() implies want[j] == json::items_view(
            out@,
        )[j] by {
            assert(out@[j]@ == JsonV::Text(items@[j]@));
        }
        assert(json::items_view(out@) == want);
    }
    Json::Array(out)
}

/// The path of the platform's servers.
pub open spec fn servers_path() -> Seq<char> {
    "/api/platform/mcp/servers"@
}

/// The registration of a server for the platform, given its name in quotes.
pub open spec fn platform_job(
    server_name: Seq<char>,
    package: Seq<char>,
    env: Map<Seq<char>, Seq<char>>,
    args: Seq<Seq<char>>,
    quoted_name: Seq<char>,
) -> JobV {
    JobV {
        request: effect::posting(
            servers_path(),
            JsonV::Object(
                Map::empty().insert("server_name"@, JsonV::Text(server_name)).insert(
                    "package"@,
                    JsonV::Text(package),
                ).insert("env_vars"@, env::env_json(env)).insert("args"@, texts_json(args)),
            ),
        ),
        done: seq![
            effect::line(
                Channel::Success,
                "Registered MCP server "@ + quoted_name + " (platform)"@,
            ),
        ],
    }
}

/// The registration of a server for the platform, or the message about an
/// environment variable.
pub open spec fn registered(
    server_name: Seq<char>,
    package: Seq<char>,
    env: Seq<Seq<char>>,
    args: Seq<Seq<char>>,
) -> Result<JobV, Seq<char>> {
    match env_or_error(env) {
        Ok(m) => Ok(platform_job(server_name, package, m, args, text::quoted(server_name))),
        Err(e) => Err(e),
    }
}

/// Registers a server for the platform.
pub fn register(server_name: String, package: String, env: Vec<String>, args: Vec<String>) -> (r:
    Result<Job, String>)
    ensures
        job_seen(r) == registered(
            server_name@,
            package@,
            text::texts(env@),
            text::texts(args@),
        ),
{
    let vars: EnvMap = match parse_env(env) {
        Ok(m) => m,
        Err(e) => {
            return Err(e);
        },
    };
    let quoted: String = text::quote(server_name.as_str());
    let mut ms: Vec<Member> = Vec::new();
    json::put(&mut ms, "server_name", Json::Text(server_name));
    json::put(&mut ms, "package", Json::Text(package));
    json::put(&mut ms, "env_vars", vars.to_json());
    json::put(&mut ms, "args", texts_array(&args));
    Ok(
        Job {
            request: effect::post("/api/platform/mcp/servers".to_owned(), Json::Object(ms)),
            done: effect::single(
                Channel::Success,
                cat3("Registered MCP server ", quoted.as_str(), " (platform)"),
            ),
        },
    )
}

/// The message where the active context has no user.
pub open spec fn no_user() -> Seq<char> {
    "no user on the active context. Set one with `forgeos config set-context <name> --user <id>` (or --user-id on a per-call basis)."@
}

/// The registration of a server for a user, given the names in quotes.
pub open spec fn user_job(
    user: Seq<char>,
    reg: UserRegistration,
    env: Map<Seq<char>, Seq<char>>,
    secrets: Map<Seq<char>, Seq<char>>,
    quoted_name: Seq<char>,
    quoted_user: Seq<char>,
) -> JobV {
    JobV {
        request: effect::posting(
            "/api/users/"@ + user + "/mcp/"@ + reg.server_name(),
            JsonV::Object(
                Map::empty().insert("package"@, JsonV::Text(reg.package())).insert(
                    "env_vars"@,
                    env::env_json(env),
                ).insert("secrets"@, env::env_json(secrets)).insert(
                    "args"@,
                    texts_json(reg.args()),
                ),
            ),
        ),
        done: seq![
            effect::line(
                Channel::Success,
                "Registered MCP server "@ + quoted_name + " for user "@ + quoted_user + " ("@
                    + text::decimal(secrets.dom().len()) + " encrypted secret(s))"@,
            ),
        ],
    }
}

/// The registration of a server for a user, or the message where there is no user,
/// or one about an environment variable or a secret.
pub open spec fn registered_for(user: Option<String>, reg: UserRegistration) -> Result<
    JobV,
    Seq<char>,
> {
    if effect::or_else(user, ""@).len() == 0 {
        Err(no_user())
    } else {
        match (env_or_error(reg.env()), env_or_error(reg.secret())) {
            (Err(e), _) => Err(e),
            (Ok(_), Err(e)) => Err(e),
            (Ok(env), Ok(secrets)) => Ok(
                user_job(
                    user->Some_0@,
                    reg,
                    env,
                    secrets,
                    text::quoted(reg.server_name()),
                    text::quoted(user->Some_0@),
                ),
            ),
        }
    }
}

impl UserRegistration {
    /// Goes on with the user of the active context, where it has one.
    pub fn register_user(self, user: Option<String>) -> (r: Result<Job, String>)
        ensures
            job_seen(r) == registered_for(user, self),
    {
        proof {
            reveal_strlit("");
        }
        let user: String = match user {
            Some(u) => {
                if u.as_str().is_empty() {
                    return Err(Self::user_missing());
                }
                u
            },
            None => {
                return Err(Self::user_missing());
            },
        };
        let env: EnvMap = match parse_env(self.env) {
            Ok(m) => m,
            Err(e) => {
                return Err(e);
            },
        };
        let secrets: EnvMap = match parse_env(self.secret) {
            Ok(m) => m,
            Err(e) => {
                return Err(e);
            },
        };
        let n: String = text::decimal_text(secrets.len() as u64);
        let mut ms: Vec<Member> = Vec::new();
        json::put(&mut ms, "package", Json::Text(self.package));
        json::put(&mut ms, "env_vars", env.to_json());
        json::put(&mut ms, "secrets", secrets.to_json());
        json::put(&mut ms, "args", texts_array(&self.args));
        let mut path: String = cat3("/api/users/", user.as_str(), "/mcp/");
        path.append(self.server_name.as_str());
        let mut done: String = cat5(
            "Registered MCP server ",
            text::quote(self.server_name.as_str()).as_str(),
            " for user ",
            text::quote(user.as_str()).as_str(),
            " (",
        );
        done.append(n.as_str());
        done.append(" encrypted secret(s))");
        Ok(
            Job {
                request: effect::post(path, Json::Object(ms)),
                done: effect::single(Channel::Success, done),
            },
        )
    }

    fn user_missing() -> (r: String)
        ensures
            r@ == no_user(),
    {
        "no user on the active context. Set one with `forgeos config set-context <name> --user <id>` (or --user-id on a per-call basis).".to_owned()
    }
}

/// The message where secrets are given for a platform server.
pub open spec fn secrets_need_user() -> Seq<char> {
    "--secret requires --user (per-user encrypted secrets). For a platform server, pass a 'secret:<name>' value via --env instead."@
}

/// The removal of a server.
pub open spec fn removal(server_name: Seq<char>) -> JobV {
    JobV {
        request: RequestV {
            method: Method::Delete,
            path: servers_path() + "/"@ + server_name,
            body: None,
        },
        done: seq![
            effect::line(Channel::Success, "Removed MCP server "@ + text::quoted(server_name)),
        ],
    }
}

/// Removes a server.
pub fn rm(server_name: &str) -> (r: Job)
    ensures
        r@ == removal(server_name@),
{
    Job {
        request: Request {
            method: Method::Delete,
            path: cat3("/api/platform/mcp/servers", "/", server_name),
            body: None,
        },
        done: effect::single(
            Channel::Success,
            cat2("Removed MCP server ", text::quote(server_name).as_str()),
        ),
    }
}

/// What a subcommand leads to.
pub open spec fn step_of(cmd: McpCmd, r: Result<Step, String>) -> bool {
    match cmd {
        McpCmd::Register { server_name, package, env, secret, args, user } => if user {
            r matches Ok(Step::Identify(reg)) && {
                &&& reg.server_name() == server_name@
                &&& reg.package() == package@
                &&& reg.env() == text::texts(env@)
                &&& reg.secret() == text::texts(secret@)
                &&& reg.args() == text::texts(args@)
            }
        } else if secret@.len() > 0 {
            r matches Err(e) && e@ == secrets_need_user()
        } else {
            let job = registered(
                server_name@,
                package@,
                text::texts(env@),
                text::texts(args@),
            );
            match r {
                Ok(Step::Send(j)) => job == Ok::<_, Seq<char>>(j@),
                Ok(_) => false,
                Err(e) => job == Err::<JobV, _>(e@),
            }
        },
        McpCmd::List { json } => match r {
            Ok(Step::Dump(request)) => json && request@ == effect::getting(servers_path()),
            Ok(Step::List(request)) => !json && request@ == effect::getting(servers_path()),
            _ => false,
        },
        McpCmd::Rm { server_name } => r matches Ok(Step::Send(j)) && j@ == removal(server_name@),
    }
}

/// Decides what a subcommand asks of the platform.
pub fn run(cmd: McpCmd) -> (r: Result<Step, String>)
    ensures
        step_of(cmd, r),
{
    match cmd {
        McpCmd::Register { server_name, package, env, secret, args, user } => {
            if user {
                return Ok(
                    Step::Identify(UserRegistration { server_name, package, env, secret, args }),
                );
            }
            if secret.len() > 0 {
                return Err(
                    "--secret requires --user (per-user encrypted secrets). For a platform server, pass a 'secret:<name>' value via --env instead.".to_owned(),
                );
            }
            match register(server_name, package, env, args) {
                Ok(j) => Ok(Step::Send(j)),
                Err(e) => Err(e),
            }
        },
        McpCmd::List { json } => {
            let request: Request = effect::get("/api/platform/mcp/servers".to_owned());
            if json {
                Ok(Step::Dump(request))
            } else {
                Ok(Step::List(request))
            }
        },
        McpCmd::Rm { server_name } => Ok(Step::Send(rm(server_name.as_str()))),
    }
}

/// A JSON text on standard output; an empty line where there is none.
pub open spec fn dumped(json: Result<Seq<char>, Seq<char>>) -> Seq<OutputV> {
    match json {
        Ok(t) => seq![effect::line(Channel::Out, t)],
        Err(_) => seq![effect::line(Channel::Out, ""@)],
    }
}

/// Shows a JSON text; an empty line where there is none.
pub fn list_text(json: Result<String, String>) -> (out: Vec<Output>)
    ensures
        effect::shown(out@) == dumped(codec::outcome(json)),
{
    match json {
        Ok(t) => effect::single(Channel::Out, t),
        Err(_) => effect::single(Channel::Out, "".to_owned()),
    }
}

/// Shows the servers as JSON.
pub fn list_json(raw: &Json) -> (out: Vec<Output>)
    ensures
        effect::shown(out@) == dumped(codec::pretty_text(raw@)),
{
    list_text(raw.to_string_pretty())
}

/// The names of environment variables, in order, each with its value blotted out.
pub open spec fn redacted(vars: Seq<(String, String)>) -> Seq<Seq<char>> {
    vars.map_values(|kv: (String, String)| kv.0@ + "=***"@)
}

/// The row for one server.
pub open spec fn server_row(s: McpServer) -> Seq<char> {
    text::pad(effect::or_else(s.server_name, "?"@), 18) + "  "@ + text::pad(
        effect::or_else(s.package, "?"@),
        26,
    ) + "  "@ + match s.env_vars {
        Some(vars) => text::joined(redacted(vars.pairs()), ","@),
        None => ""@,
    }
}

/// The heading of the list.
pub open spec fn heading() -> OutputV {
    OutputV {
        channel: Channel::Out,
        spans: seq![
            effect::span(text::pad("SERVER"@, 18), Style::Dimmed),
            effect::span("  "@, Style::Plain),
            effect::span(text::pad("PACKAGE"@, 26), Style::Dimmed),
            effect::span("  "@, Style::Plain),
            effect::span("ENV (redacted)"@, Style::Dimmed),
        ],
    }
}

/// One line for each server.
pub open spec fn rows(servers: Seq<McpServer>) -> Seq<OutputV> {
    servers.map_values(|s: McpServer| effect::line(Channel::Out, server_row(s)))
}

/// The list of servers. A reply that is no list of servers counts as an empty one.
pub open spec fn listing(servers: Option<Vec<McpServer>>) -> Seq<OutputV> {
    match servers {
        Some(ss) => if ss@.len() > 0 {
            seq![heading()] + rows(ss@)
        } else {
            seq![effect::line(Channel::Warning, "No MCP servers registered"@)]
        },
        None => seq![effect::line(Channel::Warning, "No MCP servers registered"@)],
    }
}

fn redact(vars: &EnvMap) -> (r: String)
    ensures
        r@ == text::joined(redacted(vars.pairs()), ","@),
{
    let vars: &Vec<(String, String)> = vars.as_pairs();
    let mut parts: Vec<String> = Vec::new();
    let n: usize = vars.len();
    for i in 0..n
        invariant
            n == vars@.len(),
            parts@.len() == i,
            forall|j: int| 0 <= j < i ==> #[trigger] parts@[j]@ == vars@[j].0@ + "=***"@,
    {
        parts.push(cat2(vars[i].0.as_str(), "=***"));
    }
    assert(text::texts(parts@) == redacted(vars@));
    text::join(&parts, ",")
}

fn server_row_text(s: &McpServer) -> (r: String)
    ensures
        r@ == server_row(*s),
{
    let name: String = text::padded(effect::text_or(&s.server_name, "?"), 18);
    let pkg: String = text::padded(effect::text_or(&s.package, "?"), 26);
    let keys: String = match &s.env_vars {
        Some(vars) => redact(vars),
        None => "".to_owned(),
    };
    cat5(name.as_str(), "  ", pkg.as_str(), "  ", keys.as_str())
}

/// Shows the servers. The exit code is 0.
pub fn list(servers: Option<Vec<McpServer>>) -> (out: Vec<Output>)
    ensures
        effect::shown(out@) == listing(servers),
{
    let servers: Vec<McpServer> = match servers {
        Some(ss) => ss,
        None => Vec::new(),
    };
    if servers.len() == 0 {
        return effect::single(Channel::Warning, "No MCP servers registered".to_owned());
    }
    let mut spans: Vec<Span> = Vec::new();
    spans.push(Span { text: text::padded("SERVER", 18), style: Style::Dimmed });
    spans.push(Span { text: "  ".to_owned(), style: Style::Plain });
    spans.push(Span { text: text::padded("PACKAGE", 26), style: Style::Dimmed });
    spans.push(Span { text: "  ".to_owned(), style: Style::Plain });
    spans.push(Span { text: "ENV (redacted)".to_owned(), style: Style::Dimmed });
    let ghost pieces = spans@.map_values(|s: Span| s@);
    let mut out: Vec<Output> = effect::silent();
    effect::emit_spans(&mut out, Channel::Out, spans);
    proof {
        assert(pieces == heading().spans);
        assert(effect::shown(out@) == seq![heading()] + rows(servers@.take(0)));
    }
    let n: usize = servers.len();
    for i in 0..n
        invariant
            n == servers@.len(),
            effect::shown(out@) == seq![heading()] + rows(servers@.take(i as int)),
    {
        effect::emit(&mut out, Channel::Out, server_row_text(&servers[i]));
        assert(rows(servers@.take(i + 1)) == rows(servers@.take(i as int)).push(
            effect::line(Channel::Out, server_row(servers@[i as int])),
        ));
        assert(effect::shown(out@) == seq![heading()] + rows(servers@.take(i + 1)));
    }
    assert(servers@.take(n as int) == servers@);
    out
}

/// A key has no `=` in it and is not empty; key, `=` and value make up the entry,
/// so a value may hold any `=` after the first.
pub proof fn law_key_val_splits(p: Seq<char>)
    ensures
        key_val(p) matches Some((k, v)) ==> {
            &&& k.len() > 0
            &&& !k.contains('=')
            &&& p == k.push('=') + v
        },
        key_val(p) is None ==> !p.contains('=') || p[0] == '=',
{
    text::find_bounds(p, '=');
    let i = text::find(p, '=');
    if key_val(p) is Some {
        assert(p =~= p.take(i).push('=') + p.skip(i + 1));
    }
}

/// A list of `KEY=VAL` is accepted exactly where each entry is of this form, and
/// otherwise the first one that is not is the one complained of.
pub proof fn law_env_accepted(pairs: Seq<Seq<char>>)
    ensures
        env_of(pairs) is Ok <==> forall|i: int|
            0 <= i < pairs.len() ==> key_val(#[trigger] pairs[i]) is Some,
        env_of(pairs) matches Err(p) ==> exists|i: int|
            0 <= i < pairs.len() && p == #[trigger] pairs[i] && key_val(p) is None && forall|j: int|
                0 <= j < i ==> key_val(#[trigger] pairs[j]) is Some,
    decreases pairs.len(),
{
    if pairs.len() > 0 {
        let front = pairs.drop_last();
        law_env_accepted(front);
        let n = pairs.len() - 1;
        assert(forall|i: int| 0 <= i < front.len() ==> front[i] == pairs[i]);
        if env_of(front) is Ok {
            assert forall|j: int| 0 <= j < n implies key_val(#[trigger] pairs[j]) is Some by {
                assert(key_val(front[j]) is Some);
            }
            if env_of(pairs) is Err {
                assert(pairs[n] == env_of(pairs)->Err_0);
            }
        } else {
            let p = env_of(front)->Err_0;
            let i = choose|i: int|
                0 <= i < front.len() && p == #[trigger] front[i] && key_val(p) is None && forall|
                    j: int,
                |
                    0 <= j < i ==> key_val(#[trigger] front[j]) is Some;
            assert(pairs[i] == p);
            assert forall|j: int| 0 <= j < i implies key_val(#[trigger] pairs[j]) is Some by {
                assert(key_val(front[j]) is Some);
            }
        }
    }
}

/// Of several entries with the same key the last one counts.
pub proof fn law_last_entry_counts(pairs: Seq<Seq<char>>, i: int)
    requires
        env_of(pairs) is Ok,
        0 <= i < pairs.len(),
        forall|j: int|
            i < j < pairs.len() ==> key_val(#[trigger] pairs[j])->Some_0.0 != key_val(
                pairs[i],
            )->Some_0.0,
    ensures
        key_val(pairs[i]) is Some,
        env_of(pairs)->Ok_0.dom().contains(key_val(pairs[i])->Some_0.0),
        env_of(pairs)->Ok_0[key_val(pairs[i])->Some_0.0] == key_val(pairs[i])->Some_0.1,
    decreases pairs.len(),
{
    let front = pairs.drop_last();
    if i < pairs.len() - 1 {
        assert forall|j: int| i < j < front.len() implies key_val(#[trigger] front[j])->Some_0.0
            != key_val(front[i])->Some_0.0 by {
            assert(front[j] == pairs[j]);
        }
        law_last_entry_counts(front, i);
        assert(front[i] == pairs[i]);
        assert(pairs.last() == pairs[pairs.len() - 1]);
    }
}

/// The environment variables of a server are listed in order of their names, each
/// once.
pub open spec fn in_order(s: McpServer) -> bool {
    s.env_vars matches Some(vars) ==> env::ascending(vars.pairs())
}

/// Two servers that a listing must not tell apart: they differ in the values of
/// environment variables alone.
pub open spec fn alike(a: McpServer, b: McpServer) -> bool {
    &&& json::opt(a.server_name) == json::opt(b.server_name)
    &&& json::opt(a.package) == json::opt(b.package)
    &&& match (a.env_vars, b.env_vars) {
        (Some(x), Some(y)) => x@.dom() == y@.dom(),
        (None, None) => true,
        _ => false,
    }
}

/// The listing shows no value of an environment variable: where only those differ,
/// it is the same.
pub proof fn law_listing_is_redacted(a: Vec<McpServer>, b: Vec<McpServer>)
    requires
        a@.len() == b@.len(),
        forall|i: int| 0 <= i < a@.len() ==> in_order(#[trigger] a@[i]) && in_order(b@[i]),
        forall|i: int| 0 <= i < a@.len() ==> alike(#[trigger] a@[i], b@[i]),
    ensures
        listing(Some(a)) == listing(Some(b)),
{
    assert forall|i: int| 0 <= i < a@.len() implies server_row(#[trigger] a@[i]) == server_row(
        b@[i],
    ) by {
        assert(alike(a@[i], b@[i]));
        if let Some(x) = a@[i].env_vars {
            let y = b@[i].env_vars->Some_0;
            env::same_names(x, y);
            assert(redacted(x.pairs()) == redacted(y.pairs()));
        }
    }
    assert(rows(a@) == rows(b@));
}

} // verus!
