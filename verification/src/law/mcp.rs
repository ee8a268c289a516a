//! Laws of MCP servers.

use vstd::prelude::*;

use crate::cmd::mcp;
use crate::cmd::mcp::{Job, JobV, McpCmd, McpServer, Step, UserRegistration};
use crate::effect;
use crate::effect::{Channel, Method, RequestV, Style};
use crate::env;
use crate::env::EnvMap;
use crate::json::JsonV;
use crate::text;

verus! {

/// What a request sends under a key.
pub open spec fn sent_under(r: RequestV, key: Seq<char>) -> Option<JsonV> {
    match r.body {
        Some(JsonV::Object(m)) => if m.dom().contains(key) {
            Some(m[key])
        } else {
            None
        },
        _ => None,
    }
}

proof fn keys_differ()
    ensures
        "server_name"@.len() == 11,
        "package"@.len() == 7 && "package"@[0] == 'p',
        "env_vars"@.len() == 8,
        "secrets"@.len() == 7 && "secrets"@[0] == 's',
        "args"@.len() == 4,
{
    reveal_strlit("server_name");
    reveal_strlit("package");
    reveal_strlit("env_vars");
    reveal_strlit("secrets");
    reveal_strlit("args");
}

/// A list of texts goes out as an array of them, in order.
pub proof fn law_texts_array(items: Seq<Seq<char>>, i: int)
    requires
        0 <= i < items.len(),
    ensures
        mcp::texts_json(items) is Array,
        mcp::texts_json(items)->Array_0.len() == items.len(),
        mcp::texts_json(items)->Array_0[i] == JsonV::Text(items[i]),
{
}

/// A server is registered for the platform with what was given, each under its own
/// key and nothing else, and the report names it.
pub proof fn law_platform_registration(
    name: Seq<char>,
    package: Seq<char>,
    vars: Map<Seq<char>, Seq<char>>,
    args: Seq<Seq<char>>,
    quoted: Seq<char>,
    key: Seq<char>,
)
    ensures
        ({
            let job = mcp::platform_job(name, package, vars, args, quoted);
            &&& job.request.method == Method::Post
            &&& job.request.path == "/api/platform/mcp/servers"@
            &&& sent_under(job.request, "server_name"@) == Some(JsonV::Text(name))
            &&& sent_under(job.request, "package"@) == Some(JsonV::Text(package))
            &&& sent_under(job.request, "env_vars"@) == Some(env::env_json(vars))
            &&& sent_under(job.request, "args"@) == Some(mcp::texts_json(args))
            &&& sent_under(job.request, key) is Some ==> key == "server_name"@ || key
                == "package"@ || key == "env_vars"@ || key == "args"@
            &&& job.done == seq![
                effect::line(
                    Channel::Success,
                    "Registered MCP server "@ + quoted + " (platform)"@,
                ),
            ]
        }),
{
    keys_differ();
}

/// A server is registered for a user at that user's own path, with variables and
/// secrets kept apart, each thing under its own key and nothing else; the report names
/// both and counts the secrets.
pub proof fn law_user_registration(
    user: Seq<char>,
    reg: UserRegistration,
    vars: Map<Seq<char>, Seq<char>>,
    secrets: Map<Seq<char>, Seq<char>>,
    quoted_name: Seq<char>,
    quoted_user: Seq<char>,
    key: Seq<char>,
)
    ensures
        ({
            let job = mcp::user_job(user, reg, vars, secrets, quoted_name, quoted_user);
            &&& job.request.method == Method::Post
            &&& job.request.path == "/api/users/"@ + user + "/mcp/"@ + reg.server_name()
            &&& sent_under(job.request, "package"@) == Some(JsonV::Text(reg.package()))
            &&& sent_under(job.request, "env_vars"@) == Some(env::env_json(vars))
            &&& sent_under(job.request, "secrets"@) == Some(env::env_json(secrets))
            &&& sent_under(job.request, "args"@) == Some(mcp::texts_json(reg.args()))
            &&& sent_under(job.request, key) is Some ==> key == "package"@ || key == "env_vars"@
                || key == "secrets"@ || key == "args"@
            &&& job.done == seq![
                effect::line(
                    Channel::Success,
                    "Registered MCP server "@ + quoted_name + " for user "@ + quoted_user + " ("@
                        + text::decimal(secrets.dom().len()) + " encrypted secret(s))"@,
                ),
            ]
        }),
{
    keys_differ();
    assert("package"@ != "secrets"@);
}

/// The message about an entry that is not of the form `KEY=VAL` shows it in quotes.
pub open spec fn complaint(p: Seq<char>) -> Seq<char> {
    "--env expects KEY=VAL, got "@ + text::quoted(p)
}

/// A list of entries is taken where each is of the form `KEY=VAL`, and else the first
/// one that is not is complained of.
pub proof fn law_entries_or_complaint(pairs: Seq<Seq<char>>)
    ensures
        mcp::env_of(pairs) matches Ok(m) ==> mcp::env_or_error(pairs) == Ok::<_, Seq<char>>(m),
        mcp::env_of(pairs) matches Err(p) ==> mcp::env_or_error(pairs) == Err::<
            Map<Seq<char>, Seq<char>>,
            _,
        >(complaint(p)),
{
}

/// No name is set that no entry sets.
pub proof fn law_no_other_names(pairs: Seq<Seq<char>>, name: Seq<char>)
    requires
        mcp::env_of(pairs) matches Ok(m) && m.dom().contains(name),
    ensures
        exists|i: int|
            0 <= i < pairs.len() && (mcp::key_val(#[trigger] pairs[i]) matches Some((k, v)) && k
                == name),
    decreases pairs.len(),
{
    let front = pairs.drop_last();
    let last = mcp::key_val(pairs.last());
    if last matches Some((k, v)) && k == name {
        assert(pairs[pairs.len() - 1] == pairs.last());
    } else {
        law_no_other_names(front, name);
        let i = choose|i: int|
            0 <= i < front.len() && (mcp::key_val(#[trigger] front[i]) matches Some((k, v)) && k
                == name);
        assert(pairs[i] == front[i]);
    }
}

/// A platform registration goes ahead with the variables given, or not at all where
/// one of them is not of the form `KEY=VAL`.
pub proof fn law_registered(
    name: Seq<char>,
    package: Seq<char>,
    pairs: Seq<Seq<char>>,
    args: Seq<Seq<char>>,
)
    ensures
        mcp::env_of(pairs) matches Ok(m) ==> mcp::registered(name, package, pairs, args) == Ok::<
            _,
            Seq<char>,
        >(mcp::platform_job(name, package, m, args, text::quoted(name))),
        mcp::env_of(pairs) matches Err(p) ==> mcp::registered(name, package, pairs, args) == Err::<
            JobV,
            _,
        >(complaint(p)),
{
}

/// A per-user registration needs a user, and then goes ahead with the variables and
/// the secrets given, each as such, or not at all where one of them is not of the form
/// `KEY=VAL`; the variables are looked at first.
pub proof fn law_registered_for(user: Option<String>, reg: UserRegistration)
    ensures
        ({
            let r = mcp::registered_for(user, reg);
            let there = user matches Some(u) && u@.len() > 0;
            let vars = mcp::env_of(reg.env());
            let secrets = mcp::env_of(reg.secret());
            &&& !there ==> r == Err::<JobV, _>(
                "no user on the active context. Set one with `forgeos config set-context <name> --user <id>` (or --user-id on a per-call basis)."@,
            )
            &&& there && vars is Err ==> r == Err::<JobV, _>(complaint(vars->Err_0))
            &&& there && vars is Ok && secrets is Err ==> r == Err::<JobV, _>(
                complaint(secrets->Err_0),
            )
            &&& there && vars is Ok && secrets is Ok ==> r == Ok::<_, Seq<char>>(
                mcp::user_job(
                    user->Some_0@,
                    reg,
                    vars->Ok_0,
                    secrets->Ok_0,
                    text::quoted(reg.server_name()),
                    text::quoted(user->Some_0@),
                ),
            )
        }),
{
    reveal_strlit("");
}

/// A server is removed by its name, at its own path.
pub proof fn law_removal(name: Seq<char>)
    ensures
        mcp::removal(name).request.method == Method::Delete,
        mcp::removal(name).request.path == "/api/platform/mcp/servers"@ + "/"@ + name,
        mcp::removal(name).request.body is None,
        mcp::removal(name).done == seq![
            effect::line(Channel::Success, "Removed MCP server "@ + text::quoted(name)),
        ],
{
}

/// Each subcommand does what its name says. A registration keeps what was given, each
/// thing in its own place; secrets are refused for the platform.
pub proof fn law_subcommands(cmd: McpCmd, r: Result<Step, String>)
    requires
        mcp::step_of(cmd, r),
    ensures
        cmd matches McpCmd::Register { server_name, package, env, secret, args, user } ==> {
            &&& user ==> (r matches Ok(Step::Identify(reg)) && reg.server_name() == server_name@
                && reg.package() == package@ && reg.env() == text::texts(env@) && reg.secret()
                == text::texts(secret@) && reg.args() == text::texts(args@))
            &&& !user && secret@.len() > 0 ==> (r matches Err(e) && e@
                == "--secret requires --user (per-user encrypted secrets). For a platform server, pass a 'secret:<name>' value via --env instead."@)
            &&& !user && secret@.len() == 0 ==> {
                let job = mcp::registered(
                    server_name@,
                    package@,
                    text::texts(env@),
                    text::texts(args@),
                );
                &&& job is Ok ==> (r matches Ok(Step::Send(j)) && j@ == job->Ok_0)
                &&& job is Err ==> (r matches Err(e) && e@ == job->Err_0)
            }
        },
        cmd matches McpCmd::List { json } && json ==> (r matches Ok(Step::Dump(q)) && q@.method
            == Method::Get && q@.path == "/api/platform/mcp/servers"@ && q@.body is None),
        cmd matches McpCmd::List { json } && !json ==> (r matches Ok(Step::List(q)) && q@.method
            == Method::Get && q@.path == "/api/platform/mcp/servers"@ && q@.body is None),
        cmd matches McpCmd::Rm { server_name } ==> (r matches Ok(Step::Send(j)) && j@
            == mcp::removal(server_name@)),
{
}

/// What a job and a list of variables say leaves nothing of them out, nor of the
/// message in their place.
pub proof fn law_job_says_all(j: Result<Job, String>, m: Result<EnvMap, String>)
    ensures
        j matches Ok(job) ==> (mcp::job_seen(j) matches Ok(v) && v.request == job.request@ && v.done
            == effect::shown(job.done@)),
        j matches Err(e) ==> mcp::job_seen(j) == Err::<JobV, _>(e@),
        m matches Ok(vars) ==> mcp::env_seen(m) == Ok::<_, Seq<char>>(
            env::pairs_map(vars.pairs()),
        ),
        m matches Err(e) ==> mcp::env_seen(m) == Err::<Map<Seq<char>, Seq<char>>, _>(e@),
{
}

/// A list of texts says each of its texts, in order.
pub proof fn law_texts(v: Seq<String>, i: int)
    requires
        0 <= i < v.len(),
    ensures
        text::texts(v).len() == v.len(),
        text::texts(v)[i] == v[i]@,
{
}

/// A JSON dump is the text as it is, and an empty line where there is none.
pub proof fn law_dump(t: Seq<char>)
    ensures
        mcp::dumped(Ok(t)) == seq![effect::line(Channel::Out, t)],
        mcp::dumped(Err(t)).len() == 1,
        mcp::dumped(Err(t))[0].channel == Channel::Out,
        mcp::dumped(Err(t))[0].spans.len() == 1,
        mcp::dumped(Err(t))[0].spans[0].text.len() == 0,
{
    reveal_strlit("");
}

/// A row has the server's name and its package, each in its column, and then the names
/// of its variables, with a mark in place of each value.
pub proof fn law_row(s: McpServer, i: int)
    ensures
        ({
            let name = match s.server_name {
                Some(n) => n@,
                None => "?"@,
            };
            let package = match s.package {
                Some(p) => p@,
                None => "?"@,
            };
            let front = text::pad(name, 18) + "  "@ + text::pad(package, 26) + "  "@;
            &&& s.env_vars is None ==> mcp::server_row(s) == front
            &&& (s.env_vars matches Some(vars) ==> {
                let shown = mcp::redacted(vars.pairs());
                &&& mcp::server_row(s) == front + text::joined(shown, ","@)
                &&& shown.len() == vars.pairs().len()
                &&& 0 <= i < shown.len() ==> shown[i] == vars.pairs()[i].0@ + "=***"@
            })
        }),
{
    reveal_strlit("");
}

/// The listing has a heading, and then one row for each server, in order; without
/// servers, or without a list of them, it is a warning.
pub proof fn law_listing(ss: Vec<McpServer>, i: int)
    ensures
        ({
            let out = mcp::listing(Some(ss));
            let none = seq![effect::line(Channel::Warning, "No MCP servers registered"@)];
            &&& mcp::listing(None) == none
            &&& ss@.len() == 0 ==> out == none
            &&& ss@.len() > 0 ==> {
                &&& out.len() == ss@.len() + 1
                &&& out[0].channel == Channel::Out
                &&& out[0].spans.len() == 5
                &&& out[0].spans[0].text == text::pad("SERVER"@, 18)
                &&& out[0].spans[1].text == "  "@
                &&& out[0].spans[2].text == text::pad("PACKAGE"@, 26)
                &&& out[0].spans[3].text == "  "@
                &&& out[0].spans[4].text == "ENV (redacted)"@
                &&& out[0].spans[0].style == Style::Dimmed
                &&& out[0].spans[2].style == Style::Dimmed
                &&& out[0].spans[4].style == Style::Dimmed
                &&& 0 <= i < ss@.len() ==> out[1 + i] == effect::line(
                    Channel::Out,
                    mcp::server_row(ss@[i]),
                )
            }
        }),
{
}

} // verus!
