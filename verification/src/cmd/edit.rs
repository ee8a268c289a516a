//! `forgeos edit <agent_id>`: open the agent's manifest in an editor and apply the
//! changes in place via PUT /api/platform/agents/{id}.
//!
//! Edge cases, as in `git commit` with no `-m`:
//!   * editor exits non-zero (e.g. vim `:cq`)  -> abort, agent untouched
//!   * buffer saved unchanged / closed unsaved -> abort, agent untouched
//!   * buffer emptied                          -> abort, agent untouched
//!   * YAML no longer parses                   -> abort, edits preserved on disk

use vstd::prelude::*;

use crate::codec;
use crate::effect;
use crate::effect::{Channel, Method, Output, OutputV, Request, RequestV};
use crate::json;
use crate::json::{Json, JsonV, Member};
use crate::text;
use crate::text::{cat2, cat3, cat5};
use crate::yaml;
use crate::yaml::{YamlLayer, YamlV};

verus! {

/// Arguments of the command.
#[derive(Debug)]
pub struct Args {
    /// Agent ID (from `forgeos list`).
    pub agent_id: String,
    /// Editor command (overrides $FORGEOS_EDITOR / $VISUAL / $EDITOR).
    pub editor: Option<String>,
}

/// What stands above the fields in the buffer.
pub const HEADER: &'static str = "# forgeos edit — change the fields below and save to update the agent in place.
#
# Lines starting with '#' are ignored. Saving with NO changes, or leaving an
# empty buffer, aborts the edit — nothing is sent and the agent is untouched.
#
# Editable here: name, description, department, execution_type, schedule,
# chat_model, provider, goal, tools, event_triggers, metadata, system_prompt.
#
# Capabilities / boundaries / governance are NOT editable here — for those,
# `forgeos undeploy <id>` then `forgeos deploy <manifest>`.
#
# Notes: an empty `tools` or `event_triggers` list is ignored by the server
# (it will not clear them); set `schedule: \"\"` to clear a schedule.
";

/// The path of an agent.
pub open spec fn agent_path(agent_id: Seq<char>) -> Seq<char> {
    "/api/platform/agents/"@ + agent_id
}

/// A text field of the manifest; empty where there is no text.
pub open spec fn text_field(cur: JsonV, key: Seq<char>) -> YamlV {
    YamlV::Text(json::text_or(cur.field(key), ""@))
}

/// The texts among some values.
pub open spec fn text_items(items: Seq<JsonV>) -> Seq<YamlV>
    decreases items.len(),
{
    if items.len() == 0 {
        Seq::empty()
    } else {
        match items.last() {
            JsonV::Text(s) => text_items(items.drop_last()).push(YamlV::Text(s)),
            _ => text_items(items.drop_last()),
        }
    }
}

/// A list field of the manifest: the texts in it, where it is a list.
pub open spec fn list_field(cur: JsonV, key: Seq<char>) -> YamlV {
    match cur.field(key) {
        Some(JsonV::Array(items)) => YamlV::Sequence(text_items(items)),
        _ => YamlV::Sequence(Seq::empty()),
    }
}

/// A text of the language-model configuration; empty where there is none.
pub open spec fn model_field(cur: JsonV, key: Seq<char>) -> YamlV {
    YamlV::Text(json::text_or(json::within(cur.field("llm_config"@), key), ""@))
}

/// A key that is not shown: one with a leading underscore.
pub open spec fn hidden(key: Seq<char>) -> bool {
    key.len() > 0 && key[0] == '_'
}

/// The metadata that is shown, in order. The hidden keys stay as they are on the
/// server, which merges.
pub open spec fn shown_metadata(ms: Seq<Member>) -> Seq<(YamlV, YamlV)>
    decreases ms.len(),
{
    if ms.len() == 0 {
        Seq::empty()
    } else if hidden(ms.last().key@) {
        shown_metadata(ms.drop_last())
    } else {
        yaml::with_entry(
            shown_metadata(ms.drop_last()),
            YamlV::Text(ms.last().key@),
            yaml::yaml_or_null(ms.last().value@),
        )
    }
}

/// The members under `key` of a value that is an object with an object there.
pub open spec fn members_under(cur: Json, key: Seq<char>) -> Seq<Member> {
    match cur {
        Json::Object(ms) => match json::member(ms@, key) {
            Some(Json::Object(inner)) => inner@,
            _ => Seq::empty(),
        },
        _ => Seq::empty(),
    }
}

/// The fields that can be edited, in order.
pub open spec fn editable(cur: Json) -> Seq<(YamlV, YamlV)> {
    seq![
        (YamlV::Text("name"@), text_field(cur@, "name"@)),
        (YamlV::Text("description"@), text_field(cur@, "description"@)),
        (YamlV::Text("department"@), text_field(cur@, "department"@)),
        (YamlV::Text("execution_type"@), text_field(cur@, "execution_type"@)),
        (YamlV::Text("schedule"@), text_field(cur@, "schedule"@)),
        (YamlV::Text("chat_model"@), model_field(cur@, "chat_model"@)),
        (YamlV::Text("provider"@), model_field(cur@, "provider"@)),
        (YamlV::Text("goal"@), text_field(cur@, "goal"@)),
        (YamlV::Text("tools"@), list_field(cur@, "tools"@)),
        (YamlV::Text("event_triggers"@), list_field(cur@, "event_triggers"@)),
        (
            YamlV::Text("metadata"@),
            YamlV::Mapping(shown_metadata(members_under(cur, "metadata"@))),
        ),
        (YamlV::Text("system_prompt"@), text_field(cur@, "system_prompt"@)),
    ]
}

fn yaml_str(s: &str) -> (r: serde_yaml::Value)
    ensures
        yaml::holds(r) == YamlV::Text(s@),
{
    yaml::build(YamlLayer::Text(s.to_owned()))
}

fn str_field(cur: &Json, key: &str) -> (r: serde_yaml::Value)
    ensures
        yaml::holds(r) == text_field(cur@, key@),
{
    yaml_str(json::str_or(cur.get(key), ""))
}

fn llm_field(cur: &Json, key: &str) -> (r: serde_yaml::Value)
    ensures
        yaml::holds(r) == model_field(cur@, key@),
{
    yaml_str(json::str_or(json::dig(cur.get("llm_config"), key), ""))
}

fn str_arr(cur: &Json, key: &str) -> (r: serde_yaml::Value)
    ensures
        yaml::holds(r) == list_field(cur@, key@),
{
    let mut out: Vec<serde_yaml::Value> = Vec::new();
    assert(out@.map_values(|v| yaml::holds(v)) == Seq::<YamlV>::empty());
    if let Some(Json::Array(items)) = cur.get(key) {
        let n: usize = items.len();
        let ghost all = json::items_view(items@);
        assert(text_items(all.take(0)) == Seq::<YamlV>::empty());
        for i in 0..n
            invariant
                n == items@.len(),
                all == json::items_view(items@),
                out@.map_values(|v| yaml::holds(v)) == text_items(all.take(i as int)),
        {
            let ghost before = out@;
            proof {
                assert(all.take(i + 1).drop_last() == all.take(i as int));
                assert(all.take(i + 1).last() == items@[i as int]@);
            }
            if let Some(s) = items[i].as_str() {
                out.push(yaml_str(s));
                assert(out@.map_values(|v| yaml::holds(v)) == before.map_values(
                    |v| yaml::holds(v),
                ).push(YamlV::Text(s@)));
            }
        }
        assert(all.take(n as int) == all);
    }
    yaml::build(YamlLayer::Sequence(out))
}

fn metadata(cur: &Json) -> (r: serde_yaml::Mapping)
    ensures
        yaml::entries(r) == shown_metadata(members_under(*cur, "metadata"@)),
{
    let mut meta: serde_yaml::Mapping = serde_yaml::Mapping::new();
    if let Json::Object(top) = cur {
        if let Some(Json::Object(ms)) = json::lookup(top, "metadata") {
            let n: usize = ms.len();
            for i in 0..n
                invariant
                    n == ms@.len(),
                    yaml::entries(meta) == shown_metadata(ms@.take(i as int)),
            {
                proof {
                    assert(ms@.take(i + 1).drop_last() == ms@.take(i as int));
                    assert(ms@.take(i + 1).last() == ms@[i as int]);
                }
                let key: &str = ms[i].key.as_str();
                let starts: bool = key.unicode_len() > 0 && key.get_char(0) == '_';
                if !starts {
                    yaml::set(&mut meta, key, yaml::to_yaml(&ms[i].value));
                }
            }
            assert(ms@.take(n as int) == ms@);
        }
    }
    meta
}

/// No entry is under `key`.
proof fn slot_at_end(es: Seq<(YamlV, YamlV)>, key: YamlV)
    requires
        forall|i: int| 0 <= i < es.len() ==> (#[trigger] es[i]).0 != key,
    ensures
        yaml::slot(es, key) == es.len(),
    decreases es.len(),
{
    if es.len() > 0 {
        assert(es[0].0 != key);
        assert forall|i: int| 0 <= i < es.skip(1).len() implies (#[trigger] es.skip(1)[i]).0
            != key by {
            assert(es[i + 1].0 != key);
        }
        slot_at_end(es.skip(1), key);
    }
}

fn append(m: &mut serde_yaml::Mapping, key: &str, value: serde_yaml::Value)
    requires
        forall|i: int|
            0 <= i < yaml::entries(*old(m)).len() ==> (#[trigger] yaml::entries(*old(m))[i]).0
                != YamlV::Text(key@),
    ensures
        yaml::entries(*final(m)) == yaml::entries(*old(m)).push(
            (YamlV::Text(key@), yaml::holds(value)),
        ),
{
    proof {
        slot_at_end(yaml::entries(*m), YamlV::Text(key@));
    }
    yaml::set(m, key, value);
}

/// The names of the editable fields are told apart by their lengths and first
/// letters.
pub proof fn names_differ()
    ensures
        "name"@.len() == 4 && "name"@[0] == 'n',
        "description"@.len() == 11,
        "department"@.len() == 10 && "department"@[0] == 'd',
        "execution_type"@.len() == 14 && "execution_type"@[1] == 'x',
        "schedule"@.len() == 8 && "schedule"@[0] == 's',
        "chat_model"@.len() == 10 && "chat_model"@[0] == 'c',
        "provider"@.len() == 8 && "provider"@[0] == 'p',
        "goal"@.len() == 4 && "goal"@[0] == 'g',
        "tools"@.len() == 5,
        "event_triggers"@.len() == 14 && "event_triggers"@[1] == 'v',
        "metadata"@.len() == 8 && "metadata"@[0] == 'm',
        "system_prompt"@.len() == 13,
{
    reveal_strlit("name");
    reveal_strlit("description");
    reveal_strlit("department");
    reveal_strlit("execution_type");
    reveal_strlit("schedule");
    reveal_strlit("chat_model");
    reveal_strlit("provider");
    reveal_strlit("goal");
    reveal_strlit("tools");
    reveal_strlit("event_triggers");
    reveal_strlit("metadata");
    reveal_strlit("system_prompt");
}

/// The fields that can be edited, as YAML text.
pub open spec fn manifest(cur: Json) -> Result<Seq<char>, Seq<char>> {
    yaml::yaml_text(YamlV::Mapping(editable(cur)))
}

/// Builds the YAML that the user edits: only the fields that an update honors, in
/// a stable order.
pub fn build_editable_yaml(cur: &Json) -> (r: Result<String, String>)
    ensures
        codec::outcome(r) == manifest(*cur),
{
    let mut m: serde_yaml::Mapping = serde_yaml::Mapping::new();
    proof {
        names_differ();
    }
    append(&mut m, "name", str_field(cur, "name"));
    append(&mut m, "description", str_field(cur, "description"));
    append(&mut m, "department", str_field(cur, "department"));
    append(&mut m, "execution_type", str_field(cur, "execution_type"));
    append(&mut m, "schedule", str_field(cur, "schedule"));
    append(&mut m, "chat_model", llm_field(cur, "chat_model"));
    append(&mut m, "provider", llm_field(cur, "provider"));
    append(&mut m, "goal", str_field(cur, "goal"));
    append(&mut m, "tools", str_arr(cur, "tools"));
    append(&mut m, "event_triggers", str_arr(cur, "event_triggers"));
    append(&mut m, "metadata", yaml::build(YamlLayer::Mapping(metadata(cur))));
    append(&mut m, "system_prompt", str_field(cur, "system_prompt"));
    assert(yaml::entries(m) == editable(*cur));
    yaml::write(&yaml::build(YamlLayer::Mapping(m)))
}

/// A line that is a comment as a whole.
pub open spec fn comment(line: Seq<char>) -> bool {
    let t = text::trim_start(line);
    t.len() > 0 && t[0] == '#'
}

/// The text without its whole-line comments.
pub open spec fn stripped(s: Seq<char>) -> Seq<char> {
    text::joined(text::lines(s).filter(|l: Seq<char>| !comment(l)), "\n"@)
}

/// Drops whole-line comments.
pub fn strip_comments(s: &str) -> (r: String)
    ensures
        r@ == stripped(s@),
{
    let all: Vec<String> = text::lines_of(s);
    let mut kept: Vec<String> = Vec::new();
    let n: usize = all.len();
    let ghost ls = text::texts(all@);
    let ghost keep = |l: Seq<char>| !comment(l);
    assert(ls.take(0).filter(keep) == Seq::<Seq<char>>::empty()) by {
        reveal(Seq::filter);
    }
    assert(text::texts(kept@) == Seq::<Seq<char>>::empty());
    for i in 0..n
        invariant
            n == all@.len(),
            ls == text::texts(all@),
            keep == (|l: Seq<char>| !comment(l)),
            text::texts(kept@) == ls.take(i as int).filter(keep),
    {
        let ghost before = kept@;
        let t: &str = text::trimmed_start(all[i].as_str());
        let is_comment: bool = t.unicode_len() > 0 && t.get_char(0) == '#';
        proof {
            reveal(Seq::filter);
            assert(ls.take(i + 1).drop_last() == ls.take(i as int));
            assert(ls.take(i + 1).last() == all@[i as int]@);
        }
        if !is_comment {
            kept.push(all[i].clone());
            assert(text::texts(kept@) == text::texts(before).push(all@[i as int]@));
        }
    }
    assert(ls.take(n as int) == ls);
    text::join(&kept, "\n")
}

/// The text with no white space at the end of a line, nor at its own end.
pub open spec fn normal(s: Seq<char>) -> Seq<char> {
    text::trim_end(text::joined(trimmed_lines(s), "\n"@))
}

/// The lines of a text, each without the white space that it ends in.
pub open spec fn trimmed_lines(s: Seq<char>) -> Seq<Seq<char>> {
    text::lines(s).map_values(|l: Seq<char>| text::trim_end(l))
}

/// Trailing-whitespace-insensitive form, so that an editor's stray newline does
/// not read as a change.
pub fn normalize(s: &str) -> (r: String)
    ensures
        r@ == normal(s@),
{
    let all: Vec<String> = text::lines_of(s);
    let mut out: Vec<String> = Vec::new();
    let n: usize = all.len();
    for i in 0..n
        invariant
            n == all@.len(),
            out@.len() == i,
            forall|j: int| 0 <= j < i ==> #[trigger] out@[j]@ == text::trim_end(all@[j]@),
    {
        out.push(text::trimmed_end(all[i].as_str()).to_owned());
    }
    proof {
        let want = trimmed_lines(s@);
        assert forall|j: int| 0 <= j < want.len() implies want[j] == text::texts(out@)[j] by {
            assert(out@[j]@ == text::trim_end(all@[j]@));
            assert(text::texts(all@)[j] == all@[j]@);
        }
        assert(text::texts(out@) == want);
    }
    let joined: String = text::join(&out, "\n");
    text::trimmed_end(joined.as_str()).to_owned()
}

/// Why a parsed manifest cannot be sent, where it cannot.
pub open spec fn objection(parsed: JsonV) -> Option<Seq<char>> {
    if !(parsed is Object) {
        Some("manifest must be a YAML mapping of fields"@)
    } else if text::trim(json::text_or(parsed.field("name"@), ""@)).len() == 0 {
        Some("`name` must not be empty"@)
    } else {
        None
    }
}

/// Validates the parsed edits, and hands back the body to send. Extra keys are
/// harmless, so all that is asked is a usable `name`.
pub fn to_update_body(parsed: Json) -> (r: Result<Json, String>)
    ensures
        match r {
            Ok(body) => objection(parsed@) is None && body == parsed,
            Err(e) => objection(parsed@) == Some(e@),
        },
{
    if let Json::Object(_) = &parsed {
        if text::trimmed(json::str_or(parsed.get("name"), "")).is_empty() {
            return Err("`name` must not be empty".to_owned());
        }
    } else {
        return Err("manifest must be a YAML mapping of fields".to_owned());
    }
    Ok(parsed)
}

/// The editor to launch: the override, else what `FORGEOS_EDITOR`, `VISUAL` and
/// `EDITOR` hold, in this order; `vi` where that is blank or absent.
pub open spec fn chosen_editor(
    over: Option<String>,
    forgeos_editor: Option<String>,
    visual: Option<String>,
    editor: Option<String>,
) -> Seq<char> {
    let first = if over is Some {
        over
    } else if forgeos_editor is Some {
        forgeos_editor
    } else if visual is Some {
        visual
    } else {
        editor
    };
    match first {
        Some(e) => if text::trim(e@).len() > 0 {
            e@
        } else {
            "vi"@
        },
        None => "vi"@,
    }
}

/// A program to launch, with its arguments.
pub struct EditorCommand {
    /// The command as it was given.
    pub editor: String,
    pub program: String,
    pub args: Vec<String>,
}

/// What is launched for an editor command: its first word, with the others as
/// arguments.
pub open spec fn launched(editor: Seq<char>, r: EditorCommand) -> bool {
    &&& r.editor@ == editor
    &&& seq![r.program@] + text::texts(r.args@) == text::words(r.editor@)
}

proof fn blank_without_words(s: Seq<char>)
    requires
        text::words(s).len() == 0,
    ensures
        text::trim(s).len() == 0,
{
}

/// Decides which editor to launch. A command with arguments is split at white
/// space, so `code --wait` works.
pub fn launch_editor(
    over: Option<String>,
    forgeos_editor: Option<String>,
    visual: Option<String>,
    editor: Option<String>,
) -> (r: EditorCommand)
    ensures
        launched(chosen_editor(over, forgeos_editor, visual, editor), r),
{
    let first: Option<String> = match over {
        Some(e) => Some(e),
        None => match forgeos_editor {
            Some(e) => Some(e),
            None => match visual {
                Some(e) => Some(e),
                None => editor,
            },
        },
    };
    let command: String = match first {
        Some(e) => {
            if text::trimmed(e.as_str()).is_empty() {
                "vi".to_owned()
            } else {
                e
            }
        },
        None => "vi".to_owned(),
    };
    let mut parts: Vec<String> = text::words_of(command.as_str());
    proof {
        assert(text::texts(parts@).len() == parts@.len());
        reveal_strlit("vi");
        if parts@.len() == 0 {
            blank_without_words(command@);
            if command@ == "vi"@ {
                assert(!text::white_space('v'));
                assert("vi"@[0] == 'v');
                assert(text::trim_start("vi"@) == "vi"@);
            }
        }
    }
    let ghost all = parts@;
    let program: String = parts.remove(0);
    proof {
        assert(seq![program@] + text::texts(parts@) == text::texts(all));
    }
    EditorCommand { editor: command, program, args: parts }
}

/// A character that may stand in a file name as it is.
pub open spec fn safe(c: char) -> bool {
    ('a' <= c <= 'z') || ('A' <= c <= 'Z') || ('0' <= c <= '9') || c == '-'
}

/// An id with every character that is not safe replaced by an underscore.
pub open spec fn safe_id(id: Seq<char>) -> Seq<char> {
    id.map_values(
        |c: char|
            if safe(c) {
                c
            } else {
                '_'
            },
    )
}

/// The name of the temporary file for an agent, in the process `pid`.
pub open spec fn temp_name(agent_id: Seq<char>, pid: nat) -> Seq<char> {
    "forgeos-edit-"@ + safe_id(agent_id) + "-"@ + text::decimal(pid) + ".yaml"@
}

/// The name of the temporary file for an agent, in the process `pid`.
pub fn temp_path(agent_id: &str, pid: u32) -> (r: String)
    ensures
        r@ == temp_name(agent_id@, pid as nat),
{
    let cs: Vec<char> = text::chars(agent_id);
    let mut id: String = String::new();
    let n: usize = cs.len();
    for i in 0..n
        invariant
            cs@ == agent_id@,
            n == cs@.len(),
            id@ == safe_id(agent_id@.take(i as int)),
    {
        let c: char = cs[i];
        let ok: bool = ('a' <= c && c <= 'z') || ('A' <= c && c <= 'Z') || ('0' <= c && c <= '9')
            || c == '-';
        if ok {
            let one: &str = agent_id.substring_char(i, i + 1);
            assert(one@ == seq![c]);
            id.append(one);
        } else {
            proof {
                reveal_strlit("_");
            }
            assert("_"@ == seq!['_']);
            id.append("_");
        }
        assert(id@ == safe_id(agent_id@.take(i + 1)));
    }
    assert(agent_id@.take(n as int) == agent_id@);
    cat5("forgeos-edit-", id.as_str(), "-", text::decimal_text(pid as u64).as_str(), ".yaml")
}

/// An edit that waits for the agent's current state.
pub struct Fetching {
    agent_id: String,
}

/// An edit whose buffer is with the user.
pub struct Editing {
    agent_id: String,
    template: String,
}

/// What comes of an edit.
pub enum Verdict {
    /// Remove the file, show the lines, and exit with 0. Nothing is sent.
    Discard(Vec<Output>),
    /// Remove the file, and stop with this error. Nothing is sent.
    Refuse(String),
    /// Keep the file, and stop with this error. Nothing is sent.
    Keep(String),
    /// Send the request. Once it has succeeded, remove the file, show the lines,
    /// and exit with 0; where it fails, keep the file and stop with its error.
    Apply(Request, Vec<Output>),
}

/// What comes of an edit.
pub ghost enum VerdictV {
    Discard(Seq<OutputV>),
    Refuse(Seq<char>),
    Keep(Seq<char>),
    Apply(RequestV, Seq<OutputV>),
}

impl Verdict {
    pub open spec fn view(&self) -> VerdictV {
        match self {
            Verdict::Discard(out) => VerdictV::Discard(effect::shown(out@)),
            Verdict::Refuse(e) => VerdictV::Refuse(e@),
            Verdict::Keep(e) => VerdictV::Keep(e@),
            Verdict::Apply(r, out) => VerdictV::Apply(r@, effect::shown(out@)),
        }
    }
}

impl Fetching {
    /// The agent to edit.
    pub closed spec fn agent_id(&self) -> Seq<char> {
        self.agent_id@
    }
}

impl Editing {
    /// The agent to edit.
    pub closed spec fn agent_id(&self) -> Seq<char> {
        self.agent_id@
    }

    /// The buffer as the user got it.
    pub closed spec fn template(&self) -> Seq<char> {
        self.template@
    }

    /// The buffer as the user gets it.
    pub fn text(&self) -> (r: &str)
        ensures
            r@ == self.template(),
    {
        self.template.as_str()
    }
}

/// Starts an edit: the request for the agent's current state.
pub fn run(args: &Args) -> (r: (Request, Fetching))
    ensures
        r.0@ == effect::getting(agent_path(args.agent_id@)),
        r.1.agent_id() == args.agent_id@,
{
    (
        effect::get(cat2("/api/platform/agents/", args.agent_id.as_str())),
        Fetching { agent_id: args.agent_id.clone() },
    )
}

/// What an edit begins with, or the message in its place.
pub open spec fn begun(r: Result<Editing, String>) -> Result<(Seq<char>, Seq<char>), Seq<char>> {
    match r {
        Ok(e) => Ok((e.agent_id(), e.template())),
        Err(e) => Err(e@),
    }
}

/// The buffer of an edit, given the fields as YAML text.
pub open spec fn buffer(agent_id: Seq<char>, body: Result<Seq<char>, Seq<char>>) -> Result<
    (Seq<char>, Seq<char>),
    Seq<char>,
> {
    match body {
        Ok(b) => Ok((agent_id, HEADER@ + "\n"@ + b)),
        Err(e) => Err(e),
    }
}

impl Fetching {
    /// Takes the fields as YAML text.
    pub fn on_yaml(self, body: Result<String, String>) -> (r: Result<Editing, String>)
        ensures
            begun(r) == buffer(self.agent_id(), codec::outcome(body)),
    {
        match body {
            Ok(b) => Ok(
                Editing { agent_id: self.agent_id, template: cat3(HEADER, "\n", b.as_str()) },
            ),
            Err(e) => Err(e),
        }
    }

    /// Takes the agent's current state.
    pub fn on_agent(self, current: &Json) -> (r: Result<Editing, String>)
        ensures
            begun(r) == buffer(self.agent_id(), manifest(*current)),
    {
        self.on_yaml(build_editable_yaml(current))
    }
}

/// The buffer holds nothing but comments and white space.
pub open spec fn empty_buffer(edited: Seq<char>) -> bool {
    text::trim(stripped(edited)).len() == 0
}

/// What comes of edits that parsed, or of the message of the parser, with the file
/// at `tmp`.
pub open spec fn submitted(
    agent_id: Seq<char>,
    parsed: Result<JsonV, Seq<char>>,
    tmp: Seq<char>,
) -> VerdictV {
    match parsed {
        Err(e) => VerdictV::Keep(
            "your edits are not valid YAML: "@ + e + "\nThey are preserved at "@ + tmp
                + " — fix and re-apply."@,
        ),
        Ok(v) => match objection(v) {
            Some(e) => VerdictV::Keep(e + "\nYour edits are preserved at "@ + tmp),
            None => VerdictV::Apply(
                RequestV { method: Method::Put, path: agent_path(agent_id), body: Some(v) },
                seq![effect::line(Channel::Success, "Updated agent "@ + agent_id)],
            ),
        },
    }
}

/// What comes of an edit: an empty or an unchanged buffer is discarded, anything
/// else is submitted.
pub open spec fn decided(
    agent_id: Seq<char>,
    template: Seq<char>,
    edited: Seq<char>,
    parsed: Result<JsonV, Seq<char>>,
    tmp: Seq<char>,
) -> VerdictV {
    if empty_buffer(edited) {
        VerdictV::Discard(
            seq![
                effect::line(
                    Channel::Warning,
                    "Empty manifest — edit aborted, agent unchanged."@,
                ),
            ],
        )
    } else if normal(edited) == normal(template) {
        VerdictV::Discard(
            seq![effect::line(Channel::Warning, "No changes — edit aborted, agent unchanged."@)],
        )
    } else {
        submitted(agent_id, parsed, tmp)
    }
}

/// What comes of an edit. It is the buffer as the user left it that is read as YAML,
/// comments and all.
pub open spec fn finished(
    agent_id: Seq<char>,
    template: Seq<char>,
    edited: Seq<char>,
    tmp: Seq<char>,
) -> VerdictV {
    decided(agent_id, template, edited, yaml::yaml_read(edited), tmp)
}

impl Editing {
    /// Takes the editor's exit. A failed editor ends the edit.
    pub fn on_exit(self, success: bool) -> (r: Result<Editing, Verdict>)
        ensures
            match r {
                Ok(e) => success && e == self,
                Err(v) => !success && v@ == VerdictV::Refuse(
                    "editor exited with an error — edit aborted, agent unchanged"@,
                ),
            },
    {
        if success {
            Ok(self)
        } else {
            Err(
                Verdict::Refuse(
                    "editor exited with an error — edit aborted, agent unchanged".to_owned(),
                ),
            )
        }
    }

    /// Takes the edits that were parsed, or the message of the parser.
    pub fn on_parsed(self, parsed: Result<Json, String>, tmp: &str) -> (r: Verdict)
        ensures
            r@ == submitted(self.agent_id(), yaml::parsed(parsed), tmp@),
    {
        match parsed {
            Err(e) => {
                Verdict::Keep(
                    cat5(
                        "your edits are not valid YAML: ",
                        e.as_str(),
                        "\nThey are preserved at ",
                        tmp,
                        " — fix and re-apply.",
                    ),
                )
            },
            Ok(v) => match to_update_body(v) {
                Err(e) => Verdict::Keep(cat3(e.as_str(), "\nYour edits are preserved at ", tmp)),
                Ok(body) => {
                    let id: &str = self.agent_id.as_str();
                    Verdict::Apply(
                        Request {
                            method: Method::Put,
                            path: cat2("/api/platform/agents/", id),
                            body: Some(body),
                        },
                        effect::single(Channel::Success, cat2("Updated agent ", id)),
                    )
                },
            },
        }
    }

    /// Takes the buffer as the user left it, in the file at `tmp`.
    pub fn on_text(self, edited: &str, tmp: &str) -> (r: Verdict)
        ensures
            r@ == finished(self.agent_id(), self.template(), edited@, tmp@),
    {
        let rest: String = strip_comments(edited);
        if text::trimmed(rest.as_str()).is_empty() {
            return Verdict::Discard(
                effect::single(
                    Channel::Warning,
                    "Empty manifest — edit aborted, agent unchanged.".to_owned(),
                ),
            );
        }
        if normalize(edited) == normalize(self.template.as_str()) {
            return Verdict::Discard(
                effect::single(
                    Channel::Warning,
                    "No changes — edit aborted, agent unchanged.".to_owned(),
                ),
            );
        }
        self.on_parsed(yaml::from_yaml(edited), tmp)
    }
}

/// The lines of a text with one more white-space character, trimmed, are those of
/// the text, perhaps with an empty one more.
proof fn trimmed_lines_push(s: Seq<char>, c: char)
    requires
        text::white_space(c),
    ensures
        text::at_line_start(s) ==> trimmed_lines(s.push(c)) == trimmed_lines(s).push(Seq::empty()),
        !text::at_line_start(s) ==> trimmed_lines(s.push(c)) == trimmed_lines(s),
{
    text::lines_push(s, c);
    let ls = text::lines(s);
    let now = text::lines(s.push(c));
    if text::at_line_start(s) {
        text::trim_end_blank(now.last());
        assert(text::trim_end(now.last()) == Seq::<char>::empty());
        assert(trimmed_lines(s.push(c)) == trimmed_lines(s).push(Seq::empty()));
    } else {
        let l = ls.last();
        line_end_trimmed(l);
        assert(l.push(c) == l + seq![c]);
        text::trim_end_append(l, seq![c]);
        assert(text::trim_end(now.last()) == text::trim_end(l));
        assert forall|i: int| 0 <= i < ls.len() implies trimmed_lines(s.push(c))[i]
            == trimmed_lines(s)[i] by {
            if i < ls.len() - 1 {
                assert(now[i] == ls[i]);
            } else {
                assert(now[i] == now.last());
            }
        }
        assert(trimmed_lines(s.push(c)) == trimmed_lines(s));
    }
}

/// A carriage return at the end is trimmed anyway.
proof fn line_end_trimmed(l: Seq<char>)
    ensures
        text::trim_end(text::strip_cr(l)) == text::trim_end(l),
{
    if l.len() > 0 && l.last() == '\r' {
        assert(l == text::strip_cr(l) + seq!['\r']);
        text::trim_end_append(text::strip_cr(l), seq!['\r']);
    }
}

proof fn normal_push(s: Seq<char>, c: char)
    requires
        text::white_space(c),
    ensures
        normal(s.push(c)) == normal(s),
{
    trimmed_lines_push(s, c);
    if text::at_line_start(s) {
        let parts = trimmed_lines(s);
        let more = parts.push(Seq::empty());
        reveal_strlit("\n");
        assert(more.drop_last() == parts);
        if parts.len() == 0 {
            assert(more[0] == Seq::<char>::empty());
            assert(text::joined(more, "\n"@) == text::joined(parts, "\n"@));
        } else {
            let j = text::joined(parts, "\n"@);
            assert(text::joined(more, "\n"@) == j + "\n"@);
            text::trim_end_append(j, "\n"@);
        }
    }
}

/// White space at the end of the buffer, such as an editor's stray newline, does
/// not read as a change.
pub proof fn law_trailing_white_space_is_no_change(s: Seq<char>, w: Seq<char>)
    requires
        text::blank(w),
    ensures
        normal(s + w) == normal(s),
    decreases w.len(),
{
    if w.len() > 0 {
        let front = w.drop_last();
        law_trailing_white_space_is_no_change(s, front);
        assert(text::white_space(w[w.len() - 1]));
        assert((s + front).push(w.last()) == s + w);
        normal_push(s + front, w.last());
    } else {
        assert(s + w == s);
    }
}

/// White space before a newline makes no difference to the trimmed lines.
proof fn trimmed_before_newline(s: Seq<char>, w: Seq<char>)
    requires
        text::blank(w),
        !w.contains('\n'),
    ensures
        trimmed_lines((s + w).push('\n')) == trimmed_lines(s.push('\n')),
    decreases w.len(),
{
    if w.len() > 0 {
        let front = w.drop_last();
        let c = w.last();
        assert(text::white_space(w[w.len() - 1]));
        assert(w.contains(w[w.len() - 1]));
        assert(!front.contains('\n')) by {
            if front.contains('\n') {
                let i = choose|i: int| 0 <= i < front.len() && front[i] == '\n';
                assert(w[i] == '\n');
            }
        }
        trimmed_before_newline(s, front);
        let x = s + front;
        assert(x.push(c) == s + w);
        trimmed_lines_push(x, c);
        trimmed_lines_push(x, '\n');
        trimmed_lines_push(x.push(c), '\n');
        assert(!text::at_line_start(x.push(c)));
    } else {
        assert(s + w == s);
    }
}

/// White space at the end of a line does not read as a change.
pub proof fn law_line_end_white_space_is_no_change(a: Seq<char>, w: Seq<char>, b: Seq<char>)
    requires
        text::blank(w),
        !w.contains('\n'),
    ensures
        normal((a + w).push('\n') + b) == normal(a.push('\n') + b),
{
    let p = (a + w).push('\n');
    let q = a.push('\n');
    trimmed_before_newline(a, w);
    text::lines_concat(p, b);
    text::lines_concat(q, b);
    assert(trimmed_lines(p + b) == trimmed_lines(p) + trimmed_lines(b));
    assert(trimmed_lines(q + b) == trimmed_lines(q) + trimmed_lines(b));
}

/// A buffer counts as empty exactly where each of its lines is blank or a comment.
pub proof fn law_empty_buffer(edited: Seq<char>)
    ensures
        empty_buffer(edited) <==> forall|i: int|
            0 <= i < text::lines(edited).len() ==> comment(#[trigger] text::lines(edited)[i])
                || text::blank(text::lines(edited)[i]),
{
    let ls = text::lines(edited);
    let keep = |l: Seq<char>| !comment(l);
    let kept = ls.filter(keep);
    reveal_strlit("\n");
    text::trim_blank(stripped(edited));
    text::joined_blank(kept, "\n"@);
    if empty_buffer(edited) {
        assert forall|i: int| 0 <= i < ls.len() implies comment(#[trigger] ls[i]) || text::blank(
            ls[i],
        ) by {
            if !comment(ls[i]) {
                assert(keep(ls[i]));
                ls.lemma_filter_contains(keep, i);
                let j = choose|j: int| 0 <= j < kept.len() && kept[j] == ls[i];
                assert(text::blank(kept[j]));
            }
        }
    }
    if forall|i: int|
        0 <= i < ls.len() ==> comment(#[trigger] ls[i]) || text::blank(ls[i]) {
        assert forall|j: int| 0 <= j < kept.len() implies text::blank(#[trigger] kept[j]) by {
            ls.lemma_filter_pred(keep, j);
            assert(kept.contains(kept[j]));
            ls.lemma_filter_contains_rev(keep, kept[j]);
            let i = choose|i: int| 0 <= i < ls.len() && ls[i] == kept[j];
            assert(comment(ls[i]) || text::blank(ls[i]));
        }
    }
}

/// The agent is touched exactly where the buffer is neither empty nor unchanged
/// and parses as a mapping with a usable name; the update is what was parsed, sent
/// to the agent that was edited. Where the edits do not parse, or cannot be sent,
/// they are kept.
pub proof fn law_when_the_agent_is_touched(
    agent_id: Seq<char>,
    template: Seq<char>,
    edited: Seq<char>,
    parsed: Result<JsonV, Seq<char>>,
    tmp: Seq<char>,
)
    ensures
        decided(agent_id, template, edited, parsed, tmp) is Apply <==> {
            &&& !empty_buffer(edited)
            &&& normal(edited) != normal(template)
            &&& parsed is Ok
            &&& objection(parsed->Ok_0) is None
        },
        decided(agent_id, template, edited, parsed, tmp) is Apply ==> decided(
            agent_id,
            template,
            edited,
            parsed,
            tmp,
        )->Apply_0 == (RequestV {
            method: Method::Put,
            path: agent_path(agent_id),
            body: Some(parsed->Ok_0),
        }),
        decided(agent_id, template, edited, parsed, tmp) is Keep <==> {
            &&& !empty_buffer(edited)
            &&& normal(edited) != normal(template)
            &&& parsed is Err || objection(parsed->Ok_0) is Some
        },
        decided(agent_id, template, template, parsed, tmp) is Discard,
{
}

/// Metadata with a leading underscore is not shown; all other metadata is, and where
/// its keys come in order, each with its own value.
pub proof fn law_hidden_metadata(ms: Seq<Member>)
    ensures
        forall|i: int|
            0 <= i < shown_metadata(ms).len() ==> (#[trigger] shown_metadata(ms)[i]).0 is Text
                && !hidden(shown_metadata(ms)[i].0->Text_0),
        forall|j: int|
            0 <= j < ms.len() && !hidden((#[trigger] ms[j]).key@) ==> yaml::slot(
                shown_metadata(ms),
                YamlV::Text(ms[j].key@),
            ) < shown_metadata(ms).len(),
        json::ascending(ms) ==> forall|j: int|
            0 <= j < ms.len() && !hidden((#[trigger] ms[j]).key@) ==> shown_metadata(
                ms,
            )[yaml::slot(shown_metadata(ms), YamlV::Text(ms[j].key@))] == (
                YamlV::Text(ms[j].key@),
                yaml::yaml_or_null(ms[j].value@),
            ),
    decreases ms.len(), 1int,
{
    if json::ascending(ms) {
        shown_values(ms);
    }
    if ms.len() > 0 {
        let front = ms.drop_last();
        law_hidden_metadata(front);
        let was = shown_metadata(front);
        let now = shown_metadata(ms);
        if !hidden(ms.last().key@) {
            let key = YamlV::Text(ms.last().key@);
            let value = yaml::yaml_or_null(ms.last().value@);
            slot_bounds(was, key);
            assert forall|i: int| 0 <= i < now.len() implies (#[trigger] now[i]).0 is Text
                && !hidden(now[i].0->Text_0) by {
                if i < was.len() {
                    assert(was[i].0 is Text && !hidden(was[i].0->Text_0));
                }
            }
            assert forall|j: int| 0 <= j < ms.len() && !hidden(
                (#[trigger] ms[j]).key@,
            ) implies yaml::slot(now, YamlV::Text(ms[j].key@)) < now.len() by {
                let k = YamlV::Text(ms[j].key@);
                if j < front.len() {
                    assert(front[j] == ms[j]);
                    slot_bounds(was, k);
                    let i = yaml::slot(was, k);
                    slot_before(now, k, i);
                } else {
                    let i = if yaml::slot(was, key) < was.len() {
                        yaml::slot(was, key)
                    } else {
                        was.len() as int
                    };
                    slot_before(now, k, i);
                }
            }
        } else {
            assert forall|j: int| 0 <= j < ms.len() && !hidden(
                (#[trigger] ms[j]).key@,
            ) implies yaml::slot(now, YamlV::Text(ms[j].key@)) < now.len() by {
                assert(j < front.len());
                assert(front[j] == ms[j]);
            }
        }
    }
}

/// Metadata in order of its keys is shown in that order.
proof fn shown_in_order(ms: Seq<Member>)
    requires
        json::ascending(ms),
    ensures
        forall|i: int|
            0 <= i < shown_metadata(ms).len() ==> (#[trigger] shown_metadata(ms)[i]).0 is Text
                && json::keyed(ms, shown_metadata(ms)[i].0->Text_0),
        forall|i: int, j: int|
            0 <= i < j < shown_metadata(ms).len() ==> text::less(
                (#[trigger] shown_metadata(ms)[i]).0->Text_0,
                (#[trigger] shown_metadata(ms)[j]).0->Text_0,
            ),
    decreases ms.len(),
{
    if ms.len() > 0 {
        let front = ms.drop_last();
        let n = ms.len() - 1;
        let was = shown_metadata(front);
        let now = shown_metadata(ms);
        let last = ms.last().key@;
        assert forall|i: int, j: int| 0 <= i < j < front.len() implies text::less(
            #[trigger] front[i].key@,
            #[trigger] front[j].key@,
        ) by {
            assert(text::less(ms[i].key@, ms[j].key@));
        }
        shown_in_order(front);
        assert forall|i: int| 0 <= i < was.len() implies text::less(
            (#[trigger] was[i]).0->Text_0,
            last,
        ) && json::keyed(ms, was[i].0->Text_0) && was[i].0 != YamlV::Text(last) by {
            let key = was[i].0->Text_0;
            assert(json::keyed(front, key));
            let k = choose|k: int| 0 <= k < front.len() && #[trigger] front[k].key@ == key;
            assert(ms[k].key@ == key);
            assert(text::less(ms[k].key@, ms[n].key@));
            text::less_total(key, last);
        }
        if !hidden(last) {
            slot_at_end(was, YamlV::Text(last));
            assert(ms[n].key@ == last);
            assert(json::keyed(ms, last));
        }
    }
}

/// An entry whose key comes in order stands where its key is found.
proof fn slot_in_order(ms: Seq<Member>, i: int)
    requires
        json::ascending(ms),
        0 <= i < shown_metadata(ms).len(),
    ensures
        yaml::slot(shown_metadata(ms), shown_metadata(ms)[i].0) == i,
{
    let es = shown_metadata(ms);
    let k = yaml::slot(es, es[i].0);
    shown_in_order(ms);
    slot_before(es, es[i].0, i);
    slot_bounds(es, es[i].0);
    if k < i {
        assert(text::less(es[k].0->Text_0, es[i].0->Text_0));
        text::less_total(es[k].0->Text_0, es[i].0->Text_0);
    }
}

/// Metadata in order of its keys is shown with its values.
proof fn shown_values(ms: Seq<Member>)
    requires
        json::ascending(ms),
    ensures
        forall|j: int|
            0 <= j < ms.len() && !hidden((#[trigger] ms[j]).key@) ==> shown_metadata(
                ms,
            )[yaml::slot(shown_metadata(ms), YamlV::Text(ms[j].key@))] == (
                YamlV::Text(ms[j].key@),
                yaml::yaml_or_null(ms[j].value@),
            ),
    decreases ms.len(), 0int,
{
    if ms.len() > 0 {
        let front = ms.drop_last();
        let n = ms.len() - 1;
        let was = shown_metadata(front);
        let now = shown_metadata(ms);
        assert forall|i: int, j: int| 0 <= i < j < front.len() implies text::less(
            #[trigger] front[i].key@,
            #[trigger] front[j].key@,
        ) by {
            assert(text::less(ms[i].key@, ms[j].key@));
        }
        shown_values(front);
        law_hidden_metadata(front);
        shown_in_order(front);
        let last = YamlV::Text(ms.last().key@);
        assert forall|i: int| 0 <= i < was.len() implies (#[trigger] was[i]).0 != last by {
            let key = was[i].0->Text_0;
            assert(json::keyed(front, key));
            let k = choose|k: int| 0 <= k < front.len() && #[trigger] front[k].key@ == key;
            assert(text::less(ms[k].key@, ms[n].key@));
            text::less_total(key, ms[n].key@);
        }
        slot_at_end(was, last);
        assert forall|j: int| 0 <= j < ms.len() && !hidden((#[trigger] ms[j]).key@) implies now[yaml::slot(
            now,
            YamlV::Text(ms[j].key@),
        )] == (YamlV::Text(ms[j].key@), yaml::yaml_or_null(ms[j].value@)) by {
            let k = YamlV::Text(ms[j].key@);
            if j < n {
                assert(front[j] == ms[j]);
                slot_bounds(was, k);
                let i = yaml::slot(was, k);
                assert(now[i] == was[i]);
                slot_in_order(ms, i);
            } else {
                slot_in_order(ms, was.len() as int);
            }
        }
    }
}

/// What is shown of metadata depends on what its members say alone.
proof fn shown_same(a: Seq<Member>, b: Seq<Member>)
    requires
        a.len() == b.len(),
        forall|i: int|
            0 <= i < a.len() ==> (#[trigger] a[i]).key@ == b[i].key@ && a[i].value@ == b[i].value@,
    ensures
        shown_metadata(a) == shown_metadata(b),
    decreases a.len(),
{
    if a.len() > 0 {
        let x = a.drop_last();
        let y = b.drop_last();
        assert forall|i: int| 0 <= i < x.len() implies (#[trigger] x[i]).key@ == y[i].key@
            && x[i].value@ == y[i].value@ by {
            assert(a[i].key@ == b[i].key@);
        }
        shown_same(x, y);
        assert(a[a.len() - 1].key@ == b[a.len() - 1].key@);
    }
}

proof fn metadata_in_order(cur: Json)
    requires
        cur.in_order(),
    ensures
        json::ascending(members_under(cur, "metadata"@)),
{
    if let Json::Object(ms) = cur {
        json::member_counts(ms@, "metadata"@);
    }
}

/// Metadata is shown in order of its keys, where the agent's state lists it so, as
/// one read from the server does.
pub proof fn law_metadata_in_order_of_keys(cur: Json, i: int, j: int)
    requires
        cur.in_order(),
        0 <= i < j < shown_metadata(members_under(cur, "metadata"@)).len(),
    ensures
        shown_metadata(members_under(cur, "metadata"@))[i].0 is Text,
        shown_metadata(members_under(cur, "metadata"@))[j].0 is Text,
        text::less(
            shown_metadata(members_under(cur, "metadata"@))[i].0->Text_0,
            shown_metadata(members_under(cur, "metadata"@))[j].0->Text_0,
        ),
{
    metadata_in_order(cur);
    shown_in_order(members_under(cur, "metadata"@));
}

/// The buffer is fixed by what the server says of the agent: two states that say the
/// same, each with its members in order, give the same fields in the same order.
pub proof fn law_buffer_fixed_by_the_state(a: Json, b: Json)
    requires
        a.in_order(),
        b.in_order(),
        a@ == b@,
    ensures
        editable(a) == editable(b),
{
    let key = "metadata"@;
    metadata_in_order(a);
    metadata_in_order(b);
    if let Json::Object(x) = a {
        let y = b->Object_0;
        assert(json::members_view(x@) == json::members_view(y@));
        json::member_counts(x@, key);
        json::member_counts(y@, key);
        if let Some(Json::Object(p)) = json::member(x@, key) {
            assert(json::member(y@, key)->Some_0@ is Object);
        }
        if let Some(Json::Object(q)) = json::member(y@, key) {
            assert(json::member(x@, key)->Some_0@ is Object);
        }
    }
    assert(json::members_view(members_under(a, key)) == json::members_view(members_under(b, key)));
    json::same_members(members_under(a, key), members_under(b, key));
    shown_same(members_under(a, key), members_under(b, key));
}

/// Nothing is shown as metadata but what the agent has, and none of it twice.
pub proof fn law_shown_metadata_is_the_agents(ms: Seq<Member>)
    ensures
        forall|i: int|
            0 <= i < shown_metadata(ms).len() ==> (#[trigger] shown_metadata(ms)[i]).0 is Text
                && json::keyed(ms, shown_metadata(ms)[i].0->Text_0),
        forall|i: int, j: int|
            0 <= i < j < shown_metadata(ms).len() ==> (#[trigger] shown_metadata(ms)[i]).0 != (
            #[trigger] shown_metadata(ms)[j]).0,
    decreases ms.len(),
{
    if ms.len() > 0 {
        let front = ms.drop_last();
        let was = shown_metadata(front);
        let now = shown_metadata(ms);
        let last = ms.last().key@;
        law_shown_metadata_is_the_agents(front);
        slot_bounds(was, YamlV::Text(last));
        assert(ms[ms.len() - 1].key@ == last);
        assert forall|i: int| 0 <= i < was.len() implies (#[trigger] was[i]).0 is Text
            && json::keyed(ms, was[i].0->Text_0) by {
            let key = was[i].0->Text_0;
            assert(json::keyed(front, key));
            let k = choose|k: int| 0 <= k < front.len() && #[trigger] front[k].key@ == key;
            assert(ms[k].key@ == key);
        }
        assert forall|i: int| 0 <= i < now.len() implies (#[trigger] now[i]).0 is Text
            && json::keyed(ms, now[i].0->Text_0) by {
            if i < was.len() && now[i].0 == was[i].0 {
                assert(was[i].0 is Text);
            }
        }
        assert forall|i: int, j: int| 0 <= i < j < now.len() implies (#[trigger] now[i]).0 != (
        #[trigger] now[j]).0 by {
            if j < was.len() {
                assert(was[i].0 != was[j].0);
            } else if !hidden(last) {
                if was[i].0 == YamlV::Text(last) {
                    slot_before(was, YamlV::Text(last), i);
                }
            }
        }
    }
}

proof fn slot_bounds(es: Seq<(YamlV, YamlV)>, key: YamlV)
    ensures
        0 <= yaml::slot(es, key) <= es.len(),
        yaml::slot(es, key) < es.len() ==> es[yaml::slot(es, key)].0 == key,
    decreases es.len(),
{
    if es.len() > 0 && es[0].0 != key {
        slot_bounds(es.skip(1), key);
    }
}

proof fn slot_before(es: Seq<(YamlV, YamlV)>, key: YamlV, i: int)
    requires
        0 <= i < es.len(),
        es[i].0 == key,
    ensures
        yaml::slot(es, key) <= i,
    decreases es.len(),
{
    if i > 0 && es[0].0 != key {
        slot_before(es.skip(1), key, i - 1);
    }
}

/// The name of the temporary file has letters, digits, `-`, `_` and `.` alone,
/// whatever the agent's id holds.
pub proof fn law_temp_name_is_safe(agent_id: Seq<char>, pid: nat, i: int)
    requires
        0 <= i < temp_name(agent_id, pid).len(),
    ensures
        safe(temp_name(agent_id, pid)[i]) || temp_name(agent_id, pid)[i] == '_' || temp_name(
            agent_id,
            pid,
        )[i] == '.',
{
    reveal_strlit("forgeos-edit-");
    reveal_strlit("-");
    reveal_strlit(".yaml");
    let a = "forgeos-edit-"@;
    let b = safe_id(agent_id);
    let d = text::decimal(pid);
    let k = i - a.len() - b.len() - 1;
    if 0 <= k < d.len() {
        text::decimal_digits(pid, k);
        assert(temp_name(agent_id, pid)[i] == d[k]);
    }
}

} // verus!
