//! Laws of the edit of an agent.

use vstd::prelude::*;

use crate::cmd::edit;
use crate::cmd::edit::{Editing, EditorCommand, Verdict, VerdictV, HEADER};
use crate::effect;
use crate::effect::{Channel, Method, RequestV};
use crate::json;
use crate::json::{Json, JsonV, Member};
use crate::text;
use crate::yaml;
use crate::yaml::YamlV;

verus! {

/// The text that a value has under a key; empty where it has none there.
pub open spec fn text_at(v: JsonV, key: Seq<char>) -> Seq<char> {
    match v.field(key) {
        Some(JsonV::Text(t)) => t,
        _ => Seq::empty(),
    }
}

/// The buffer has one entry under a key, and it holds this.
pub open spec fn holds_under(es: Seq<(YamlV, YamlV)>, key: Seq<char>, v: YamlV) -> bool {
    &&& exists|i: int| 0 <= i < es.len() && (#[trigger] es[i]).0 == YamlV::Text(key)
    &&& forall|i: int|
        0 <= i < es.len() && (#[trigger] es[i]).0 == YamlV::Text(key) ==> es[i].1 == v
}

/// The keys of the buffer, in order.
pub proof fn law_keys_of_the_buffer(cur: Json)
    ensures
        edit::editable(cur).len() == 12,
        edit::editable(cur)[0].0 == YamlV::Text("name"@),
        edit::editable(cur)[1].0 == YamlV::Text("description"@),
        edit::editable(cur)[2].0 == YamlV::Text("department"@),
        edit::editable(cur)[3].0 == YamlV::Text("execution_type"@),
        edit::editable(cur)[4].0 == YamlV::Text("schedule"@),
        edit::editable(cur)[5].0 == YamlV::Text("chat_model"@),
        edit::editable(cur)[6].0 == YamlV::Text("provider"@),
        edit::editable(cur)[7].0 == YamlV::Text("goal"@),
        edit::editable(cur)[8].0 == YamlV::Text("tools"@),
        edit::editable(cur)[9].0 == YamlV::Text("event_triggers"@),
        edit::editable(cur)[10].0 == YamlV::Text("metadata"@),
        edit::editable(cur)[11].0 == YamlV::Text("system_prompt"@),
{
}

/// No key is in the buffer twice.
proof fn keys_once(cur: Json, i: int, j: int)
    requires
        0 <= i < j < edit::editable(cur).len(),
    ensures
        edit::editable(cur)[i].0 != edit::editable(cur)[j].0,
{
    law_keys_of_the_buffer(cur);
    edit::names_differ();
}

proof fn one_place(cur: Json, k: int, key: Seq<char>, v: YamlV)
    requires
        0 <= k < edit::editable(cur).len(),
        edit::editable(cur)[k].0 == YamlV::Text(key),
        edit::editable(cur)[k].1 == v,
    ensures
        holds_under(edit::editable(cur), key, v),
{
    let es = edit::editable(cur);
    assert forall|i: int| 0 <= i < es.len() && (#[trigger] es[i]).0 == YamlV::Text(
        key,
    ) implies es[i].1 == v by {
        if i < k {
            keys_once(cur, i, k);
        }
        if k < i {
            keys_once(cur, k, i);
        }
    }
}

/// Each text of the buffer is the agent's own under the same key, and empty where the
/// agent has no text there: saving one edit leaves every other field as it was.
pub proof fn law_texts_under_their_own_keys(cur: Json, key: Seq<char>)
    requires
        key == "name"@ || key == "description"@ || key == "department"@ || key
            == "execution_type"@ || key == "schedule"@ || key == "goal"@ || key
            == "system_prompt"@,
    ensures
        holds_under(edit::editable(cur), key, YamlV::Text(text_at(cur@, key))),
{
    reveal_strlit("");
    assert(""@ == Seq::<char>::empty());
    law_keys_of_the_buffer(cur);
    let k: int = if key == "name"@ {
        0
    } else if key == "description"@ {
        1
    } else if key == "department"@ {
        2
    } else if key == "execution_type"@ {
        3
    } else if key == "schedule"@ {
        4
    } else if key == "goal"@ {
        7
    } else {
        11
    };
    one_place(cur, k, key, YamlV::Text(text_at(cur@, key)));
}

/// The model and the provider of the buffer are those of the agent's language-model
/// configuration, each under the same key.
pub proof fn law_model_under_its_own_keys(cur: Json, key: Seq<char>)
    requires
        key == "chat_model"@ || key == "provider"@,
    ensures
        cur@.field("llm_config"@) matches Some(config) ==> holds_under(
            edit::editable(cur),
            key,
            YamlV::Text(text_at(config, key)),
        ),
        cur@.field("llm_config"@) is None ==> holds_under(
            edit::editable(cur),
            key,
            YamlV::Text(Seq::empty()),
        ),
{
    reveal_strlit("");
    assert(""@ == Seq::<char>::empty());
    law_keys_of_the_buffer(cur);
    let k: int = if key == "chat_model"@ {
        5
    } else {
        6
    };
    let v = match cur@.field("llm_config"@) {
        Some(config) => text_at(config, key),
        None => Seq::empty(),
    };
    one_place(cur, k, key, YamlV::Text(v));
}

/// The tools and the event triggers of the buffer are the texts in the agent's list
/// under the same key; there are none where the agent has no list there.
pub proof fn law_lists_under_their_own_keys(cur: Json, key: Seq<char>)
    requires
        key == "tools"@ || key == "event_triggers"@,
    ensures
        cur@.field(key) matches Some(JsonV::Array(items)) ==> holds_under(
            edit::editable(cur),
            key,
            YamlV::Sequence(edit::text_items(items)),
        ),
        !(cur@.field(key) is Some && cur@.field(key)->Some_0 is Array) ==> holds_under(
            edit::editable(cur),
            key,
            YamlV::Sequence(Seq::empty()),
        ),
{
    law_keys_of_the_buffer(cur);
    let k: int = if key == "tools"@ {
        8
    } else {
        9
    };
    let v = if cur@.field(key) is Some && cur@.field(key)->Some_0 is Array {
        YamlV::Sequence(edit::text_items(cur@.field(key)->Some_0->Array_0))
    } else {
        YamlV::Sequence(Seq::empty())
    };
    one_place(cur, k, key, v);
}

/// Of a list the texts are kept, in order, and nothing else is.
pub proof fn law_text_items(items: Seq<JsonV>, v: JsonV)
    ensures
        edit::text_items(Seq::empty()).len() == 0,
        v matches JsonV::Text(t) ==> edit::text_items(items.push(v)) == edit::text_items(items)
            + seq![YamlV::Text(t)],
        !(v is Text) ==> edit::text_items(items.push(v)) == edit::text_items(items),
{
    assert(items.push(v).drop_last() == items);
}

/// The metadata of the buffer is what is shown of the agent's own.
pub proof fn law_metadata_under_its_own_key(cur: Json, ms: Vec<Member>)
    requires
        cur == Json::Object(ms),
    ensures
        json::member(ms@, "metadata"@) matches Some(Json::Object(inner)) ==> holds_under(
            edit::editable(cur),
            "metadata"@,
            YamlV::Mapping(edit::shown_metadata(inner@)),
        ),
        !(json::member(ms@, "metadata"@) is Some && json::member(ms@, "metadata"@)->Some_0
            is Object) ==> holds_under(
            edit::editable(cur),
            "metadata"@,
            YamlV::Mapping(Seq::empty()),
        ),
{
    law_keys_of_the_buffer(cur);
    one_place(cur, 10, "metadata"@, edit::editable(cur)[10].1);
}

/// A key is hidden where it begins with an underscore.
pub proof fn law_hidden_keys(key: Seq<char>)
    ensures
        edit::hidden(seq!['_'] + key),
        key.len() > 0 && key[0] != '_' ==> !edit::hidden(key),
        !edit::hidden(Seq::empty()),
{
}

/// The buffer is the header, an empty line and the fields; where the fields cannot be
/// written, that is the error.
pub proof fn law_buffer(agent_id: Seq<char>, body: Seq<char>)
    ensures
        edit::buffer(agent_id, Ok(body)) == Ok::<_, Seq<char>>(
            (agent_id, HEADER@ + "\n"@ + body),
        ),
        edit::buffer(agent_id, Err(body)) == Err::<(Seq<char>, Seq<char>), _>(body),
{
}

/// The user gets the fields as serde_yaml writes them, and an update is what serde_yaml
/// reads from the buffer as the user left it, with nothing taken out of it first.
pub proof fn law_what_is_written_and_read(
    cur: Json,
    agent_id: Seq<char>,
    template: Seq<char>,
    edited: Seq<char>,
    tmp: Seq<char>,
)
    ensures
        edit::manifest(cur) == yaml::yaml_text(YamlV::Mapping(edit::editable(cur))),
        edit::finished(agent_id, template, edited, tmp) matches VerdictV::Apply(r, _) ==> (
        yaml::yaml_read(edited) matches Ok(v) && r.body == Some(v) && r.path
            == "/api/platform/agents/"@ + agent_id && r.method == Method::Put),
        edit::finished(agent_id, template, edited, tmp) is Apply <==> {
            &&& !edit::empty_buffer(edited)
            &&& edit::normal(edited) != edit::normal(template)
            &&& yaml::yaml_read(edited) is Ok
            &&& edit::objection(yaml::yaml_read(edited)->Ok_0) is None
        },
{
}

/// An edit that begins is about the agent, with the buffer as the user gets it; one
/// that does not is its error.
pub proof fn law_beginning_says_all(r: Result<Editing, String>)
    ensures
        r matches Ok(e) ==> edit::begun(r) == Ok::<_, Seq<char>>((e.agent_id(), e.template())),
        r matches Err(e) ==> edit::begun(r) == Err::<(Seq<char>, Seq<char>), _>(e@),
{
}

/// A line is a comment where the first thing in it but white space is a `#`.
pub proof fn law_comment(w: Seq<char>, rest: Seq<char>)
    requires
        text::blank(w),
    ensures
        edit::comment(w + seq!['#'] + rest),
        !edit::comment(w),
        rest.len() > 0 && rest[0] != '#' && !text::white_space(rest[0]) ==> !edit::comment(
            w + rest,
        ),
{
    assert(w + seq!['#'] + rest == w + (seq!['#'] + rest));
    crate::law::text::gap_skipped(w, seq!['#'] + rest);
    crate::law::text::gap_skipped(w, Seq::empty());
    assert(w + Seq::<char>::empty() == w);
    if rest.len() > 0 && !text::white_space(rest[0]) {
        crate::law::text::gap_skipped(w, rest);
    }
}

/// A comment line at the end of a text makes no difference once comments are dropped.
pub proof fn law_comment_lines_are_dropped(a: Seq<char>, l: Seq<char>)
    requires
        text::at_line_start(a),
        !l.contains('\n'),
        edit::comment(l),
    ensures
        edit::stripped(a + l) == edit::stripped(a),
{
    assert(l.len() > 0) by {
        if l.len() == 0 {
            assert(l == Seq::<char>::empty());
        }
    }
    crate::law::text::law_lines(l, Seq::empty());
    text::lines_concat(a, l);
    let keep = |l: Seq<char>| !edit::comment(l);
    let ls = text::lines(a);
    assert(text::lines(a + l) == ls.push(l));
    reveal(Seq::filter);
    assert(ls.push(l).drop_last() == ls);
    assert(ls.push(l).filter(keep) == ls.filter(keep));
}

proof fn nothing_dropped(ls: Seq<Seq<char>>, keep: spec_fn(Seq<char>) -> bool)
    requires
        forall|i: int| 0 <= i < ls.len() ==> keep(#[trigger] ls[i]),
    ensures
        ls.filter(keep) == ls,
    decreases ls.len(),
{
    reveal(Seq::filter);
    if ls.len() > 0 {
        let front = ls.drop_last();
        assert forall|i: int| 0 <= i < front.len() implies keep(#[trigger] front[i]) by {
            assert(keep(ls[i]));
        }
        nothing_dropped(front, keep);
        assert(keep(ls[ls.len() - 1]));
        assert(front.push(ls.last()) == ls);
    }
}

/// A text without comment lines keeps all its lines.
pub proof fn law_other_lines_are_kept(s: Seq<char>)
    requires
        forall|i: int| 0 <= i < text::lines(s).len() ==> !edit::comment(#[trigger] text::lines(s)[i]),
    ensures
        edit::stripped(s) == text::joined(text::lines(s), "\n"@),
{
    let keep = |l: Seq<char>| !edit::comment(l);
    let ls = text::lines(s);
    assert forall|i: int| 0 <= i < ls.len() implies keep(#[trigger] ls[i]) by {
        assert(!edit::comment(text::lines(s)[i]));
    }
    nothing_dropped(ls, keep);
}

/// The last line of a text that ends in none ends as the text does.
proof fn last_line(s: Seq<char>)
    requires
        s.len() > 0,
        s.last() != '\n',
    ensures
        text::lines(s).len() > 0,
        text::lines(s).last().len() > 0,
        text::lines(s).last().last() == s.last(),
{
    assert(s.drop_last().push(s.last()) == s);
    text::lines_push(s.drop_last(), s.last());
}

/// The lines of a text without carriage returns, joined, are the text but for a
/// newline at its end.
proof fn rejoined(s: Seq<char>)
    requires
        !s.contains('\r'),
    ensures
        s.len() > 0 && s.last() == '\n' ==> text::joined(text::lines(s), "\n"@) == s.drop_last(),
        !(s.len() > 0 && s.last() == '\n') ==> text::joined(text::lines(s), "\n"@) == s,
    decreases s.len(),
{
    reveal_strlit("\n");
    if s.len() == 0 {
        assert(s == Seq::<char>::empty());
    } else {
        let t = s.drop_last();
        let c = s.last();
        assert(t.push(c) == s);
        assert(!t.contains('\r')) by {
            if t.contains('\r') {
                let i = choose|i: int| 0 <= i < t.len() && t[i] == '\r';
                assert(s[i] == '\r');
            }
        }
        rejoined(t);
        text::lines_push(t, c);
        let ls = text::lines(t);
        let now = text::lines(s);
        if text::at_line_start(t) {
            let x = now.last();
            assert(now.drop_last() == ls);
            if t.len() == 0 {
                assert(ls.len() == 0);
                assert(now[0] == x);
            } else {
                assert(ls.len() > 0) by {
                    assert(t.drop_last().push(t.last()) == t);
                    text::lines_push(t.drop_last(), t.last());
                }
                assert(text::joined(now, "\n"@) == text::joined(ls, "\n"@) + "\n"@ + x);
                assert(t.drop_last() + "\n"@ == t);
            }
        } else {
            last_line(t);
            assert(t.last() != '\r') by {
                assert(t[t.len() - 1] == t.last());
            }
            if c == '\n' {
                assert(now == ls);
            } else {
                assert(now.drop_last() == ls.drop_last());
                assert(now.last() == ls.last().push(c));
                if ls.len() == 1 {
                    assert(now[0] == now.last() && ls[0] == ls.last());
                } else {
                    let j = text::joined(ls.drop_last(), "\n"@) + "\n"@;
                    assert(text::joined(now, "\n"@) == j + ls.last().push(c));
                    assert(j + ls.last().push(c) == (j + ls.last()).push(c));
                }
            }
        }
    }
}

/// No white space stands at the end of a line, nor at the end of the text, and lines
/// end in a newline alone.
pub open spec fn tidy(s: Seq<char>) -> bool {
    &&& !s.contains('\r')
    &&& s.len() > 0 ==> !text::white_space(s.last())
    &&& forall|i: int|
        0 <= i < text::lines(s).len() && (#[trigger] text::lines(s)[i]).len() > 0
            ==> !text::white_space(text::lines(s)[i].last())
}

/// A tidy text is its own normal form.
pub proof fn law_tidy_text_is_normal(s: Seq<char>)
    requires
        tidy(s),
    ensures
        edit::normal(s) == s,
{
    let ls = text::lines(s);
    assert forall|i: int| 0 <= i < ls.len() implies edit::trimmed_lines(s)[i] == ls[i] by {
        assert(text::lines(s)[i].len() > 0 ==> !text::white_space(text::lines(s)[i].last()));
    }
    assert(edit::trimmed_lines(s) == ls);
    rejoined(s);
    assert(s.len() > 0 ==> s.last() != '\n');
}

/// A change of anything but white space at line ends reads as a change: two tidy texts
/// have the same normal form only where they are the same.
pub proof fn law_changes_are_noticed(a: Seq<char>, b: Seq<char>)
    requires
        tidy(a),
        tidy(b),
    ensures
        edit::normal(a) == edit::normal(b) <==> a == b,
{
    law_tidy_text_is_normal(a);
    law_tidy_text_is_normal(b);
}

/// A manifest can be sent where it is a mapping whose name is a text that is not blank.
pub proof fn law_usable_manifest(v: JsonV)
    ensures
        !(v is Object) ==> edit::objection(v) == Some("manifest must be a YAML mapping of fields"@),
        v is Object ==> (v.field("name"@) matches Some(JsonV::Text(t)) ==> (edit::objection(v)
            is None <==> !text::blank(t))),
        v is Object && !(v.field("name"@) is Some && v.field("name"@)->Some_0 is Text)
            ==> edit::objection(v) is Some,
        v is Object && edit::objection(v) is Some ==> edit::objection(v) == Some(
            "`name` must not be empty"@,
        ),
{
    reveal_strlit("");
    text::trim_blank(json::text_or(v.field("name"@), ""@));
    assert(text::blank(Seq::<char>::empty()));
    assert(""@ == Seq::<char>::empty());
}

/// An edit that is empty or changes nothing is dropped, and the user is told which; any
/// other is submitted.
pub proof fn law_what_comes_of_an_edit(
    agent_id: Seq<char>,
    template: Seq<char>,
    edited: Seq<char>,
    parsed: Result<JsonV, Seq<char>>,
    tmp: Seq<char>,
)
    ensures
        ({
            let v = edit::decided(agent_id, template, edited, parsed, tmp);
            let told = |t: Seq<char>| VerdictV::Discard(seq![effect::line(Channel::Warning, t)]);
            &&& edit::empty_buffer(edited) ==> v == told(
                "Empty manifest — edit aborted, agent unchanged."@,
            )
            &&& !edit::empty_buffer(edited) && edit::normal(edited) == edit::normal(template)
                ==> v == told("No changes — edit aborted, agent unchanged."@)
            &&& !edit::empty_buffer(edited) && edit::normal(edited) != edit::normal(template)
                ==> v == edit::submitted(agent_id, parsed, tmp)
        }),
{
}

/// Edits that parse and can be sent are put to the agent, exactly as parsed; others are
/// kept, and the user is told why and where.
pub proof fn law_submission(agent_id: Seq<char>, v: JsonV, e: Seq<char>, tmp: Seq<char>)
    ensures
        edit::submitted(agent_id, Err(e), tmp) == VerdictV::Keep(
            "your edits are not valid YAML: "@ + e + "\nThey are preserved at "@ + tmp
                + " — fix and re-apply."@,
        ),
        edit::objection(v) matches Some(why) ==> edit::submitted(agent_id, Ok(v), tmp)
            == VerdictV::Keep(why + "\nYour edits are preserved at "@ + tmp),
        edit::objection(v) is None ==> edit::submitted(agent_id, Ok(v), tmp) == VerdictV::Apply(
            RequestV {
                method: Method::Put,
                path: "/api/platform/agents/"@ + agent_id,
                body: Some(v),
            },
            seq![effect::line(Channel::Success, "Updated agent "@ + agent_id)],
        ),
{
}

/// The editor is the first there is of the override and the three variables, in their
/// order; a blank one is not passed on to the next but replaced by `vi`, as a missing
/// one is.
pub proof fn law_choice_of_editor(
    over: Option<String>,
    own: Option<String>,
    visual: Option<String>,
    editor: Option<String>,
)
    ensures
        ({
            let got = edit::chosen_editor(over, own, visual, editor);
            let used = |e: String|
                if text::blank(e@) {
                    "vi"@
                } else {
                    e@
                };
            &&& (over matches Some(e) ==> got == used(e))
            &&& over is None ==> (own matches Some(e) ==> got == used(e))
            &&& over is None && own is None ==> (visual matches Some(e) ==> got == used(e))
            &&& over is None && own is None && visual is None ==> (editor matches Some(e) ==> got
                == used(e))
            &&& over is None && own is None && visual is None && editor is None ==> got == "vi"@
        }),
{
    if let Some(e) = over {
        text::trim_blank(e@);
    }
    if let Some(e) = own {
        text::trim_blank(e@);
    }
    if let Some(e) = visual {
        text::trim_blank(e@);
    }
    if let Some(e) = editor {
        text::trim_blank(e@);
    }
}

/// The program that is launched is the first word of the command, and the other words
/// are its arguments, in order.
pub proof fn law_launch(editor: Seq<char>, r: EditorCommand, i: int)
    requires
        edit::launched(editor, r),
        0 <= i < r.args@.len(),
    ensures
        r.editor@ == editor,
        text::words(editor).len() == 1 + r.args@.len(),
        r.program@ == text::words(editor)[0],
        r.args@[i]@ == text::words(editor)[1 + i],
{
    let all = seq![r.program@] + text::texts(r.args@);
    assert(all[0] == r.program@);
    assert(all[1 + i] == r.args@[i]@);
}

/// The name of the temporary file has the agent's id in it, character by character,
/// with an underscore for each that is not safe in a file name, and the process's own
/// number.
pub proof fn law_temp_name(agent_id: Seq<char>, pid: nat, i: int)
    ensures
        ({
            let id = edit::safe_id(agent_id);
            &&& edit::temp_name(agent_id, pid) == "forgeos-edit-"@ + id + "-"@ + text::decimal(pid)
                + ".yaml"@
            &&& id.len() == agent_id.len()
            &&& 0 <= i < agent_id.len() ==> {
                let c = agent_id[i];
                let kept = ('a' <= c <= 'z') || ('A' <= c <= 'Z') || ('0' <= c <= '9') || c == '-';
                &&& kept ==> id[i] == c
                &&& !kept ==> id[i] == '_'
            }
        }),
{
}

/// What comes of an edit says all there is to it.
pub proof fn law_verdict_says_all(v: Verdict)
    ensures
        v matches Verdict::Discard(out) ==> v@ == VerdictV::Discard(effect::shown(out@)),
        v matches Verdict::Refuse(e) ==> v@ == VerdictV::Refuse(e@),
        v matches Verdict::Keep(e) ==> v@ == VerdictV::Keep(e@),
        v matches Verdict::Apply(r, out) ==> v@ == VerdictV::Apply(r@, effect::shown(out@)),
{
}

/// An agent is read and updated at its own path.
pub proof fn law_agent_path(id: Seq<char>)
    ensures
        edit::agent_path(id) == "/api/platform/agents/"@ + id,
{
}

} // verus!
