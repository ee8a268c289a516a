//! Laws of values: JSON, YAML and environment variables.

use vstd::prelude::*;

use crate::codec;
use crate::env;
use crate::json;
use crate::json::{Json, JsonV, Member};
use crate::text;
use crate::yaml;
use crate::yaml::YamlV;

verus! {

/// What a JSON value says leaves nothing of it out but the order of an object's
/// members: an array its items in order, an object under each key the last member's
/// value, and no other keys.
pub proof fn law_json_says_all(j: Json)
    ensures
        j is Null ==> j@ == JsonV::Null,
        j matches Json::Bool(b) ==> j@ == JsonV::Bool(b),
        j matches Json::Number(n) ==> j@ == JsonV::Number(n),
        j matches Json::Text(s) ==> j@ == JsonV::Text(s@),
        j matches Json::Array(items) ==> j@ is Array && j@->Array_0.len() == items@.len()
            && forall|i: int| 0 <= i < items@.len() ==> j@->Array_0[i] == (#[trigger] items@[i])@,
        j matches Json::Object(ms) ==> j@ is Object && j@->Object_0 == json::members_view(ms@),
{
}

/// Under a key an object has the value of the last member with that key.
pub proof fn law_last_member_counts(ms: Seq<Member>, i: int)
    requires
        0 <= i < ms.len(),
        forall|k: int| i < k < ms.len() ==> (#[trigger] ms[k]).key@ != ms[i].key@,
    ensures
        JsonV::Object(json::members_view(ms)).field(ms[i].key@) == Some(ms[i].value@),
    decreases ms.len(),
{
    if i < ms.len() - 1 {
        let front = ms.drop_last();
        assert forall|k: int| i < k < front.len() implies (#[trigger] front[k]).key@
            != front[i].key@ by {
            assert(ms[k].key@ != ms[i].key@);
        }
        law_last_member_counts(front, i);
        assert(ms[ms.len() - 1].key@ != ms[i].key@);
    }
}

/// Where no member has a key, the object has nothing there; nor has a value that is
/// no object.
pub proof fn law_no_member_no_value(ms: Seq<Member>, v: JsonV, key: Seq<char>)
    ensures
        (forall|k: int| 0 <= k < ms.len() ==> (#[trigger] ms[k]).key@ != key) ==> JsonV::Object(
            json::members_view(ms),
        ).field(key) is None,
        !(v is Object) ==> v.field(key) is None,
    decreases ms.len(),
{
    if ms.len() > 0 && (forall|k: int| 0 <= k < ms.len() ==> (#[trigger] ms[k]).key@ != key) {
        let front = ms.drop_last();
        assert forall|k: int| 0 <= k < front.len() implies (#[trigger] front[k]).key@ != key by {
            assert(ms[k].key@ != key);
        }
        law_no_member_no_value(front, v, key);
        assert(ms[ms.len() - 1].key@ != key);
    }
}

/// A text is read off a value that is one; a default stands in for any other value
/// and for none.
pub proof fn law_text_of_a_value(v: Option<JsonV>, key: Seq<char>, default: Seq<char>)
    ensures
        v matches Some(JsonV::Text(t)) ==> json::text_in(v) == Some(t) && json::text_or(v, default)
            == t,
        !(v matches Some(JsonV::Text(_))) ==> json::text_in(v) is None && json::text_or(v, default)
            == default,
        v matches Some(JsonV::Object(m)) && m.dom().contains(key) ==> json::within(v, key) == Some(
            v->Some_0->Object_0[key],
        ),
        !(v matches Some(JsonV::Object(m)) && m.dom().contains(key)) ==> json::within(v, key) is None,
{
}

/// What may be absent says what is there.
pub proof fn law_absent_or_there(s: Option<String>, t: Option<&str>, v: Option<&Json>)
    ensures
        s is None <==> json::opt(s) is None,
        s matches Some(x) ==> json::opt(s) == Some(x@),
        t is None <==> json::seen_text(t) is None,
        t matches Some(x) ==> json::seen_text(t) == Some(x@),
        v is None <==> json::seen(v) is None,
        v matches Some(x) ==> json::seen(v) == Some(x@),
{
}

/// What a result says is its text or its message.
pub proof fn law_result_says_all(r: Result<String, String>, p: Result<Json, String>)
    ensures
        r matches Ok(t) ==> codec::outcome(r) == Ok::<Seq<char>, Seq<char>>(t@),
        r matches Err(e) ==> codec::outcome(r) == Err::<Seq<char>, Seq<char>>(e@),
        p matches Ok(j) ==> yaml::parsed(p) == Ok::<JsonV, Seq<char>>(j@),
        p matches Err(e) ==> yaml::parsed(p) == Err::<JsonV, Seq<char>>(e@),
{
}

/// A JSON value becomes the YAML value that serde_yaml makes of it, and null where it
/// makes none.
pub proof fn law_yaml_of_json(v: JsonV)
    ensures
        yaml::yaml_of(v) is Ok ==> yaml::yaml_or_null(v) == yaml::yaml_of(v)->Ok_0,
        yaml::yaml_of(v) is Err ==> yaml::yaml_or_null(v) == YamlV::Null,
{
}

/// An environment map has each name of its list, with the value beside it, and no
/// other.
pub proof fn law_pairs(es: Seq<(String, String)>, i: int, name: Seq<char>)
    requires
        env::ascending(es),
        0 <= i < es.len(),
    ensures
        env::pairs_map(es).dom().contains(es[i].0@),
        env::pairs_map(es)[es[i].0@] == es[i].1@,
        (forall|k: int| 0 <= k < es.len() ==> (#[trigger] es[k]).0@ != name) ==> !env::pairs_map(
            es,
        ).dom().contains(name),
{
    let k = choose|k: int| 0 <= k < es.len() && #[trigger] es[k].0@ == es[i].0@;
    assert(env::named(es, es[i].0@));
    text::less_total(es[i].0@, es[k].0@);
    if k < i {
        assert(text::less(es[k].0@, es[i].0@));
    }
    if i < k {
        assert(text::less(es[i].0@, es[k].0@));
    }
}

/// Environment variables go out as an object with the value of each name, as a text,
/// under that name, and nothing else.
pub proof fn law_env_object(m: Map<Seq<char>, Seq<char>>, name: Seq<char>)
    ensures
        env::env_json(m) is Object,
        m.dom().contains(name) ==> env::env_json(m).field(name) == Some(JsonV::Text(m[name])),
        !m.dom().contains(name) ==> env::env_json(m).field(name) is None,
{
}

} // verus!
