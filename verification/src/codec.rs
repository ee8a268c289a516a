//! The way between the library's JSON values and serde_json's, and the texts that
//! serde_json makes of them.

use vstd::prelude::*;

use crate::json::{ascending, items_view, members_view, Json, JsonV, Member};
use crate::text::{less, less_total};

verus! {

/// What a `serde_json::Value` holds.
pub uninterp spec fn contents(v: serde_json::Value) -> JsonV;

/// The outermost layer of a `serde_json::Value`.
pub enum Layer {
    Null,
    Bool(bool),
    Number(serde_json::Number),
    Text(String),
    Array(Vec<serde_json::Value>),
    Object(Vec<(String, serde_json::Value)>),
}

/// The map that a list of entries stands for; a later entry replaces an earlier.
pub open spec fn entries_view(es: Seq<(String, serde_json::Value)>) -> Map<Seq<char>, JsonV>
    decreases es.len(),
{
    if es.len() == 0 {
        Map::empty()
    } else {
        entries_view(es.drop_last()).insert(es.last().0@, contents(es.last().1))
    }
}

/// No key occurs twice.
pub open spec fn keys_once(es: Seq<(String, serde_json::Value)>) -> bool {
    forall|i: int, j: int| 0 <= i < j < es.len() ==> es[i].0@ != es[j].0@
}

/// The keys come in order, each once.
pub open spec fn keys_ascending(es: Seq<(String, serde_json::Value)>) -> bool {
    forall|i: int, j: int| 0 <= i < j < es.len() ==> less(#[trigger] es[i].0@, #[trigger] es[j].0@)
}

impl Layer {
    /// What the value under this layer holds.
    pub open spec fn view(&self) -> JsonV {
        match self {
            Layer::Null => JsonV::Null,
            Layer::Bool(b) => JsonV::Bool(*b),
            Layer::Number(n) => JsonV::Number(*n),
            Layer::Text(s) => JsonV::Text(s@),
            Layer::Array(items) => JsonV::Array(items@.map_values(|v| contents(v))),
            Layer::Object(es) => JsonV::Object(entries_view(es@)),
        }
    }

    /// An object's keys come in order.
    pub open spec fn in_order(&self) -> bool {
        self matches Layer::Object(es) ==> keys_ascending(es@)
    }

    /// An object's keys are distinct.
    pub open spec fn wf(&self) -> bool {
        self matches Layer::Object(es) ==> keys_once(es@)
    }
}

/// Builds a `serde_json::Value` from its outermost layer, variant for variant.
/// The value holds what the layer says; an object's entries become a
/// `serde_json::Map` by `FromIterator`.
#[verifier::external_body]
fn assemble(layer: Layer) -> (v: serde_json::Value)
    requires
        layer.wf(),
    ensures
        contents(v) == layer@,
{
    match layer {
        Layer::Null => serde_json::Value::Null,
        Layer::Bool(b) => serde_json::Value::Bool(b),
        Layer::Number(n) => serde_json::Value::Number(n),
        Layer::Text(s) => serde_json::Value::String(s),
        Layer::Array(items) => serde_json::Value::Array(items),
        Layer::Object(es) => serde_json::Value::Object(es.into_iter().collect()),
    }
}

/// Takes the outermost layer off a `serde_json::Value`, variant for variant. The
/// layer says what the value holds; an object's `serde_json::Map`, which without the
/// feature `preserve_order` is a `BTreeMap`, gives each of its keys once, in order.
#[verifier::external_body]
fn disassemble(v: serde_json::Value) -> (layer: Layer)
    ensures
        layer@ == contents(v),
        layer.in_order(),
{
    match v {
        serde_json::Value::Null => Layer::Null,
        serde_json::Value::Bool(b) => Layer::Bool(b),
        serde_json::Value::Number(n) => Layer::Number(n),
        serde_json::Value::String(s) => Layer::Text(s),
        serde_json::Value::Array(items) => Layer::Array(items),
        serde_json::Value::Object(m) => Layer::Object(m.into_iter().collect()),
    }
}

/// `serde_json::Map::insert` on a value that is an object: the key holds the
/// given value afterwards, and the rest is as before.
#[verifier::external_body]
fn insert(object: &mut serde_json::Value, key: String, value: serde_json::Value)
    requires
        contents(*old(object)) is Object,
    ensures
        contents(*final(object)) == JsonV::Object(
            contents(*old(object))->Object_0.insert(key@, contents(value)),
        ),
{
    if let serde_json::Value::Object(m) = object {
        m.insert(key, value);
    }
}

/// What a result says, with its texts as sequences of characters.
pub open spec fn outcome(r: Result<String, String>) -> Result<Seq<char>, Seq<char>> {
    match r {
        Ok(s) => Ok(s@),
        Err(e) => Err(e@),
    }
}

/// What `serde_json::to_string_pretty` gives for a value: the text, or the
/// message of its error.
pub uninterp spec fn pretty_text(v: JsonV) -> Result<Seq<char>, Seq<char>>;

/// What `serde_json::to_string` gives for a value: the text, or the message of
/// its error.
pub uninterp spec fn compact_text(v: JsonV) -> Result<Seq<char>, Seq<char>>;

/// `serde_json::to_string_pretty`, whose result depends on what the value holds
/// alone: a `serde_json::Map` without the feature `preserve_order` is written in
/// order of its keys.
#[verifier::external_body]
fn write_pretty(v: &serde_json::Value) -> (r: Result<String, String>)
    ensures
        outcome(r) == pretty_text(contents(*v)),
{
    serde_json::to_string_pretty(v).map_err(|e| e.to_string())
}

/// `serde_json::to_string`, whose result depends on what the value holds alone, as
/// that of `to_string_pretty` does.
#[verifier::external_body]
fn write_compact(v: &serde_json::Value) -> (r: Result<String, String>)
    ensures
        outcome(r) == compact_text(contents(*v)),
{
    serde_json::to_string(v).map_err(|e| e.to_string())
}

/// Keys that come in order are distinct.
proof fn ascending_once(es: Seq<(String, serde_json::Value)>)
    requires
        keys_ascending(es),
    ensures
        keys_once(es),
{
    assert forall|i: int, j: int| 0 <= i < j < es.len() implies es[i].0@ != es[j].0@ by {
        less_total(es[i].0@, es[j].0@);
    }
}

proof fn entries_finite(es: Seq<(String, serde_json::Value)>)
    ensures
        entries_view(es).dom().finite(),
    decreases es.len(),
{
    if es.len() > 0 {
        entries_finite(es.drop_last());
    }
}

proof fn entries_hold(es: Seq<(String, serde_json::Value)>, i: int)
    requires
        keys_once(es),
        0 <= i < es.len(),
    ensures
        entries_view(es).dom().contains(es[i].0@),
        entries_view(es)[es[i].0@] == contents(es[i].1),
    decreases es.len(),
{
    if i < es.len() - 1 {
        entries_hold(es.drop_last(), i);
    }
}

impl Json {
    /// The value as serde_json holds it.
    pub fn to_value(&self) -> (v: serde_json::Value)
        ensures
            contents(v) == self@,
        decreases self,
    {
        match self {
            Json::Null => assemble(Layer::Null),
            Json::Bool(b) => assemble(Layer::Bool(*b)),
            Json::Number(n) => assemble(Layer::Number(n.clone())),
            Json::Text(s) => assemble(Layer::Text(s.clone())),
            Json::Array(items) => {
                let mut out: Vec<serde_json::Value> = Vec::new();
                let n: usize = items.len();
                for i in 0..n
                    invariant
                        n == items@.len(),
                        self matches Json::Array(a) && a == items,
                        out@.len() == i,
                        forall|j: int| 0 <= j < i ==> contents(out@[j]) == #[trigger] items@[j]@,
                {
                    out.push(items[i].to_value());
                }
                proof {
                    let shown = out@.map_values(|v| contents(v));
                    assert forall|j: int| 0 <= j < shown.len() implies shown[j] == items_view(
                        items@,
                    )[j] by {
                        assert(contents(out@[j]) == items@[j]@);
                    }
                    assert(shown == items_view(items@));
                }
                assemble(Layer::Array(out))
            },
            Json::Object(ms) => object_value(ms),
        }
    }
}

/// An object as serde_json holds it.
pub fn object_value(ms: &Vec<Member>) -> (v: serde_json::Value)
    ensures
        contents(v) == JsonV::Object(members_view(ms@)),
    decreases ms,
{
    let mut v: serde_json::Value = assemble(Layer::Object(Vec::new()));
    let n: usize = ms.len();
    for i in 0..n
        invariant
            n == ms@.len(),
            contents(v) == JsonV::Object(members_view(ms@.take(i as int))),
    {
        assert(ms@.take(i + 1).drop_last() == ms@.take(i as int));
        insert(&mut v, ms[i].key.clone(), ms[i].value.to_value());
    }
    assert(ms@.take(n as int) == ms@);
    v
}

impl Json {
    /// The value that serde_json holds, as the library's own, with the members of
    /// each object in order of their keys.
    pub fn from_value(v: serde_json::Value) -> (j: Json)
        ensures
            j@ == contents(v),
            j.in_order(),
        decreases contents(v),
    {
        match disassemble(v) {
            Layer::Null => Json::Null,
            Layer::Bool(b) => Json::Bool(b),
            Layer::Number(n) => Json::Number(n),
            Layer::Text(s) => Json::Text(s),
            Layer::Array(items) => {
                let ghost all = items@;
                let mut out: Vec<Json> = Vec::new();
                for x in it: items
                    invariant
                        it.seq() == all,
                        contents(v) == JsonV::Array(all.map_values(|v| contents(v))),
                        out@.len() == it.index(),
                        forall|j: int| 0 <= j < it.index() ==> contents(all[j]) == #[trigger] out@[j]@,
                        forall|j: int| 0 <= j < it.index() ==> (#[trigger] out@[j]).in_order(),
                {
                    proof {
                        let i = it.index() as int;
                        let inner = contents(v)->Array_0;
                        assert(inner[i] == contents(x));
                        assert(decreases_to!(contents(v) => contents(v)->Array_0));
                        assert(decreases_to!(inner => inner[i]));
                    }
                    out.push(Json::from_value(x));
                }
                proof {
                    let shown = all.map_values(|v| contents(v));
                    assert forall|j: int| 0 <= j < shown.len() implies shown[j] == items_view(
                        out@,
                    )[j] by {
                        assert(contents(all[j]) == out@[j]@);
                    }
                    assert(items_view(out@) == shown);
                }
                Json::Array(out)
            },
            Layer::Object(es) => {
                let ghost all = es@;
                proof {
                    ascending_once(all);
                }
                let mut out: Vec<Member> = Vec::new();
                for x in it: es
                    invariant
                        it.seq() == all,
                        keys_once(all),
                        contents(v) == JsonV::Object(entries_view(all)),
                        members_view(out@) == entries_view(all.take(it.index() as int)),
                        out@.len() == it.index(),
                        forall|j: int| 0 <= j < it.index() ==> #[trigger] out@[j].key@ == all[j].0@,
                        forall|j: int|
                            0 <= j < it.index() ==> (#[trigger] out@[j]).value.in_order(),
                {
                    proof {
                        let i = it.index() as int;
                        entries_finite(all);
                        entries_hold(all, i);
                        assert(all.take(i + 1).drop_last() == all.take(i));
                        let inner = contents(v)->Object_0;
                        assert(decreases_to!(contents(v) => contents(v)->Object_0));
                        assert(decreases_to!(inner => inner[all[i].0@]));
                    }
                    let (key, value) = x;
                    let ghost before = out@;
                    out.push(Member { key, value: Json::from_value(value) });
                    assert(out@.drop_last() == before);
                }
                proof {
                    assert(all.take(all.len() as int) == all);
                    assert forall|i: int, j: int| 0 <= i < j < out@.len() implies less(
                        #[trigger] out@[i].key@,
                        #[trigger] out@[j].key@,
                    ) by {
                        assert(less(all[i].0@, all[j].0@));
                    }
                    assert(ascending(out@));
                }
                Json::Object(out)
            },
        }
    }

    /// The value as indented JSON text.
    pub fn to_string_pretty(&self) -> (r: Result<String, String>)
        ensures
            outcome(r) == pretty_text(self@),
    {
        write_pretty(&self.to_value())
    }
}

/// An object as JSON text on one line.
pub fn object_to_string(ms: &Vec<Member>) -> (r: Result<String, String>)
    ensures
        outcome(r) == compact_text(JsonV::Object(members_view(ms@))),
{
    write_compact(&object_value(ms))
}

} // verus!
