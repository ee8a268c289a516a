//! YAML values and the texts that serde_yaml makes of them and reads.

use vstd::prelude::*;

use crate::codec;
use crate::json::{Json, JsonV};

verus! {

/// A number as serde_yaml holds it.
#[verifier::external_type_specification]
#[verifier::external_body]
pub struct ExYamlNumber(serde_yaml::Number);

/// serde_yaml's YAML value.
#[verifier::external_type_specification]
#[verifier::external_body]
pub struct ExYamlValue(serde_yaml::Value);

/// serde_yaml's mapping, which keeps the order in which keys were added.
#[verifier::external_type_specification]
#[verifier::external_body]
pub struct ExMapping(serde_yaml::Mapping);

/// What a YAML value says. A mapping is its entries in order.
pub ghost enum YamlV {
    Null,
    Bool(bool),
    Number(serde_yaml::Number),
    Text(Seq<char>),
    Sequence(Seq<YamlV>),
    Mapping(Seq<(YamlV, YamlV)>),
    Tagged(Seq<char>, Box<YamlV>),
}

/// What a `serde_yaml::Value` holds.
pub uninterp spec fn holds(v: serde_yaml::Value) -> YamlV;

/// What a `serde_yaml::Mapping` holds: its entries in order.
pub uninterp spec fn entries(m: serde_yaml::Mapping) -> Seq<(YamlV, YamlV)>;

/// The place of the first entry under `key`, or the number of entries.
pub open spec fn slot(es: Seq<(YamlV, YamlV)>, key: YamlV) -> int
    decreases es.len(),
{
    if es.len() == 0 {
        0
    } else if es[0].0 == key {
        0
    } else {
        1 + slot(es.skip(1), key)
    }
}

/// The entries after `key` has been set to `value`: in place where the key was
/// there, and last where it was not.
pub open spec fn with_entry(es: Seq<(YamlV, YamlV)>, key: YamlV, value: YamlV) -> Seq<
    (YamlV, YamlV),
> {
    let i = slot(es, key);
    if i < es.len() {
        es.update(i, (key, value))
    } else {
        es.push((key, value))
    }
}

/// `serde_yaml::Mapping::new`: no entries.
pub assume_specification[ serde_yaml::Mapping::new ]() -> (m: serde_yaml::Mapping)
    ensures
        entries(m) == Seq::<(YamlV, YamlV)>::empty(),
;

/// `serde_yaml::Mapping::insert`, for a key that is a string: sets the key in
/// place, or adds it last, and hands back the value that it had.
pub assume_specification[ serde_yaml::Mapping::insert ](
    m: &mut serde_yaml::Mapping,
    k: serde_yaml::Value,
    v: serde_yaml::Value,
) -> (r: Option<serde_yaml::Value>)
    ensures
        holds(k) is Text ==> {
            &&& entries(*final(m)) == with_entry(entries(*old(m)), holds(k), holds(v))
            &&& match r {
                Some(was) => slot(entries(*old(m)), holds(k)) < entries(*old(m)).len() && holds(was)
                    == entries(*old(m))[slot(entries(*old(m)), holds(k))].1,
                None => slot(entries(*old(m)), holds(k)) == entries(*old(m)).len(),
            }
        },
;

/// The outermost layer of a YAML value that the library builds.
pub enum YamlLayer {
    Null,
    Text(String),
    Sequence(Vec<serde_yaml::Value>),
    Mapping(serde_yaml::Mapping),
}

impl YamlLayer {
    /// What the value under this layer holds.
    pub open spec fn view(&self) -> YamlV {
        match self {
            YamlLayer::Null => YamlV::Null,
            YamlLayer::Text(s) => YamlV::Text(s@),
            YamlLayer::Sequence(items) => YamlV::Sequence(items@.map_values(|v| holds(v))),
            YamlLayer::Mapping(m) => YamlV::Mapping(entries(*m)),
        }
    }
}

/// Builds a `serde_yaml::Value` from its outermost layer, variant for variant.
#[verifier::external_body]
pub(crate) fn build(layer: YamlLayer) -> (v: serde_yaml::Value)
    ensures
        holds(v) == layer@,
{
    match layer {
        YamlLayer::Null => serde_yaml::Value::Null,
        YamlLayer::Text(s) => serde_yaml::Value::from(s),
        YamlLayer::Sequence(items) => serde_yaml::Value::Sequence(items),
        YamlLayer::Mapping(m) => serde_yaml::Value::Mapping(m),
    }
}

/// What `serde_yaml::to_value` makes of a JSON value: the YAML value, or the
/// message of its error.
pub uninterp spec fn yaml_of(v: JsonV) -> Result<YamlV, Seq<char>>;

/// What `serde_yaml::to_string` writes for a YAML value: the text, or the message
/// of its error.
pub uninterp spec fn yaml_text(v: YamlV) -> Result<Seq<char>, Seq<char>>;

/// What `serde_yaml::from_str` reads from a text as a JSON value: the value, or
/// the message of its error.
pub uninterp spec fn yaml_read(text: Seq<char>) -> Result<JsonV, Seq<char>>;

/// `serde_yaml::to_value` on a JSON value, whose result depends on what the value
/// holds alone: a `serde_json::Map` without the feature `preserve_order` hands its
/// entries over in order of their keys.
#[verifier::external_body]
fn convert(v: &serde_json::Value) -> (r: Result<serde_yaml::Value, String>)
    ensures
        (match r {
            Ok(y) => Ok(holds(y)),
            Err(e) => Err(e@),
        }) == yaml_of(codec::contents(*v)),
{
    serde_yaml::to_value(v).map_err(|e| e.to_string())
}

/// `serde_yaml::to_string`, whose result depends on what the value holds alone.
#[verifier::external_body]
pub(crate) fn write(v: &serde_yaml::Value) -> (r: Result<String, String>)
    ensures
        codec::outcome(r) == yaml_text(holds(*v)),
{
    serde_yaml::to_string(v).map_err(|e| e.to_string())
}

/// `serde_yaml::from_str` into a JSON value, whose result depends on the text
/// alone.
#[verifier::external_body]
fn read(text: &str) -> (r: Result<serde_json::Value, String>)
    ensures
        (match r {
            Ok(v) => Ok(codec::contents(v)),
            Err(e) => Err(e@),
        }) == yaml_read(text@),
{
    serde_yaml::from_str(text).map_err(|e| e.to_string())
}

/// What a parsed document says, or the message of its error.
pub open spec fn parsed(r: Result<Json, String>) -> Result<JsonV, Seq<char>> {
    match r {
        Ok(j) => Ok(j@),
        Err(e) => Err(e@),
    }
}

/// The JSON value that a YAML text stands for, or the message that says why it
/// stands for none.
pub fn from_yaml(text: &str) -> (r: Result<Json, String>)
    ensures
        parsed(r) == yaml_read(text@),
{
    match read(text) {
        Ok(v) => Ok(Json::from_value(v)),
        Err(e) => Err(e),
    }
}

/// What a JSON value becomes in YAML; null where serde_yaml has no form for it.
pub open spec fn yaml_or_null(v: JsonV) -> YamlV {
    match yaml_of(v) {
        Ok(y) => y,
        Err(_) => YamlV::Null,
    }
}

/// The YAML value for a JSON value; null where serde_yaml has no form for it.
pub fn to_yaml(j: &Json) -> (y: serde_yaml::Value)
    ensures
        holds(y) == yaml_or_null(j@),
{
    match convert(&j.to_value()) {
        Ok(y) => y,
        Err(_) => build(YamlLayer::Null),
    }
}

/// Sets `key` to `value` in a mapping.
pub fn set(m: &mut serde_yaml::Mapping, key: &str, value: serde_yaml::Value)
    ensures
        entries(*final(m)) == with_entry(entries(*old(m)), YamlV::Text(key@), holds(value)),
{
    m.insert(build(YamlLayer::Text(key.to_owned())), value);
}

} // verus!
