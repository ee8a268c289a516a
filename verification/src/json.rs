//! JSON values: the library's own type, and how it is read.

use vstd::prelude::*;

use crate::text::{less, less_total, same};

verus! {

/// A number as serde_json holds it. The library only carries it along.
#[verifier::external_type_specification]
#[verifier::external_body]
pub struct ExNumber(serde_json::Number);

/// serde_json's JSON value.
#[verifier::external_type_specification]
#[verifier::external_body]
pub struct ExValue(serde_json::Value);

/// `serde_json::Number::clone`: the copy is the number it was made from.
pub assume_specification[ <serde_json::Number as Clone>::clone ](n: &serde_json::Number) -> (r:
    serde_json::Number)
    ensures
        r == *n,
;

/// What a JSON value says. An object is a finite map, so the order in which its
/// members are written is no part of it.
pub ghost enum JsonV {
    Null,
    Bool(bool),
    Number(serde_json::Number),
    Text(Seq<char>),
    Array(Seq<JsonV>),
    Object(Map<Seq<char>, JsonV>),
}

/// A JSON value.
#[derive(Debug)]
pub enum Json {
    Null,
    Bool(bool),
    Number(serde_json::Number),
    Text(String),
    Array(Vec<Json>),
    Object(Vec<Member>),
}

/// One `key: value` of an object. Where an object lists a key twice, the later
/// member counts.
#[derive(Debug)]
pub struct Member {
    pub key: String,
    pub value: Json,
}

/// The map that a list of members stands for.
pub open spec fn members_view(ms: Seq<Member>) -> Map<Seq<char>, JsonV>
    decreases ms,
{
    if ms.len() == 0 {
        Map::empty()
    } else {
        members_view(ms.drop_last()).insert(ms.last().key@, ms.last().value.view())
    }
}

/// The values that a list of JSON values stands for.
pub open spec fn items_view(items: Seq<Json>) -> Seq<JsonV>
    decreases items,
{
    Seq::new(
        items.len(),
        |i: int|
            if 0 <= i < items.len() {
                items[i].view()
            } else {
                JsonV::Null
            },
    )
}

impl Json {
    /// What the value says.
    pub open spec fn view(&self) -> JsonV
        decreases self,
    {
        match self {
            Json::Null => JsonV::Null,
            Json::Bool(b) => JsonV::Bool(*b),
            Json::Number(n) => JsonV::Number(*n),
            Json::Text(s) => JsonV::Text(s@),
            Json::Array(items) => JsonV::Array(items_view(items@)),
            Json::Object(ms) => JsonV::Object(members_view(ms@)),
        }
    }
}

/// The keys come in order, each once.
pub open spec fn ascending(ms: Seq<Member>) -> bool {
    forall|i: int, j: int| 0 <= i < j < ms.len() ==> less(#[trigger] ms[i].key@, #[trigger] ms[j].key@)
}

impl Json {
    /// Each object in the value, at any depth, lists its members in order of their
    /// keys, each key once.
    pub open spec fn in_order(&self) -> bool
        decreases self,
    {
        match self {
            Json::Array(items) => items_in_order(items@),
            Json::Object(ms) => ascending(ms@) && members_in_order(ms@),
            _ => true,
        }
    }
}

/// All of some values have their members in order.
pub open spec fn items_in_order(items: Seq<Json>) -> bool
    decreases items,
{
    forall|i: int| 0 <= i < items.len() ==> (#[trigger] items[i]).in_order()
}

/// The values of all of some members have their own members in order.
pub open spec fn members_in_order(ms: Seq<Member>) -> bool
    decreases ms,
{
    forall|i: int| 0 <= i < ms.len() ==> (#[trigger] ms[i]).value.in_order()
}

impl JsonV {
    /// The value under `key`, where this is an object that has it.
    pub open spec fn field(self, key: Seq<char>) -> Option<JsonV> {
        match self {
            JsonV::Object(m) => entry(m, key),
            _ => None,
        }
    }

    /// The text, where this is one.
    pub open spec fn text(self) -> Option<Seq<char>> {
        match self {
            JsonV::Text(s) => Some(s),
            _ => None,
        }
    }
}

/// The value under `key` in an object's map.
pub open spec fn entry(m: Map<Seq<char>, JsonV>, key: Seq<char>) -> Option<JsonV> {
    if m.dom().contains(key) {
        Some(m[key])
    } else {
        None
    }
}

/// The text of a value that may be absent.
pub open spec fn text_in(v: Option<JsonV>) -> Option<Seq<char>> {
    match v {
        Some(v) => v.text(),
        None => None,
    }
}

/// What a reference to a value that may be absent says.
pub open spec fn seen(v: Option<&Json>) -> Option<JsonV> {
    match v {
        Some(j) => Some(j@),
        None => None,
    }
}

/// What a reference to a text that may be absent says.
pub open spec fn seen_text(s: Option<&str>) -> Option<Seq<char>> {
    match s {
        Some(s) => Some(s@),
        None => None,
    }
}

/// A text that may be absent.
pub open spec fn opt(s: Option<String>) -> Option<Seq<char>> {
    match s {
        Some(s) => Some(s@),
        None => None,
    }
}

/// A text that may be absent, by reference.
pub fn as_deref(s: &Option<String>) -> (r: Option<&str>)
    ensures
        seen_text(r) == opt(*s),
{
    match s {
        Some(s) => Some(s.as_str()),
        None => None,
    }
}

/// The value under `key` of a value that may be absent.
pub open spec fn within(v: Option<JsonV>, key: Seq<char>) -> Option<JsonV> {
    match v {
        Some(v) => v.field(key),
        None => None,
    }
}

/// The text of a value, or a default where the value is absent or no text.
pub open spec fn text_or(v: Option<JsonV>, default: Seq<char>) -> Seq<char> {
    match text_in(v) {
        Some(s) => s,
        None => default,
    }
}

/// The value under `key` of a value that may be absent.
pub fn dig<'a>(v: Option<&'a Json>, key: &str) -> (r: Option<&'a Json>)
    ensures
        seen(r) == within(seen(v), key@),
{
    match v {
        Some(v) => v.get(key),
        None => None,
    }
}

/// The text of a value, or a default where the value is absent or no text.
pub fn str_or<'a>(v: Option<&'a Json>, default: &'a str) -> (r: &'a str)
    ensures
        r@ == text_or(seen(v), default@),
{
    match v {
        Some(Json::Text(s)) => s.as_str(),
        _ => default,
    }
}

/// The value of the last member under `key`.
pub open spec fn member(ms: Seq<Member>, key: Seq<char>) -> Option<Json>
    decreases ms.len(),
{
    if ms.len() == 0 {
        None
    } else if ms.last().key@ == key {
        Some(ms.last().value)
    } else {
        member(ms.drop_last(), key)
    }
}

/// The last member under a key is the one that counts.
pub proof fn member_counts(ms: Seq<Member>, key: Seq<char>)
    ensures
        match member(ms, key) {
            Some(j) => entry(members_view(ms), key) == Some(j@),
            None => entry(members_view(ms), key) is None,
        },
        members_in_order(ms) && member(ms, key) is Some ==> member(ms, key)->Some_0.in_order(),
    decreases ms.len(),
{
    if ms.len() > 0 {
        let front = ms.drop_last();
        member_counts(front, key);
        if members_in_order(ms) {
            assert(ms[ms.len() - 1].value.in_order());
            assert forall|i: int| 0 <= i < front.len() implies (#[trigger] front[i]).value.in_order() by {
                assert(ms[i].value.in_order());
            }
        }
    }
}

/// `key` is the key of one of some members.
pub open spec fn keyed(ms: Seq<Member>, key: Seq<char>) -> bool {
    exists|i: int| 0 <= i < ms.len() && #[trigger] ms[i].key@ == key
}

/// The keys of an object's map are those of its members.
proof fn keys_of(ms: Seq<Member>, key: Seq<char>)
    ensures
        members_view(ms).dom().contains(key) <==> keyed(ms, key),
    decreases ms.len(),
{
    if ms.len() > 0 {
        let front = ms.drop_last();
        keys_of(front, key);
        if keyed(front, key) {
            let i = choose|i: int| 0 <= i < front.len() && #[trigger] front[i].key@ == key;
            assert(ms[i].key@ == key);
        }
        if ms.last().key@ == key {
            assert(ms[ms.len() - 1].key@ == key);
        }
        if keyed(ms, key) && ms.last().key@ != key {
            let i = choose|i: int| 0 <= i < ms.len() && #[trigger] ms[i].key@ == key;
            assert(front[i].key@ == key);
        }
    }
}

/// Of members in order, the last one's key comes after all others.
proof fn last_key(ms: Seq<Member>, key: Seq<char>)
    requires
        ascending(ms),
        ms.len() > 0,
        keyed(ms, key),
    ensures
        ascending(ms.drop_last()),
        key == ms.last().key@ || less(key, ms.last().key@),
        !keyed(ms.drop_last(), ms.last().key@),
{
    let front = ms.drop_last();
    let n = ms.len() - 1;
    assert forall|i: int, j: int| 0 <= i < j < front.len() implies less(
        #[trigger] front[i].key@,
        #[trigger] front[j].key@,
    ) by {
        assert(less(ms[i].key@, ms[j].key@));
    }
    let i = choose|i: int| 0 <= i < ms.len() && #[trigger] ms[i].key@ == key;
    if i < n {
        assert(less(ms[i].key@, ms[n].key@));
    }
    if keyed(front, ms.last().key@) {
        let k = choose|k: int| 0 <= k < front.len() && #[trigger] front[k].key@ == ms.last().key@;
        assert(less(ms[k].key@, ms[n].key@));
        less_total(ms[k].key@, ms[n].key@);
    }
}

/// Members in order are fixed by the map that they stand for.
pub proof fn same_members(a: Seq<Member>, b: Seq<Member>)
    requires
        ascending(a),
        ascending(b),
        members_view(a) == members_view(b),
    ensures
        a.len() == b.len(),
        forall|i: int|
            0 <= i < a.len() ==> (#[trigger] a[i]).key@ == b[i].key@ && a[i].value@ == b[i].value@,
    decreases a.len(),
{
    if a.len() > 0 {
        let x = a.last().key@;
        keys_of(b, x);
        assert(a[a.len() - 1].key@ == x);
        assert(members_view(a).dom().contains(x));
        let y = b.last().key@;
        assert(b[b.len() - 1].key@ == y);
        assert(members_view(b).dom().contains(y));
        keys_of(a, y);
        last_key(a, y);
        last_key(b, x);
        less_total(x, y);
        assert(x == y);
        keys_of(a.drop_last(), x);
        keys_of(b.drop_last(), x);
        assert(members_view(a)[x] == a.last().value@);
        assert(members_view(b)[x] == b.last().value@);
        assert(members_view(a.drop_last()) =~= members_view(a).remove(x));
        assert(members_view(b.drop_last()) =~= members_view(b).remove(x));
        same_members(a.drop_last(), b.drop_last());
        assert forall|i: int| 0 <= i < a.len() implies (#[trigger] a[i]).key@ == b[i].key@
            && a[i].value@ == b[i].value@ by {
            if i < a.len() - 1 {
                assert(a.drop_last()[i].key@ == b.drop_last()[i].key@);
            }
        }
    } else if b.len() > 0 {
        assert(members_view(b).dom().contains(b.last().key@));
    }
}

/// The value under `key` in a list of members.
pub fn lookup<'a>(ms: &'a Vec<Member>, key: &str) -> (r: Option<&'a Json>)
    ensures
        seen(r) == entry(members_view(ms@), key@),
        match r {
            Some(j) => member(ms@, key@) == Some(*j),
            None => member(ms@, key@) is None,
        },
{
    let mut i: usize = ms.len();
    assert(ms@.take(i as int) == ms@);
    while i > 0
        invariant
            i <= ms@.len(),
            member(ms@, key@) == member(ms@.take(i as int), key@),
            entry(members_view(ms@), key@) == entry(members_view(ms@.take(i as int)), key@),
        decreases i,
    {
        i = i - 1;
        assert(ms@.take(i + 1).drop_last() == ms@.take(i as int));
        if same(ms[i].key.as_str(), key) {
            return Some(&ms[i].value);
        }
    }
    None
}

/// Adds a member at the end of a list, where it counts before any other under its
/// key.
pub fn put(ms: &mut Vec<Member>, key: &str, value: Json)
    ensures
        members_view(final(ms)@) == members_view(old(ms)@).insert(key@, value@),
        final(ms)@.len() == old(ms)@.len() + 1,
{
    ms.push(Member { key: key.to_owned(), value });
    assert(ms@.drop_last() == old(ms)@);
}

impl Json {
    /// The value under `key`, where this is an object that has it.
    pub fn get(&self, key: &str) -> (r: Option<&Json>)
        ensures
            seen(r) == self@.field(key@),
    {
        match self {
            Json::Object(ms) => lookup(ms, key),
            _ => None,
        }
    }

    /// The text, where this is one.
    pub fn as_str(&self) -> (r: Option<&str>)
        ensures
            seen_text(r) == self@.text(),
    {
        match self {
            Json::Text(s) => Some(s.as_str()),
            _ => None,
        }
    }
}

} // verus!
