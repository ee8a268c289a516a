use forgeos::codec::{object_to_string, object_value};
use forgeos::json::{dig, lookup, put, str_or, Json, Member};
use forgeos::yaml::{from_yaml, to_yaml};
use serde_json::{Number, Value};

fn text(s: &str) -> Json {
    Json::Text(s.to_string())
}

fn member(key: &str, value: Json) -> Member {
    Member { key: key.to_string(), value }
}

fn sample() -> Value {
    let mut inner = serde_json::Map::new();
    inner.insert("pi".to_string(), Value::Number(Number::from_f64(3.25).unwrap()));
    inner.insert("none".to_string(), Value::Null);
    let mut outer = serde_json::Map::new();
    outer.insert("b".to_string(), Value::Bool(true));
    outer.insert(
        "a".to_string(),
        Value::Array(vec![
            Value::Number(Number::from(-3)),
            Value::String("x\"y".to_string()),
            Value::Object(inner),
            Value::Array(vec![]),
        ]),
    );
    Value::Object(outer)
}

#[test]
fn values_survive_both_ways() {
    let v = sample();
    assert_eq!(Json::from_value(v.clone()).to_value(), v);
    for v in [Value::Null, Value::Bool(false), Value::String(String::new())] {
        assert_eq!(Json::from_value(v.clone()).to_value(), v);
    }
}

#[test]
fn members_are_found_by_key() {
    let j = Json::from_value(sample());
    assert!(matches!(j.get("b"), Some(Json::Bool(true))));
    assert!(j.get("c").is_none());
    assert!(text("b").get("b").is_none());
    assert_eq!(text("t").as_str(), Some("t"));
    assert_eq!(Json::Null.as_str(), None);
    match j.get("a") {
        Some(Json::Array(items)) => {
            assert_eq!(items.len(), 4);
            assert_eq!(items[1].as_str(), Some("x\"y"));
            assert!(matches!(dig(Some(&items[2]), "none"), Some(Json::Null)));
        }
        _ => panic!("no array"),
    }
    assert_eq!(str_or(dig(None, "x"), "?"), "?");
}

#[test]
fn the_later_member_counts() {
    let mut ms = vec![member("k", text("old")), member("l", text("other"))];
    put(&mut ms, "k", text("new"));
    assert_eq!(lookup(&ms, "k").unwrap().as_str(), Some("new"));
    let mut want = serde_json::Map::new();
    want.insert("k".to_string(), Value::String("new".to_string()));
    want.insert("l".to_string(), Value::String("other".to_string()));
    assert_eq!(object_value(&ms), Value::Object(want));
}

#[test]
fn json_texts() {
    let ms = vec![member("b", Json::Array(vec![Json::Null])), member("a", text("x"))];
    assert_eq!(object_to_string(&ms).unwrap(), "{\"a\":\"x\",\"b\":[null]}");
    assert_eq!(
        Json::Object(ms).to_string_pretty().unwrap(),
        "{\n  \"a\": \"x\",\n  \"b\": [\n    null\n  ]\n}"
    );
}

#[test]
fn yaml_is_read_as_json() {
    let j = from_yaml("name: bot\ntools: [a, b]\ndeep:\n  n: 3\n").unwrap();
    assert_eq!(str_or(j.get("name"), ""), "bot");
    match j.get("tools") {
        Some(Json::Array(items)) => assert_eq!(items[1].as_str(), Some("b")),
        _ => panic!("no list"),
    }
    match dig(j.get("deep"), "n") {
        Some(Json::Number(n)) => assert_eq!(n.as_i64(), Some(3)),
        _ => panic!("no number"),
    }
    assert!(from_yaml("a: [").is_err());
}

#[test]
fn json_becomes_yaml() {
    let y = to_yaml(&Json::Object(vec![
        member("n", Json::Number(Number::from(3))),
        member("s", text("t")),
    ]));
    assert_eq!(serde_yaml::to_string(&y).unwrap(), "n: 3\ns: t\n");
    assert!(matches!(to_yaml(&Json::Null), serde_yaml::Value::Null));
}

#[test]
fn members_come_in_order_of_their_keys() {
    let mut m = serde_json::Map::new();
    for k in ["b", "a", "ab", "B", "é"] {
        m.insert(k.to_string(), Value::Object(serde_json::Map::new()));
    }
    match Json::from_value(Value::Array(vec![Value::Object(m)])) {
        Json::Array(items) => match &items[0] {
            Json::Object(ms) => {
                let keys: Vec<&str> = ms.iter().map(|m| m.key.as_str()).collect();
                assert_eq!(keys, vec!["B", "a", "ab", "b", "é"]);
            }
            _ => panic!("no object"),
        },
        _ => panic!("no array"),
    }
}
