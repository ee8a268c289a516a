use forgeos::env::EnvMap;
use forgeos::text::precedes;

fn pairs(m: &EnvMap) -> Vec<(&str, &str)> {
    m.as_pairs().iter().map(|(k, v)| (k.as_str(), v.as_str())).collect()
}

#[test]
fn names_are_kept_in_order_each_once() {
    let mut m = EnvMap::new();
    for (k, v) in [("b", "1"), ("a", "2"), ("ab", "3"), ("b", "4"), ("B", "5"), ("é", "6")] {
        m = m.insert(k.to_string(), v.to_string());
    }
    assert_eq!(m.len(), 5);
    assert_eq!(pairs(&m), vec![("B", "5"), ("a", "2"), ("ab", "3"), ("b", "4"), ("é", "6")]);
    assert_eq!(
        m.to_json().to_value().to_string(),
        "{\"B\":\"5\",\"a\":\"2\",\"ab\":\"3\",\"b\":\"4\",\"é\":\"6\"}"
    );
}

#[test]
fn no_names_at_all() {
    let m = EnvMap::new();
    assert_eq!(m.len(), 0);
    assert_eq!(m.to_json().to_value().to_string(), "{}");
}

#[test]
fn the_order_is_that_of_std() {
    let words = ["", "a", "aa", "ab", "b", "B", "_", "é", "\u{ffff}", "\u{10000}"];
    for a in words {
        for b in words {
            assert_eq!(precedes(a, b), a < b, "{a:?} {b:?}");
        }
    }
}
