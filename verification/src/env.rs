//! Environment variables: a map from names to values, kept in order of the names.

use vstd::prelude::*;

use crate::json;
use crate::json::{Json, JsonV, Member};
use crate::text::{less, less_total, less_transitive, precedes, same};

verus! {

/// The names come in order, each once.
pub open spec fn ascending(es: Seq<(String, String)>) -> bool {
    forall|i: int, j: int| 0 <= i < j < es.len() ==> less(#[trigger] es[i].0@, #[trigger] es[j].0@)
}

/// `name` is in the list.
pub open spec fn named(es: Seq<(String, String)>, name: Seq<char>) -> bool {
    exists|i: int| 0 <= i < es.len() && #[trigger] es[i].0@ == name
}

/// The map that a list of pairs stands for.
pub open spec fn pairs_map(es: Seq<(String, String)>) -> Map<Seq<char>, Seq<char>> {
    Map::new(
        |name: Seq<char>| named(es, name),
        |name: Seq<char>|
            {
                let i = choose|i: int| 0 <= i < es.len() && #[trigger] es[i].0@ == name;
                es[i].1@
            },
    )
}

proof fn pair_at(es: Seq<(String, String)>, i: int)
    requires
        ascending(es),
        0 <= i < es.len(),
    ensures
        pairs_map(es).dom().contains(es[i].0@),
        pairs_map(es)[es[i].0@] == es[i].1@,
{
    let name = es[i].0@;
    assert(named(es, name));
    let k = choose|k: int| 0 <= k < es.len() && #[trigger] es[k].0@ == name;
    less_total(es[i].0@, es[k].0@);
    if k != i {
        less_total(es[k].0@, es[i].0@);
        assert(false);
    }
}

proof fn front_ascending(es: Seq<(String, String)>)
    requires
        es.len() > 0,
        ascending(es),
    ensures
        ascending(es.drop_last()),
        pairs_map(es) == pairs_map(es.drop_last()).insert(es.last().0@, es.last().1@),
        !pairs_map(es.drop_last()).dom().contains(es.last().0@),
{
    let front = es.drop_last();
    let n = es.len() - 1;
    assert forall|i: int, j: int| 0 <= i < j < front.len() implies less(
        #[trigger] front[i].0@,
        #[trigger] front[j].0@,
    ) by {
        assert(less(es[i].0@, es[j].0@));
    }
    assert(!named(front, es.last().0@)) by {
        if named(front, es.last().0@) {
            let i = choose|i: int| 0 <= i < front.len() && #[trigger] front[i].0@ == es.last().0@;
            assert(less(es[i].0@, es[n].0@));
            less_total(es[i].0@, es[n].0@);
        }
    }
    let a = pairs_map(es);
    let b = pairs_map(front).insert(es.last().0@, es.last().1@);
    assert forall|name: Seq<char>| a.dom().contains(name) == b.dom().contains(name) by {
        if named(es, name) {
            let i = choose|i: int| 0 <= i < es.len() && #[trigger] es[i].0@ == name;
            if i < n {
                assert(front[i].0@ == name);
            }
        }
        if named(front, name) {
            let i = choose|i: int| 0 <= i < front.len() && #[trigger] front[i].0@ == name;
            assert(es[i].0@ == name);
        }
        if name == es.last().0@ {
            assert(es[n].0@ == name);
        }
    }
    assert forall|name: Seq<char>| a.dom().contains(name) implies a[name] == b[name] by {
        let i = choose|i: int| 0 <= i < es.len() && #[trigger] es[i].0@ == name;
        pair_at(es, i);
        if i < n {
            assert(front[i].0@ == name);
            pair_at(front, i);
        }
    }
    assert(a =~= b);
}

proof fn pairs_count(es: Seq<(String, String)>)
    requires
        ascending(es),
    ensures
        pairs_map(es).dom().finite(),
        pairs_map(es).dom().len() == es.len(),
    decreases es.len(),
{
    if es.len() > 0 {
        front_ascending(es);
        pairs_count(es.drop_last());
        assert(pairs_map(es).dom() =~= pairs_map(es.drop_last()).dom().insert(es.last().0@));
    } else {
        assert(pairs_map(es).dom() =~= Set::empty());
    }
}

/// Setting a name that is in the list changes its value there.
proof fn replace_pair(es: Seq<(String, String)>, i: int, value: String)
    requires
        ascending(es),
        0 <= i < es.len(),
    ensures
        ascending(es.update(i, (es[i].0, value))),
        pairs_map(es.update(i, (es[i].0, value))) == pairs_map(es).insert(es[i].0@, value@),
{
    let now = es.update(i, (es[i].0, value));
    assert forall|j: int, k: int| 0 <= j < k < now.len() implies less(
        #[trigger] now[j].0@,
        #[trigger] now[k].0@,
    ) by {
        assert(less(es[j].0@, es[k].0@));
    }
    let a = pairs_map(now);
    let b = pairs_map(es).insert(es[i].0@, value@);
    assert forall|name: Seq<char>| a.dom().contains(name) == b.dom().contains(name) by {
        if named(now, name) {
            let j = choose|j: int| 0 <= j < now.len() && #[trigger] now[j].0@ == name;
            assert(es[j].0@ == name);
        }
        if named(es, name) {
            let j = choose|j: int| 0 <= j < es.len() && #[trigger] es[j].0@ == name;
            assert(now[j].0@ == name);
        }
        if name == es[i].0@ {
            assert(now[i].0@ == name);
        }
    }
    assert forall|name: Seq<char>| a.dom().contains(name) implies a[name] == b[name] by {
        let j = choose|j: int| 0 <= j < now.len() && #[trigger] now[j].0@ == name;
        pair_at(now, j);
        pair_at(es, j);
        if j != i {
            less_total(es[i].0@, es[j].0@);
            if i < j {
                assert(less(es[i].0@, es[j].0@));
            } else {
                assert(less(es[j].0@, es[i].0@));
            }
        }
    }
    assert(a =~= b);
}

/// Setting a name that is not in the list puts it where it belongs.
proof fn insert_pair(es: Seq<(String, String)>, i: int, pair: (String, String))
    requires
        ascending(es),
        0 <= i <= es.len(),
        forall|j: int| 0 <= j < i ==> less(#[trigger] es[j].0@, pair.0@),
        i < es.len() ==> less(pair.0@, es[i].0@),
    ensures
        ascending(es.insert(i, pair)),
        pairs_map(es.insert(i, pair)) == pairs_map(es).insert(pair.0@, pair.1@),
{
    let now = es.insert(i, pair);
    assert forall|k: int| i <= k < es.len() implies less(pair.0@, #[trigger] es[k].0@) by {
        if k > i {
            less_transitive(pair.0@, es[i].0@, es[k].0@);
        }
    }
    assert forall|j: int, k: int| 0 <= j < k < now.len() implies less(
        #[trigger] now[j].0@,
        #[trigger] now[k].0@,
    ) by {
        let j0 = if j < i {
            j
        } else {
            j - 1
        };
        let k0 = if k < i {
            k
        } else {
            k - 1
        };
        if j == i {
            assert(now[k] == es[k0]);
        } else if k == i {
            assert(now[j] == es[j0]);
        } else {
            assert(now[j] == es[j0] && now[k] == es[k0]);
            assert(less(es[j0].0@, es[k0].0@));
        }
    }
    let a = pairs_map(now);
    let b = pairs_map(es).insert(pair.0@, pair.1@);
    assert forall|name: Seq<char>| a.dom().contains(name) == b.dom().contains(name) by {
        if named(now, name) {
            let j = choose|j: int| 0 <= j < now.len() && #[trigger] now[j].0@ == name;
            if j < i {
                assert(es[j].0@ == name);
            } else if j > i {
                assert(es[j - 1].0@ == name);
            }
        }
        if named(es, name) {
            let j = choose|j: int| 0 <= j < es.len() && #[trigger] es[j].0@ == name;
            if j < i {
                assert(now[j].0@ == name);
            } else {
                assert(now[j + 1].0@ == name);
            }
        }
        if name == pair.0@ {
            assert(now[i].0@ == name);
        }
    }
    assert forall|name: Seq<char>| a.dom().contains(name) implies a[name] == b[name] by {
        let j = choose|j: int| 0 <= j < now.len() && #[trigger] now[j].0@ == name;
        pair_at(now, j);
        if j < i {
            pair_at(es, j);
            less_total(es[j].0@, pair.0@);
        } else if j > i {
            pair_at(es, j - 1);
            less_total(es[j - 1].0@, pair.0@);
        }
    }
    assert(a =~= b);
}

/// A map from names to values, kept in order of the names.
#[derive(Debug)]
pub struct EnvMap {
    entries: Vec<(String, String)>,
}

impl EnvMap {
    /// The map.
    pub open spec fn view(&self) -> Map<Seq<char>, Seq<char>> {
        pairs_map(self.pairs())
    }

    /// The pairs in order of the names.
    pub closed spec fn pairs(&self) -> Seq<(String, String)> {
        self.entries@
    }

    #[verifier::type_invariant]
    spec fn inv(&self) -> bool {
        ascending(self.entries@)
    }

    /// No names.
    pub fn new() -> (r: EnvMap)
        ensures
            r@ == Map::<Seq<char>, Seq<char>>::empty(),
            ascending(r.pairs()),
    {
        let r: EnvMap = EnvMap { entries: Vec::new() };
        assert(r@ =~= Map::<Seq<char>, Seq<char>>::empty());
        r
    }

    /// The map with `name` set to `value`.
    pub fn insert(self, name: String, value: String) -> (r: EnvMap)
        ensures
            r@ == self@.insert(name@, value@),
            ascending(r.pairs()),
    {
        proof {
            use_type_invariant(&self);
        }
        let mut es: Vec<(String, String)> = self.entries;
        let n: usize = es.len();
        let mut i: usize = 0;
        while i < n && precedes(es[i].0.as_str(), name.as_str())
            invariant
                n == es@.len(),
                i <= n,
                forall|j: int| 0 <= j < i ==> less(#[trigger] es@[j].0@, name@),
            decreases n - i,
        {
            i = i + 1;
        }
        if i < n && same(es[i].0.as_str(), name.as_str()) {
            let ghost was = es@;
            let old: (String, String) = es.remove(i);
            es.insert(i, (old.0, value));
            proof {
                replace_pair(was, i as int, value);
                assert(es@ == was.update(i as int, (was[i as int].0, value)));
            }
            return EnvMap { entries: es };
        }
        proof {
            if i < n {
                less_total(es@[i as int].0@, name@);
            }
            insert_pair(es@, i as int, (name, value));
        }
        es.insert(i, (name, value));
        EnvMap { entries: es }
    }

    /// How many names there are.
    pub fn len(&self) -> (n: usize)
        ensures
            n == self@.dom().len(),
    {
        proof {
            use_type_invariant(self);
            pairs_count(self.entries@);
        }
        self.entries.len()
    }

    /// The pairs, in order of the names, each name once.
    pub fn as_pairs(&self) -> (r: &Vec<(String, String)>)
        ensures
            r@ == self.pairs(),
            ascending(r@),
    {
        proof {
            use_type_invariant(self);
        }
        &self.entries
    }

    /// The map as a JSON object.
    pub fn to_json(&self) -> (r: Json)
        ensures
            r@ == env_json(self@),
    {
        proof {
            use_type_invariant(self);
        }
        let mut ms: Vec<Member> = Vec::new();
        let n: usize = self.entries.len();
        let ghost es = self.entries@;
        assert(pairs_map(es.take(0)).map_values(|v: Seq<char>| JsonV::Text(v))
            =~= Map::<Seq<char>, JsonV>::empty());
        for i in 0..n
            invariant
                es == self.entries@,
                n == es.len(),
                ascending(es),
                json::members_view(ms@) == pairs_map(es.take(i as int)).map_values(
                    |v: Seq<char>| JsonV::Text(v),
                ),
        {
            json::put(
                &mut ms,
                self.entries[i].0.as_str(),
                Json::Text(self.entries[i].1.clone()),
            );
            proof {
                let part = es.take(i + 1);
                assert forall|j: int, k: int| 0 <= j < k < part.len() implies less(
                    #[trigger] part[j].0@,
                    #[trigger] part[k].0@,
                ) by {
                    assert(less(es[j].0@, es[k].0@));
                }
                front_ascending(part);
                assert(part.drop_last() == es.take(i as int));
                assert(pairs_map(part).map_values(|v: Seq<char>| JsonV::Text(v)) =~= pairs_map(
                    es.take(i as int),
                ).map_values(|v: Seq<char>| JsonV::Text(v)).insert(
                    part.last().0@,
                    JsonV::Text(part.last().1@),
                ));
            }
        }
        assert(es.take(n as int) == es);
        Json::Object(ms)
    }
}

/// Two lists of pairs in order, with the same names, have them in the same places.
proof fn same_order(a: Seq<(String, String)>, b: Seq<(String, String)>)
    requires
        ascending(a),
        ascending(b),
        pairs_map(a).dom() == pairs_map(b).dom(),
    ensures
        a.len() == b.len(),
        forall|i: int| 0 <= i < a.len() ==> (#[trigger] a[i]).0@ == b[i].0@,
    decreases a.len(),
{
    pairs_count(a);
    pairs_count(b);
    if a.len() > 0 {
        let x = a.last().0@;
        let y = b.last().0@;
        pair_at(a, a.len() - 1);
        pair_at(b, b.len() - 1);
        assert(named(b, x) && named(a, y));
        let k = choose|k: int| 0 <= k < b.len() && #[trigger] b[k].0@ == x;
        let m = choose|m: int| 0 <= m < a.len() && #[trigger] a[m].0@ == y;
        less_total(x, y);
        if k < b.len() - 1 {
            assert(less(b[k].0@, b[b.len() - 1].0@));
        }
        if m < a.len() - 1 {
            assert(less(a[m].0@, a[a.len() - 1].0@));
        }
        assert(x == y);
        front_ascending(a);
        front_ascending(b);
        assert(pairs_map(a.drop_last()).dom() =~= pairs_map(a).dom().remove(x));
        assert(pairs_map(b.drop_last()).dom() =~= pairs_map(b).dom().remove(x));
        same_order(a.drop_last(), b.drop_last());
        assert forall|i: int| 0 <= i < a.len() implies (#[trigger] a[i]).0@ == b[i].0@ by {
            if i < a.len() - 1 {
                assert(a.drop_last()[i].0@ == b.drop_last()[i].0@);
            }
        }
    }
}

/// Two maps with the same names list them in the same order.
pub proof fn same_names(a: EnvMap, b: EnvMap)
    requires
        ascending(a.pairs()),
        ascending(b.pairs()),
        a@.dom() == b@.dom(),
    ensures
        a.pairs().len() == b.pairs().len(),
        forall|i: int| 0 <= i < a.pairs().len() ==> (#[trigger] a.pairs()[i]).0@ == b.pairs()[i].0@,
{
    same_order(a.pairs(), b.pairs());
}

/// A map as a JSON object.
pub open spec fn env_json(m: Map<Seq<char>, Seq<char>>) -> JsonV {
    JsonV::Object(m.map_values(|v: Seq<char>| JsonV::Text(v)))
}

} // verus!
