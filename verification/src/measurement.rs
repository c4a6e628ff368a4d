//! Measurements: a named value that may be a boolean, a number, a text, a
//! list of values or a map from names to values.
use vstd::prelude::*;

verus! {

/// The value of a measurement.
///
/// A number is held as the bit pattern of an IEEE-754 binary64 value
/// (`f64::to_bits`), so that the library never computes with floats.
/// A map (`Dict`) is held as a list of entries whose keys are expected to be
/// pairwise distinct (`distinct_keys`): `map_insert` keeps them so, and every
/// map this library builds has distinct keys. Should a list hold a key twice,
/// the first entry is the one that counts (`map_lookup`).
#[derive(Debug, PartialEq)]
pub enum MeasurementValue {
    Bool(bool),
    Float(u64),
    Text(String),
    List(Vec<MeasurementValue>),
    Dict(Vec<(String, MeasurementValue)>),
}

/// A measurement: a name and a value.
#[derive(Debug, PartialEq)]
pub struct Measurement {
    pub name: String,
    pub value: MeasurementValue,
}

impl Measurement {
    pub fn new(name: String, value: MeasurementValue) -> (m: Measurement)
        ensures
            m.name == name,
            m.value == value,
    {
        Measurement { name, value }
    }

    pub fn name(&self) -> (n: &String)
        ensures
            *n == self.name,
    {
        &self.name
    }

    pub fn value(&self) -> (v: &MeasurementValue)
        ensures
            *v == self.value,
    {
        &self.value
    }
}

/// The value stored under `key` in a list of map entries: the first entry
/// with that key.
pub open spec fn map_lookup<V>(entries: Seq<(String, V)>, key: Seq<char>) -> Option<V>
    decreases entries.len(),
{
    if entries.len() == 0 {
        None
    } else if entries[0].0@ == key {
        Some(entries[0].1)
    } else {
        map_lookup(entries.drop_first(), key)
    }
}

/// The keys of a list of map entries are pairwise distinct.
pub open spec fn distinct_keys<V>(entries: Seq<(String, V)>) -> bool {
    forall|i: int, j: int|
        0 <= i < entries.len() && 0 <= j < entries.len() && i != j ==> #[trigger] entries[i].0@
            != #[trigger] entries[j].0@
}

/// The set of keys of a list of map entries.
pub open spec fn map_keys<V>(entries: Seq<(String, V)>) -> Set<Seq<char>> {
    Set::new(|k: Seq<char>| exists|i: int| 0 <= i < entries.len() && entries[i].0@ == k)
}

pub proof fn lemma_map_lookup_index<V>(entries: Seq<(String, V)>, key: Seq<char>)
    ensures
        map_lookup(entries, key) is None <==> forall|i: int|
            0 <= i < entries.len() ==> #[trigger] entries[i].0@ != key,
        map_lookup(entries, key) is Some ==> exists|i: int|
            0 <= i < entries.len() && #[trigger] entries[i].0@ == key && (forall|j: int|
                0 <= j < i ==> #[trigger] entries[j].0@ != key) && map_lookup(entries, key)
                == Some(entries[i].1),
    decreases entries.len(),
{
    if entries.len() > 0 {
        let rest = entries.drop_first();
        lemma_map_lookup_index(rest, key);
        if entries[0].0@ != key {
            assert forall|i: int| 1 <= i < entries.len() implies entries[i].0@ == rest[i - 1].0@ by {}
            if map_lookup(rest, key) is Some {
                let i = choose|i: int|
                    0 <= i < rest.len() && #[trigger] rest[i].0@ == key && (forall|j: int|
                        0 <= j < i ==> #[trigger] rest[j].0@ != key) && map_lookup(rest, key)
                        == Some(rest[i].1);
                assert(entries[i + 1].0@ == key);
                assert forall|j: int| 0 <= j < i + 1 implies #[trigger] entries[j].0@ != key by {
                    if j > 0 {
                        assert(entries[j] == rest[j - 1]);
                    }
                }
            } else {
                assert forall|i: int| 0 <= i < entries.len() implies #[trigger] entries[i].0@ != key by {
                    if i > 0 {
                        assert(entries[i] == rest[i - 1]);
                    }
                }
            }
        } else {
            assert(entries[0].0@ == key);
        }
    }
}

/// Looks `key` up in a list of map entries (the first entry with that key).
pub fn map_get<'a, V>(entries: &'a Vec<(String, V)>, key: &String) -> (r: Option<&'a V>)
    ensures
        match r {
            Some(v) => map_lookup(entries@, key@) == Some(*v),
            None => map_lookup(entries@, key@) is None,
        },
{
    proof {
        lemma_map_lookup_index(entries@, key@);
    }
    let n = entries.len();
    for i in 0..n
        invariant
            n == entries@.len(),
            forall|j: int| 0 <= j < i ==> #[trigger] entries@[j].0@ != key@,
            map_lookup(entries@, key@) is None <==> forall|i: int|
                0 <= i < entries@.len() ==> #[trigger] entries@[i].0@ != key@,
            map_lookup(entries@, key@) is Some ==> exists|i: int|
                0 <= i < entries@.len() && #[trigger] entries@[i].0@ == key@ && (forall|j: int|
                    0 <= j < i ==> #[trigger] entries@[j].0@ != key@) && map_lookup(entries@, key@)
                    == Some(entries@[i].1),
    {
        if entries[i].0 == *key {
            return Some(&entries[i].1);
        }
    }
    None
}

/// With distinct keys, the entry holding a key is the one that `map_lookup`
/// finds.
pub proof fn lemma_map_lookup_distinct<V>(entries: Seq<(String, V)>, i: int)
    requires
        distinct_keys(entries),
        0 <= i < entries.len(),
    ensures
        map_lookup(entries, entries[i].0@) == Some(entries[i].1),
    decreases entries.len(),
{
    if i > 0 {
        let rest = entries.drop_first();
        assert(entries[0].0@ != entries[i].0@);
        assert(rest[i - 1] == entries[i]);
        assert forall|a: int, b: int|
            0 <= a < rest.len() && 0 <= b < rest.len() && a != b implies #[trigger] rest[a].0@
            != #[trigger] rest[b].0@ by {
            assert(rest[a] == entries[a + 1]);
            assert(rest[b] == entries[b + 1]);
        }
        lemma_map_lookup_distinct(rest, i - 1);
    }
}

/// A key that no entry holds is not found.
pub proof fn lemma_map_lookup_absent<V>(entries: Seq<(String, V)>, key: Seq<char>)
    requires
        forall|i: int| 0 <= i < entries.len() ==> #[trigger] entries[i].0@ != key,
    ensures
        map_lookup(entries, key) is None,
    decreases entries.len(),
{
    if entries.len() > 0 {
        let rest = entries.drop_first();
        assert(entries[0].0@ != key);
        assert forall|i: int| 0 <= i < rest.len() implies #[trigger] rest[i].0@ != key by {
            assert(rest[i] == entries[i + 1]);
        }
        lemma_map_lookup_absent(rest, key);
    }
}

/// Stores `value` under `key`, replacing the value stored there before if
/// there is one (as `HashMap::insert`).
pub fn map_insert<V>(entries: &mut Vec<(String, V)>, key: String, value: V)
    requires
        distinct_keys(old(entries)@),
    ensures
        distinct_keys(final(entries)@),
        forall|k: Seq<char>|
            #[trigger] map_lookup(final(entries)@, k) == if k == key@ {
                Some(value)
            } else {
                map_lookup(old(entries)@, k)
            },
        map_keys(final(entries)@) == map_keys(old(entries)@).insert(key@),
{
    let n = entries.len();
    let ghost before = entries@;
    let ghost kv = key@;
    let mut found: Option<usize> = None;
    for i in 0..n
        invariant
            n == entries@.len(),
            entries@ == before,
            found is None ==> forall|j: int| 0 <= j < i ==> #[trigger] entries@[j].0@ != key@,
            found matches Some(p) ==> p < n && entries@[p as int].0@ == key@,
    {
        if found.is_none() && entries[i].0 == key {
            found = Some(i);
        }
    }
    match found {
        Some(p) => {
            let k = entries[p].0.clone();
            entries.set(p, (k, value));
        },
        None => {
            entries.push((key, value));
        },
    }
    proof {
        let after = entries@;
        let p: int = match found {
            Some(p) => p as int,
            None => n as int,
        };
        assert(after[p].0@ == kv && after[p].1 == value);
        assert(forall|j: int| 0 <= j < n && j != p ==> #[trigger] after[j] == before[j]);
        assert(forall|j: int| 0 <= j < n && j != p ==> #[trigger] before[j].0@ != kv);
        assert forall|a: int, b: int|
            0 <= a < after.len() && 0 <= b < after.len() && a != b implies #[trigger] after[a].0@
            != #[trigger] after[b].0@ by {
            if a != p {
                assert(after[a] == before[a]);
            }
            if b != p {
                assert(after[b] == before[b]);
            }
        }
        assert forall|kk: Seq<char>|
            #[trigger] map_lookup(after, kk) == if kk == kv {
                Some(value)
            } else {
                map_lookup(before, kk)
            } by {
            if kk == kv {
                lemma_map_lookup_distinct(after, p);
            } else if exists|i: int| 0 <= i < before.len() && before[i].0@ == kk {
                let i = choose|i: int| 0 <= i < before.len() && before[i].0@ == kk;
                assert(i != p);
                assert(after[i] == before[i]);
                lemma_map_lookup_distinct(after, i);
                lemma_map_lookup_distinct(before, i);
            } else {
                assert forall|i: int| 0 <= i < after.len() implies #[trigger] after[i].0@ != kk by {
                    if i != p {
                        assert(after[i] == before[i]);
                    }
                }
                lemma_map_lookup_absent(after, kk);
                lemma_map_lookup_absent(before, kk);
            }
        }
        assert forall|kk: Seq<char>| map_keys(after).contains(kk) == map_keys(before).insert(kv).contains(kk) by {
            if kk != kv {
                if map_keys(before).contains(kk) {
                    let i = choose|i: int| 0 <= i < before.len() && before[i].0@ == kk;
                    assert(after[i] == before[i]);
                }
                if map_keys(after).contains(kk) {
                    let i = choose|i: int| 0 <= i < after.len() && after[i].0@ == kk;
                    assert(i != p);
                    assert(after[i] == before[i]);
                }
            }
        }
        assert(map_keys(after) =~= map_keys(before).insert(kv));
    }
}

/// The value stored under `key` after storing, one after the other, the
/// value of every enabled item under its name (later items replace earlier
/// ones, as `HashMap::insert` does).
pub open spec fn lookup_after_inserts<V>(items: Seq<(bool, Seq<char>, V)>, key: Seq<char>) -> Option<V>
    decreases items.len(),
{
    if items.len() == 0 {
        None
    } else if items.last().0 && items.last().1 == key {
        Some(items.last().2)
    } else {
        lookup_after_inserts(items.drop_last(), key)
    }
}

/// The items with their names as character sequences.
pub open spec fn items_view<V>(items: Seq<(bool, String, V)>) -> Seq<(bool, Seq<char>, V)> {
    items.map_values(|it: (bool, String, V)| (it.0, it.1@, it.2))
}

/// A map holding the value of every enabled item under its name; where two
/// enabled items have the same name, the later one wins.
pub fn insert_all<V>(items: Vec<(bool, String, V)>) -> (entries: Vec<(String, V)>)
    ensures
        distinct_keys(entries@),
        forall|k: Seq<char>| #[trigger] map_lookup(entries@, k) == lookup_after_inserts(items_view(items@), k),
{
    let ghost all = items@;
    let mut entries: Vec<(String, V)> = Vec::new();
    let mut rest = items;
    let mut i: usize = 0;
    let n = rest.len();
    while rest.len() > 0
        invariant
            n == all.len(),
            i + rest@.len() == n,
            rest@ == all.skip(i as int),
            distinct_keys(entries@),
            forall|k: Seq<char>| #[trigger] map_lookup(entries@, k) == lookup_after_inserts(items_view(all.take(i as int)), k),
        decreases rest@.len(),
    {
        let item = rest.remove(0);
        proof {
            assert(item == all[i as int]);
            let pre = items_view(all.take(i as int));
            let post = items_view(all.take(i + 1));
            assert(post.drop_last() =~= pre);
            assert(post.last() == (item.0, item.1@, item.2));
            assert(rest@ =~= all.skip(i + 1));
        }
        if item.0 {
            map_insert(&mut entries, item.1, item.2);
        }
        i = i + 1;
    }
    assert(all.take(n as int) == all);
    entries
}

/// With pairwise distinct names, the value stored under an item's name is
/// that item's value if it is enabled, and nothing otherwise.
pub proof fn lemma_lookup_after_inserts_distinct<V>(items: Seq<(bool, Seq<char>, V)>, i: int)
    requires
        0 <= i < items.len(),
        forall|a: int, b: int|
            0 <= a < items.len() && 0 <= b < items.len() && a != b ==> #[trigger] items[a].1
                != #[trigger] items[b].1,
    ensures
        lookup_after_inserts(items, items[i].1) == if items[i].0 {
            Some(items[i].2)
        } else {
            None
        },
    decreases items.len(),
{
    if i < items.len() - 1 {
        let d = items.drop_last();
        assert(items.last() == items[items.len() - 1]);
        assert(d[i] == items[i]);
        assert forall|a: int, b: int|
            0 <= a < d.len() && 0 <= b < d.len() && a != b implies #[trigger] d[a].1 != #[trigger] d[b].1 by {
            assert(d[a] == items[a]);
            assert(d[b] == items[b]);
        }
        lemma_lookup_after_inserts_distinct(d, i);
    } else {
        if !items[i].0 {
            let d = items.drop_last();
            assert forall|a: int| 0 <= a < d.len() implies #[trigger] d[a].1 != items[i].1 by {
                assert(d[a] == items[a]);
            }
            lemma_lookup_after_inserts_absent(d, items[i].1);
        }
    }
}

/// An enabled item whose name no later enabled item has is the one stored
/// under that name.
pub proof fn lemma_lookup_after_inserts_last_wins<V>(items: Seq<(bool, Seq<char>, V)>, i: int)
    requires
        0 <= i < items.len(),
        items[i].0,
        forall|j: int| i < j < items.len() ==> !((#[trigger] items[j]).0 && items[j].1 == items[i].1),
    ensures
        lookup_after_inserts(items, items[i].1) == Some(items[i].2),
    decreases items.len(),
{
    if i < items.len() - 1 {
        let d = items.drop_last();
        assert(items.last() == items[items.len() - 1]);
        assert(d[i] == items[i]);
        assert forall|j: int| i < j < d.len() implies !((#[trigger] d[j]).0 && d[j].1 == d[i].1) by {
            assert(d[j] == items[j]);
        }
        lemma_lookup_after_inserts_last_wins(d, i);
    }
}

/// Whatever is stored under a name is the value of an enabled item with that
/// name.
pub proof fn lemma_lookup_after_inserts_from_item<V>(items: Seq<(bool, Seq<char>, V)>, key: Seq<char>)
    ensures
        lookup_after_inserts(items, key) matches Some(v) ==> exists|j: int|
            0 <= j < items.len() && (#[trigger] items[j]).0 && items[j].1 == key && items[j].2 == v,
    decreases items.len(),
{
    if items.len() > 0 {
        let d = items.drop_last();
        lemma_lookup_after_inserts_from_item(d, key);
        assert(items.last() == items[items.len() - 1]);
        if let Some(v) = lookup_after_inserts(d, key) {
            if !(items.last().0 && items.last().1 == key) {
                let j = choose|j: int| 0 <= j < d.len() && (#[trigger] d[j]).0 && d[j].1 == key && d[j].2 == v;
                assert(d[j] == items[j]);
            }
        }
    }
}

/// A name that no item has is not stored.
pub proof fn lemma_lookup_after_inserts_absent<V>(items: Seq<(bool, Seq<char>, V)>, key: Seq<char>)
    requires
        forall|a: int| 0 <= a < items.len() ==> #[trigger] items[a].1 != key,
    ensures
        lookup_after_inserts(items, key) is None,
    decreases items.len(),
{
    if items.len() > 0 {
        let d = items.drop_last();
        assert(items.last() == items[items.len() - 1]);
        assert forall|a: int| 0 <= a < d.len() implies #[trigger] d[a].1 != key by {
            assert(d[a] == items[a]);
        }
        lemma_lookup_after_inserts_absent(d, key);
    }
}

/// A name for the kind of a value, for messages: "Bool", "Float", "Str",
/// "List" or "Map".
pub open spec fn kind_name(v: MeasurementValue) -> Seq<char> {
    match v {
        MeasurementValue::Bool(_) => "Bool"@,
        MeasurementValue::Float(_) => "Float"@,
        MeasurementValue::Text(_) => "Str"@,
        MeasurementValue::List(_) => "List"@,
        MeasurementValue::Dict(_) => "Map"@,
    }
}

/// The name of the kind of a value, as it appears in log messages.
/// Each kind of value is named as itself: "Bool", "Float", "Str" for a
/// text, "List", and "Map" for a map; distinct kinds get distinct names.
pub proof fn lemma_kind_names(a: MeasurementValue, b: MeasurementValue)
    ensures
        kind_name(a) == "Bool"@ <==> a is Bool,
        kind_name(a) == "Float"@ <==> a is Float,
        kind_name(a) == "Str"@ <==> a is Text,
        kind_name(a) == "List"@ <==> a is List,
        kind_name(a) == "Map"@ <==> a is Dict,
        kind_name(a) == kind_name(b) <==> ((a is Bool && b is Bool) || (a is Float && b is Float) || (
        a is Text && b is Text) || (a is List && b is List) || (a is Dict && b is Dict)),
{
    reveal_strlit("Bool");
    reveal_strlit("Float");
    reveal_strlit("Str");
    reveal_strlit("List");
    reveal_strlit("Map");
    if kind_name(a) == kind_name(b) {
        assert(kind_name(a).len() == kind_name(b).len());
        assert(kind_name(a)[0] == kind_name(b)[0]);
    }
    // the five names differ in their length or their first character
    assert(kind_name(a) == "Bool"@ ==> kind_name(a).len() == 4 && kind_name(a)[0] == 'B');
    assert(kind_name(a) == "Float"@ ==> kind_name(a).len() == 5);
    assert(kind_name(a) == "Str"@ ==> kind_name(a).len() == 3 && kind_name(a)[0] == 'S');
    assert(kind_name(a) == "List"@ ==> kind_name(a).len() == 4 && kind_name(a)[0] == 'L');
    assert(kind_name(a) == "Map"@ ==> kind_name(a).len() == 3 && kind_name(a)[0] == 'M');
}

pub fn measurement_to_str(val: &MeasurementValue) -> (s: &'static str)
    ensures
        s@ == kind_name(*val),
{
    match val {
        MeasurementValue::Bool(_) => "Bool",
        MeasurementValue::Float(_) => "Float",
        MeasurementValue::Text(_) => "Str",
        MeasurementValue::List(_) => "List",
        MeasurementValue::Dict(_) => "Map",
    }
}

} // verus!
