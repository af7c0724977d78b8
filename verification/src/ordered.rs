use starlark_map::small_map::SmallMap;
use starlark_map::small_set::SmallSet;
use vstd::prelude::*;

use crate::text::texts;

verus! {

/// The map of the `starlark_map` crate that keeps its entries in insertion order.
#[verifier::external_type_specification]
#[verifier::external_body]
#[verifier::reject_recursive_types(K)]
#[verifier::reject_recursive_types(V)]
pub struct ExSmallMap<K, V>(SmallMap<K, V>);

/// The set of the `starlark_map` crate that keeps its elements in insertion order.
#[verifier::external_type_specification]
#[verifier::external_body]
#[verifier::reject_recursive_types(T)]
pub struct ExSmallSet<T>(SmallSet<T>);

/// The entries of a map from names to numbers, in insertion order.
pub uninterp spec fn name_entries(map: SmallMap<String, usize>) -> Seq<(Seq<char>, usize)>;

/// The elements of a set of names, in insertion order.
pub uninterp spec fn name_elements(set: SmallSet<String>) -> Seq<String>;

/// The elements of a set of numbers, in insertion order.
pub uninterp spec fn id_elements(set: SmallSet<u64>) -> Seq<u64>;

/// The value of the first entry with the given key.
pub open spec fn value_at(entries: Seq<(Seq<char>, usize)>, key: Seq<char>) -> Option<usize>
    decreases entries.len(),
{
    if entries.len() == 0 {
        None
    } else if entries[0].0 == key {
        Some(entries[0].1)
    } else {
        value_at(entries.drop_first(), key)
    }
}

/// The entries after `key` was given the value `val`: a known key keeps its place.
pub open spec fn with_entry(
    entries: Seq<(Seq<char>, usize)>,
    key: Seq<char>,
    val: usize,
) -> Seq<(Seq<char>, usize)>
    decreases entries.len(),
{
    if entries.len() == 0 {
        seq![(key, val)]
    } else if entries[0].0 == key {
        seq![(key, val)] + entries.drop_first()
    } else {
        seq![entries[0]] + with_entry(entries.drop_first(), key, val)
    }
}

/// The elements of a set of names as plain text.
pub open spec fn name_texts(set: SmallSet<String>) -> Seq<Seq<char>> {
    texts(name_elements(set))
}

/// The names after `x` was added: a known name keeps its place.
pub open spec fn with_name(names: Seq<String>, x: String) -> Seq<String> {
    if texts(names).contains(x@) {
        names
    } else {
        names.push(x)
    }
}

/// The elements after `x` was added: a known element keeps its place.
pub open spec fn with_element<T>(elements: Seq<T>, x: T) -> Seq<T> {
    if elements.contains(x) {
        elements
    } else {
        elements.push(x)
    }
}

/// `SmallMap::new`: a map without entries.
#[verifier::external_body]
pub(crate) fn name_map() -> (r: SmallMap<String, usize>)
    ensures
        name_entries(r) == Seq::<(Seq<char>, usize)>::empty(),
{
    SmallMap::new()
}

/// `SmallMap::get`: the value stored for a key.
#[verifier::external_body]
pub(crate) fn name_map_get(map: &SmallMap<String, usize>, key: &str) -> (r: Option<usize>)
    ensures
        r == value_at(name_entries(*map), key@),
{
    map.get(key).copied()
}

/// `SmallMap::insert`: the value of a known key is replaced in its place, a new key goes to the
/// end.
#[verifier::external_body]
pub(crate) fn name_map_insert(map: &mut SmallMap<String, usize>, key: String, val: usize)
    ensures
        name_entries(*final(map)) == with_entry(name_entries(*old(map)), key@, val),
{
    map.insert(key, val);
}

/// `SmallMap::into_iter`: the entries in insertion order.
#[verifier::external_body]
pub(crate) fn name_map_entries(map: SmallMap<String, usize>) -> (r: Vec<(String, usize)>)
    ensures
        r@.map_values(|e: (String, usize)| (e.0@, e.1)) == name_entries(map),
{
    map.into_iter().collect()
}

/// `SmallSet::new`: a set of names without elements.
#[verifier::external_body]
fn name_set() -> (r: SmallSet<String>)
    ensures
        name_elements(r) == Seq::<String>::empty(),
{
    SmallSet::new()
}

/// `SmallSet::insert` on names: adds an element behind the others unless it is there already.
#[verifier::external_body]
fn name_set_add(set: &mut SmallSet<String>, key: String)
    ensures
        name_elements(*final(set)) == with_name(name_elements(*old(set)), key),
{
    set.insert(key);
}

/// `SmallSet::contains` on names.
#[verifier::external_body]
pub(crate) fn name_set_contains(set: &SmallSet<String>, key: &str) -> (r: bool)
    ensures
        r == name_texts(*set).contains(key@),
{
    set.contains(key)
}

/// `SmallSet::iter` on names: the elements in insertion order, of which no two are the same.
#[verifier::external_body]
pub(crate) fn name_set_list(set: &SmallSet<String>) -> (r: Vec<String>)
    ensures
        r@ == name_elements(*set),
        texts(r@).no_duplicates(),
{
    set.iter().cloned().collect()
}

/// A set of names without elements.
pub(crate) fn new_name_set() -> (r: SmallSet<String>)
    ensures
        name_texts(r) == Seq::<Seq<char>>::empty(),
{
    let set = name_set();
    assert(name_texts(set) =~= Seq::empty());
    set
}

/// Adds a name behind the others unless it is there already.
pub(crate) fn name_set_insert(set: &mut SmallSet<String>, key: String)
    ensures
        name_texts(*final(set)) == with_element(name_texts(*old(set)), key@),
{
    name_set_add(set, key);
    assert(name_texts(*set) =~= with_element(name_texts(*old(set)), key@));
}

/// `SmallSet::new`: a set of numbers without elements.
#[verifier::external_body]
pub(crate) fn id_set() -> (r: SmallSet<u64>)
    ensures
        id_elements(r) == Seq::<u64>::empty(),
{
    SmallSet::new()
}

/// `SmallSet::insert` on numbers: adds an element behind the others unless it is there already.
#[verifier::external_body]
pub(crate) fn id_set_insert(set: &mut SmallSet<u64>, key: u64)
    ensures
        id_elements(*final(set)) == with_element(id_elements(*old(set)), key),
{
    set.insert(key);
}

/// `SmallSet::contains` on numbers.
#[verifier::external_body]
pub(crate) fn id_set_contains(set: &SmallSet<u64>, key: u64) -> (r: bool)
    ensures
        r == id_elements(*set).contains(key),
{
    set.contains(&key)
}

/// A key that is found is found at its first entry; one that is not found is in no entry.
pub proof fn lemma_value_at(entries: Seq<(Seq<char>, usize)>, key: Seq<char>)
    ensures
        value_at(entries, key) is None <==> forall|i: int|
            0 <= i < entries.len() ==> (#[trigger] entries[i]).0 != key,
        value_at(entries, key) matches Some(v) ==> exists|i: int|
            0 <= i < entries.len() && #[trigger] entries[i] == (key, v),
    decreases entries.len(),
{
    if entries.len() > 0 {
        let rest = entries.drop_first();
        lemma_value_at(rest, key);
        assert(forall|i: int| 0 <= i < rest.len() ==> #[trigger] rest[i] == entries[i + 1]);
        assert(forall|i: int| 0 < i < entries.len() ==> #[trigger] entries[i] == rest[i - 1]);
        if entries[0].0 == key {
            assert(entries[0] == (key, entries[0].1));
        } else if value_at(rest, key) is Some {
            let i = choose|i: int|
                0 <= i < rest.len() && #[trigger] rest[i] == (key, value_at(rest, key)->0);
            assert(entries[i + 1] == (key, value_at(rest, key)->0));
        }
    }
}

/// A key that was not there goes to the end.
pub proof fn lemma_with_new_entry(entries: Seq<(Seq<char>, usize)>, key: Seq<char>, val: usize)
    requires
        value_at(entries, key) is None,
    ensures
        with_entry(entries, key, val) == entries.push((key, val)),
    decreases entries.len(),
{
    if entries.len() > 0 {
        lemma_with_new_entry(entries.drop_first(), key, val);
        assert(with_entry(entries, key, val) =~= entries.push((key, val)));
    } else {
        assert(with_entry(entries, key, val) =~= entries.push((key, val)));
    }
}

/// After an entry was given, its key has the new value and every other key has the value it had.
pub proof fn lemma_value_after_entry(
    entries: Seq<(Seq<char>, usize)>,
    key: Seq<char>,
    val: usize,
    asked: Seq<char>,
)
    ensures
        value_at(with_entry(entries, key, val), asked) == (if asked == key {
            Some(val)
        } else {
            value_at(entries, asked)
        }),
    decreases entries.len(),
{
    let after = with_entry(entries, key, val);
    reveal_with_fuel(value_at, 2);
    if entries.len() == 0 {
        assert(after.drop_first() =~= Seq::empty());
    } else if entries[0].0 == key {
        assert(after.drop_first() =~= entries.drop_first());
    } else {
        lemma_value_after_entry(entries.drop_first(), key, val, asked);
        assert(after.drop_first() =~= with_entry(entries.drop_first(), key, val));
    }
}

} // verus!
