//! Name tables. The names of a module live in a hash set and the variables
//! of a scope in a hash map, both of `hashbrown`; the contents of a class
//! live in an ordered map of `indexmap`. Verus does not read these crates:
//! what this file says of them is taken on trust.

use vstd::prelude::*;

verus! {

/// The hasher that the tables of `hashbrown` use where none is named.
#[verifier::external_type_specification]
#[verifier::external_body]
pub struct ExDefaultHashBuilder(hashbrown::hash_map::DefaultHashBuilder);

/// `HashSet` of `hashbrown`. Nothing inside it is seen here.
#[verifier::external_type_specification]
#[verifier::external_body]
#[verifier::reject_recursive_types(T)]
#[verifier::reject_recursive_types(S)]
pub struct ExHashSet<T, S>(hashbrown::HashSet<T, S>);

/// `HashMap` of `hashbrown`. Nothing inside it is seen here.
#[verifier::external_type_specification]
#[verifier::external_body]
#[verifier::reject_recursive_types(K)]
#[verifier::reject_recursive_types(V)]
#[verifier::reject_recursive_types(S)]
pub struct ExHashMap<K, V, S>(hashbrown::HashMap<K, V, S>);

/// `IndexMap` of `indexmap`. Nothing inside it is seen here.
#[verifier::external_type_specification]
#[verifier::external_body]
#[verifier::reject_recursive_types(K)]
#[verifier::reject_recursive_types(V)]
#[verifier::reject_recursive_types(S)]
pub struct ExIndexMap<K, V, S>(indexmap::IndexMap<K, V, S>);

/// The names that a set of names holds.
pub uninterp spec fn held_names(set: hashbrown::HashSet<Vec<u8>>) -> Set<Seq<u8>>;

/// The slot that each name of a scope stands for.
pub uninterp spec fn scope_slots(scope: hashbrown::HashMap<Vec<u8>, usize>) -> Map<Seq<u8>, usize>;

/// The entries of an ordered map, first entered first.
pub uninterp spec fn ordered_entries(map: indexmap::IndexMap<Vec<u8>, usize>) -> Seq<
    (Seq<u8>, usize),
>;

/// `HashSet::new` of `hashbrown`: a set that holds nothing.
#[verifier::external_body]
pub(crate) fn names_new() -> (r: hashbrown::HashSet<Vec<u8>>)
    ensures
        held_names(r) == Set::<Seq<u8>>::empty(),
{
    hashbrown::HashSet::new()
}

/// `HashSet::insert` of `hashbrown`: the set holds `name` afterwards, and
/// the result says whether it did not before.
#[verifier::external_body]
pub(crate) fn names_insert(set: &mut hashbrown::HashSet<Vec<u8>>, name: Vec<u8>) -> (fresh: bool)
    ensures
        fresh == !held_names(*old(set)).contains(name@),
        held_names(*final(set)) == held_names(*old(set)).insert(name@),
{
    set.insert(name)
}

/// `HashMap::new` of `hashbrown`: a map without entries.
#[verifier::external_body]
pub(crate) fn scope_new() -> (r: hashbrown::HashMap<Vec<u8>, usize>)
    ensures
        (scope_slots(r) == Map::<Seq<u8>, usize>::empty()),
{
    hashbrown::HashMap::new()
}

/// `HashMap::insert` of `hashbrown`: `name` stands for `slot` afterwards,
/// whatever it stood for before, and no other entry changes.
#[verifier::external_body]
pub(crate) fn scope_insert(
    scope: &mut hashbrown::HashMap<Vec<u8>, usize>,
    name: Vec<u8>,
    slot: usize,
)
    ensures
        scope_slots(*final(scope)) == scope_slots(*old(scope)).insert(name@, slot),
{
    scope.insert(name, slot);
}

/// `HashMap::get` of `hashbrown`: the slot that `name` stands for, if any.
#[verifier::external_body]
pub(crate) fn scope_get(scope: &hashbrown::HashMap<Vec<u8>, usize>, name: &Vec<u8>) -> (r: Option<
    usize,
>)
    ensures
        r == if scope_slots(*scope).dom().contains(name@) {
            Some(scope_slots(*scope)[name@])
        } else {
            None
        },
{
    scope.get(name).copied()
}

/// Where the entry of `key` stands in `entries`, if it has one.
pub open spec fn entry_of<V>(entries: Seq<(Seq<u8>, V)>, key: Seq<u8>) -> Option<int>
    decreases entries.len(),
{
    if entries.len() == 0 {
        None
    } else {
        match entry_of(entries.drop_last(), key) {
            Some(i) => Some(i),
            None => if entries.last().0 == key {
                Some(entries.len() - 1)
            } else {
                None
            },
        }
    }
}

/// `entries` after `key` has been given `value`: an entry of that key keeps
/// its place and takes the value, a new entry goes to the end.
pub open spec fn entered<V>(entries: Seq<(Seq<u8>, V)>, key: Seq<u8>, value: V) -> Seq<
    (Seq<u8>, V),
> {
    match entry_of(entries, key) {
        Some(i) => entries.update(i, (key, value)),
        None => entries.push((key, value)),
    }
}

/// An entry that is found lies in the sequence and has the key.
pub proof fn lemma_entry_found<V>(entries: Seq<(Seq<u8>, V)>, key: Seq<u8>)
    ensures
        match entry_of(entries, key) {
            Some(i) => 0 <= i < entries.len() && entries[i].0 == key,
            None => forall|j: int| 0 <= j < entries.len() ==> (#[trigger] entries[j]).0 != key,
        },
    decreases entries.len(),
{
    if entries.len() > 0 {
        lemma_entry_found(entries.drop_last(), key);
        if entry_of(entries.drop_last(), key) is None && entries.last().0 != key {
            assert forall|j: int| 0 <= j < entries.len() implies (#[trigger] entries[j]).0
                != key by {
                if j < entries.len() - 1 {
                    assert(entries.drop_last()[j] == entries[j]);
                }
            }
        }
    }
}

/// Where a key stands depends on the keys alone, not on the values.
pub proof fn lemma_entry_by_keys<A, B>(a: Seq<(Seq<u8>, A)>, b: Seq<(Seq<u8>, B)>, key: Seq<u8>)
    requires
        a.len() == b.len(),
        forall|i: int| 0 <= i < a.len() ==> (#[trigger] a[i]).0 == b[i].0,
    ensures
        entry_of(a, key) == entry_of(b, key),
    decreases a.len(),
{
    if a.len() > 0 {
        assert forall|i: int| 0 <= i < a.drop_last().len() implies (#[trigger] a.drop_last()[i]).0
            == b.drop_last()[i].0 by {
            assert(a.drop_last()[i] == a[i]);
            assert(b.drop_last()[i] == b[i]);
        }
        lemma_entry_by_keys(a.drop_last(), b.drop_last(), key);
        assert(a.last() == a[a.len() - 1]);
    }
}

/// `IndexMap::new` of `indexmap`: a map without entries.
#[verifier::external_body]
pub(crate) fn ordered_new() -> (r: indexmap::IndexMap<Vec<u8>, usize>)
    ensures
        ordered_entries(r).len() == 0,
{
    indexmap::IndexMap::new()
}

/// `IndexMap::insert` of `indexmap`: where the key has an entry, the entry
/// keeps its place and takes the value; where it has none, the new entry
/// becomes the last.
#[verifier::external_body]
pub(crate) fn ordered_insert(
    map: &mut indexmap::IndexMap<Vec<u8>, usize>,
    key: Vec<u8>,
    value: usize,
)
    ensures
        ordered_entries(*final(map)) == entered(ordered_entries(*old(map)), key@, value),
{
    map.insert(key, value);
}

/// `IndexMap::values` of `indexmap`: the values, in the order of the
/// entries.
#[verifier::external_body]
pub(crate) fn ordered_values(map: &indexmap::IndexMap<Vec<u8>, usize>) -> (r: Vec<usize>)
    ensures
        r@.len() == ordered_entries(*map).len(),
        forall|i: int| 0 <= i < r@.len() ==> r@[i] == (#[trigger] ordered_entries(*map)[i]).1,
{
    map.values().copied().collect()
}

} // verus!
