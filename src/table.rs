use vstd::prelude::*;
use crate::revision::StampedValue;
use rustc_hash::{FxHashMap, FxHasher};
use std::hash::BuildHasherDefault;

verus! {

#[verifier::external_type_specification]
#[verifier::external_body]
pub struct ExFxHasher(FxHasher);

#[verifier::external_type_specification]
#[verifier::external_body]
#[verifier::reject_recursive_types(H)]
pub struct ExBuildHasherDefault<H>(BuildHasherDefault<H>);

/// The key-to-stamp table of one input storage.
pub type StampTable = FxHashMap<char, StampedValue>;

/// The entries that a stamp table holds.
pub uninterp spec fn table_entries(m: StampTable) -> Map<char, StampedValue>;

/// Relies on `FxHashMap::default`: a new map holds no entries.
#[verifier::external_body]
pub(crate) fn table_new() -> (r: StampTable)
    ensures
        table_entries(r).is_empty(),
{
    FxHashMap::default()
}

/// Relies on `HashMap::get` over the Fx hasher: the entry stored under `key`,
/// if any (`char` has lawful `Eq` and `Hash`).
#[verifier::external_body]
pub(crate) fn table_get(m: &StampTable, key: char) -> (r: Option<StampedValue>)
    ensures
        r == (if table_entries(*m).contains_key(key) {
            Some(table_entries(*m)[key])
        } else {
            None
        }),
{
    m.get(&key).copied()
}

/// Relies on `HashMap::insert` over the Fx hasher: `key` now maps to `stamp`,
/// and every other entry is kept.
#[verifier::external_body]
pub(crate) fn table_insert(m: &mut StampTable, key: char, stamp: StampedValue)
    ensures
        table_entries(*final(m)) == table_entries(*old(m)).insert(key, stamp),
{
    m.insert(key, stamp);
}

} // verus!
