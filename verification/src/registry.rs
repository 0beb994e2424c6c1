//! The table that finds a transfer by its handle.
//!
//! Handles are strings, and the table is a `DashMap`. Its code is not
//! verified here: this module states what the library relies on, and every
//! other module reasons from these statements alone.

use dashmap::DashMap;
use vstd::prelude::*;

verus! {

/// `dashmap::DashMap`, of which nothing is known but what the functions
/// below say.
#[verifier::external_type_specification]
#[verifier::external_body]
#[verifier::reject_recursive_types(K)]
#[verifier::reject_recursive_types(V)]
#[verifier::reject_recursive_types(S)]
pub struct ExDashMap<K, V, S>(DashMap<K, V, S>);

/// The entries of a table: the number that each handle in it maps to. Two
/// handles are the same entry exactly if they are the same string.
pub uninterp spec fn entries(table: DashMap<String, u64>) -> Map<Seq<char>, u64>;

/// `DashMap::new`: a table without entries.
#[verifier::external_body]
pub(crate) fn new_table() -> (table: DashMap<String, u64>)
    ensures
        (entries(table) == Map::<Seq<char>, u64>::empty()),
{
    DashMap::new()
}

/// `DashMap::insert`: afterwards `key` maps to `value` and every other
/// entry is as before. Returns what `key` mapped to before, if anything.
#[verifier::external_body]
pub(crate) fn table_insert(table: &mut DashMap<String, u64>, key: String, value: u64) -> (previous:
    Option<u64>)
    ensures
        entries(*final(table)) == entries(*old(table)).insert(key@, value),
        previous == (if entries(*old(table)).contains_key(key@) {
            Some(entries(*old(table))[key@])
        } else {
            None
        }),
{
    table.insert(key, value)
}

/// `DashMap::remove`: afterwards `key` has no entry and every other entry
/// is as before. Returns what `key` mapped to before, if anything.
#[verifier::external_body]
pub(crate) fn table_remove(table: &mut DashMap<String, u64>, key: &String) -> (removed: Option<u64>)
    ensures
        entries(*final(table)) == entries(*old(table)).remove(key@),
        removed == (if entries(*old(table)).contains_key(key@) {
            Some(entries(*old(table))[key@])
        } else {
            None
        }),
{
    table.remove(key).map(|entry| entry.1)
}

/// `DashMap::get`: what `key` maps to, if anything.
#[verifier::external_body]
pub(crate) fn table_get(table: &DashMap<String, u64>, key: &String) -> (value: Option<u64>)
    ensures
        value == (if entries(*table).contains_key(key@) {
            Some(entries(*table)[key@])
        } else {
            None
        }),
{
    table.get(key).map(|entry| *entry.value())
}

} // verus!
