//! The shader program registry: compiled program handles keyed by name.
//!
//! The name table is a `rustc_hash::FxHashMap` (the standard `HashMap` with
//! the Fx hasher), held behind trusted wrappers whose contracts speak of the
//! table's contents as a `Map` from name to slot index.

use vstd::prelude::*;

verus! {

/// `rustc_hash::FxBuildHasher`, the hasher builder of `FxHashMap`.
#[verifier::external_type_specification]
#[verifier::external_body]
pub struct ExFxBuildHasher(rustc_hash::FxBuildHasher);

/// What a name table holds: the slot index filed under each name.
pub uninterp spec fn table_view(m: rustc_hash::FxHashMap<String, usize>) -> Map<Seq<char>, usize>;

/// Relies on `HashMap::default` (through the `FxHashMap` alias): a fresh map
/// is empty.
#[verifier::external_body]
pub fn table_new() -> (m: rustc_hash::FxHashMap<String, usize>)
    ensures
        table_view(m) =~= Map::empty(),
{
    rustc_hash::FxHashMap::default()
}

/// Relies on `HashMap::insert`: after the call the key maps to the new value
/// and every other key is unchanged.
#[verifier::external_body]
pub fn table_insert(m: &mut rustc_hash::FxHashMap<String, usize>, name: &str, slot: usize)
    ensures
        table_view(*final(m)) == table_view(*old(m)).insert(name@, slot),
{
    m.insert(name.to_string(), slot);
}

/// Relies on `HashMap::get`: returns the value filed under the key, if any.
#[verifier::external_body]
pub fn table_get(m: &rustc_hash::FxHashMap<String, usize>, name: &str) -> (r: Option<usize>)
    ensures
        r == if table_view(*m).contains_key(name@) {
            Some(table_view(*m)[name@])
        } else {
            None::<usize>
        },
{
    m.get(name).copied()
}

/// A compiled shader program handle. Handles compiled by one context are
/// numbered in compilation order, so equal ids mean the same compilation.
#[derive(Clone, Copy, PartialEq, Eq, Structural, Debug)]
pub struct ShaderProgram {
    pub id: u64,
}

} // verus!
