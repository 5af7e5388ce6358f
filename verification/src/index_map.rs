//! A fast string-keyed index map, taken from an outside hashing
//! crate.
//!
//! The engine keeps two kinds of name indexes: a schema's
//! field-name-to-position map and the catalog's schema-name-to-slot
//! map.  Both are `ahash::AHashMap<String, usize>` values; this
//! module declares the type to the verifier and gives contracts to
//! the three operations the engine calls on it.  The map's contents
//! are abstracted by [`string_map_entries`], a map from character
//! sequences to positions.

use vstd::prelude::*;
use ahash::AHashMap;
use ahash::RandomState;

verus! {

#[verifier::external_type_specification]
#[verifier::external_body]
#[verifier::reject_recursive_types(K)]
#[verifier::reject_recursive_types(V)]
#[verifier::reject_recursive_types(S)]
pub struct ExAHashMap<K, V, S>(AHashMap<K, V, S>);

#[verifier::external_type_specification]
#[verifier::external_body]
pub struct ExRandomState(RandomState);

/// What a string-keyed index map holds: the finite map from key
/// contents to stored position.
pub uninterp spec fn string_map_entries(m: AHashMap<String, usize, RandomState>) -> Map<
    Seq<char>,
    usize,
>;

/// Relies on `ahash::AHashMap::new`: a freshly created map holds no
/// entries.
#[verifier::external_body]
pub fn string_map_new() -> (m: AHashMap<String, usize, RandomState>)
    ensures
        string_map_entries(m) =~= Map::empty(),
{
    AHashMap::new()
}

/// Relies on `ahash::AHashMap::insert` (with `String` keys, whose
/// equality and hash agree with their character contents): the key's
/// entry is set to the value, every other entry is kept, and the
/// key's previous value, if any, is returned.
#[verifier::external_body]
pub fn string_map_insert(
    m: &mut AHashMap<String, usize, RandomState>,
    k: String,
    v: usize,
) -> (prev: Option<usize>)
    ensures
        string_map_entries(*final(m)) == string_map_entries(*old(m)).insert(k@, v),
        prev == (if string_map_entries(*old(m)).dom().contains(k@) {
            Option::Some(string_map_entries(*old(m))[k@])
        } else {
            Option::<usize>::None
        }),
{
    m.insert(k, v)
}

/// Relies on `ahash::AHashMap::get` (with `String` keys looked up by
/// `&str`, whose equality and hash agree with the keys'): returns the
/// key's entry if the key is present and nothing otherwise.
#[verifier::external_body]
pub fn string_map_get(m: &AHashMap<String, usize, RandomState>, k: &str) -> (r: Option<usize>)
    ensures
        r == (if string_map_entries(*m).dom().contains(k@) {
            Option::Some(string_map_entries(*m)[k@])
        } else {
            Option::<usize>::None
        }),
{
    m.get(k).copied()
}

} // verus!
