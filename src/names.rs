use vstd::prelude::*;

use crate::handle::Handle;
use fnv::FnvHashMap;

verus! {

/// The name index: each name that a value was inserted under, with the handle
/// issued for it. It is an `fnv::FnvHashMap`, which is std's `HashMap` hashing
/// with `fnv::FnvHasher`.
pub type NameTable = FnvHashMap<String, Handle>;

/// Declares `fnv::FnvHasher`, the hasher of the name table, as an opaque type.
#[verifier::external_type_specification]
#[verifier::external_body]
pub struct ExFnvHasher(fnv::FnvHasher);

/// Declares std's `BuildHasherDefault`, through which the name table makes its
/// hashers, as an opaque type.
#[verifier::external_type_specification]
#[verifier::external_body]
#[verifier::reject_recursive_types(H)]
pub struct ExBuildHasherDefault<H>(std::hash::BuildHasherDefault<H>);

/// A name index as a mathematical map.
pub type NameMap = Map<Seq<char>, Handle>;

/// What a name table maps, names taken as character sequences.
pub uninterp spec fn name_entries(t: NameTable) -> NameMap;

/// Relies on `FnvHashMap::default` (std's `HashMap::default`): a new map is empty.
#[verifier::external_body]
pub(crate) fn empty_table() -> (r: NameTable)
    ensures
        name_entries(r) == NameMap::empty(),
{
    FnvHashMap::default()
}

/// Relies on `HashMap::with_capacity_and_hasher`: the new map is empty whatever
/// room it reserves.
#[verifier::external_body]
pub(crate) fn empty_table_with_room(capacity: usize) -> (r: NameTable)
    ensures
        name_entries(r) == NameMap::empty(),
{
    FnvHashMap::with_capacity_and_hasher(capacity, Default::default())
}

/// Relies on `HashMap::get`: the value stored under an equal key, if any. Two
/// `String`s are equal exactly when they hold the same characters.
#[verifier::external_body]
pub(crate) fn lookup(t: &NameTable, name: &str) -> (r: Option<Handle>)
    ensures
        r == (if name_entries(*t).contains_key(name@) {
            Some(name_entries(*t)[name@])
        } else {
            None
        }),
{
    t.get(name).copied()
}

/// Relies on `HashMap::insert`: the key is mapped to the value, replacing what
/// it was mapped to before; no other key changes.
#[verifier::external_body]
pub(crate) fn record(t: &mut NameTable, name: String, h: Handle)
    ensures
        name_entries(*final(t)) == name_entries(*old(t)).insert(name@, h),
{
    t.insert(name, h);
}

/// Relies on `HashMap::remove`: the key, if present, is no longer mapped; no
/// other key changes.
#[verifier::external_body]
pub(crate) fn forget(t: &mut NameTable, name: &str)
    ensures
        name_entries(*final(t)) == name_entries(*old(t)).remove(name@),
{
    t.remove(name);
}

/// Relies on `HashMap::iter`: it visits every entry once, in an order that the
/// hasher decides. Each entry is copied out as a pair.
#[verifier::external_body]
pub(crate) fn listing(t: &NameTable) -> (r: Vec<(String, Handle)>)
    ensures
        forall|i: int|
            0 <= i < r@.len() ==> {
                &&& name_entries(*t).contains_key(#[trigger] r@[i].0@)
                &&& name_entries(*t)[r@[i].0@] == r@[i].1
            },
        forall|k: Seq<char>|
            #[trigger] name_entries(*t).contains_key(k) ==> exists|i: int|
                0 <= i < r@.len() && #[trigger] r@[i].0@ == k,
{
    t.iter().map(|(k, h)| (k.clone(), *h)).collect()
}

} // verus!
