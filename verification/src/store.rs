//! The trusted boundary around the type-erased storage.
//!
//! The container keys everything by `core::any::TypeId` and keeps one shared
//! handle per capability type inside an `anymap::Map`. Verus cannot look into
//! either, so this module declares `TypeId`, hides the heterogeneous map in
//! [`Store`], and states over [`store_entries`] what the few calls the
//! container makes are documented to do.

use vstd::prelude::*;

use std::sync::Arc;

use crate::Build;

verus! {

#[verifier::external_type_specification]
#[verifier::external_body]
pub struct ExTypeId(core::any::TypeId);


/// Relies on `core::any::TypeId`'s `PartialEq`: two identifiers are equal
/// exactly when they were produced for the same type.
#[verifier::external_body]
pub(crate) fn tid_eq(a: &core::any::TypeId, b: &core::any::TypeId) -> (r: bool)
    ensures
        r <==> *a == *b,
{
    a == b
}

/// Relies on `core::any::TypeId::of`: one stable, process-wide identifier per
/// type, here given the name `T::key()`.
#[verifier::external_body]
pub(crate) fn tid_of<I, T: Build<I>>() -> (r: core::any::TypeId)
    ensures
        r == T::key(),
{
    core::any::TypeId::of::<T>()
}

/// One shared handle per capability type, erased behind an `anymap::Map`.
///
/// The map's own key discipline (everything stored under the `TypeId` of its
/// type) is what makes the checked downcast inside `anymap` infallible.
#[verifier::external_body]
pub struct Store {
    map: anymap::AnyMap,
}

/// What the store holds: for each capability type's identifier, a token that
/// [`Build::instance_of`] maps back to the recorded instance.
pub uninterp spec fn store_entries(s: Store) -> Map<core::any::TypeId, int>;

/// Relies on `anymap::Map::new`: a freshly created map holds no entries.
#[verifier::external_body]
pub(crate) fn store_new() -> (fresh: Store)
    ensures
        forall|k: core::any::TypeId| !store_entries(fresh).dom().contains(k),
{
    Store { map: anymap::AnyMap::new() }
}

/// Relies on `anymap::Map::get`: returns the value stored for the requested
/// type, if there is one, and touches nothing else.
#[verifier::external_body]
pub(crate) fn store_lookup<I, T: Build<I>>(s: &Store) -> (r: Option<Arc<T>>)
    ensures
        r is Some <==> store_entries(*s).dom().contains(T::key()),
        r matches Some(a) ==> *a == T::instance_of(store_entries(*s)[T::key()]),
{
    s.map.get::<Arc<T>>().map(Arc::clone)
}

/// Relies on `anymap::Map::insert`: stores the handle under the capability's
/// type, replacing at most the entry of that one type.
#[verifier::external_body]
pub(crate) fn store_insert<I, T: Build<I>>(s: &mut Store, v: &Arc<T>)
    ensures
        store_entries(*final(s)).dom() == store_entries(*old(s)).dom().insert(T::key()),
        T::instance_of(store_entries(*final(s))[T::key()]) == **v,
        forall|k: core::any::TypeId|
            k != T::key() && store_entries(*old(s)).dom().contains(k)
                ==> store_entries(*final(s))[k] == store_entries(*old(s))[k],
{
    let _ = s.map.insert(Arc::clone(v));
}

} // verus!
