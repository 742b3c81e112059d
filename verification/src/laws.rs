//! The container's cross-call guarantees, stated and proved once.
//!
//! [`Container::get_resolves`] and [`Container::build_resolves`] describe a
//! single resolution call; the proof functions here chain them across calls:
//! a cached handle never changes, memoized requests for one type agree with
//! each other wherever they happen, and no resolution leaves anything on the
//! construction stack behind.

use vstd::prelude::*;

use std::sync::Arc;

use crate::Build;
use crate::Container;
use crate::CycleError;

verus! {

/// Container evolution composes: whatever holds of each resolution call in
/// turn holds of a whole sequence of them.
pub proof fn lemma_evolves_to_trans<I>(c0: Container<I>, c1: Container<I>, c2: Container<I>)
    requires
        c0.evolves_to(c1),
        c1.evolves_to(c2),
    ensures
        c0.evolves_to(c2),
{
    vstd::map_lib::lemma_submap_of_trans(c0.cached(), c1.cached(), c2.cached());
    assert forall|k: core::any::TypeId|
        c0.in_progress().contains(k) && !c0.cached().dom().contains(k) implies !(
    #[trigger] c2.cached().dom().contains(k)) by {
        assert(!c1.cached().dom().contains(k));
    }
}

/// A cache entry, once written, persists unchanged through any further
/// resolution: later calls may add entries for other types but never replace
/// the recorded one. In particular a request for one type leaves every other
/// type's entry exactly as it was — the entries are independent.
pub proof fn lemma_cache_entry_persists<I, U: Build<I>>(
    pre: Container<I>,
    post: Container<I>,
    tok: int,
)
    requires
        pre.evolves_to(post),
        pre.cached().dom().contains(U::key()),
        pre.cached()[U::key()] == tok,
    ensures
        post.cached().dom().contains(U::key()),
        post.cached()[U::key()] == tok,
{
    assert(pre.cached().submap_of(post.cached()));
}

/// Identity stability: two memoized requests for the same capability type on
/// one container return the same handle — both are the one the cache records.
pub proof fn lemma_identity_stability<I, T: Build<I>>(
    c0: Container<I>,
    c1: Container<I>,
    c2: Container<I>,
    a1: Arc<T>,
    a2: Arc<T>,
)
    requires
        Container::get_resolves::<T>(c0, c1, Result::<Arc<T>, CycleError>::Ok(a1)),
        Container::get_resolves::<T>(c1, c2, Result::<Arc<T>, CycleError>::Ok(a2)),
    ensures
        a1 == a2,
{
}

/// Shared sub-dependency: a handle obtained by one memoized request — for
/// instance by a dependent capability during its construction — and one
/// obtained by a later memoized request for the same type are the same
/// handle, however many resolutions ran in between.
pub proof fn lemma_shared_dependency<I, T: Build<I>>(
    c0: Container<I>,
    c1: Container<I>,
    cmid: Container<I>,
    c2: Container<I>,
    a1: Arc<T>,
    a2: Arc<T>,
)
    requires
        Container::get_resolves::<T>(c0, c1, Result::<Arc<T>, CycleError>::Ok(a1)),
        c1.evolves_to(cmid),
        Container::get_resolves::<T>(cmid, c2, Result::<Arc<T>, CycleError>::Ok(a2)),
    ensures
        a1 == a2,
{
    lemma_cache_entry_persists::<I, T>(c1, cmid, c1.cached()[T::key()]);
}

/// Cycle termination: a transient request for a type already under
/// construction is refused on the spot, with the container untouched —
/// resolution halts instead of recursing into the cycle.
pub proof fn lemma_cycle_refused<I, T: Build<I>>(
    c0: Container<I>,
    c1: Container<I>,
    r: Result<T, CycleError>,
)
    requires
        Container::build_resolves::<T>(c0, c1, r),
        c0.in_progress().contains(T::key()),
    ensures
        r is Err,
        c1 == c0,
{
}

/// No cross-call stack leakage: a resolution that began with nothing under
/// construction ends the same way, successful or not, so no later request can
/// be failed by a stale stack entry.
pub proof fn lemma_no_stack_leakage<I>(pre: Container<I>, post: Container<I>)
    requires
        pre.evolves_to(post),
        pre.in_progress() == Seq::<core::any::TypeId>::empty(),
    ensures
        post.in_progress() == Seq::<core::any::TypeId>::empty(),
        post.wf(),
        forall|k: core::any::TypeId| !post.in_progress().contains(k),
{
}

/// Context propagation: the context handed to [`Container::new`] is what
/// [`Container::input`] returns inside every construction, however far into
/// the dependency graph the resolution has descended.
pub proof fn lemma_context_propagation<I>(x: I, pre: Container<I>, post: Container<I>)
    requires
        pre.context() == x,
        pre.evolves_to(post),
    ensures
        post.context() == x,
{
}

} // verus!
