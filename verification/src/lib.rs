//! A minimal, synchronous dependency-injection container.
//!
//! A [`Container`] owns one shared context value, a type-keyed cache of
//! constructed capabilities, and the stack of types currently under
//! construction. A capability is any type implementing [`Build`]: "produce a
//! value of my type given mutable access to the container", recursing into
//! [`Container::get`] for its own dependencies and reading
//! [`Container::input`] for configuration.
//!
//! [`Container::get`] memoizes: the first request for a type constructs it and
//! stores one shared handle, every later request returns that same handle.
//! [`Container::build`] constructs afresh and never touches the cache. Both
//! fail with [`CycleError`] instead of recursing forever when a construction
//! re-enters a type already on the construction stack; the stack itself is
//! restored on every exit path, so a failed resolution leaves the container
//! ready for unrelated requests.

use vstd::prelude::*;

use std::sync::Arc;

pub mod laws;
mod store;

use store::Store;
use store::store_entries;

verus! {

/// The one failure of resolution: a capability was requested while it was
/// already under construction on the same call path, so no finite
/// construction order exists. The whole in-progress resolution is abandoned.
#[derive(Clone, Copy, Debug)]
pub struct CycleError;

/// A type that can be constructed given the [`Container`].
///
/// The two spec members name what only the running process can compute:
/// `key()` stands for `core::any::TypeId::of::<Self>()`, the identifier under
/// which the container files this type, and `instance_of` reads a cache token
/// back as the instance it records. Neither constrains implementors — both
/// default to an arbitrary value, so an implementation only writes `build` —
/// they give the container's contracts their vocabulary.
///
/// The `ensures` of [`Build::build`] is the implementor's side of the
/// protocol: construction may read the context and resolve further
/// capabilities through the container, which is exactly what
/// [`Container::evolves_to`] permits. A body composed of [`Container::get`],
/// [`Container::build`] and [`Container::input`] calls satisfies it.
pub trait Build<I>: Sized + 'static {
    /// This type's identifier, the key of its cache and stack entries.
    closed spec fn key() -> core::any::TypeId {
        arbitrary::<(Self, core::any::TypeId)>().1
    }

    /// The instance that a cache token of this type records.
    closed spec fn instance_of(tok: int) -> Self {
        arbitrary::<Map<int, Self>>()[tok]
    }

    /// Construct one instance, resolving dependencies through `container`.
    fn build(container: &mut Container<I>) -> (r: Result<Self, CycleError>)
        requires
            old(container).wf(),
        ensures
            final(container).wf(),
            old(container).evolves_to(*final(container)),
    ;
}

/// A container for constructed objects: the shared context, the type-keyed
/// cache of shared handles, and the construction stack used to detect cycles.
pub struct Container<I> {
    input: I,
    built: Store,
    stack: Vec<core::any::TypeId>,
}

impl<I> Container<I> {
    /// The context value the container was created with.
    pub closed spec fn context(self) -> I {
        self.input
    }

    /// The identifiers of the capabilities currently under construction,
    /// outermost first.
    pub closed spec fn in_progress(self) -> Seq<core::any::TypeId> {
        self.stack@
    }

    /// The cache: for each constructed capability's identifier, the token of
    /// the recorded instance (read back through [`Build::instance_of`]).
    pub closed spec fn cached(self) -> Map<core::any::TypeId, int> {
        store_entries(self.built)
    }

    /// A type under construction appears on the stack exactly once.
    pub open spec fn wf(self) -> bool {
        self.in_progress().no_duplicates()
    }

    /// How one resolution call may change the container: the context and the
    /// construction stack come back as they were, cache entries are only ever
    /// added, never replaced, and a type that is on the stack without being
    /// cached stays uncached — its own construction has not finished, so
    /// nothing may file a result for it.
    pub open spec fn evolves_to(self, post: Self) -> bool {
        &&& post.context() == self.context()
        &&& post.in_progress() == self.in_progress()
        &&& self.cached().submap_of(post.cached())
        &&& forall|k: core::any::TypeId|
            self.in_progress().contains(k) && !self.cached().dom().contains(k)
                ==> !(#[trigger] post.cached().dom().contains(k))
    }

    /// What one [`Container::get`] call did: the memoized-resolution contract.
    ///
    /// On a cache hit the container is untouched and success is owed; every
    /// success hands back exactly the handle recorded in the cache for `T`,
    /// which is what makes repeated requests agree; a request for a type
    /// already under construction and not yet cached is a cycle and fails
    /// with the container untouched; and a failed resolution never leaves a
    /// partial result filed for the requested type.
    pub open spec fn get_resolves<T: Build<I>>(
        pre: Self,
        post: Self,
        r: Result<Arc<T>, CycleError>,
    ) -> bool {
        &&& pre.evolves_to(post)
        &&& pre.cached().dom().contains(T::key()) ==> post == pre && r is Ok
        &&& r matches Ok(a) ==> post.cached().dom().contains(T::key())
            && *a == T::instance_of(post.cached()[T::key()])
        &&& pre.in_progress().contains(T::key()) && !pre.cached().dom().contains(T::key())
            ==> r is Err && post == pre
        &&& r is Err && !pre.cached().dom().contains(T::key())
            ==> !post.cached().dom().contains(T::key())
    }

    /// What one [`Container::build`] call did: the transient-resolution
    /// contract.
    ///
    /// A re-entrant request is refused outright with the container untouched,
    /// and the requested type is never filed in the cache by this call — its
    /// dependencies, resolved through [`Container::get`], may be.
    pub open spec fn build_resolves<T: Build<I>>(
        pre: Self,
        post: Self,
        r: Result<T, CycleError>,
    ) -> bool {
        &&& pre.evolves_to(post)
        &&& pre.in_progress().contains(T::key()) ==> r is Err && post == pre
        &&& !pre.cached().dom().contains(T::key()) ==> !post.cached().dom().contains(T::key())
    }

    /// Construct a new Container with the provided input.
    pub fn new(input: I) -> (c: Container<I>)
        ensures
            c.wf(),
            c.context() == input,
            c.in_progress() == Seq::<core::any::TypeId>::empty(),
            c.cached() == Map::<core::any::TypeId, int>::empty(),
    {
        Container { input, built: store::store_new(), stack: Vec::new() }
    }

    /// Get a reference to the provided input.
    pub fn input(&self) -> (r: &I)
        ensures
            *r == self.context(),
    {
        &self.input
    }

    /// Get the already created T, or build and store a new T.
    pub fn get<T: Build<I>>(&mut self) -> (r: Result<Arc<T>, CycleError>)
        requires
            old(self).wf(),
        ensures
            final(self).wf(),
            Self::get_resolves::<T>(*old(self), *final(self), r),
    {
        if let Some(got) = store::store_lookup::<I, T>(&self.built) {
            return Ok(got);
        }
        let built = match self.build::<T>() {
            Ok(v) => v,
            Err(e) => {
                return Err(e);
            },
        };
        let arc = Arc::new(built);
        store::store_insert::<I, T>(&mut self.built, &arc);
        Ok(arc)
    }

    /// Build and do not store a new T.
    pub fn build<T: Build<I>>(&mut self) -> (r: Result<T, CycleError>)
        requires
            old(self).wf(),
        ensures
            final(self).wf(),
            Self::build_resolves::<T>(*old(self), *final(self), r),
    {
        let tid = store::tid_of::<I, T>();
        if stack_holds(&self.stack, &tid) {
            return Err(CycleError);
        }
        self.stack.push(tid);
        let built = T::build(self);
        let _ = self.stack.pop();
        proof {
            assert(old(self).stack@.push(tid).drop_last() =~= old(self).stack@);
        }
        built
    }
}

/// Whether `tid` is currently on the construction stack.
fn stack_holds(stack: &Vec<core::any::TypeId>, tid: &core::any::TypeId) -> (r: bool)
    ensures
        r <==> stack@.contains(*tid),
{
    let mut i: usize = 0;
    while i < stack.len()
        invariant
            i <= stack@.len(),
            forall|j: int| 0 <= j < i ==> stack@[j] != *tid,
        decreases stack@.len() - i,
    {
        if store::tid_eq(&stack[i], tid) {
            proof {
                assert(stack@.contains(*tid)) by {
                    assert(stack@[i as int] == *tid);
                }
            }
            return true;
        }
        i += 1;
    }
    false
}

} // verus!
