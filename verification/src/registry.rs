//! The callback contexts, kept by handle.
//!
//! A context carries the handler of one stream. The native facility cannot
//! hold a Rust value, so it is given the context's handle, a plain number,
//! and hands that number back with every callback and once more when the
//! subscription is gone. A handle is looked up as often as there are
//! callbacks and released once; a released handle finds nothing, and no
//! later context is ever given its number.

use vstd::prelude::*;

verus! {

/// The contexts that are alive, each under the handle it was registered
/// with.
pub struct ContextRegistry<H> {
    slots: Vec<Option<H>>,
}

impl<H> ContextRegistry<H> {
    /// The live contexts by handle.
    pub closed spec fn live(&self) -> Map<usize, H> {
        Map::new(
            |handle: usize| handle < self.slots@.len() && self.slots@[handle as int] is Some,
            |handle: usize| self.slots@[handle as int]->0,
        )
    }

    /// How many handles were given out so far. The next handle is this
    /// number.
    pub closed spec fn issued(&self) -> nat {
        self.slots@.len()
    }

    /// A registry without contexts, from which no handle was given out.
    pub fn new() -> (registry: Self)
        ensures
            registry.live() == Map::<usize, H>::empty(),
            registry.issued() == 0,
    {
        let registry = ContextRegistry { slots: Vec::new() };
        assert(registry.live() =~= Map::<usize, H>::empty());
        registry
    }

    /// Takes a context in and gives out its handle: the number of handles
    /// given out before, so one that no context ever had.
    pub fn register(&mut self, context: H) -> (handle: usize)
        ensures
            handle == old(self).issued(),
            !old(self).live().contains_key(handle),
            final(self).issued() == old(self).issued() + 1,
            final(self).live() == old(self).live().insert(handle, context),
    {
        let handle = self.slots.len();
        self.slots.push(Some(context));
        assert(self.live() =~= old(self).live().insert(handle, context));
        handle
    }

    /// The context under a handle, while it is alive.
    pub fn resolve(&self, handle: usize) -> (context: Option<&H>)
        ensures
            self.live().contains_key(handle) ==> context == Some(&self.live()[handle]),
            !self.live().contains_key(handle) ==> context is None,
    {
        if handle < self.slots.len() {
            self.slots[handle].as_ref()
        } else {
            None
        }
    }

    /// Whether a handle stands for a live context.
    pub fn is_live(&self, handle: usize) -> (alive: bool)
        ensures
            alive == self.live().contains_key(handle),
    {
        handle < self.slots.len() && self.slots[handle].is_some()
    }

    /// Takes the context under a handle out and hands it to the caller, who
    /// lets go of it. A handle that is not alive gives nothing and changes
    /// nothing.
    pub fn release(&mut self, handle: usize) -> (context: Option<H>)
        ensures
            old(self).live().contains_key(handle) ==> context == Some(old(self).live()[handle]),
            !old(self).live().contains_key(handle) ==> context is None,
            final(self).live() == old(self).live().remove(handle),
            final(self).issued() == old(self).issued(),
    {
        if handle < self.slots.len() {
            let mut context: Option<H> = None;
            self.slots.set_and_swap(handle, &mut context);
            assert(self.live() =~= old(self).live().remove(handle));
            context
        } else {
            assert(self.live() =~= old(self).live().remove(handle));
            None
        }
    }

    /// Every live handle was given out by this registry.
    pub proof fn lemma_live_handles_were_issued(&self)
        ensures
            forall|handle: usize| self.live().contains_key(handle) ==> handle < self.issued(),
    {
    }
}

/// A context is reclaimed exactly once: releasing its handle takes it out,
/// after which the handle finds nothing and a second release gives nothing,
/// while every other context stays where it was.
pub proof fn lemma_released_once<H>(live: Map<usize, H>, handle: usize)
    ensures
        !live.remove(handle).contains_key(handle),
        live.remove(handle).remove(handle) == live.remove(handle),
        forall|other: usize|
            other != handle ==> (live.remove(handle).contains_key(other) <==> live.contains_key(
                other,
            )),
        forall|other: usize|
            other != handle && live.contains_key(other) ==> live.remove(handle)[other]
                == live[other],
{
    assert(live.remove(handle).remove(handle) =~= live.remove(handle));
}

} // verus!
