//! The typed arena and its two handles.
use crate::internal::{UnsafeArena, UnsafeArenaRef};
use crate::model::{count, fresh, holds, vacant, value_at};
use crate::traits::{
    Arena, ArenaImmutRef, ArenaMutRef, ArenaRef, EnumArena, EnumImmutRef, EnumMutRef, EnumRef,
};
use vstd::prelude::*;

verus! {

/// An arena of `T` over one chunk store.
pub struct BasicArena<T> {
    inner: UnsafeArena<T>,
}

/// A shared handle into a `BasicArena`: it reads, and can be duplicated at will.
pub struct BasicArenaRef<T> {
    inner: UnsafeArenaRef<T>,
}

/// An exclusive handle into a `BasicArena`: it reads and writes, and cannot
/// be duplicated. It comes only from an allocation and ends in `freeze`.
pub struct BasicArenaMutRef<T> {
    inner: UnsafeArenaRef<T>,
}

impl<T> BasicArena<T> {
    /// Creates an arena with one empty chunk of the given capacity.
    pub fn new(capacity: usize) -> (arena: Self)
        ensures
            arena.wf(),
            arena.slots() == fresh::<T>(),
            arena.spec_capacity() == capacity,
            vacant(arena.slots()),
            count(arena.slots(), arena.spec_capacity()) == 0,
    {
        BasicArena { inner: UnsafeArena::new(capacity) }
    }
}

impl<T> Arena<T> for BasicArena<T> {
    type Ref = BasicArenaRef<T>;

    type MutRef = BasicArenaMutRef<T>;

    closed spec fn slots(&self) -> Seq<Seq<T>> {
        self.inner@
    }

    closed spec fn spec_capacity(&self) -> nat {
        self.inner.spec_capacity()
    }

    open spec fn ref_position(r: &BasicArenaRef<T>) -> (nat, nat) {
        r@
    }

    open spec fn mut_position(r: &BasicArenaMutRef<T>) -> (nat, nat) {
        r@
    }

    fn allocate(&mut self, t: T) -> (r: BasicArenaRef<T>) {
        BasicArenaRef { inner: self.inner.allocate(t) }
    }

    fn alloc_mut(&mut self, t: T) -> (m: BasicArenaMutRef<T>) {
        BasicArenaMutRef { inner: self.inner.allocate(t) }
    }

    fn copy(&mut self, r: &BasicArenaRef<T>) -> (m: BasicArenaMutRef<T>) where T: Clone {
        let value = self.inner.get(&r.inner).clone();
        self.alloc_mut(value)
    }

    fn copy_mut(&mut self, r: &BasicArenaMutRef<T>) -> (m: BasicArenaMutRef<T>) where T: Clone {
        let value = self.inner.get(&r.inner).clone();
        self.alloc_mut(value)
    }

    fn len(&self) -> (n: usize) {
        self.inner.len()
    }

    fn is_empty(&self) -> (b: bool) {
        self.inner.is_empty()
    }

    fn capacity(&self) -> (c: usize) {
        self.inner.capacity()
    }
}

impl<T> BasicArenaRef<T> {
    /// The position as a pair of naturals: chunk index, slot index.
    pub closed spec fn view(&self) -> (nat, nat) {
        self.inner@
    }

    /// The index of the chunk the handle names.
    pub fn chunk(&self) -> (c: usize)
        ensures
            c == self@.0,
    {
        self.inner.chunk()
    }

    /// The index of the slot the handle names within its chunk.
    pub fn elem(&self) -> (e: usize)
        ensures
            e == self@.1,
    {
        self.inner.elem()
    }
}

impl<T> Clone for BasicArenaRef<T> {
    fn clone(&self) -> (r: Self)
        ensures
            r == *self,
    {
        BasicArenaRef { inner: self.inner }
    }
}

impl<T> Copy for BasicArenaRef<T> {

}

impl<T> ArenaRef<T> for BasicArenaRef<T> {
    type In = BasicArena<T>;

    open spec fn position(&self) -> (nat, nat) {
        self@
    }

    fn is_in(&self, arena: &BasicArena<T>) -> (b: bool) {
        arena.inner.contains(&self.inner)
    }

    fn deref<'a>(&self, arena: &'a BasicArena<T>) -> (t: &'a T) {
        arena.inner.get(&self.inner)
    }

    fn make_mut(&self, arena: &mut BasicArena<T>) -> (m: BasicArenaMutRef<T>) where T: Clone {
        arena.copy(self)
    }
}

impl<T> ArenaImmutRef<T> for BasicArenaRef<T> {
    proof fn shared_position_agrees(&self) {
    }
}

impl<T> BasicArenaMutRef<T> {
    /// The position as a pair of naturals: chunk index, slot index.
    pub closed spec fn view(&self) -> (nat, nat) {
        self.inner@
    }

    /// The index of the chunk the handle names.
    pub fn chunk(&self) -> (c: usize)
        ensures
            c == self@.0,
    {
        self.inner.chunk()
    }

    /// The index of the slot the handle names within its chunk.
    pub fn elem(&self) -> (e: usize)
        ensures
            e == self@.1,
    {
        self.inner.elem()
    }
}

impl<T> ArenaRef<T> for BasicArenaMutRef<T> {
    type In = BasicArena<T>;

    open spec fn position(&self) -> (nat, nat) {
        self@
    }

    fn is_in(&self, arena: &BasicArena<T>) -> (b: bool) {
        arena.inner.contains(&self.inner)
    }

    fn deref<'a>(&self, arena: &'a BasicArena<T>) -> (t: &'a T) {
        arena.inner.get(&self.inner)
    }

    fn make_mut(&self, arena: &mut BasicArena<T>) -> (m: BasicArenaMutRef<T>) where T: Clone {
        arena.copy_mut(self)
    }
}

impl<T> ArenaMutRef<T> for BasicArenaMutRef<T> {
    proof fn exclusive_position_agrees(&self) {
    }

    fn deref_mut<'a>(&mut self, arena: &'a mut BasicArena<T>) -> (t: &'a mut T) {
        arena.inner.get_mut(&self.inner)
    }

    fn freeze(self) -> (r: BasicArenaRef<T>) {
        let BasicArenaMutRef { inner } = self;
        BasicArenaRef { inner }
    }
}

/// Freezing is a change of capability and nothing else: in every arena the
/// shared handle that `freeze` returns names a filled slot exactly when the
/// exclusive handle did, and reads the same value.
pub proof fn lemma_freeze_reads_the_same<T>(
    arena: BasicArena<T>,
    exclusive: BasicArenaMutRef<T>,
    shared: BasicArenaRef<T>,
)
    requires
        shared.position() == exclusive.position(),
    ensures
        holds(arena.slots(), shared.position()) == holds(arena.slots(), exclusive.position()),
        value_at(arena.slots(), shared.position()) == value_at(
            arena.slots(),
            exclusive.position(),
        ),
{
}

/// A typed arena is a heterogeneous arena of a single payload type: a
/// recursive type whose values refer to one another by handle needs no more.
impl<T> EnumArena<T> for BasicArena<T> {

}

impl<T> EnumRef<T, T> for BasicArenaRef<T> {

}

impl<T> EnumImmutRef<T, T> for BasicArenaRef<T> {

}

impl<T> EnumRef<T, T> for BasicArenaMutRef<T> {

}

impl<T> EnumMutRef<T, T> for BasicArenaMutRef<T> {

}

} // verus!
