//! The chunk store: capacity-bounded, append-only storage in which every
//! value keeps the position it was given.
use core::marker::PhantomData;
use crate::lemmas::{
    lemma_allocation_counts, lemma_allocation_is_fresh, lemma_count_is_live,
    lemma_write_keeps_shape,
};
use crate::model::{
    chunked, count, fresh, holds, live, next_position, vacant, value_at, with_value, with_write,
};
use vstd::prelude::*;

verus! {

/// A position in a chunk store: the index of a chunk and of a slot in it.
/// It owns nothing; the store that issued it owns the value.
pub struct UnsafeArenaRef<T> {
    chunk: usize,
    elem: usize,
    __marker: PhantomData<T>,
}

impl<T> UnsafeArenaRef<T> {
    /// The position as a pair of naturals: chunk index, slot index.
    pub closed spec fn view(&self) -> (nat, nat) {
        (self.chunk as nat, self.elem as nat)
    }

    /// The index of the chunk.
    pub fn chunk(&self) -> (c: usize)
        ensures
            c == self@.0,
    {
        self.chunk
    }

    /// The index of the slot within its chunk.
    pub fn elem(&self) -> (e: usize)
        ensures
            e == self@.1,
    {
        self.elem
    }
}

impl<T> Clone for UnsafeArenaRef<T> {
    fn clone(&self) -> (r: Self)
        ensures
            r == *self,
    {
        UnsafeArenaRef { chunk: self.chunk, elem: self.elem, __marker: PhantomData }
    }
}

impl<T> Copy for UnsafeArenaRef<T> {

}

/// Append-only storage cut into chunks of one fixed capacity.
pub struct UnsafeArena<T> {
    chunks: Vec<Vec<T>>,
    capacity: usize,
}

impl<T> UnsafeArena<T> {
    /// The chunks, oldest first, each with its values in slot order.
    pub closed spec fn view(&self) -> Seq<Seq<T>> {
        Seq::new(self.chunks@.len(), |i: int| self.chunks@[i]@)
    }

    /// The capacity every chunk was configured with.
    pub closed spec fn spec_capacity(&self) -> nat {
        self.capacity as nat
    }

    /// The store has the shape of `chunked` and its length fits a machine word.
    pub open spec fn wf(&self) -> bool {
        &&& chunked(self@, self.spec_capacity())
        &&& self.spec_len() <= usize::MAX
    }

    /// The length the store reports.
    pub open spec fn spec_len(&self) -> nat {
        count(self@, self.spec_capacity())
    }

    /// Creates a store with one empty chunk of the given capacity.
    pub fn new(capacity: usize) -> (arena: Self)
        ensures
            arena.wf(),
            arena@ == fresh::<T>(),
            arena.spec_capacity() == capacity,
            arena.spec_len() == 0,
    {
        let mut chunks: Vec<Vec<T>> = Vec::new();
        chunks.push(Vec::with_capacity(capacity));
        let arena = UnsafeArena { chunks, capacity };
        assert(arena@ =~= seq![Seq::<T>::empty()]);
        arena
    }

    /// Places `t` in the last chunk if it has room, else in a new chunk
    /// appended for it, and returns the position.
    pub fn allocate(&mut self, t: T) -> (r: UnsafeArenaRef<T>)
        requires
            old(self).wf(),
            old(self).spec_len() < usize::MAX,
        ensures
            final(self).wf(),
            final(self).spec_capacity() == old(self).spec_capacity(),
            final(self)@ == with_value(old(self)@, old(self).spec_capacity(), t),
            r@ == next_position(old(self)@, old(self).spec_capacity()),
            !holds(old(self)@, r@),
            holds(final(self)@, r@),
            value_at(final(self)@, r@) == t,
            forall|p: (nat, nat)| #[trigger]
                holds(old(self)@, p) ==> holds(final(self)@, p) && value_at(final(self)@, p)
                    == value_at(old(self)@, p),
            old(self).spec_capacity() > 0 ==> final(self).spec_len() == old(self).spec_len() + 1,
    {
        let chunks_count = self.chunks.len();
        let last = chunks_count - 1;
        let filled = self.chunks[last].len();
        let ghost before = self@;
        proof {
            lemma_allocation_counts(before, self.spec_capacity(), t);
            lemma_allocation_is_fresh(before, self.spec_capacity(), t);
        }
        if filled < self.capacity {
            self.chunks[last].push(t);
            assert(self@ =~= before.update(last as int, before[last as int].push(t)));
            UnsafeArenaRef { chunk: last, elem: filled, __marker: PhantomData }
        } else {
            let mut chunk: Vec<T> = Vec::with_capacity(self.capacity);
            chunk.push(t);
            self.chunks.push(chunk);
            assert(self@ =~= before.push(seq![t]));
            UnsafeArenaRef { chunk: chunks_count, elem: 0, __marker: PhantomData }
        }
    }

    /// Whether `r` names a slot that this store has filled.
    pub fn contains(&self, r: &UnsafeArenaRef<T>) -> (b: bool)
        ensures
            b == holds(self@, r@),
    {
        r.chunk < self.chunks.len() && r.elem < self.chunks[r.chunk].len()
    }

    /// Reads the value at `r`.
    pub fn get(&self, r: &UnsafeArenaRef<T>) -> (t: &T)
        requires
            holds(self@, r@),
        ensures
            *t == value_at(self@, r@),
    {
        &self.chunks[r.chunk][r.elem]
    }

    /// Lends the slot at `r` for writing; no other slot can change.
    pub fn get_mut(&mut self, r: &UnsafeArenaRef<T>) -> (t: &mut T)
        requires
            holds(old(self)@, r@),
        ensures
            *t == value_at(old(self)@, r@),
            final(self).spec_capacity() == old(self).spec_capacity(),
            final(self)@ == with_write(old(self)@, r@, *final(t)),
            final(self).wf() == old(self).wf(),
    {
        let t = &mut self.chunks[r.chunk][r.elem];
        proof {
            lemma_write_keeps_shape(old(self)@, old(self).spec_capacity(), r@, *final(t));
        }
        t
    }

    /// The length: one capacity for each chunk before the last, plus the
    /// last chunk's length. With a positive capacity this is the number of
    /// values held.
    pub fn len(&self) -> (n: usize)
        requires
            self.wf(),
        ensures
            n == self.spec_len(),
            self.spec_capacity() > 0 ==> n == live(self@),
    {
        proof {
            if self.spec_capacity() > 0 {
                lemma_count_is_live(self@, self.spec_capacity());
            }
        }
        let chunks_count = self.chunks.len();
        self.capacity * (chunks_count - 1) + self.chunks[chunks_count - 1].len()
    }

    /// Whether nothing has been allocated yet: there is one chunk, and it is empty.
    pub fn is_empty(&self) -> (b: bool)
        ensures
            b == vacant(self@),
    {
        self.chunks.len() == 1 && self.chunks[0].len() == 0
    }

    /// The fixed capacity of each chunk, not a running total.
    pub fn capacity(&self) -> (c: usize)
        ensures
            c == self.spec_capacity(),
    {
        self.capacity
    }
}

} // verus!
