//! The interfaces of arenas and of the two kinds of handle.
//!
//! A handle is a position and nothing more, so every access names the arena
//! it goes through. Shared handles read; exclusive handles read and write,
//! and are never duplicated. `freeze` turns an exclusive handle into a
//! shared one over the same slot; `make_mut` copies a value into a fresh
//! slot and returns an exclusive handle to the copy.
use crate::model::{
    chunked, count, holds, live, next_position, vacant, value_at, with_value, with_write,
};
use vstd::prelude::*;

verus! {

/// An arena of `T`: chunked, append-only storage that hands out handles.
pub trait Arena<T>: Sized {
    /// The shared handle of this arena.
    type Ref: Copy;

    /// The exclusive handle of this arena.
    type MutRef;

    /// The chunks, oldest first, each with its values in slot order.
    spec fn slots(&self) -> Seq<Seq<T>>;

    /// The capacity every chunk was configured with.
    spec fn spec_capacity(&self) -> nat;

    /// The position a shared handle names.
    spec fn ref_position(r: &Self::Ref) -> (nat, nat);

    /// The position an exclusive handle names.
    spec fn mut_position(r: &Self::MutRef) -> (nat, nat);

    /// The arena has the shape of `chunked` and its length fits a machine word.
    open spec fn wf(&self) -> bool {
        &&& chunked(self.slots(), self.spec_capacity())
        &&& count(self.slots(), self.spec_capacity()) <= usize::MAX
    }

    /// One more value can be counted.
    open spec fn has_space(&self) -> bool {
        count(self.slots(), self.spec_capacity()) < usize::MAX
    }

    /// Allocates `t` and returns a shared handle to it.
    fn allocate(&mut self, t: T) -> (r: Self::Ref)
        requires
            old(self).wf(),
            old(self).has_space(),
        ensures
            final(self).wf(),
            final(self).spec_capacity() == old(self).spec_capacity(),
            final(self).slots() == with_value(old(self).slots(), old(self).spec_capacity(), t),
            Self::ref_position(&r) == next_position(old(self).slots(), old(self).spec_capacity()),
            old(self).spec_capacity() > 0 ==> count(final(self).slots(), final(self).spec_capacity())
                == count(old(self).slots(), old(self).spec_capacity()) + 1,
    ;

    /// Allocates `t` and returns an exclusive handle to it.
    fn alloc_mut(&mut self, t: T) -> (m: Self::MutRef)
        requires
            old(self).wf(),
            old(self).has_space(),
        ensures
            final(self).wf(),
            final(self).spec_capacity() == old(self).spec_capacity(),
            final(self).slots() == with_value(old(self).slots(), old(self).spec_capacity(), t),
            Self::mut_position(&m) == next_position(old(self).slots(), old(self).spec_capacity()),
            old(self).spec_capacity() > 0 ==> count(final(self).slots(), final(self).spec_capacity())
                == count(old(self).slots(), old(self).spec_capacity()) + 1,
    ;

    /// Clones the value behind a shared handle into a fresh slot and returns
    /// an exclusive handle to the clone. The slot behind `r` is not touched.
    fn copy(&mut self, r: &Self::Ref) -> (m: Self::MutRef) where T: Clone
        requires
            old(self).wf(),
            old(self).has_space(),
            holds(old(self).slots(), Self::ref_position(r)),
        ensures
            final(self).wf(),
            final(self).spec_capacity() == old(self).spec_capacity(),
            Self::mut_position(&m) == next_position(old(self).slots(), old(self).spec_capacity()),
            old(self).spec_capacity() > 0 ==> count(final(self).slots(), final(self).spec_capacity())
                == count(old(self).slots(), old(self).spec_capacity()) + 1,
            cloned(
                value_at(old(self).slots(), Self::ref_position(r)),
                value_at(final(self).slots(), Self::mut_position(&m)),
            ),
            final(self).slots() == with_value(
                old(self).slots(),
                old(self).spec_capacity(),
                value_at(final(self).slots(), Self::mut_position(&m)),
            ),
    ;

    /// Clones the value behind an exclusive handle into a fresh slot and
    /// returns an exclusive handle to the clone. The slot behind `r` is not touched.
    fn copy_mut(&mut self, r: &Self::MutRef) -> (m: Self::MutRef) where T: Clone
        requires
            old(self).wf(),
            old(self).has_space(),
            holds(old(self).slots(), Self::mut_position(r)),
        ensures
            final(self).wf(),
            final(self).spec_capacity() == old(self).spec_capacity(),
            Self::mut_position(&m) == next_position(old(self).slots(), old(self).spec_capacity()),
            old(self).spec_capacity() > 0 ==> count(final(self).slots(), final(self).spec_capacity())
                == count(old(self).slots(), old(self).spec_capacity()) + 1,
            cloned(
                value_at(old(self).slots(), Self::mut_position(r)),
                value_at(final(self).slots(), Self::mut_position(&m)),
            ),
            final(self).slots() == with_value(
                old(self).slots(),
                old(self).spec_capacity(),
                value_at(final(self).slots(), Self::mut_position(&m)),
            ),
    ;

    /// The length: one capacity for each chunk before the last, plus the
    /// last chunk's length. With a positive capacity this is the number of
    /// values held.
    fn len(&self) -> (n: usize)
        requires
            self.wf(),
        ensures
            n == count(self.slots(), self.spec_capacity()),
            self.spec_capacity() > 0 ==> n == live(self.slots()),
    ;

    /// Whether nothing has been allocated yet: there is one chunk, and it is empty.
    fn is_empty(&self) -> (b: bool)
        ensures
            b == vacant(self.slots()),
    ;

    /// The fixed capacity of each chunk, not a running total.
    fn capacity(&self) -> (c: usize)
        ensures
            c == self.spec_capacity(),
    ;
}

/// A handle into an arena of `T`: a position, with no ownership of the value.
pub trait ArenaRef<T>: Sized {
    /// The arena type this handle belongs to.
    type In: Arena<T>;

    /// The position the handle names: chunk index, slot index.
    spec fn position(&self) -> (nat, nat);

    /// Whether the handle names a slot that `arena` has filled.
    fn is_in(&self, arena: &Self::In) -> (b: bool)
        ensures
            b == holds(arena.slots(), self.position()),
    ;

    /// Reads the value behind the handle.
    fn deref<'a>(&self, arena: &'a Self::In) -> (t: &'a T)
        requires
            holds(arena.slots(), self.position()),
        ensures
            *t == value_at(arena.slots(), self.position()),
    ;

    /// Clones the value behind the handle into a fresh slot of `arena` and
    /// returns an exclusive handle to the clone. The slot behind the handle
    /// is not touched.
    fn make_mut(&self, arena: &mut Self::In) -> (m: <Self::In as Arena<T>>::MutRef) where T: Clone
        requires
            old(arena).wf(),
            old(arena).has_space(),
            holds(old(arena).slots(), self.position()),
        ensures
            final(arena).wf(),
            final(arena).spec_capacity() == old(arena).spec_capacity(),
            <Self::In as Arena<T>>::mut_position(&m) == next_position(
                old(arena).slots(),
                old(arena).spec_capacity(),
            ),
            old(arena).spec_capacity() > 0 ==> count(
                final(arena).slots(),
                final(arena).spec_capacity(),
            ) == count(old(arena).slots(), old(arena).spec_capacity()) + 1,
            cloned(
                value_at(old(arena).slots(), self.position()),
                value_at(final(arena).slots(), <Self::In as Arena<T>>::mut_position(&m)),
            ),
            final(arena).slots() == with_value(
                old(arena).slots(),
                old(arena).spec_capacity(),
                value_at(final(arena).slots(), <Self::In as Arena<T>>::mut_position(&m)),
            ),
    ;
}

/// A shared handle: read-only, freely duplicated.
pub trait ArenaImmutRef<T>: ArenaRef<T> + Copy where
    <Self as ArenaRef<T>>::In: Arena<T, Ref = Self>,
 {
    /// The arena and the handle agree on the position the handle names.
    proof fn shared_position_agrees(&self)
        ensures
            <Self::In as Arena<T>>::ref_position(self) == self.position(),
    ;
}

/// An exclusive handle: read and write, never duplicated.
pub trait ArenaMutRef<T>: ArenaRef<T> where <Self as ArenaRef<T>>::In: Arena<T, MutRef = Self> {
    /// The arena and the handle agree on the position the handle names.
    proof fn exclusive_position_agrees(&self)
        ensures
            <Self::In as Arena<T>>::mut_position(self) == self.position(),
    ;

    /// Lends the slot behind the handle for writing; no other slot can change.
    fn deref_mut<'a>(&mut self, arena: &'a mut Self::In) -> (t: &'a mut T)
        requires
            holds(old(arena).slots(), old(self).position()),
        ensures
            final(self).position() == old(self).position(),
            *t == value_at(old(arena).slots(), old(self).position()),
            final(arena).spec_capacity() == old(arena).spec_capacity(),
            final(arena).slots() == with_write(
                old(arena).slots(),
                old(self).position(),
                *final(t),
            ),
            final(arena).wf() == old(arena).wf(),
    ;

    /// Gives up write access. The shared handle names the same slot: nothing
    /// is allocated, moved or copied, and no arena is touched.
    fn freeze(self) -> (r: <Self::In as Arena<T>>::Ref)
        ensures
            <Self::In as Arena<T>>::ref_position(&r) == self.position(),
    ;
}

/// An arena that hosts several payload types, one typed arena for each,
/// behind one surface. `E` is the family the payload types belong to; every
/// operation names its payload type `T` and goes to the arena of `T`.
pub trait EnumArena<E>: Arena<E> {
    /// Allocates `t` in the arena of `T` and returns a shared handle to it.
    fn allocate_of<T>(&mut self, t: T) -> (r: <Self as Arena<T>>::Ref) where Self: Arena<T>
        requires
            <Self as Arena<T>>::wf(old(self)),
            <Self as Arena<T>>::has_space(old(self)),
        ensures
            <Self as Arena<T>>::wf(final(self)),
            <Self as Arena<T>>::spec_capacity(final(self)) == <Self as Arena<T>>::spec_capacity(
                old(self),
            ),
            <Self as Arena<T>>::slots(final(self)) == with_value(
                <Self as Arena<T>>::slots(old(self)),
                <Self as Arena<T>>::spec_capacity(old(self)),
                t,
            ),
            <Self as Arena<T>>::ref_position(&r) == next_position(
                <Self as Arena<T>>::slots(old(self)),
                <Self as Arena<T>>::spec_capacity(old(self)),
            ),
            <Self as Arena<T>>::spec_capacity(old(self)) > 0 ==> count(
                <Self as Arena<T>>::slots(final(self)),
                <Self as Arena<T>>::spec_capacity(final(self)),
            ) == count(
                <Self as Arena<T>>::slots(old(self)),
                <Self as Arena<T>>::spec_capacity(old(self)),
            ) + 1,
    {
        Arena::<T>::allocate(self, t)
    }

    /// Allocates `t` in the arena of `T` and returns an exclusive handle to it.
    fn alloc_mut_of<T>(&mut self, t: T) -> (m: <Self as Arena<T>>::MutRef) where Self: Arena<T>
        requires
            <Self as Arena<T>>::wf(old(self)),
            <Self as Arena<T>>::has_space(old(self)),
        ensures
            <Self as Arena<T>>::wf(final(self)),
            <Self as Arena<T>>::spec_capacity(final(self)) == <Self as Arena<T>>::spec_capacity(
                old(self),
            ),
            <Self as Arena<T>>::slots(final(self)) == with_value(
                <Self as Arena<T>>::slots(old(self)),
                <Self as Arena<T>>::spec_capacity(old(self)),
                t,
            ),
            <Self as Arena<T>>::mut_position(&m) == next_position(
                <Self as Arena<T>>::slots(old(self)),
                <Self as Arena<T>>::spec_capacity(old(self)),
            ),
            <Self as Arena<T>>::spec_capacity(old(self)) > 0 ==> count(
                <Self as Arena<T>>::slots(final(self)),
                <Self as Arena<T>>::spec_capacity(final(self)),
            ) == count(
                <Self as Arena<T>>::slots(old(self)),
                <Self as Arena<T>>::spec_capacity(old(self)),
            ) + 1,
    {
        Arena::<T>::alloc_mut(self, t)
    }

    /// Clones the value behind a shared handle into a fresh slot of the
    /// arena of `T` and returns an exclusive handle to the clone.
    fn copy_of<T>(&mut self, r: &<Self as Arena<T>>::Ref) -> (m: <Self as Arena<T>>::MutRef) where
        T: Clone,
        Self: Arena<T>,

        requires
            <Self as Arena<T>>::wf(old(self)),
            <Self as Arena<T>>::has_space(old(self)),
            holds(<Self as Arena<T>>::slots(old(self)), <Self as Arena<T>>::ref_position(r)),
        ensures
            <Self as Arena<T>>::wf(final(self)),
            <Self as Arena<T>>::spec_capacity(final(self)) == <Self as Arena<T>>::spec_capacity(
                old(self),
            ),
            <Self as Arena<T>>::mut_position(&m) == next_position(
                <Self as Arena<T>>::slots(old(self)),
                <Self as Arena<T>>::spec_capacity(old(self)),
            ),
            <Self as Arena<T>>::spec_capacity(old(self)) > 0 ==> count(
                <Self as Arena<T>>::slots(final(self)),
                <Self as Arena<T>>::spec_capacity(final(self)),
            ) == count(
                <Self as Arena<T>>::slots(old(self)),
                <Self as Arena<T>>::spec_capacity(old(self)),
            ) + 1,
            cloned(
                value_at(<Self as Arena<T>>::slots(old(self)), <Self as Arena<T>>::ref_position(r)),
                value_at(
                    <Self as Arena<T>>::slots(final(self)),
                    <Self as Arena<T>>::mut_position(&m),
                ),
            ),
            <Self as Arena<T>>::slots(final(self)) == with_value(
                <Self as Arena<T>>::slots(old(self)),
                <Self as Arena<T>>::spec_capacity(old(self)),
                value_at(
                    <Self as Arena<T>>::slots(final(self)),
                    <Self as Arena<T>>::mut_position(&m),
                ),
            ),
    {
        Arena::<T>::copy(self, r)
    }

    /// Clones the value behind an exclusive handle into a fresh slot of the
    /// arena of `T` and returns an exclusive handle to the clone.
    fn copy_mut_of<T>(&mut self, r: &<Self as Arena<T>>::MutRef) -> (m: <Self as Arena<T>>::MutRef) where
        T: Clone,
        Self: Arena<T>,

        requires
            <Self as Arena<T>>::wf(old(self)),
            <Self as Arena<T>>::has_space(old(self)),
            holds(<Self as Arena<T>>::slots(old(self)), <Self as Arena<T>>::mut_position(r)),
        ensures
            <Self as Arena<T>>::wf(final(self)),
            <Self as Arena<T>>::spec_capacity(final(self)) == <Self as Arena<T>>::spec_capacity(
                old(self),
            ),
            <Self as Arena<T>>::mut_position(&m) == next_position(
                <Self as Arena<T>>::slots(old(self)),
                <Self as Arena<T>>::spec_capacity(old(self)),
            ),
            <Self as Arena<T>>::spec_capacity(old(self)) > 0 ==> count(
                <Self as Arena<T>>::slots(final(self)),
                <Self as Arena<T>>::spec_capacity(final(self)),
            ) == count(
                <Self as Arena<T>>::slots(old(self)),
                <Self as Arena<T>>::spec_capacity(old(self)),
            ) + 1,
            cloned(
                value_at(<Self as Arena<T>>::slots(old(self)), <Self as Arena<T>>::mut_position(r)),
                value_at(
                    <Self as Arena<T>>::slots(final(self)),
                    <Self as Arena<T>>::mut_position(&m),
                ),
            ),
            <Self as Arena<T>>::slots(final(self)) == with_value(
                <Self as Arena<T>>::slots(old(self)),
                <Self as Arena<T>>::spec_capacity(old(self)),
                value_at(
                    <Self as Arena<T>>::slots(final(self)),
                    <Self as Arena<T>>::mut_position(&m),
                ),
            ),
    {
        Arena::<T>::copy_mut(self, r)
    }
}

/// A handle of payload type `T` into a heterogeneous arena of the family `E`.
pub trait EnumRef<E, T>: ArenaRef<T> where <Self as ArenaRef<T>>::In: EnumArena<E> {

}

/// A shared handle into a heterogeneous arena.
pub trait EnumImmutRef<E, T>: EnumRef<E, T> + ArenaImmutRef<T> where
    <Self as ArenaRef<T>>::In: EnumArena<E> + Arena<T, Ref = Self>,
 {

}

/// An exclusive handle into a heterogeneous arena.
pub trait EnumMutRef<E, T>: EnumRef<E, T> + ArenaMutRef<T> where
    <Self as ArenaRef<T>>::In: EnumArena<E> + Arena<T, MutRef = Self>,
 {

}

} // verus!
