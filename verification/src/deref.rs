//! Dereferencing that is a function of the value alone: the same pointer
//! always yields the same target, and reading it changes nothing.
use std::rc::Rc;
use std::sync::Arc;
use vstd::prelude::*;

verus! {

/// Types that can be dereferenced purely.
pub trait PureDeref {
    /// What the pointer leads to.
    type Target;

    /// The target, as a function of the pointer's value.
    spec fn pure_target(&self) -> Self::Target;

    /// Borrows the target.
    fn pure_deref(&self) -> (t: &Self::Target)
        ensures
            *t == self.pure_target(),
    ;
}

/// Types that can be mutably dereferenced purely.
pub trait PureDerefMut: PureDeref {
    /// Borrows the target for writing: afterwards the pointer leads to
    /// whatever was written.
    fn pure_deref_mut(&mut self) -> (t: &mut Self::Target)
        ensures
            *t == old(self).pure_target(),
            final(self).pure_target() == *final(t),
    ;
}

impl<'a, T> PureDeref for &'a T {
    type Target = T;

    open spec fn pure_target(&self) -> T {
        **self
    }

    fn pure_deref(&self) -> (t: &T) {
        *self
    }
}

impl<'a, T> PureDeref for &'a mut T {
    type Target = T;

    open spec fn pure_target(&self) -> T {
        **self
    }

    fn pure_deref(&self) -> (t: &T) {
        &**self
    }
}

impl<'a, T> PureDerefMut for &'a mut T {
    fn pure_deref_mut(&mut self) -> (t: &mut T) {
        &mut **self
    }
}

impl<T> PureDeref for Box<T> {
    type Target = T;

    open spec fn pure_target(&self) -> T {
        **self
    }

    fn pure_deref(&self) -> (t: &T) {
        &**self
    }
}

impl<T> PureDerefMut for Box<T> {
    fn pure_deref_mut(&mut self) -> (t: &mut T) {
        &mut **self
    }
}

impl<T> PureDeref for Rc<T> {
    type Target = T;

    open spec fn pure_target(&self) -> T {
        **self
    }

    fn pure_deref(&self) -> (t: &T) {
        &**self
    }
}

impl<T> PureDeref for Arc<T> {
    type Target = T;

    open spec fn pure_target(&self) -> T {
        **self
    }

    fn pure_deref(&self) -> (t: &T) {
        &**self
    }
}

} // verus!
