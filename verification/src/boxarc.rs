//! Shared immutable box: a reference-counted handle for values that are safe
//! to read from many holders at once.

use std::sync::Arc;
use vstd::prelude::*;

verus! {

/// A reference-counted handle to one shared value that is never mutated.
pub struct BoxArc<T>(pub Arc<T>);

impl<T> View for BoxArc<T> {
    type V = T;

    open spec fn view(&self) -> T {
        *self.0
    }
}

impl<T> BoxArc<T> {
    /// A first handle to `value`.
    pub fn new(value: T) -> (r: Self)
        ensures
            r@ == value,
    {
        Self(Arc::new(value))
    }

    /// Another handle to the value that `other` refers to; the value itself
    /// is not duplicated.
    pub fn clone(other: &Self) -> (r: Self)
        ensures
            r == *other,
            r@ == other@,
    {
        Self(Arc::clone(&other.0))
    }
}

impl<T> Clone for BoxArc<T> {
    /// Another handle to the same value.
    fn clone(&self) -> (r: Self)
        ensures
            r == *self,
    {
        Self(Arc::clone(&self.0))
    }
}

impl<T> std::ops::Deref for BoxArc<T> {
    type Target = T;

    /// The shared value.
    fn deref(&self) -> (r: &T)
        ensures
            *r == self@,
    {
        &*self.0
    }
}

} // verus!
