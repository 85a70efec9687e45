//! A value together with the state that refers to it, owned as one.

use crate::custom_fn::NewFnOnce;
use vstd::prelude::*;

verus! {

/// Owns `target` and, beside it, `reference`: the state that works on the
/// target. The two are only ever lent out together, so the reference cannot
/// outlive what it refers to.
pub struct SelfRef<T, R> {
    pub reference: R,
    pub target: T,
}

impl<T, R> SelfRef<T, R> {
    /// Owns `target` beside a default reference.
    pub fn new(target: T) -> (this: Self) where R: Default
        ensures
            this.target == target,
            call_ensures(R::default, (), this.reference),
    {
        SelfRef { reference: R::default(), target }
    }

    /// Owns `target` beside the reference that `reference` makes.
    pub fn new_with<F>(target: T, reference: F) -> (this: Self) where F: NewFnOnce<Out = R>
        requires
            reference.callable(),
        ensures
            this.target == target,
            reference.makes_once(this.reference),
    {
        SelfRef { reference: reference.new_exec_once(), target }
    }

    /// The reference, to look at.
    pub fn reference(&self) -> (reference: &R)
        ensures
            *reference == self.reference,
    {
        &self.reference
    }
}

} // verus!
