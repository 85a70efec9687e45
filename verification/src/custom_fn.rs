//! Function objects that carry their own state: mappers from a value to a
//! value, and makers of values from nothing.

use vstd::prelude::*;

verus! {

/// A mapper that is used up by its one call.
pub trait MapFnOnce<In>: Sized {
    type Out;

    /// Whether the mapper may be called, whatever the value.
    open spec fn callable(&self) -> bool {
        true
    }

    /// The results the one call can give for `value`.
    open spec fn maps_once(self, value: In, out: Self::Out) -> bool {
        true
    }

    fn map_exec_once(self, value: In) -> (out: Self::Out)
        requires
            self.callable(),
        ensures
            self.maps_once(value, out),
    ;
}

/// A mapper that can be called again and again.
pub trait MapFn<In>: MapFnOnce<In> {
    /// The results a call can give for `value`, and the mapper it leaves.
    open spec fn maps(pre: Self, value: In, post: Self, out: Self::Out) -> bool {
        true
    }

    fn map_exec(&mut self, value: In) -> (out: Self::Out)
        requires
            old(self).callable(),
        ensures
            Self::maps(*old(self), value, *final(self), out),
            final(self).callable(),
    ;
}

impl<In, Out, F> MapFnOnce<In> for F where F: FnOnce(In) -> Out {
    type Out = Out;

    open spec fn callable(&self) -> bool {
        forall|value: In| call_requires(*self, (value,))
    }

    open spec fn maps_once(self, value: In, out: Out) -> bool {
        call_ensures(self, (value,), out)
    }

    fn map_exec_once(self, value: In) -> (out: Out) {
        self(value)
    }
}

impl<In, Out, F> MapFn<In> for F where F: FnMut(In) -> Out {
    open spec fn maps(pre: Self, value: In, post: Self, out: Out) -> bool {
        call_ensures(pre, (value,), out)
    }

    fn map_exec(&mut self, value: In) -> (out: Out) {
        self(value)
    }
}

/// A maker that is used up by its one call.
pub trait NewFnOnce: Sized {
    type Out;

    /// Whether the maker may be called.
    open spec fn callable(&self) -> bool {
        true
    }

    /// The values the one call can give.
    open spec fn makes_once(self, out: Self::Out) -> bool {
        true
    }

    fn new_exec_once(self) -> (out: Self::Out)
        requires
            self.callable(),
        ensures
            self.makes_once(out),
    ;
}

/// A maker that can be called again and again.
pub trait NewFn: NewFnOnce {
    /// The values a call can give, and the maker it leaves.
    open spec fn makes(pre: Self, post: Self, out: Self::Out) -> bool {
        true
    }

    fn new_exec(&mut self) -> (out: Self::Out)
        requires
            old(self).callable(),
        ensures
            Self::makes(*old(self), *final(self), out),
            final(self).callable(),
    ;
}

impl<Out, F> NewFnOnce for F where F: FnOnce() -> Out {
    type Out = Out;

    open spec fn callable(&self) -> bool {
        call_requires(*self, ())
    }

    open spec fn makes_once(self, out: Out) -> bool {
        call_ensures(self, (), out)
    }

    fn new_exec_once(self) -> (out: Out) {
        self()
    }
}

impl<Out, F> NewFn for F where F: FnMut() -> Out {
    open spec fn makes(pre: Self, post: Self, out: Out) -> bool {
        call_ensures(pre, (), out)
    }

    fn new_exec(&mut self) -> (out: Out) {
        self()
    }
}

/// The maker that gives a clone of the value it holds, every time.
pub struct CloneFn<T>(pub T);

impl<T: Clone> NewFnOnce for CloneFn<T> {
    type Out = T;

    open spec fn callable(&self) -> bool {
        true
    }

    open spec fn makes_once(self, out: T) -> bool {
        cloned(self.0, out)
    }

    fn new_exec_once(self) -> (out: T) {
        let mut this = self;
        this.new_exec()
    }
}

impl<T: Clone> NewFn for CloneFn<T> {
    open spec fn makes(pre: Self, post: Self, out: T) -> bool {
        post == pre && cloned(pre.0, out)
    }

    fn new_exec(&mut self) -> (out: T) {
        self.0.clone()
    }
}

} // verus!
