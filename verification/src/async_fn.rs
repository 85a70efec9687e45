//! Functions that are called once and give a task.

use crate::task::Task;
use vstd::prelude::*;

verus! {

/// A function of no argument that is called once and gives a task.
pub trait AsyncFnOnce0: Sized {
    type Fut: Task<Output = Self::Output>;

    type Output;

    /// Whether the call may be made.
    open spec fn accepts(&self) -> bool {
        true
    }

    /// The tasks that the call can give.
    open spec fn calls(self, fut: Self::Fut) -> bool {
        true
    }

    fn call_once(self) -> (fut: Self::Fut)
        requires
            self.accepts(),
        ensures
            self.calls(fut),
    ;
}

impl<F, Fut> AsyncFnOnce0 for F where F: FnOnce() -> Fut, Fut: Task {
    type Fut = Fut;

    type Output = Fut::Output;

    open spec fn accepts(&self) -> bool {
        call_requires(*self, ())
    }

    open spec fn calls(self, fut: Fut) -> bool {
        call_ensures(self, (), fut)
    }

    fn call_once(self) -> (fut: Fut) {
        self()
    }
}

/// A function with its last argument already beside it.
impl<F, Fut, A> AsyncFnOnce0 for (F, A) where
    F: FnOnce(A) -> Fut,
    Fut: Task,
 {
    type Fut = Fut;

    type Output = Fut::Output;

    open spec fn accepts(&self) -> bool {
        call_requires(self.0, (self.1,))
    }

    open spec fn calls(self, fut: Fut) -> bool {
        call_ensures(self.0, (self.1,), fut)
    }

    fn call_once(self) -> (fut: Fut) {
        (self.0)(self.1)
    }
}

/// A function of one argument that is called once and gives a task.
pub trait AsyncFnOnce1<Arg0>: Sized {
    type Fut: Task<Output = Self::Output>;

    type Output;

    /// Whether the call may be made.
    open spec fn accepts(&self, arg0: Arg0) -> bool {
        true
    }

    /// The tasks that the call can give.
    open spec fn calls(self, arg0: Arg0, fut: Self::Fut) -> bool {
        true
    }

    fn call_once(self, arg0: Arg0) -> (fut: Self::Fut)
        requires
            self.accepts(arg0),
        ensures
            self.calls(arg0, fut),
    ;
}

impl<F, Fut, Arg0> AsyncFnOnce1<Arg0> for F where F: FnOnce(Arg0) -> Fut, Fut: Task {
    type Fut = Fut;

    type Output = Fut::Output;

    open spec fn accepts(&self, arg0: Arg0) -> bool {
        call_requires(*self, (arg0, ))
    }

    open spec fn calls(self, arg0: Arg0, fut: Fut) -> bool {
        call_ensures(self, (arg0, ), fut)
    }

    fn call_once(self, arg0: Arg0) -> (fut: Fut) {
        self(arg0)
    }
}

/// A function with its last argument already beside it.
impl<F, Fut, Arg0, A> AsyncFnOnce1<Arg0> for (F, A) where
    F: FnOnce(Arg0, A) -> Fut,
    Fut: Task,
 {
    type Fut = Fut;

    type Output = Fut::Output;

    open spec fn accepts(&self, arg0: Arg0) -> bool {
        call_requires(self.0, (arg0, self.1,))
    }

    open spec fn calls(self, arg0: Arg0, fut: Fut) -> bool {
        call_ensures(self.0, (arg0, self.1,), fut)
    }

    fn call_once(self, arg0: Arg0) -> (fut: Fut) {
        (self.0)(arg0, self.1)
    }
}

/// A function of two arguments that is called once and gives a task.
pub trait AsyncFnOnce2<Arg0, Arg1>: Sized {
    type Fut: Task<Output = Self::Output>;

    type Output;

    /// Whether the call may be made.
    open spec fn accepts(&self, arg0: Arg0, arg1: Arg1) -> bool {
        true
    }

    /// The tasks that the call can give.
    open spec fn calls(self, arg0: Arg0, arg1: Arg1, fut: Self::Fut) -> bool {
        true
    }

    fn call_once(self, arg0: Arg0, arg1: Arg1) -> (fut: Self::Fut)
        requires
            self.accepts(arg0, arg1),
        ensures
            self.calls(arg0, arg1, fut),
    ;
}

impl<F, Fut, Arg0, Arg1> AsyncFnOnce2<Arg0, Arg1> for F where F: FnOnce(Arg0, Arg1) -> Fut, Fut: Task {
    type Fut = Fut;

    type Output = Fut::Output;

    open spec fn accepts(&self, arg0: Arg0, arg1: Arg1) -> bool {
        call_requires(*self, (arg0, arg1, ))
    }

    open spec fn calls(self, arg0: Arg0, arg1: Arg1, fut: Fut) -> bool {
        call_ensures(self, (arg0, arg1, ), fut)
    }

    fn call_once(self, arg0: Arg0, arg1: Arg1) -> (fut: Fut) {
        self(arg0, arg1)
    }
}

/// A function with its last argument already beside it.
impl<F, Fut, Arg0, Arg1, A> AsyncFnOnce2<Arg0, Arg1> for (F, A) where
    F: FnOnce(Arg0, Arg1, A) -> Fut,
    Fut: Task,
 {
    type Fut = Fut;

    type Output = Fut::Output;

    open spec fn accepts(&self, arg0: Arg0, arg1: Arg1) -> bool {
        call_requires(self.0, (arg0, arg1, self.1,))
    }

    open spec fn calls(self, arg0: Arg0, arg1: Arg1, fut: Fut) -> bool {
        call_ensures(self.0, (arg0, arg1, self.1,), fut)
    }

    fn call_once(self, arg0: Arg0, arg1: Arg1) -> (fut: Fut) {
        (self.0)(arg0, arg1, self.1)
    }
}

/// A function of three arguments that is called once and gives a task.
pub trait AsyncFnOnce3<Arg0, Arg1, Arg2>: Sized {
    type Fut: Task<Output = Self::Output>;

    type Output;

    /// Whether the call may be made.
    open spec fn accepts(&self, arg0: Arg0, arg1: Arg1, arg2: Arg2) -> bool {
        true
    }

    /// The tasks that the call can give.
    open spec fn calls(self, arg0: Arg0, arg1: Arg1, arg2: Arg2, fut: Self::Fut) -> bool {
        true
    }

    fn call_once(self, arg0: Arg0, arg1: Arg1, arg2: Arg2) -> (fut: Self::Fut)
        requires
            self.accepts(arg0, arg1, arg2),
        ensures
            self.calls(arg0, arg1, arg2, fut),
    ;
}

impl<F, Fut, Arg0, Arg1, Arg2> AsyncFnOnce3<Arg0, Arg1, Arg2> for F where F: FnOnce(Arg0, Arg1, Arg2) -> Fut, Fut: Task {
    type Fut = Fut;

    type Output = Fut::Output;

    open spec fn accepts(&self, arg0: Arg0, arg1: Arg1, arg2: Arg2) -> bool {
        call_requires(*self, (arg0, arg1, arg2, ))
    }

    open spec fn calls(self, arg0: Arg0, arg1: Arg1, arg2: Arg2, fut: Fut) -> bool {
        call_ensures(self, (arg0, arg1, arg2, ), fut)
    }

    fn call_once(self, arg0: Arg0, arg1: Arg1, arg2: Arg2) -> (fut: Fut) {
        self(arg0, arg1, arg2)
    }
}

/// A function with its last argument already beside it.
impl<F, Fut, Arg0, Arg1, Arg2, A> AsyncFnOnce3<Arg0, Arg1, Arg2> for (F, A) where
    F: FnOnce(Arg0, Arg1, Arg2, A) -> Fut,
    Fut: Task,
 {
    type Fut = Fut;

    type Output = Fut::Output;

    open spec fn accepts(&self, arg0: Arg0, arg1: Arg1, arg2: Arg2) -> bool {
        call_requires(self.0, (arg0, arg1, arg2, self.1,))
    }

    open spec fn calls(self, arg0: Arg0, arg1: Arg1, arg2: Arg2, fut: Fut) -> bool {
        call_ensures(self.0, (arg0, arg1, arg2, self.1,), fut)
    }

    fn call_once(self, arg0: Arg0, arg1: Arg1, arg2: Arg2) -> (fut: Fut) {
        (self.0)(arg0, arg1, arg2, self.1)
    }
}

} // verus!
