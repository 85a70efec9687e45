//! Success-or-failure containers seen uniformly: each converts to and from
//! `ControlFlow`, where `Continue` carries success and `Break` carries failure.

use core::ops::ControlFlow;
use vstd::prelude::*;

verus! {

/// A container that either continues with a value or breaks with another.
pub trait MyTry: Sized {
    type Break;

    type Continue;

    /// The container as a `ControlFlow`: what every contract below speaks of.
    spec fn control(self) -> ControlFlow<Self::Break, Self::Continue>;

    fn from_control_flow(ctrl: ControlFlow<Self::Break, Self::Continue>) -> (out: Self)
        ensures
            out.control() == ctrl,
    ;

    fn into_control_flow(self) -> (ctrl: ControlFlow<Self::Break, Self::Continue>)
        ensures
            ctrl == self.control(),
    ;

    fn is_continue(&self) -> (b: bool)
        ensures
            b == (self.control() is Continue),
    ;

    fn is_break(&self) -> (b: bool)
        ensures
            b == (self.control() is Break),
    {
        !self.is_continue()
    }

    fn from_continue(value: Self::Continue) -> (out: Self)
        ensures
            out.control() == ControlFlow::<Self::Break, Self::Continue>::Continue(value),
    {
        Self::from_control_flow(ControlFlow::Continue(value))
    }

    fn from_break(value: Self::Break) -> (out: Self)
        ensures
            out.control() == ControlFlow::<Self::Break, Self::Continue>::Break(value),
    {
        Self::from_control_flow(ControlFlow::Break(value))
    }

    fn into_continue(self) -> (out: Option<Self::Continue>)
        ensures
            out == match self.control() {
                ControlFlow::Continue(x) => Some(x),
                ControlFlow::Break(_) => None,
            },
    {
        match self.into_control_flow() {
            ControlFlow::Continue(x) => Some(x),
            ControlFlow::Break(_) => None,
        }
    }

    fn into_break(self) -> (out: Option<Self::Break>)
        ensures
            out == match self.control() {
                ControlFlow::Break(x) => Some(x),
                ControlFlow::Continue(_) => None,
            },
    {
        match self.into_control_flow() {
            ControlFlow::Break(x) => Some(x),
            ControlFlow::Continue(_) => None,
        }
    }
}

/// The same kind of container with another success type.
pub trait MapContinue<C>: MyTry {
    type Mapped: MyTry<Break = Self::Break, Continue = C>;

    /// Applies `f` to the success value; a failure is passed on without
    /// calling `f`.
    fn map<F>(self, f: F) -> (out: Self::Mapped) where F: FnOnce(Self::Continue) -> C
        requires
            self.control() matches ControlFlow::Continue(x) ==> call_requires(f, (x,)),
        ensures
            match self.control() {
                ControlFlow::Continue(x) => out.control() matches ControlFlow::Continue(y)
                    && call_ensures(f, (x,), y),
                ControlFlow::Break(b) => out.control() == ControlFlow::<Self::Break, C>::Break(b),
            },
    {
        match self.into_control_flow() {
            ControlFlow::Continue(x) => MyTry::from_continue(f(x)),
            ControlFlow::Break(b) => MyTry::from_break(b),
        }
    }
}

/// The same kind of container with another failure type.
pub trait MapBreak<B>: MyTry {
    type BreakMapped: MyTry<Break = B, Continue = Self::Continue>;
}

/// Unwraps one level of nesting: a success holding a container gives that
/// container, a failure becomes the inner container's failure.
pub fn flatten<S>(value: S) -> (out: S::Continue) where S: MyTry, S::Continue: MyTry<Break = S::Break>
    ensures
        match value.control() {
            ControlFlow::Continue(x) => out == x,
            ControlFlow::Break(b) => out.control() == ControlFlow::<
                S::Break,
                <S::Continue as MyTry>::Continue,
            >::Break(b),
        },
{
    match value.into_control_flow() {
        ControlFlow::Continue(x) => x,
        ControlFlow::Break(b) => MyTry::from_break(b),
    }
}

/// Continues with `f` on success; a failure is passed on without calling `f`.
pub fn flat_map<S, U, F>(value: S, f: F) -> (out: U) where
    S: MyTry,
    U: MyTry<Break = S::Break>,
    F: FnOnce(S::Continue) -> U,

    requires
        value.control() matches ControlFlow::Continue(x) ==> call_requires(f, (x,)),
    ensures
        match value.control() {
            ControlFlow::Continue(x) => call_ensures(f, (x,), out),
            ControlFlow::Break(b) => out.control() == ControlFlow::<S::Break, U::Continue>::Break(b),
        },
{
    match value.into_control_flow() {
        ControlFlow::Continue(x) => f(x),
        ControlFlow::Break(b) => MyTry::from_break(b),
    }
}

/// Swaps the two levels of a nested container: the failure of the inner one
/// becomes the failure of the whole, and the failure of the outer one becomes
/// a success that holds a failure.
pub fn transpose<S, M, Out>(value: S) -> (out: Out) where
    S: MyTry,
    S::Continue: MyTry,
    M: MyTry<Break = S::Break, Continue = <S::Continue as MyTry>::Continue>,
    Out: MyTry<Break = <S::Continue as MyTry>::Break, Continue = M>,

    ensures
        match value.control() {
            ControlFlow::Continue(inner) => match inner.control() {
                ControlFlow::Continue(x) => out.control() matches ControlFlow::Continue(m)
                    && m.control() == ControlFlow::<S::Break, M::Continue>::Continue(x),
                ControlFlow::Break(b) => out.control() == ControlFlow::<Out::Break, M>::Break(b),
            },
            ControlFlow::Break(b) => out.control() matches ControlFlow::Continue(m) && m.control()
                == ControlFlow::<S::Break, M::Continue>::Break(b),
        },
{
    match value.into_control_flow() {
        ControlFlow::Continue(inner) => match inner.into_control_flow() {
            ControlFlow::Continue(x) => Out::from_continue(M::from_continue(x)),
            ControlFlow::Break(b) => Out::from_break(b),
        },
        ControlFlow::Break(b) => Out::from_continue(M::from_break(b)),
    }
}

impl<B, C> MyTry for ControlFlow<B, C> {
    type Break = B;

    type Continue = C;

    open spec fn control(self) -> ControlFlow<B, C> {
        self
    }

    fn from_control_flow(ctrl: ControlFlow<B, C>) -> (out: Self) {
        ctrl
    }

    fn into_control_flow(self) -> (ctrl: ControlFlow<B, C>) {
        self
    }

    fn is_continue(&self) -> (b: bool) {
        match self {
            ControlFlow::Continue(_) => true,
            ControlFlow::Break(_) => false,
        }
    }
}

impl<B, C, C2> MapContinue<C2> for ControlFlow<B, C> {
    type Mapped = ControlFlow<B, C2>;
}

impl<B1, C, B2> MapBreak<B2> for ControlFlow<B1, C> {
    type BreakMapped = ControlFlow<B2, C>;
}

impl<T, E> MyTry for Result<T, E> {
    type Break = E;

    type Continue = T;

    open spec fn control(self) -> ControlFlow<E, T> {
        match self {
            Ok(x) => ControlFlow::Continue(x),
            Err(x) => ControlFlow::Break(x),
        }
    }

    fn from_control_flow(ctrl: ControlFlow<E, T>) -> (out: Self) {
        match ctrl {
            ControlFlow::Continue(x) => Ok(x),
            ControlFlow::Break(x) => Err(x),
        }
    }

    fn into_control_flow(self) -> (ctrl: ControlFlow<E, T>) {
        match self {
            Ok(x) => ControlFlow::Continue(x),
            Err(x) => ControlFlow::Break(x),
        }
    }

    fn is_continue(&self) -> (b: bool) {
        self.is_ok()
    }
}

impl<T, E, T2> MapContinue<T2> for Result<T, E> {
    type Mapped = Result<T2, E>;
}

impl<T, E1, E2> MapBreak<E2> for Result<T, E1> {
    type BreakMapped = Result<T, E2>;
}

impl<T> MyTry for Option<T> {
    type Break = ();

    type Continue = T;

    open spec fn control(self) -> ControlFlow<(), T> {
        match self {
            Some(x) => ControlFlow::Continue(x),
            None => ControlFlow::Break(()),
        }
    }

    fn from_control_flow(ctrl: ControlFlow<(), T>) -> (out: Self) {
        match ctrl {
            ControlFlow::Continue(x) => Some(x),
            ControlFlow::Break(unit) => {
                assert(unit == ());
                None
            },
        }
    }

    fn into_control_flow(self) -> (ctrl: ControlFlow<(), T>) {
        match self {
            Some(x) => ControlFlow::Continue(x),
            None => ControlFlow::Break(()),
        }
    }

    fn is_continue(&self) -> (b: bool) {
        self.is_some()
    }
}

impl<T, T2> MapContinue<T2> for Option<T> {
    type Mapped = Option<T2>;
}

impl<T> MapBreak<()> for Option<T> {
    type BreakMapped = Self;
}

} // verus!
