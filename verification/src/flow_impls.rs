//! The simplest flows: they answer every input at once and never complete.

use crate::custom_fn::CloneFn;
use crate::custom_fn::MapFn;
use crate::custom_fn::NewFn;
use crate::flow::Flow;
use core::marker::PhantomData;
use core::ops::ControlFlow;
use core::task::Context;
use core::task::Poll;
use vstd::prelude::*;

verus! {

/// Answers every input with a value that its maker gives.
pub struct RepeatWith<F, Ret> {
    pub fun: F,
    pub _ret: PhantomData<Ret>,
}

impl<F, Ret> Flow<()> for RepeatWith<F, Ret> where F: NewFn {
    type Yield = F::Out;

    type Return = Ret;

    open spec fn pollable(&self) -> bool {
        self.fun.callable()
    }

    open spec fn resumes(
        pre: Self,
        input: Option<()>,
        post: Self,
        rest: Option<()>,
        out: Poll<ControlFlow<Ret, F::Out>>,
    ) -> bool {
        &&& rest is None
        &&& match input {
            Some(_) => out matches Poll::Ready(ControlFlow::Continue(y)) && F::makes(pre.fun, post.fun, y),
            None => out is Pending && post == pre,
        }
    }

    open spec fn resumable(&self) -> bool {
        true
    }

    fn poll_resume(&mut self, cx: &mut Context<'_>, input: &mut Option<()>) -> (out: Poll<
        ControlFlow<Ret, F::Out>,
    >) {
        if input.take().is_some() {
            Poll::Ready(ControlFlow::Continue(self.fun.new_exec()))
        } else {
            Poll::Pending
        }
    }

    fn can_resume(&self) -> (b: bool) {
        true
    }
}

/// Answers every input with a clone of `value`.
pub fn repeat<T: Clone, Ret>(value: T) -> (flow: RepeatWith<CloneFn<T>, Ret>)
    ensures
        flow.fun.0 == value,
        flow.pollable(),
{
    repeat_with(CloneFn(value))
}

/// Answers every input with what `fun` makes.
pub fn repeat_with<F: NewFn, Ret>(fun: F) -> (flow: RepeatWith<F, Ret>)
    ensures
        flow.fun == fun,
{
    RepeatWith { fun, _ret: PhantomData }
}

/// Answers every input with what its mapper makes of it.
pub struct OnEachSync<F, Ret> {
    pub fun: F,
    pub _ret: PhantomData<Ret>,
}

impl<Y, Res, Ret, F> Flow<Res> for OnEachSync<F, Ret> where F: MapFn<Res, Out = Y> {
    type Yield = Y;

    type Return = Ret;

    open spec fn pollable(&self) -> bool {
        self.fun.callable()
    }

    open spec fn resumes(
        pre: Self,
        input: Option<Res>,
        post: Self,
        rest: Option<Res>,
        out: Poll<ControlFlow<Ret, Y>>,
    ) -> bool {
        &&& rest is None
        &&& match input {
            Some(x) => out matches Poll::Ready(ControlFlow::Continue(y)) && F::maps(
                pre.fun,
                x,
                post.fun,
                y,
            ),
            None => out is Pending && post == pre,
        }
    }

    open spec fn resumable(&self) -> bool {
        true
    }

    fn poll_resume(&mut self, cx: &mut Context<'_>, input: &mut Option<Res>) -> (out: Poll<
        ControlFlow<Ret, Y>,
    >) {
        match input.take() {
            Some(x) => Poll::Ready(ControlFlow::Continue(self.fun.map_exec(x))),
            None => Poll::Pending,
        }
    }

    fn can_resume(&self) -> (b: bool) {
        true
    }
}

/// Answers every input with what `fun` makes of it.
pub fn on_each_sync<Res, Y, Ret, F>(fun: F) -> (flow: OnEachSync<F, Ret>) where F: MapFn<Res, Out = Y>
    ensures
        flow.fun == fun,
{
    OnEachSync { fun, _ret: PhantomData }
}

/// Answers every input with that input.
pub struct Identity<Ret> {
    pub _ret: PhantomData<Ret>,
}

impl<Res, Ret> Flow<Res> for Identity<Ret> {
    type Yield = Res;

    type Return = Ret;

    open spec fn pollable(&self) -> bool {
        true
    }

    open spec fn resumes(
        pre: Self,
        input: Option<Res>,
        post: Self,
        rest: Option<Res>,
        out: Poll<ControlFlow<Ret, Res>>,
    ) -> bool {
        &&& rest is None
        &&& post == pre
        &&& out == match input {
            Some(x) => Poll::Ready(ControlFlow::<Ret, Res>::Continue(x)),
            None => Poll::Pending,
        }
    }

    open spec fn resumable(&self) -> bool {
        true
    }

    fn poll_resume(&mut self, cx: &mut Context<'_>, input: &mut Option<Res>) -> (out: Poll<
        ControlFlow<Ret, Res>,
    >) {
        match input.take() {
            Some(x) => Poll::Ready(ControlFlow::Continue(x)),
            None => Poll::Pending,
        }
    }

    fn can_resume(&self) -> (b: bool) {
        true
    }
}

/// The flow that answers every input with that input.
pub fn identity<Ret>() -> (flow: Identity<Ret>) {
    Identity { _ret: PhantomData }
}

} // verus!
