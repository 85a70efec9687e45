//! Operators on the input side of a flow.

use crate::custom_fn::MapFn;
use crate::flow::Flow;
use crate::flow_impls::on_each_sync;
use crate::flow_impls::OnEachSync;
use crate::ops::compose::Compose;
use crate::ops::FlowOp;
use crate::ops::WrapOp;
use core::marker::PhantomData;
use core::ops::ControlFlow;
use core::task::Context;
use core::task::Poll;
use vstd::prelude::*;

verus! {

/// A flow that is stepped with a default input whenever the outer input slot
/// is full, whatever that input is.
pub struct DiscardInput<Fl, Res> {
    pub inner: Fl,
    pub _res: PhantomData<Res>,
}

impl<Res1, Res2, Fl> Flow<Res2> for DiscardInput<Fl, Res1> where Fl: Flow<Res1>, Res1: Default {
    type Yield = Fl::Yield;

    type Return = Fl::Return;

    open spec fn pollable(&self) -> bool {
        self.inner.pollable()
    }

    /// One step is one step of the inner flow, with a default input if the
    /// outer slot is full and with none if it is empty. The outer input is
    /// gone exactly if the inner flow took the default one.
    open spec fn resumes(
        pre: Self,
        input: Option<Res2>,
        post: Self,
        rest: Option<Res2>,
        out: Poll<ControlFlow<Fl::Return, Fl::Yield>>,
    ) -> bool {
        exists|given: Option<Res1>, left: Option<Res1>|
            {
                &&& #[trigger] Fl::resumes(pre.inner, given, post.inner, left, out)
                &&& given is Some <==> input is Some
                &&& given matches Some(value) ==> call_ensures(Res1::default, (), value)
                &&& rest == if left is None {
                    None
                } else {
                    input
                }
            }
    }

    open spec fn resumable(&self) -> bool {
        self.inner.resumable()
    }

    fn poll_resume(&mut self, cx: &mut Context<'_>, input: &mut Option<Res2>) -> (out: Poll<
        ControlFlow<Fl::Return, Fl::Yield>,
    >) {
        let mut default_input = if input.is_some() {
            Some(Res1::default())
        } else {
            None
        };
        let ghost given = default_input;
        let out = self.inner.poll_resume(cx, &mut default_input);
        if default_input.is_none() {
            *input = None;
        }
        assert(Fl::resumes(old(self).inner, given, self.inner, default_input, out));
        out
    }

    fn can_resume(&self) -> (b: bool) {
        self.inner.can_resume()
    }
}

/// The operator that makes a flow blind to its inputs.
pub struct DiscardInputOp<Res> {
    pub _res: PhantomData<Res>,
}

impl<Res, Fl> FlowOp<Fl, Res> for DiscardInputOp<Res> where Fl: Flow<Res> {
    type Output = DiscardInput<Fl, Res>;

    open spec fn accepts(&self, flow: Fl) -> bool {
        true
    }

    open spec fn applies(self, flow: Fl, out: DiscardInput<Fl, Res>) -> bool {
        out.inner == flow
    }

    fn execute(self, flow: Fl) -> (out: DiscardInput<Fl, Res>) {
        DiscardInput { inner: flow, _res: PhantomData }
    }
}

/// The operator that makes a flow blind to its inputs.
pub fn discard_input<Res>() -> (op: WrapOp<DiscardInputOp<Res>>) {
    WrapOp(DiscardInputOp { _res: PhantomData })
}

/// The operator that maps every input through the mapper it holds before the
/// flow sees it.
pub struct MapInputOp<F, A> {
    pub fun: F,
    pub _input: PhantomData<A>,
}

impl<A, B, F, Fl> FlowOp<Fl, B> for MapInputOp<F, A> where
    F: MapFn<A, Out = B>,
    Fl: Flow<B>,
 {
    type Output = Compose<B, OnEachSync<F, Fl::Return>, Fl>;

    open spec fn accepts(&self, flow: Fl) -> bool {
        true
    }

    open spec fn applies(self, flow: Fl, out: Compose<B, OnEachSync<F, Fl::Return>, Fl>) -> bool {
        &&& out.src.fun == self.fun
        &&& out.dst == flow
        &&& out.b is None
    }

    fn execute(self, flow: Fl) -> (out: Compose<B, OnEachSync<F, Fl::Return>, Fl>) {
        Compose { src: on_each_sync(self.fun), dst: flow, b: None }
    }
}

/// The operator that maps every input through `fun` before the flow sees it.
pub fn map_input<A, F>(fun: F) -> (op: WrapOp<MapInputOp<F, A>>) where F: MapFn<A>
    ensures
        op.0.fun == fun,
{
    WrapOp(MapInputOp { fun, _input: PhantomData })
}

} // verus!
