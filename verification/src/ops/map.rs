//! Mapping each output, or the final result, through a function.

use crate::custom_fn::MapFn;
use crate::custom_fn::MapFnOnce;
use crate::flow::Flow;
use crate::ops::FlowOp;
use crate::ops::WrapOp;
use core::ops::ControlFlow;
use core::task::Context;
use core::task::Poll;
use vstd::prelude::*;

verus! {

/// A flow whose outputs pass through a mapper.
pub struct MapSync<Fl, Fun> {
    pub flow: Fl,
    pub fun: Fun,
}

impl<Fl, Fun, Res, Y1, Y2> Flow<Res> for MapSync<Fl, Fun> where
    Fl: Flow<Res, Yield = Y1>,
    Fun: MapFn<Y1, Out = Y2>,
 {
    type Yield = Y2;

    type Return = Fl::Return;

    open spec fn pollable(&self) -> bool {
        self.flow.pollable() && self.fun.callable()
    }

    /// One step is one step of the inner flow. The mapper is called on an
    /// output, once, and on nothing else.
    open spec fn resumes(
        pre: Self,
        input: Option<Res>,
        post: Self,
        rest: Option<Res>,
        out: Poll<ControlFlow<Fl::Return, Y2>>,
    ) -> bool {
        exists|inner: Poll<ControlFlow<Fl::Return, Y1>>|
            {
                &&& #[trigger] Fl::resumes(pre.flow, input, post.flow, rest, inner)
                &&& match inner {
                    Poll::Ready(ControlFlow::Continue(y)) => {
                        &&& out matches Poll::Ready(ControlFlow::Continue(z))
                        &&& Fun::maps(pre.fun, y, post.fun, z)
                    },
                    Poll::Ready(ControlFlow::Break(ret)) => {
                        &&& out == Poll::Ready(ControlFlow::<Fl::Return, Y2>::Break(ret))
                        &&& post.fun == pre.fun
                    },
                    Poll::Pending => out is Pending && post.fun == pre.fun,
                }
            }
    }

    open spec fn resumable(&self) -> bool {
        self.flow.resumable()
    }

    fn poll_resume(&mut self, cx: &mut Context<'_>, input: &mut Option<Res>) -> (out: Poll<
        ControlFlow<Fl::Return, Y2>,
    >) {
        let inner = self.flow.poll_resume(cx, input);
        let ghost witness = inner;
        let out = match inner {
            Poll::Ready(ControlFlow::Continue(y)) => Poll::Ready(
                ControlFlow::Continue(self.fun.map_exec(y)),
            ),
            Poll::Ready(ControlFlow::Break(ret)) => Poll::Ready(ControlFlow::Break(ret)),
            Poll::Pending => Poll::Pending,
        };
        assert(Fl::resumes(old(self).flow, *old(input), self.flow, *input, witness));
        out
    }

    fn can_resume(&self) -> (b: bool) {
        self.flow.can_resume()
    }
}

/// The operator that maps every output of a flow through the mapper it holds.
pub struct MapSyncOp<Fun> {
    pub fun: Fun,
}

impl<Fl, Fun, Res> FlowOp<Fl, Res> for MapSyncOp<Fun> where Fl: Flow<Res>, Fun: MapFn<Fl::Yield> {
    type Output = MapSync<Fl, Fun>;

    open spec fn accepts(&self, flow: Fl) -> bool {
        true
    }

    open spec fn applies(self, flow: Fl, out: MapSync<Fl, Fun>) -> bool {
        out == (MapSync { flow, fun: self.fun })
    }

    fn execute(self, flow: Fl) -> (out: MapSync<Fl, Fun>) {
        MapSync { flow, fun: self.fun }
    }
}

/// The operator that maps every output of a flow through `fun`.
pub fn map_sync<Fun>(fun: Fun) -> (op: WrapOp<MapSyncOp<Fun>>)
    ensures
        op.0.fun == fun,
{
    WrapOp(MapSyncOp { fun })
}

/// A flow whose final result passes through a mapper. The mapper is held
/// until the result has come.
pub struct MapReturnSync<Fl, Fun> {
    pub flow: Fl,
    pub fun: Option<Fun>,
}

impl<Fl, Fun, Res, Ret1, Ret2> Flow<Res> for MapReturnSync<Fl, Fun> where
    Fl: Flow<Res, Return = Ret1>,
    Fun: MapFnOnce<Ret1, Out = Ret2>,
 {
    type Yield = Fl::Yield;

    type Return = Ret2;

    open spec fn pollable(&self) -> bool {
        &&& self.flow.pollable()
        &&& self.fun matches Some(fun) && fun.callable()
    }

    /// One step is one step of the inner flow. The mapper is called on the
    /// result, once, and is gone after that.
    open spec fn resumes(
        pre: Self,
        input: Option<Res>,
        post: Self,
        rest: Option<Res>,
        out: Poll<ControlFlow<Ret2, Fl::Yield>>,
    ) -> bool {
        exists|inner: Poll<ControlFlow<Ret1, Fl::Yield>>|
            {
                &&& #[trigger] Fl::resumes(pre.flow, input, post.flow, rest, inner)
                &&& match inner {
                    Poll::Ready(ControlFlow::Continue(y)) => {
                        &&& out == Poll::Ready(ControlFlow::<Ret2, Fl::Yield>::Continue(y))
                        &&& post.fun == pre.fun
                    },
                    Poll::Ready(ControlFlow::Break(ret)) => {
                        &&& out matches Poll::Ready(ControlFlow::Break(mapped))
                        &&& pre.fun matches Some(fun)
                        &&& fun.maps_once(ret, mapped)
                        &&& post.fun is None
                    },
                    Poll::Pending => out is Pending && post.fun == pre.fun,
                }
            }
    }

    open spec fn resumable(&self) -> bool {
        self.flow.resumable()
    }

    fn poll_resume(&mut self, cx: &mut Context<'_>, input: &mut Option<Res>) -> (out: Poll<
        ControlFlow<Ret2, Fl::Yield>,
    >) {
        let inner = self.flow.poll_resume(cx, input);
        let ghost witness = inner;
        let out = match inner {
            Poll::Ready(ControlFlow::Continue(y)) => Poll::Ready(ControlFlow::Continue(y)),
            Poll::Ready(ControlFlow::Break(ret)) => {
                let fun = self.fun.take().unwrap();
                Poll::Ready(ControlFlow::Break(fun.map_exec_once(ret)))
            },
            Poll::Pending => Poll::Pending,
        };
        assert(Fl::resumes(old(self).flow, *old(input), self.flow, *input, witness));
        out
    }

    fn can_resume(&self) -> (b: bool) {
        self.flow.can_resume()
    }
}

/// The operator that maps the final result of a flow through the mapper it
/// holds.
pub struct MapReturnSyncOp<Fun> {
    pub fun: Fun,
}

impl<Fl, Fun, Res> FlowOp<Fl, Res> for MapReturnSyncOp<Fun> where
    Fl: Flow<Res>,
    Fun: MapFnOnce<Fl::Return>,
 {
    type Output = MapReturnSync<Fl, Fun>;

    open spec fn accepts(&self, flow: Fl) -> bool {
        true
    }

    open spec fn applies(self, flow: Fl, out: MapReturnSync<Fl, Fun>) -> bool {
        out == (MapReturnSync { flow, fun: Some(self.fun) })
    }

    fn execute(self, flow: Fl) -> (out: MapReturnSync<Fl, Fun>) {
        MapReturnSync { flow, fun: Some(self.fun) }
    }
}

/// The operator that maps the final result of a flow through `fun`.
pub fn map_return_sync<Fun>(fun: Fun) -> (op: WrapOp<MapReturnSyncOp<Fun>>)
    ensures
        op.0.fun == fun,
{
    WrapOp(MapReturnSyncOp { fun })
}

} // verus!
