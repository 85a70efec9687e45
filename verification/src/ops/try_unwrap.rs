//! Ending a flow at the first output that is a failure.

use crate::flow::Flow;
use crate::my_try::MapContinue;
use crate::my_try::MyTry;
use crate::ops::FlowOp;
use crate::ops::WrapOp;
use core::ops::ControlFlow;
use core::task::Context;
use core::task::Poll;
use vstd::prelude::*;

verus! {

/// A flow of success-or-failure values, unwrapped: a success comes out as an
/// output, the first failure ends the flow.
pub struct TryUnwrap<Fl> {
    pub inner: Fl,
}

impl<Res, Y, Ret, Fl> Flow<Res> for TryUnwrap<Fl> where
    Fl: Flow<Res, Yield = Y, Return = Ret>,
    Y: MapContinue<Ret>,
 {
    type Yield = Y::Continue;

    type Return = Y::Mapped;

    open spec fn pollable(&self) -> bool {
        self.inner.pollable()
    }

    /// One step is one step of the inner flow. Its result comes out as a
    /// success, a failure among its outputs as the failure of the whole.
    open spec fn resumes(
        pre: Self,
        input: Option<Res>,
        post: Self,
        rest: Option<Res>,
        out: Poll<ControlFlow<Y::Mapped, Y::Continue>>,
    ) -> bool {
        exists|inner: Poll<ControlFlow<Ret, Y>>|
            {
                &&& #[trigger] Fl::resumes(pre.inner, input, post.inner, rest, inner)
                &&& match inner {
                    Poll::Pending => out is Pending,
                    Poll::Ready(ControlFlow::Continue(item)) => match item.control() {
                        ControlFlow::Continue(y) => out == Poll::Ready(
                            ControlFlow::<Y::Mapped, Y::Continue>::Continue(y),
                        ),
                        ControlFlow::Break(b) => {
                            &&& out matches Poll::Ready(ControlFlow::Break(failed))
                            &&& failed.control() == ControlFlow::<Y::Break, Ret>::Break(b)
                        },
                    },
                    Poll::Ready(ControlFlow::Break(ret)) => {
                        &&& out matches Poll::Ready(ControlFlow::Break(done))
                        &&& done.control() == ControlFlow::<Y::Break, Ret>::Continue(ret)
                    },
                }
            }
    }

    open spec fn resumable(&self) -> bool {
        true
    }

    fn poll_resume(&mut self, cx: &mut Context<'_>, input: &mut Option<Res>) -> (out: Poll<
        ControlFlow<Y::Mapped, Y::Continue>,
    >) {
        let inner = self.inner.poll_resume(cx, input);
        let ghost witness = inner;
        let out = match inner {
            Poll::Pending => Poll::Pending,
            Poll::Ready(ControlFlow::Continue(item)) => match item.into_control_flow() {
                ControlFlow::Continue(y) => Poll::Ready(ControlFlow::Continue(y)),
                ControlFlow::Break(b) => Poll::Ready(ControlFlow::Break(MyTry::from_break(b))),
            },
            Poll::Ready(ControlFlow::Break(ret)) => Poll::Ready(
                ControlFlow::Break(MyTry::from_continue(ret)),
            ),
        };
        assert(Fl::resumes(old(self).inner, *old(input), self.inner, *input, witness));
        out
    }

    fn can_resume(&self) -> (b: bool) {
        true
    }
}

/// The operator that unwraps a flow of success-or-failure values.
pub struct TryUnwrapOp;

impl<Res, Fl> FlowOp<Fl, Res> for TryUnwrapOp where Fl: Flow<Res> {
    type Output = TryUnwrap<Fl>;

    open spec fn accepts(&self, flow: Fl) -> bool {
        true
    }

    open spec fn applies(self, flow: Fl, out: TryUnwrap<Fl>) -> bool {
        out.inner == flow
    }

    fn execute(self, flow: Fl) -> (out: TryUnwrap<Fl>) {
        TryUnwrap { inner: flow }
    }
}

/// The operator that unwraps a flow of success-or-failure values.
pub fn try_unwrap() -> (op: WrapOp<TryUnwrapOp>) {
    WrapOp(TryUnwrapOp)
}

} // verus!
