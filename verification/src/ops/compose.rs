//! Piping: the outputs of one flow are the inputs of the next.

use crate::flow::Flow;
use crate::ops::FlowOp;
use crate::ops::WrapOp;
use core::ops::ControlFlow;
use core::task::Context;
use core::task::Poll;
use vstd::prelude::*;

verus! {

/// `src` piped into `dst`. An output of `src` waits in `b` until `dst` takes
/// it.
pub struct Compose<B, Src, Dst> {
    pub src: Src,
    pub dst: Dst,
    pub b: Option<B>,
}

impl<A, B, C, Ret, Src, Dst> Flow<A> for Compose<B, Src, Dst> where
    Src: Flow<A, Yield = B, Return = Ret>,
    Dst: Flow<B, Yield = C, Return = Ret>,
 {
    type Yield = C;

    type Return = Ret;

    open spec fn pollable(&self) -> bool {
        self.src.pollable() && self.dst.pollable()
    }

    /// One step polls `src` with the outer input. A result of `src` ends the
    /// step and the whole flow, and `dst` is left alone. Otherwise `dst` is
    /// polled with the newest output of `src`, or with what was waiting, and
    /// its report is the report of the whole.
    open spec fn resumes(
        pre: Self,
        input: Option<A>,
        post: Self,
        rest: Option<A>,
        out: Poll<ControlFlow<Ret, C>>,
    ) -> bool {
        exists|first: Poll<ControlFlow<Ret, B>>|
            {
                &&& #[trigger] Src::resumes(pre.src, input, post.src, rest, first)
                &&& match first {
                    Poll::Ready(ControlFlow::Break(ret)) => {
                        &&& out == Poll::Ready(ControlFlow::<Ret, C>::Break(ret))
                        &&& post.dst == pre.dst
                        &&& post.b == pre.b
                    },
                    Poll::Ready(ControlFlow::Continue(y)) => Dst::resumes(
                        pre.dst,
                        Some(y),
                        post.dst,
                        post.b,
                        out,
                    ),
                    Poll::Pending => Dst::resumes(pre.dst, pre.b, post.dst, post.b, out),
                }
            }
    }

    open spec fn resumable(&self) -> bool {
        self.src.resumable()
    }

    fn poll_resume(&mut self, cx: &mut Context<'_>, input: &mut Option<A>) -> (out: Poll<
        ControlFlow<Ret, C>,
    >) {
        let first = self.src.poll_resume(cx, input);
        let ghost witness = first;
        match first {
            Poll::Ready(ControlFlow::Continue(yielded)) => {
                self.b = Some(yielded);
            },
            Poll::Ready(ControlFlow::Break(ret)) => {
                assert(Src::resumes(old(self).src, *old(input), self.src, *input, witness));
                return Poll::Ready(ControlFlow::Break(ret));
            },
            Poll::Pending => {},
        }
        let out = self.dst.poll_resume(cx, &mut self.b);
        assert(Src::resumes(old(self).src, *old(input), self.src, *input, witness));
        out
    }

    fn can_resume(&self) -> (b: bool) {
        self.src.can_resume()
    }
}

/// The operator that pipes a flow into the one it holds.
pub struct ComposeOp<Fl2> {
    pub rhs: Fl2,
}

impl<A, B, Fl1, Fl2> FlowOp<Fl1, A> for ComposeOp<Fl2> where Fl1: Flow<A, Yield = B>, Fl2: Flow<B> {
    type Output = Compose<B, Fl1, Fl2>;

    open spec fn accepts(&self, flow: Fl1) -> bool {
        true
    }

    open spec fn applies(self, flow: Fl1, out: Compose<B, Fl1, Fl2>) -> bool {
        out == (Compose { src: flow, dst: self.rhs, b: None::<B> })
    }

    fn execute(self, flow: Fl1) -> (out: Compose<B, Fl1, Fl2>) {
        Compose { src: flow, dst: self.rhs, b: None }
    }
}

/// The operator that pipes a flow into `rhs`.
pub fn compose_with<Fl2>(rhs: Fl2) -> (op: WrapOp<ComposeOp<Fl2>>)
    ensures
        op.0.rhs == rhs,
{
    WrapOp(ComposeOp { rhs })
}

} // verus!
