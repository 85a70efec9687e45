//! Keeping only the newest output of a turn.

use crate::flow::Flow;
use crate::ops::FlowOp;
use crate::ops::WrapOp;
use crate::task::POLL_BUDGET;
use core::ops::ControlFlow;
use core::task::Context;
use core::task::Poll;
use vstd::prelude::*;

verus! {

/// A flow that is stepped as long as it makes progress, and of whose outputs
/// in one turn only the last goes out.
pub struct Latest<Fl> {
    pub inner: Fl,
}

/// Where one turn of `Latest` stands: the inner flow, what is in the outer
/// input slot, the filler input that the turn holds, and the newest report.
#[verifier::reject_recursive_types(R)]
#[verifier::reject_recursive_types(Fl)]
pub struct LatestTurn<R, Fl: Flow<R>> {
    pub inner: Fl,
    pub input: Option<R>,
    pub alt: Option<R>,
    pub best: Poll<ControlFlow<Fl::Return, Fl::Yield>>,
}

impl<R, Fl> LatestTurn<R, Fl> where Fl: Flow<R>, R: Default {
    /// One step of the inner flow inside a turn. The flow is polled with the
    /// outer input while there is one. Without one it is polled with the
    /// filler, which is a default input made when the turn holds none and the
    /// flow can be resumed. An output or a result is the newest report from
    /// then on.
    pub open spec fn advances(
        pre: Self,
        given: Option<R>,
        left: Option<R>,
        mid: Self,
        step: Poll<ControlFlow<Fl::Return, Fl::Yield>>,
    ) -> bool {
        &&& Fl::resumes(pre.inner, given, mid.inner, left, step)
        &&& if pre.input is Some {
            &&& given == pre.input
            &&& mid.input == left
            &&& mid.alt == pre.alt
        } else {
            &&& if pre.alt is None && pre.inner.resumable() {
                given matches Some(filler) && call_ensures(R::default, (), filler)
            } else {
                given == pre.alt
            }
            &&& mid.input is None
            &&& mid.alt == left
        }
        &&& mid.best == if step is Pending {
            pre.best
        } else {
            step
        }
    }

    /// Where a turn that may take `fuel` steps can end. It ends with the
    /// first step that is pending or gives the result, and goes on after an
    /// output. With no steps left it ends where it stands.
    pub open spec fn settles(pre: Self, end: Self, fuel: nat) -> bool
        decreases fuel,
    {
        if fuel == 0 {
            end == pre
        } else {
            exists|
                given: Option<R>,
                left: Option<R>,
                mid: Self,
                step: Poll<ControlFlow<Fl::Return, Fl::Yield>>,
            |
                {
                    &&& #[trigger] Self::advances(pre, given, left, mid, step)
                    &&& if step matches Poll::Ready(ControlFlow::Continue(_)) {
                        Self::settles(mid, end, (fuel - 1) as nat)
                    } else {
                        end == mid
                    }
                }
        }
    }
}

impl<Fl, R> Flow<R> for Latest<Fl> where Fl: Flow<R>, R: Default {
    type Yield = Fl::Yield;

    type Return = Fl::Return;

    open spec fn pollable(&self) -> bool {
        self.inner.pollable()
    }

    /// One step is one turn: it begins with no filler and nothing to report,
    /// and reports what was newest when the turn ended.
    open spec fn resumes(
        pre: Self,
        input: Option<R>,
        post: Self,
        rest: Option<R>,
        out: Poll<ControlFlow<Fl::Return, Fl::Yield>>,
    ) -> bool {
        exists|alt: Option<R>| #[trigger]
            LatestTurn::settles(
                LatestTurn { inner: pre.inner, input, alt: None, best: Poll::Pending },
                LatestTurn { inner: post.inner, input: rest, alt, best: out },
                POLL_BUDGET as nat,
            )
    }

    open spec fn resumable(&self) -> bool {
        self.inner.resumable()
    }

    fn poll_resume(&mut self, cx: &mut Context<'_>, input: &mut Option<R>) -> (out: Poll<
        ControlFlow<Fl::Return, Fl::Yield>,
    >) {
        let mut alt_input: Option<R> = None;
        let mut out = Poll::Pending;
        let mut budget: usize = POLL_BUDGET;
        let ghost start = LatestTurn::<R, Fl> {
            inner: self.inner,
            input: *input,
            alt: None,
            best: Poll::Pending,
        };
        while budget > 0
            invariant
                self.inner.pollable(),
                !(out matches Poll::Ready(ControlFlow::Break(_))),
                start == (LatestTurn::<R, Fl> {
                    inner: old(self).inner,
                    input: *old(input),
                    alt: None,
                    best: Poll::Pending,
                }),
                forall|end: LatestTurn<R, Fl>| #[trigger]
                    LatestTurn::settles(
                        LatestTurn { inner: self.inner, input: *input, alt: alt_input, best: out },
                        end,
                        budget as nat,
                    ) ==> LatestTurn::settles(start, end, POLL_BUDGET as nat),
            decreases budget,
        {
            let ghost cur = LatestTurn::<R, Fl> {
                inner: self.inner,
                input: *input,
                alt: alt_input,
                best: out,
            };
            let ghost fuel = budget as nat;
            budget = budget - 1;
            let ghost given: Option<R>;
            let ghost left: Option<R>;
            let step = if input.is_some() {
                proof {
                    given = *input;
                }
                let step = self.inner.poll_resume(cx, input);
                proof {
                    left = *input;
                }
                step
            } else {
                if alt_input.is_none() && self.inner.can_resume() {
                    alt_input = Some(R::default());
                }
                proof {
                    given = alt_input;
                }
                let step = self.inner.poll_resume(cx, &mut alt_input);
                proof {
                    left = alt_input;
                }
                step
            };
            match step {
                Poll::Ready(ControlFlow::Continue(value)) => {
                    out = Poll::Ready(ControlFlow::Continue(value));
                    proof {
                        let mid = LatestTurn::<R, Fl> {
                            inner: self.inner,
                            input: *input,
                            alt: alt_input,
                            best: out,
                        };
                        assert forall|end: LatestTurn<R, Fl>| #[trigger]
                            LatestTurn::settles(mid, end, budget as nat) implies LatestTurn::settles(
                            cur,
                            end,
                            fuel,
                        ) by {
                            assert(LatestTurn::advances(cur, given, left, mid, step));
                        }
                    }
                },
                Poll::Ready(ControlFlow::Break(ret)) => {
                    let out = Poll::Ready(ControlFlow::Break(ret));
                    proof {
                        let end = LatestTurn::<R, Fl> {
                            inner: self.inner,
                            input: *input,
                            alt: alt_input,
                            best: out,
                        };
                        assert(LatestTurn::advances(cur, given, left, end, step));
                        assert(LatestTurn::settles(cur, end, fuel));
                    }
                    return out;
                },
                Poll::Pending => {
                    proof {
                        let end = LatestTurn::<R, Fl> {
                            inner: self.inner,
                            input: *input,
                            alt: alt_input,
                            best: out,
                        };
                        assert(LatestTurn::advances(cur, given, left, end, step));
                        assert(LatestTurn::settles(cur, end, fuel));
                    }
                    return out;
                },
            }
        }
        proof {
            let end = LatestTurn::<R, Fl> {
                inner: self.inner,
                input: *input,
                alt: alt_input,
                best: out,
            };
            assert(LatestTurn::settles(end, end, 0));
        }
        out
    }

    fn can_resume(&self) -> (b: bool) {
        self.inner.can_resume()
    }
}

/// The operator that makes a flow report only its newest output.
pub struct LatestOp;

impl<Fl, R> FlowOp<Fl, R> for LatestOp where Fl: Flow<R>, R: Default {
    type Output = Latest<Fl>;

    open spec fn accepts(&self, flow: Fl) -> bool {
        true
    }

    open spec fn applies(self, flow: Fl, out: Latest<Fl>) -> bool {
        out.inner == flow
    }

    fn execute(self, flow: Fl) -> (out: Latest<Fl>) {
        Latest { inner: flow }
    }
}

/// The operator that makes a flow report only its newest output.
pub fn latest() -> (op: WrapOp<LatestOp>) {
    WrapOp(LatestOp)
}

} // verus!
