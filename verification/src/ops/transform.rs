//! Transforming: each output of a source is handed to a body, a routine that
//! emits what it likes through the sender of the whole and whose output is
//! the next input of the source.

use crate::convert::ExtendFromFlow;
use crate::convert::FromFlow;
use crate::convert::IntoFlow;
use crate::convert::IterFlow;
use crate::custom_fn::MapFn;
use crate::custom_fn::MapFnOnce;
use crate::emit::emit_all;
use crate::emit::lemma_emits_one;
use crate::emit::EmitAll;
use crate::flow::Flow;
use crate::generator::FlowFn;
use crate::my_try::MapContinue;
use crate::my_try::MyTry;
use crate::generator::FlowFromFn;
use crate::generator::FlowFromFnInner;
use crate::generator::flow_from_fn;
use crate::ops::FlowOp;
use crate::ops::WrapOp;
use crate::sender::Next;
use crate::sender::Routine;
use crate::sender::Sender;
use crate::state::resumed;
use crate::state::yielded;
use crate::state::FlowState;
use crate::task::completes;
use crate::task::wake_again;
use crate::task::Task;
use crate::task::POLL_BUDGET;
use core::marker::PhantomData;
use core::ops::ControlFlow;
use core::task::Context;
use core::task::Poll;
use vstd::prelude::*;

verus! {

/// The routine that runs a source through bodies. `input` holds what the
/// source is to be resumed with next; `body` holds the body of the output
/// that is being worked on.
pub struct TransformEach<Res, Src, F, Body> {
    pub src: Src,
    pub fun: F,
    pub input: Option<Res>,
    pub body: Option<Body>,
}

impl<Res, Src, F, Body> TransformEach<Res, Src, F, Body> {
    /// Whether every body that the mapper can ever make may be polled.
    pub open spec fn makes_pollable<Y>() -> bool where
        Src: Flow<Res>,
        F: MapFn<Src::Yield, Out = Body>,
        Body: Routine<Y, Res, Output = Res>,
     {
        forall|pre: F, value: Src::Yield, post: F, body: Body| #[trigger]
            F::maps(pre, value, post, body) ==> body.pollable()
    }

    /// Whether every body may be polled while no output waits in the cell.
    pub open spec fn bodies_admit<Y>() -> bool where Body: Routine<Y, Res> {
        forall|body: Body, cell: FlowState<Y, Res>|
            !(cell is Yield) ==> #[trigger] body.admits(cell)
    }

    /// The first half of a round: the body that is being worked on is polled
    /// once, with `cell` in the handoff cell, leaves `left` there and reports
    /// `polled`. Its output is the next input of the source. Without a body
    /// nothing happens.
    pub open spec fn works<Y>(
        pre: Self,
        cell: FlowState<Y, Res>,
        mid: Self,
        left: FlowState<Y, Res>,
        polled: Poll<Res>,
    ) -> bool where
        Src: Flow<Res>,
        F: MapFn<Src::Yield, Out = Body>,
        Body: Routine<Y, Res, Output = Res>,
     {
        &&& mid.src == pre.src
        &&& mid.fun == pre.fun
        &&& match pre.body {
            None => mid.body is None && mid.input == pre.input && left == cell,
            Some(body) => match polled {
                Poll::Pending => {
                    &&& mid.body matches Some(after)
                    &&& Body::runs(body, cell, after, left, polled)
                    &&& mid.input == pre.input
                },
                Poll::Ready(output) => {
                    &&& mid.body is None
                    &&& exists|after: Body| #[trigger] Body::runs(body, cell, after, left, polled)
                    &&& mid.input == Some(output)
                },
            },
        }
    }

    /// The second half of a round, which takes place unless the body is
    /// still being worked on: the source is polled once, with `input`, and
    /// reports `step`. An output is handed to the mapper, and what the
    /// mapper makes of it is the body from then on.
    pub open spec fn draws(
        mid: Self,
        post: Self,
        step: Poll<ControlFlow<Src::Return, Src::Yield>>,
    ) -> bool where Src: Flow<Res>, F: MapFn<Src::Yield, Out = Body> {
        &&& Src::resumes(mid.src, mid.input, post.src, post.input, step)
        &&& match step {
            Poll::Ready(ControlFlow::Continue(value)) => {
                &&& post.body matches Some(body)
                &&& F::maps(mid.fun, value, post.fun, body)
            },
            _ => post.body == mid.body && post.fun == mid.fun,
        }
    }

    /// One round of a poll, and what it reports if it ends the poll. While an
    /// output waits in the cell nothing is polled and the poll ends, pending.
    /// Else the round reports pending if the body or the source is, and the
    /// result of the source when it comes.
    pub open spec fn round<Y>(
        pre: Self,
        cell: FlowState<Y, Res>,
        post: Self,
        left: FlowState<Y, Res>,
        report: Option<Poll<Src::Return>>,
    ) -> bool where
        Src: Flow<Res>,
        F: MapFn<Src::Yield, Out = Body>,
        Body: Routine<Y, Res, Output = Res>,
     {
        if cell is Yield {
            post == pre && left == cell && report == Some(Poll::<Src::Return>::Pending)
        } else {
            exists|mid: Self, polled: Poll<Res>|
                {
                    &&& #[trigger] Self::works(pre, cell, mid, left, polled)
                    &&& if mid.body is Some {
                        post == mid && report == Some(Poll::<Src::Return>::Pending)
                    } else {
                        exists|step: Poll<ControlFlow<Src::Return, Src::Yield>>|
                            {
                                &&& #[trigger] Self::draws(mid, post, step)
                                &&& report == match step {
                                    Poll::Ready(ControlFlow::Continue(_)) => None,
                                    Poll::Ready(ControlFlow::Break(ret)) => Some(Poll::Ready(ret)),
                                    Poll::Pending => Some(Poll::Pending),
                                }
                            }
                    }
                }
        }
    }

    /// What a poll that may take `fuel` rounds can do. It goes on while the
    /// rounds report nothing. With no rounds left it is pending and changes
    /// nothing more.
    pub open spec fn transforms<Y>(
        pre: Self,
        cell: FlowState<Y, Res>,
        post: Self,
        left: FlowState<Y, Res>,
        out: Poll<Src::Return>,
        fuel: nat,
    ) -> bool where
        Src: Flow<Res>,
        F: MapFn<Src::Yield, Out = Body>,
        Body: Routine<Y, Res, Output = Res>,

        decreases fuel,
    {
        if fuel == 0 {
            out is Pending && post == pre && left == cell
        } else {
            exists|mid: Self, held: FlowState<Y, Res>, report: Option<Poll<Src::Return>>|
                {
                    &&& #[trigger] Self::round(pre, cell, mid, held, report)
                    &&& match report {
                        Some(reported) => out == reported && post == mid && left == held,
                        None => Self::transforms(mid, held, post, left, out, (fuel - 1) as nat),
                    }
                }
        }
    }
}

impl<Y, Res, Src, F, Body> Routine<Y, Res> for TransformEach<Res, Src, F, Body> where
    Src: Flow<Res>,
    F: MapFn<Src::Yield, Out = Body>,
    Body: Routine<Y, Res, Output = Res>,
 {
    type Output = Src::Return;

    open spec fn pollable(&self) -> bool {
        &&& self.src.pollable()
        &&& self.fun.callable()
        &&& self.body matches Some(body) ==> body.pollable()
        &&& Self::makes_pollable::<Y>()
        &&& Self::bodies_admit::<Y>()
    }

    open spec fn runs(
        pre: Self,
        cell: FlowState<Y, Res>,
        post: Self,
        left: FlowState<Y, Res>,
        out: Poll<Src::Return>,
    ) -> bool {
        Self::transforms(pre, cell, post, left, out, POLL_BUDGET as nat)
    }

    fn poll(&mut self, cx: &mut Context<'_>, sender: &mut Sender<Y, Res>) -> (out: Poll<
        Src::Return,
    >) {
        let mut budget: usize = POLL_BUDGET;
        while budget > 0
            invariant
                self.pollable(),
                forall|post: Self, left: FlowState<Y, Res>, out: Poll<Src::Return>| #[trigger]
                    Self::transforms(*self, sender@, post, left, out, budget as nat)
                        ==> Self::transforms(
                        *old(self),
                        old(sender)@,
                        post,
                        left,
                        out,
                        POLL_BUDGET as nat,
                    ),
            decreases budget,
        {
            let ghost cur = *self;
            let ghost cell = sender@;
            let ghost fuel = budget as nat;
            budget = budget - 1;
            if sender.state_ref.is_yield() {
                proof {
                    assert(Self::round(
                        cur,
                        cell,
                        *self,
                        sender@,
                        Some(Poll::<Src::Return>::Pending),
                    ));
                    assert(Self::transforms(cur, cell, *self, sender@, Poll::Pending, fuel));
                }
                return Poll::Pending;
            }
            let ghost polled: Poll<Res> = Poll::Pending;
            match self.body.take() {
                None => {},
                Some(body) => {
                    let mut body = body;
                    let ghost before = body;
                    let output = body.poll(cx, sender);
                    proof {
                        polled = output;
                    }
                    match output {
                        Poll::Pending => {
                            self.body = Some(body);
                            proof {
                                assert(Self::works(cur, cell, *self, sender@, polled));
                                assert(Self::round(
                                    cur,
                                    cell,
                                    *self,
                                    sender@,
                                    Some(Poll::<Src::Return>::Pending),
                                ));
                                assert(Self::transforms(
                                    cur,
                                    cell,
                                    *self,
                                    sender@,
                                    Poll::Pending,
                                    fuel,
                                ));
                            }
                            return Poll::Pending;
                        },
                        Poll::Ready(next) => {
                            assert(Body::runs(before, cell, body, sender@, polled));
                            self.input = Some(next);
                        },
                    }
                },
            }
            let ghost mid = *self;
            let ghost held = sender@;
            assert(Self::works(cur, cell, mid, held, polled));
            let step = self.src.poll_resume(cx, &mut self.input);
            let ghost seen = step;
            match step {
                Poll::Ready(ControlFlow::Continue(value)) => {
                    self.body = Some(self.fun.map_exec(value));
                    proof {
                        let next = *self;
                        assert(Self::draws(mid, next, seen));
                        assert(Self::round(cur, cell, next, held, None));
                        assert forall|
                            post: Self,
                            left: FlowState<Y, Res>,
                            out: Poll<Src::Return>,
                        | #[trigger]
                            Self::transforms(
                                next,
                                held,
                                post,
                                left,
                                out,
                                budget as nat,
                            ) implies Self::transforms(cur, cell, post, left, out, fuel) by {
                            assert(Self::round(cur, cell, next, held, None));
                        }
                    }
                },
                Poll::Ready(ControlFlow::Break(ret)) => {
                    let out = Poll::Ready(ret);
                    proof {
                        assert(Self::draws(mid, *self, seen));
                        assert(Self::round(cur, cell, *self, held, Some(out)));
                        assert(Self::transforms(cur, cell, *self, held, out, fuel));
                    }
                    return out;
                },
                Poll::Pending => {
                    proof {
                        assert(Self::draws(mid, *self, seen));
                        assert(Self::round(
                            cur,
                            cell,
                            *self,
                            held,
                            Some(Poll::<Src::Return>::Pending),
                        ));
                        assert(Self::transforms(cur, cell, *self, held, Poll::Pending, fuel));
                    }
                    return Poll::Pending;
                },
            }
        }
        assert(Self::transforms(*self, sender@, *self, sender@, Poll::Pending, 0));
        wake_again(cx);
        Poll::Pending
    }
}

/// The failure that a body ended with, if it ended with one.
pub open spec fn failure_of<B: MyTry>(polled: Poll<B>) -> Option<B::Break> {
    match polled {
        Poll::Ready(output) => match output.control() {
            ControlFlow::Break(failure) => Some(failure),
            ControlFlow::Continue(_) => None,
        },
        Poll::Pending => None,
    }
}

/// The routine that runs a source through bodies that can fail. The output
/// of a body is a success, which is the next input of the source, or a
/// failure, which ends the routine.
pub struct TryTransformEach<Res, Src, F, Body> {
    pub src: Src,
    pub fun: F,
    pub input: Option<Res>,
    pub body: Option<Body>,
}

impl<Res, Src, F, Body> TryTransformEach<Res, Src, F, Body> {
    /// Whether every body that the mapper can ever make may be polled.
    pub open spec fn makes_pollable<Y>() -> bool where
        Src: Flow<Res>,
        F: MapFn<Src::Yield, Out = Body>,
        Body: Routine<Y, Res>,
     {
        forall|pre: F, value: Src::Yield, post: F, body: Body| #[trigger]
            F::maps(pre, value, post, body) ==> body.pollable()
    }

    /// Whether every body may be polled while no output waits in the cell.
    pub open spec fn bodies_admit<Y>() -> bool where Body: Routine<Y, Res> {
        forall|body: Body, cell: FlowState<Y, Res>|
            !(cell is Yield) ==> #[trigger] body.admits(cell)
    }

    /// The first half of a round: the body that is being worked on is polled
    /// once, with `cell` in the handoff cell, leaves `left` there and reports
    /// `polled`. An output that is a success is the next input of the source.
    /// Without a body nothing happens.
    pub open spec fn works<Y, B>(
        pre: Self,
        cell: FlowState<Y, Res>,
        mid: Self,
        left: FlowState<Y, Res>,
        polled: Poll<B>,
    ) -> bool where
        Src: Flow<Res>,
        F: MapFn<Src::Yield, Out = Body>,
        Body: Routine<Y, Res, Output = B>,
        B: MyTry<Continue = Res>,
     {
        &&& mid.src == pre.src
        &&& mid.fun == pre.fun
        &&& match pre.body {
            None => mid.body is None && mid.input == pre.input && left == cell && polled is Pending,
            Some(body) => match polled {
                Poll::Pending => {
                    &&& mid.body matches Some(after)
                    &&& Body::runs(body, cell, after, left, polled)
                    &&& mid.input == pre.input
                },
                Poll::Ready(output) => {
                    &&& mid.body is None
                    &&& exists|after: Body| #[trigger] Body::runs(body, cell, after, left, polled)
                    &&& mid.input == match output.control() {
                        ControlFlow::Continue(next) => Some(next),
                        ControlFlow::Break(_) => pre.input,
                    }
                },
            },
        }
    }

    /// The second half of a round, which takes place unless the body is
    /// still being worked on or has failed: the source is polled once, with
    /// `input`, and reports `step`. An output is handed to the mapper, and
    /// what the mapper makes of it is the body from then on.
    pub open spec fn draws(
        mid: Self,
        post: Self,
        step: Poll<ControlFlow<Src::Return, Src::Yield>>,
    ) -> bool where Src: Flow<Res>, F: MapFn<Src::Yield, Out = Body> {
        &&& Src::resumes(mid.src, mid.input, post.src, post.input, step)
        &&& match step {
            Poll::Ready(ControlFlow::Continue(value)) => {
                &&& post.body matches Some(body)
                &&& F::maps(mid.fun, value, post.fun, body)
            },
            _ => post.body == mid.body && post.fun == mid.fun,
        }
    }

    /// One round of a poll, and what it reports if it ends the poll. While an
    /// output waits in the cell nothing is polled and the poll ends, pending.
    /// Else the round reports pending if the body or the source is, the
    /// failure of the body, or the result of the source as a success.
    pub open spec fn round<Y, B>(
        pre: Self,
        cell: FlowState<Y, Res>,
        post: Self,
        left: FlowState<Y, Res>,
        report: Option<Poll<B::Mapped>>,
    ) -> bool where
        Src: Flow<Res>,
        F: MapFn<Src::Yield, Out = Body>,
        Body: Routine<Y, Res, Output = B>,
        B: MyTry<Continue = Res> + MapContinue<Src::Return>,
     {
        if cell is Yield {
            post == pre && left == cell && report == Some(Poll::<B::Mapped>::Pending)
        } else {
            exists|mid: Self, polled: Poll<B>|
                {
                    &&& #[trigger] Self::works(pre, cell, mid, left, polled)
                    &&& if mid.body is Some {
                        post == mid && report == Some(Poll::<B::Mapped>::Pending)
                    } else if let Some(failure) = failure_of(polled) {
                        &&& post == mid
                        &&& report matches Some(Poll::Ready(failed))
                        &&& failed.control() == ControlFlow::<B::Break, Src::Return>::Break(failure)
                    } else {
                        exists|step: Poll<ControlFlow<Src::Return, Src::Yield>>|
                            {
                                &&& #[trigger] Self::draws(mid, post, step)
                                &&& match step {
                                    Poll::Ready(ControlFlow::Continue(_)) => report is None,
                                    Poll::Ready(ControlFlow::Break(ret)) => {
                                        &&& report matches Some(Poll::Ready(done))
                                        &&& done.control() == ControlFlow::<
                                            B::Break,
                                            Src::Return,
                                        >::Continue(ret)
                                    },
                                    Poll::Pending => report == Some(Poll::<B::Mapped>::Pending),
                                }
                            }
                    }
                }
        }
    }

    /// What a poll that may take `fuel` rounds can do. It goes on while the
    /// rounds report nothing. With no rounds left it is pending and changes
    /// nothing more.
    pub open spec fn transforms<Y, B>(
        pre: Self,
        cell: FlowState<Y, Res>,
        post: Self,
        left: FlowState<Y, Res>,
        out: Poll<B::Mapped>,
        fuel: nat,
    ) -> bool where
        Src: Flow<Res>,
        F: MapFn<Src::Yield, Out = Body>,
        Body: Routine<Y, Res, Output = B>,
        B: MyTry<Continue = Res> + MapContinue<Src::Return>,

        decreases fuel,
    {
        if fuel == 0 {
            out is Pending && post == pre && left == cell
        } else {
            exists|mid: Self, held: FlowState<Y, Res>, report: Option<Poll<B::Mapped>>|
                {
                    &&& #[trigger] Self::round::<Y, B>(pre, cell, mid, held, report)
                    &&& match report {
                        Some(reported) => out == reported && post == mid && left == held,
                        None => Self::transforms::<Y, B>(
                            mid,
                            held,
                            post,
                            left,
                            out,
                            (fuel - 1) as nat,
                        ),
                    }
                }
        }
    }
}

impl<Y, Res, Src, F, Body, B> Routine<Y, Res> for TryTransformEach<Res, Src, F, Body> where
    Src: Flow<Res>,
    F: MapFn<Src::Yield, Out = Body>,
    Body: Routine<Y, Res, Output = B>,
    B: MyTry<Continue = Res> + MapContinue<Src::Return>,
 {
    type Output = B::Mapped;

    open spec fn pollable(&self) -> bool {
        &&& self.src.pollable()
        &&& self.fun.callable()
        &&& self.body matches Some(body) ==> body.pollable()
        &&& Self::makes_pollable::<Y>()
        &&& Self::bodies_admit::<Y>()
    }

    open spec fn runs(
        pre: Self,
        cell: FlowState<Y, Res>,
        post: Self,
        left: FlowState<Y, Res>,
        out: Poll<B::Mapped>,
    ) -> bool {
        Self::transforms::<Y, B>(pre, cell, post, left, out, POLL_BUDGET as nat)
    }

    fn poll(&mut self, cx: &mut Context<'_>, sender: &mut Sender<Y, Res>) -> (out: Poll<B::Mapped>) {
        let mut budget: usize = POLL_BUDGET;
        while budget > 0
            invariant
                self.pollable(),
                forall|post: Self, left: FlowState<Y, Res>, out: Poll<B::Mapped>| #[trigger]
                    Self::transforms::<Y, B>(*self, sender@, post, left, out, budget as nat)
                        ==> Self::transforms::<Y, B>(
                        *old(self),
                        old(sender)@,
                        post,
                        left,
                        out,
                        POLL_BUDGET as nat,
                    ),
            decreases budget,
        {
            let ghost cur = *self;
            let ghost cell = sender@;
            let ghost fuel = budget as nat;
            budget = budget - 1;
            if sender.state_ref.is_yield() {
                proof {
                    assert(Self::round::<Y, B>(
                        cur,
                        cell,
                        *self,
                        sender@,
                        Some(Poll::<B::Mapped>::Pending),
                    ));
                    assert(Self::transforms::<Y, B>(
                        cur,
                        cell,
                        *self,
                        sender@,
                        Poll::Pending,
                        fuel,
                    ));
                }
                return Poll::Pending;
            }
            let ghost polled: Poll<B> = Poll::Pending;
            match self.body.take() {
                None => {},
                Some(body) => {
                    let mut body = body;
                    let ghost before = body;
                    let output = body.poll(cx, sender);
                    proof {
                        polled = output;
                    }
                    match output {
                        Poll::Pending => {
                            self.body = Some(body);
                            proof {
                                assert(Self::works(cur, cell, *self, sender@, polled));
                                assert(Self::round::<Y, B>(
                                    cur,
                                    cell,
                                    *self,
                                    sender@,
                                    Some(Poll::<B::Mapped>::Pending),
                                ));
                                assert(Self::transforms::<Y, B>(
                                    cur,
                                    cell,
                                    *self,
                                    sender@,
                                    Poll::Pending,
                                    fuel,
                                ));
                            }
                            return Poll::Pending;
                        },
                        Poll::Ready(answer) => {
                            assert(Body::runs(before, cell, body, sender@, polled));
                            match answer.into_control_flow() {
                                ControlFlow::Continue(next) => {
                                    self.input = Some(next);
                                },
                                ControlFlow::Break(failure) => {
                                    let out = Poll::Ready(MyTry::from_break(failure));
                                    proof {
                                        assert(Self::works(cur, cell, *self, sender@, polled));
                                        assert(Self::round::<Y, B>(
                                            cur,
                                            cell,
                                            *self,
                                            sender@,
                                            Some(out),
                                        ));
                                        assert(Self::transforms::<Y, B>(
                                            cur,
                                            cell,
                                            *self,
                                            sender@,
                                            out,
                                            fuel,
                                        ));
                                    }
                                    return out;
                                },
                            }
                        },
                    }
                },
            }
            let ghost mid = *self;
            let ghost held = sender@;
            assert(Self::works(cur, cell, mid, held, polled));
            let step = self.src.poll_resume(cx, &mut self.input);
            let ghost seen = step;
            match step {
                Poll::Ready(ControlFlow::Continue(value)) => {
                    self.body = Some(self.fun.map_exec(value));
                    proof {
                        let next = *self;
                        assert(Self::draws(mid, next, seen));
                        assert(Self::round::<Y, B>(cur, cell, next, held, None));
                        assert forall|
                            post: Self,
                            left: FlowState<Y, Res>,
                            out: Poll<B::Mapped>,
                        | #[trigger]
                            Self::transforms::<Y, B>(
                                next,
                                held,
                                post,
                                left,
                                out,
                                budget as nat,
                            ) implies Self::transforms::<Y, B>(
                            cur,
                            cell,
                            post,
                            left,
                            out,
                            fuel,
                        ) by {
                            assert(Self::round::<Y, B>(cur, cell, next, held, None));
                        }
                    }
                },
                Poll::Ready(ControlFlow::Break(ret)) => {
                    let out = Poll::Ready(MyTry::from_continue(ret));
                    proof {
                        assert(Self::draws(mid, *self, seen));
                        assert(Self::round::<Y, B>(cur, cell, *self, held, Some(out)));
                        assert(Self::transforms::<Y, B>(cur, cell, *self, held, out, fuel));
                    }
                    return out;
                },
                Poll::Pending => {
                    proof {
                        assert(Self::draws(mid, *self, seen));
                        assert(Self::round::<Y, B>(
                            cur,
                            cell,
                            *self,
                            held,
                            Some(Poll::<B::Mapped>::Pending),
                        ));
                        assert(Self::transforms::<Y, B>(
                            cur,
                            cell,
                            *self,
                            held,
                            Poll::Pending,
                            fuel,
                        ));
                    }
                    return Poll::Pending;
                },
            }
        }
        assert(Self::transforms::<Y, B>(*self, sender@, *self, sender@, Poll::Pending, 0));
        wake_again(cx);
        Poll::Pending
    }
}

/// What starts a `TransformEach`: the source and the mapper that makes the
/// bodies. The first input of the whole is the first input of the source.
pub struct TransformEachFn<Src, F> {
    pub src: Src,
    pub fun: F,
}

impl<Y, Res, Src, F, Body> FlowFn<Y, Res> for TransformEachFn<Src, F> where
    Src: Flow<Res>,
    F: MapFn<Src::Yield, Out = Body>,
    Body: Routine<Y, Res, Output = Res>,
 {
    type FlowReturn = Src::Return;

    type FlowFut = TransformEach<Res, Src, F, Body>;

    open spec fn startable(&self) -> bool {
        &&& self.src.pollable()
        &&& self.fun.callable()
        &&& TransformEach::<Res, Src, F, Body>::makes_pollable::<Y>()
        &&& TransformEach::<Res, Src, F, Body>::bodies_admit::<Y>()
    }

    open spec fn starts(self, init: Res, fut: TransformEach<Res, Src, F, Body>) -> bool {
        fut == (TransformEach { src: self.src, fun: self.fun, input: Some(init), body: None::<Body> })
    }

    fn call_once(self, init: Res) -> (fut: TransformEach<Res, Src, F, Body>) {
        TransformEach { src: self.src, fun: self.fun, input: Some(init), body: None }
    }
}

/// The operator that runs a flow through the bodies that the mapper it holds
/// makes. `Y` is the type of what the bodies emit.
pub struct TransformEachOp<F, Y> {
    pub fun: F,
    pub _emits: PhantomData<Y>,
}

impl<Y, Res, Src, F, Body> FlowOp<Src, Res> for TransformEachOp<F, Y> where
    Src: Flow<Res>,
    F: MapFn<Src::Yield, Out = Body>,
    Body: Routine<Y, Res, Output = Res>,
 {
    type Output = FlowFromFn<Y, Res, TransformEachFn<Src, F>>;

    open spec fn accepts(&self, flow: Src) -> bool {
        true
    }

    open spec fn applies(self, flow: Src, out: FlowFromFn<Y, Res, TransformEachFn<Src, F>>) -> bool {
        &&& out.cell() is Empty
        &&& out.stage() == (FlowFromFnInner::<
            TransformEachFn<Src, F>,
            TransformEach<Res, Src, F, Body>,
        >::Fun { fun: Some(TransformEachFn { src: flow, fun: self.fun }) })
    }

    fn execute(self, flow: Src) -> (out: FlowFromFn<Y, Res, TransformEachFn<Src, F>>) {
        flow_from_fn(TransformEachFn { src: flow, fun: self.fun })
    }
}

/// The operator that hands each output of a flow to the body that `fun`
/// makes of it. What the bodies emit are the outputs of the new flow, the
/// output of each body is the next input of the old one, and the result of
/// the old flow is the result of the new one.
pub fn transform_each<Y, F>(fun: F) -> (op: WrapOp<TransformEachOp<F, Y>>)
    ensures
        op.0.fun == fun,
{
    WrapOp(TransformEachOp { fun, _emits: PhantomData })
}

/// What starts a `TryTransformEach`.
pub struct TryTransformEachFn<Src, F> {
    pub src: Src,
    pub fun: F,
}

impl<Y, Res, Src, F, Body, B> FlowFn<Y, Res> for TryTransformEachFn<Src, F> where
    Src: Flow<Res>,
    F: MapFn<Src::Yield, Out = Body>,
    Body: Routine<Y, Res, Output = B>,
    B: MyTry<Continue = Res> + MapContinue<Src::Return>,
 {
    type FlowReturn = B::Mapped;

    type FlowFut = TryTransformEach<Res, Src, F, Body>;

    open spec fn startable(&self) -> bool {
        &&& self.src.pollable()
        &&& self.fun.callable()
        &&& TryTransformEach::<Res, Src, F, Body>::makes_pollable::<Y>()
        &&& TryTransformEach::<Res, Src, F, Body>::bodies_admit::<Y>()
    }

    open spec fn starts(self, init: Res, fut: TryTransformEach<Res, Src, F, Body>) -> bool {
        fut == (TryTransformEach {
            src: self.src,
            fun: self.fun,
            input: Some(init),
            body: None::<Body>,
        })
    }

    fn call_once(self, init: Res) -> (fut: TryTransformEach<Res, Src, F, Body>) {
        TryTransformEach { src: self.src, fun: self.fun, input: Some(init), body: None }
    }
}

/// The operator that runs a flow through the bodies that the mapper it holds
/// makes, up to the first body that fails.
pub struct TryTransformEachOp<F, Y> {
    pub fun: F,
    pub _emits: PhantomData<Y>,
}

impl<Y, Res, Src, F, Body, B> FlowOp<Src, Res> for TryTransformEachOp<F, Y> where
    Src: Flow<Res>,
    F: MapFn<Src::Yield, Out = Body>,
    Body: Routine<Y, Res, Output = B>,
    B: MyTry<Continue = Res> + MapContinue<Src::Return>,
 {
    type Output = FlowFromFn<Y, Res, TryTransformEachFn<Src, F>>;

    open spec fn accepts(&self, flow: Src) -> bool {
        true
    }

    open spec fn applies(
        self,
        flow: Src,
        out: FlowFromFn<Y, Res, TryTransformEachFn<Src, F>>,
    ) -> bool {
        &&& out.cell() is Empty
        &&& out.stage() == (FlowFromFnInner::<
            TryTransformEachFn<Src, F>,
            TryTransformEach<Res, Src, F, Body>,
        >::Fun { fun: Some(TryTransformEachFn { src: flow, fun: self.fun }) })
    }

    fn execute(self, flow: Src) -> (out: FlowFromFn<Y, Res, TryTransformEachFn<Src, F>>) {
        flow_from_fn(TryTransformEachFn { src: flow, fun: self.fun })
    }
}

/// The operator that hands each output of a flow to the body that `fun`
/// makes of it, as `transform_each` does, and stops at the first body whose
/// output is a failure. The result of the new flow is that failure, or the
/// result of the old flow as a success.
pub fn try_transform_each<Y, F>(fun: F) -> (op: WrapOp<TryTransformEachOp<F, Y>>)
    ensures
        op.0.fun == fun,
{
    WrapOp(TryTransformEachOp { fun, _emits: PhantomData })
}

/// The mapper that makes, of a value, the body that emits what the mapper it
/// holds makes of the value.
pub struct MapEachFn<F> {
    pub fun: F,
}

impl<X, F> MapFnOnce<X> for MapEachFn<F> where F: MapFn<X> {
    type Out = Next<F::Out>;

    open spec fn callable(&self) -> bool {
        self.fun.callable()
    }

    open spec fn maps_once(self, value: X, out: Next<F::Out>) -> bool {
        out.value matches Some(mapped) && self.fun.maps_once(value, mapped)
    }

    fn map_exec_once(self, value: X) -> (out: Next<F::Out>) {
        Next { value: Some(self.fun.map_exec_once(value)) }
    }
}

impl<X, F> MapFn<X> for MapEachFn<F> where F: MapFn<X> {
    open spec fn maps(pre: Self, value: X, post: Self, out: Next<F::Out>) -> bool {
        out.value matches Some(mapped) && F::maps(pre.fun, value, post.fun, mapped)
    }

    fn map_exec(&mut self, value: X) -> (out: Next<F::Out>) {
        Next { value: Some(self.fun.map_exec(value)) }
    }
}

/// The operator that maps each output of a flow through `fun`, by way of a
/// body that emits the mapped value and hands the input that answers it back
/// to the flow.
pub fn map_each<Y, F>(fun: F) -> (op: WrapOp<TransformEachOp<MapEachFn<F>, Y>>)
    ensures
        op.0.fun.fun == fun,
{
    transform_each(MapEachFn { fun })
}

/// The mapper that makes, of a value, the body that emits the value if the
/// test it holds passes it, and emits nothing otherwise.
pub struct FilterFn<P> {
    pub test: P,
}

impl<P> FilterFn<P> {
    /// The bodies that the test can make of `value`: one that emits `value`
    /// if the test passes it, and one that emits nothing if it does not.
    pub open spec fn keeps<T>(self, value: T, out: EmitAll<T>) -> bool where P: Fn(&T) -> bool {
        &&& out.point is None
        &&& exists|keep: bool| #[trigger]
            call_ensures(self.test, (&value,), keep) && out.items@ == if keep {
                seq![value]
            } else {
                Seq::empty()
            }
    }

    /// The body for `value`.
    pub fn sift<T>(&self, value: T) -> (out: EmitAll<T>) where P: Fn(&T) -> bool
        requires
            call_requires(self.test, (&value,)),
        ensures
            self.keeps(value, out),
    {
        let keep = (self.test)(&value);
        let mut items: Vec<T> = Vec::new();
        if keep {
            items.push(value);
        }
        let out = emit_all(items);
        assert(call_ensures(self.test, (&value,), keep));
        assert(out.items@ =~= if keep {
            seq![value]
        } else {
            Seq::empty()
        });
        out
    }
}

impl<T, P> MapFnOnce<T> for FilterFn<P> where P: Fn(&T) -> bool {
    type Out = EmitAll<T>;

    open spec fn callable(&self) -> bool {
        forall|value: T| call_requires(self.test, (&value,))
    }

    open spec fn maps_once(self, value: T, out: EmitAll<T>) -> bool {
        self.keeps(value, out)
    }

    fn map_exec_once(self, value: T) -> (out: EmitAll<T>) {
        self.sift(value)
    }
}

impl<T, P> MapFn<T> for FilterFn<P> where P: Fn(&T) -> bool {
    open spec fn maps(pre: Self, value: T, post: Self, out: EmitAll<T>) -> bool {
        post == pre && pre.keeps(value, out)
    }

    fn map_exec(&mut self, value: T) -> (out: EmitAll<T>) {
        self.sift(value)
    }
}

/// The operator that lets through the outputs of a flow that pass `test`.
pub fn filter<T, P>(test: P) -> (op: WrapOp<TransformEachOp<FilterFn<P>, T>>)
    ensures
        op.0.fun.test == test,
{
    transform_each(FilterFn { test })
}

/// The routine that runs a sequence held in memory through bodies that emit
/// sequences held in memory.
pub type EachSeq<X, Y, F> = TransformEach<(), IterFlow<X>, F, EmitAll<Y>>;

/// Whether the bodies that the mapper makes emit what `items` says: for each
/// value the items of `items(value)`, none of them sent yet. This is asked of
/// a mapper of which `holds` is true, and `holds` is then true of the mapper
/// that the call leaves.
pub open spec fn makes_items<X, Y, F: MapFn<X, Out = EmitAll<Y>>>(
    holds: spec_fn(F) -> bool,
    items: spec_fn(X) -> Seq<Y>,
) -> bool {
    forall|pre: F, value: X, post: F, body: EmitAll<Y>|
        holds(pre) && #[trigger] F::maps(pre, value, post, body) ==> {
            &&& body.items@ == items(value)
            &&& body.point is None
            &&& holds(post)
        }
}

/// What the bodies of `values` emit, one body after the other.
pub open spec fn all_items<X, Y>(items: spec_fn(X) -> Seq<Y>, values: Seq<X>) -> Seq<Y>
    decreases values.len(),
{
    if values.len() == 0 {
        Seq::empty()
    } else {
        items(values[0]) + all_items(items, values.drop_first())
    }
}

/// What `routine` has still to emit: the rest of the body that is being
/// worked on, then the bodies of the values that the source still holds.
pub open spec fn emissions_to_come<X, Y, F>(
    items: spec_fn(X) -> Seq<Y>,
    routine: EachSeq<X, Y, F>,
) -> Seq<Y> {
    (match routine.body {
        Some(body) => body.items@,
        None => Seq::empty(),
    }) + all_items(items, routine.src.items@)
}

/// Whether `routine` stands between two rounds: a body that is being worked
/// on has sent the value of its suspend point, if it has one, and without a
/// body an input is at hand for the source.
pub open spec fn between_rounds<X, Y, F>(routine: EachSeq<X, Y, F>) -> bool {
    match routine.body {
        Some(body) => {
            &&& routine.input is None
            &&& body.point is None || body.point == Some(Next { value: None::<Y> })
        },
        None => routine.input is Some,
    }
}

/// Order in transforming: a poll emits at most one item. If it leaves an
/// output in the cell, that is the first of the emissions to come, and the
/// others are still to come, in the same order: the bodies are gone through
/// one after the other, each to its end, in the order of the source. The
/// routine is done only when nothing is left to emit, and a poll that is
/// pending without an output has emitted nothing.
pub proof fn lemma_transform_in_order<X, Y, F>(
    holds: spec_fn(F) -> bool,
    items: spec_fn(X) -> Seq<Y>,
    pre: EachSeq<X, Y, F>,
    cell: FlowState<Y, ()>,
    post: EachSeq<X, Y, F>,
    left: FlowState<Y, ()>,
    out: Poll<()>,
    fuel: nat,
) where F: MapFn<X, Out = EmitAll<Y>>
    requires
        makes_items::<X, Y, F>(holds, items),
        holds(pre.fun),
        between_rounds(pre),
        !(cell is Yield),
        EachSeq::<X, Y, F>::transforms(pre, cell, post, left, out, fuel),
    ensures
        holds(post.fun),
        match left {
            FlowState::Yield(item) => {
                &&& out is Pending
                &&& emissions_to_come(items, pre) == seq![item] + emissions_to_come(items, post)
                &&& between_rounds(post)
            },
            _ => match out {
                Poll::Ready(_) => emissions_to_come(items, pre) == Seq::<Y>::empty(),
                Poll::Pending => {
                    &&& emissions_to_come(items, post) == emissions_to_come(items, pre)
                    &&& between_rounds(post)
                },
            },
        },
    decreases fuel,
{
    if fuel > 0 {
        let (mid, held, report) = choose|
            mid: EachSeq<X, Y, F>,
            held: FlowState<Y, ()>,
            report: Option<Poll<()>>,
        |
            {
                &&& #[trigger] EachSeq::<X, Y, F>::round(pre, cell, mid, held, report)
                &&& match report {
                    Some(reported) => out == reported && post == mid && left == held,
                    None => EachSeq::<X, Y, F>::transforms(
                        mid,
                        held,
                        post,
                        left,
                        out,
                        (fuel - 1) as nat,
                    ),
                }
            };
        let (worked, polled) = choose|worked: EachSeq<X, Y, F>, polled: Poll<()>|
            {
                &&& #[trigger] EachSeq::<X, Y, F>::works(pre, cell, worked, held, polled)
                &&& if worked.body is Some {
                    mid == worked && report == Some(Poll::<()>::Pending)
                } else {
                    exists|step: Poll<ControlFlow<(), X>>|
                        {
                            &&& #[trigger] EachSeq::<X, Y, F>::draws(worked, mid, step)
                            &&& report == match step {
                                Poll::Ready(ControlFlow::Continue(_)) => None,
                                Poll::Ready(ControlFlow::Break(ret)) => Some(Poll::Ready(ret)),
                                Poll::Pending => Some(Poll::Pending),
                            }
                        }
                }
            };
        if let Some(body) = pre.body {
            lemma_emits_one::<Y, ()>(body.items@, body.point, cell);
            if polled is Ready {
                let after = choose|after: EmitAll<Y>| #[trigger]
                    <EmitAll<Y> as Routine<Y, ()>>::runs(body, cell, after, held, polled);
                assert(body.items@ =~= Seq::<Y>::empty());
            } else {
                let after = worked.body->0;
                if held is Yield {
                    assert(body.items@ =~= seq![body.items@[0]] + after.items@);
                    assert(emissions_to_come(items, pre) =~= seq![body.items@[0]]
                        + emissions_to_come(items, worked));
                } else {
                    assert(emissions_to_come(items, worked) =~= emissions_to_come(items, pre));
                }
            }
        }
        if worked.body is None {
            let step = choose|step: Poll<ControlFlow<(), X>>|
                {
                    &&& #[trigger] EachSeq::<X, Y, F>::draws(worked, mid, step)
                    &&& report == match step {
                        Poll::Ready(ControlFlow::Continue(_)) => None,
                        Poll::Ready(ControlFlow::Break(ret)) => Some(Poll::Ready(ret)),
                        Poll::Pending => Some(Poll::Pending),
                    }
                };
            let values = worked.src.items@;
            assert(emissions_to_come(items, pre) =~= all_items(items, values));
            match step {
                Poll::Ready(ControlFlow::Continue(value)) => {
                    assert(all_items(items, values) == items(values[0]) + all_items(
                        items,
                        values.drop_first(),
                    ));
                    assert(emissions_to_come(items, mid) =~= emissions_to_come(items, pre));
                    lemma_transform_in_order(
                        holds,
                        items,
                        mid,
                        held,
                        post,
                        left,
                        out,
                        (fuel - 1) as nat,
                    );
                },
                Poll::Ready(ControlFlow::Break(_)) => {
                    assert(all_items(items, values) == Seq::<Y>::empty());
                },
                Poll::Pending => {},
            }
        }
    }
}

/// A sequence held in memory, run through bodies that emit sequences held
/// in memory: what `transform_each` makes of the flow over the sequence.
pub type MappedSeq<X, Y, F> = FlowFromFn<Y, (), TransformEachFn<IterFlow<X>, F>>;

/// What `flow` has still to give.
pub open spec fn outputs_to_come<X, Y, F>(
    items: spec_fn(X) -> Seq<Y>,
    flow: MappedSeq<X, Y, F>,
) -> Seq<Y> where F: MapFn<X, Out = EmitAll<Y>> {
    match flow.inner.reference {
        FlowFromFnInner::Fun { fun: Some(start) } => all_items(items, start.src.items@),
        FlowFromFnInner::Fun { fun: None } => Seq::empty(),
        FlowFromFnInner::Fut { fut } => emissions_to_come(items, fut),
    }
}

/// Whether `flow` stands between two steps: nothing is in the cell, and the
/// routine, if it is running, stands between two rounds.
pub open spec fn settled<X, Y, F>(flow: MappedSeq<X, Y, F>) -> bool where
    F: MapFn<X, Out = EmitAll<Y>>,
 {
    &&& flow.inner.target@ is Empty
    &&& match flow.inner.reference {
        FlowFromFnInner::Fun { fun } => fun is Some,
        FlowFromFnInner::Fut { fut } => between_rounds(fut),
    }
}

/// Whether `holds` is true of the mapper that `flow` holds.
pub open spec fn mapper_holds<X, Y, F>(holds: spec_fn(F) -> bool, flow: MappedSeq<X, Y, F>) -> bool where
    F: MapFn<X, Out = EmitAll<Y>>,
 {
    match flow.inner.reference {
        FlowFromFnInner::Fun { fun: Some(start) } => holds(start.fun),
        FlowFromFnInner::Fun { fun: None } => true,
        FlowFromFnInner::Fut { fut } => holds(fut.fun),
    }
}

/// Order through the adapter: a step gives the first of the outputs to come
/// and leaves the others to come, in the same order; the flow ends only when
/// nothing is left to give; and a step that is pending has given nothing.
pub proof fn lemma_mapped_in_order<X, Y, F>(
    holds: spec_fn(F) -> bool,
    items: spec_fn(X) -> Seq<Y>,
    pre: MappedSeq<X, Y, F>,
    input: Option<()>,
    post: MappedSeq<X, Y, F>,
    rest: Option<()>,
    out: Poll<ControlFlow<(), Y>>,
) where F: MapFn<X, Out = EmitAll<Y>>
    requires
        makes_items::<X, Y, F>(holds, items),
        mapper_holds(holds, pre),
        settled(pre),
        MappedSeq::<X, Y, F>::resumes(pre, input, post, rest, out),
    ensures
        mapper_holds(holds, post),
        match out {
            Poll::Ready(ControlFlow::Continue(item)) => {
                &&& outputs_to_come(items, pre) == seq![item] + outputs_to_come(items, post)
                &&& settled(post)
            },
            Poll::Ready(ControlFlow::Break(_)) => outputs_to_come(items, pre) == Seq::<Y>::empty(),
            Poll::Pending => {
                &&& outputs_to_come(items, post) == outputs_to_come(items, pre)
                &&& settled(post)
            },
        },
{
    let emission = choose|emission: Option<Y>| #[trigger]
        MappedSeq::<X, Y, F>::steps(pre, input, post, rest, out, emission);
    if !(pre.stage() is Fun && input is None) {
        let (fut, cell, left, poll) = choose|
            fut: EachSeq<X, Y, F>,
            cell: FlowState<Y, ()>,
            left: FlowState<Y, ()>,
            poll: Poll<()>,
        |
            {
                &&& #[trigger] MappedSeq::<X, Y, F>::drives(pre, input, fut, cell, post, left, poll)
                &&& rest == resumed(left)
                &&& emission == yielded(left)
                &&& match poll {
                    Poll::Ready(ret) => {
                        &&& out == Poll::Ready(ControlFlow::<(), Y>::Break(ret))
                        &&& post.cell() == if left is Resume {
                            FlowState::Empty
                        } else {
                            left
                        }
                    },
                    Poll::Pending => {
                        &&& post.cell() is Empty
                        &&& out == match left {
                            FlowState::Yield(value) => Poll::Ready(
                                ControlFlow::<(), Y>::Continue(value),
                            ),
                            _ => Poll::Pending,
                        }
                    },
                }
            };
        let after = post.stage()->Fut_fut;
        assert(emissions_to_come(items, fut) =~= outputs_to_come(items, pre));
        lemma_transform_in_order(
            holds,
            items,
            fut,
            cell,
            after,
            left,
            poll,
            POLL_BUDGET as nat,
        );
    }
}

/// Whether `task` is on its way to collect `all` from a transformed
/// sequence: what it has gathered, followed by the outputs to come, is `all`.
pub open spec fn gathering_mapped<X, Y, F>(
    holds: spec_fn(F) -> bool,
    items: spec_fn(X) -> Seq<Y>,
    task: ExtendFromFlow<Y, MappedSeq<X, Y, F>, ()>,
    all: Seq<Y>,
) -> bool where F: MapFn<X, Out = EmitAll<Y>> {
    &&& task.dest matches Some(dest) && dest@ + outputs_to_come(items, task.src) == all
    &&& settled(task.src)
    &&& mapper_holds(holds, task.src)
}

/// A poll keeps a task that collects from a transformed sequence on its way,
/// and can only be ready with all the outputs.
pub proof fn lemma_gathers_mapped<X, Y, F>(
    holds: spec_fn(F) -> bool,
    items: spec_fn(X) -> Seq<Y>,
    pre: ExtendFromFlow<Y, MappedSeq<X, Y, F>, ()>,
    post: ExtendFromFlow<Y, MappedSeq<X, Y, F>, ()>,
    out: Poll<Vec<Y>>,
    fuel: nat,
    all: Seq<Y>,
) where F: MapFn<X, Out = EmitAll<Y>>
    requires
        makes_items::<X, Y, F>(holds, items),
        gathering_mapped(holds, items, pre, all),
        ExtendFromFlow::<Y, MappedSeq<X, Y, F>, ()>::gathers(pre, post, out, fuel),
    ensures
        match out {
            Poll::Ready(dest) => dest@ == all,
            Poll::Pending => gathering_mapped(holds, items, post, all),
        },
    decreases fuel,
{
    if fuel > 0 {
        let (mid, rest, step) = choose|
            mid: ExtendFromFlow<Y, MappedSeq<X, Y, F>, ()>,
            rest: Option<()>,
            step: Poll<ControlFlow<(), Y>>,
        |
            {
                &&& #[trigger] ExtendFromFlow::<Y, MappedSeq<X, Y, F>, ()>::gather_step(
                    pre,
                    mid,
                    rest,
                    step,
                )
                &&& match step {
                    Poll::Pending => out is Pending && post == mid,
                    Poll::Ready(ControlFlow::Break(_)) => {
                        &&& out matches Poll::Ready(dest)
                        &&& pre.dest == Some(dest)
                        &&& post == mid
                    },
                    Poll::Ready(ControlFlow::Continue(_)) => ExtendFromFlow::<
                        Y,
                        MappedSeq<X, Y, F>,
                        (),
                    >::gathers(mid, post, out, (fuel - 1) as nat),
                }
            };
        lemma_mapped_in_order(holds, items, pre.src, pre.input, mid.src, rest, step);
        match step {
            Poll::Ready(ControlFlow::Continue(item)) => {
                let before = pre.dest->0@;
                assert(before.push(item) + outputs_to_come(items, mid.src) =~= before + (seq![
                    item,
                ] + outputs_to_come(items, mid.src)));
                lemma_gathers_mapped(holds, items, mid, post, out, (fuel - 1) as nat, all);
            },
            Poll::Ready(ControlFlow::Break(_)) => {
                assert(pre.dest->0@ + outputs_to_come(items, pre.src) =~= pre.dest->0@);
            },
            Poll::Pending => {},
        }
    }
}

/// A task that is on its way to collect `all` from a transformed sequence
/// completes with `all` and nothing else.
pub proof fn lemma_collects_mapped<X, Y, F>(
    holds: spec_fn(F) -> bool,
    items: spec_fn(X) -> Seq<Y>,
    task: ExtendFromFlow<Y, MappedSeq<X, Y, F>, ()>,
    pending: nat,
    out: Vec<Y>,
    all: Seq<Y>,
) where F: MapFn<X, Out = EmitAll<Y>>
    requires
        makes_items::<X, Y, F>(holds, items),
        gathering_mapped(holds, items, task, all),
        completes(task, pending, out),
    ensures
        out@ == all,
    decreases pending,
{
    if pending == 0 {
        let post = choose|post: ExtendFromFlow<Y, MappedSeq<X, Y, F>, ()>| #[trigger]
            ExtendFromFlow::<Y, MappedSeq<X, Y, F>, ()>::polls(task, post, Poll::Ready(out));
        lemma_gathers_mapped(holds, items, task, post, Poll::Ready(out), POLL_BUDGET as nat, all);
    } else {
        let mid = choose|mid: ExtendFromFlow<Y, MappedSeq<X, Y, F>, ()>| #[trigger]
            ExtendFromFlow::<Y, MappedSeq<X, Y, F>, ()>::polls(task, mid, Poll::Pending)
                && completes(mid, (pending - 1) as nat, out);
        lemma_gathers_mapped(holds, items, task, mid, Poll::Pending, POLL_BUDGET as nat, all);
        lemma_collects_mapped(holds, items, mid, (pending - 1) as nat, out, all);
    }
}

/// Transforming keeps the order: a sequence turned into a flow, run through
/// bodies and collected gives what the body of the first value emits, then
/// what the body of the second emits, and so on, however many polls the
/// collecting takes.
pub proof fn lemma_transform_collects_in_order<X, Y, F>(
    holds: spec_fn(F) -> bool,
    items: spec_fn(X) -> Seq<Y>,
    values: Vec<X>,
    source: IterFlow<X>,
    op: WrapOp<TransformEachOp<F, Y>>,
    flow: MappedSeq<X, Y, F>,
    task: ExtendFromFlow<Y, MappedSeq<X, Y, F>, ()>,
    pending: nat,
    out: Vec<Y>,
) where F: MapFn<X, Out = EmitAll<Y>>
    requires
        makes_items::<X, Y, F>(holds, items),
        holds(op.0.fun),
        values.converts(source),
        op.0.applies(source, flow),
        <Vec<Y> as FromFlow<Y, MappedSeq<X, Y, F>, (), ExtendFromFlow<(), (), ()>>>::collects(
            flow,
            task,
        ),
        completes(task, pending, out),
    ensures
        out@ == all_items(items, values@),
{
    assert(Seq::<Y>::empty() + all_items(items, values@) =~= all_items(items, values@));
    lemma_collects_mapped(holds, items, task, pending, out, all_items(items, values@));
}

/// What the body of `value` emits under a filter that keeps what `keep`
/// says: the value itself, or nothing.
pub open spec fn sifted<T>(keep: spec_fn(T) -> bool, value: T) -> Seq<T> {
    if keep(value) {
        seq![value]
    } else {
        Seq::empty()
    }
}

/// A filter whose test answers as `keep` says makes, of each value, the body
/// that emits the value if `keep` says so and nothing otherwise, and stays as
/// it is.
pub proof fn lemma_filter_makes_items<T, P>(test: P, keep: spec_fn(T) -> bool) where
    P: Fn(&T) -> bool,

    requires
        forall|value: T, kept: bool| #[trigger]
            call_ensures(test, (&value,), kept) ==> kept == keep(value),
    ensures
        makes_items::<T, T, FilterFn<P>>(
            |mapper: FilterFn<P>| mapper.test == test,
            |value: T| sifted(keep, value),
        ),
{
    assert forall|pre: FilterFn<P>, value: T, post: FilterFn<P>, body: EmitAll<T>|
        pre.test == test && #[trigger] <FilterFn<P> as MapFn<T>>::maps(
            pre,
            value,
            post,
            body,
        ) implies body.items@ == sifted(keep, value) && body.point is None && post.test
        == test by {
        let kept = choose|kept: bool| #[trigger]
            call_ensures(pre.test, (&value,), kept) && body.items@ == if kept {
                seq![value]
            } else {
                Seq::empty()
            };
        assert(kept == keep(value));
    }
}

} // verus!
