//! Fan-in: a flow of flows, with all the sub-flows active side by side.

use crate::convert::IntoFlow;
use crate::flow::Flow;
use crate::ops::chain;
use crate::ops::transform::map_each;
use crate::ops::transform::MapEachFn;
use crate::ops::transform::TransformEachOp;
use crate::ops::ChainOp;
use crate::ops::FlowOp;
use crate::ops::WrapOp;
use core::marker::PhantomData;
use core::ops::ControlFlow;
use core::task::Context;
use core::task::Poll;
use vstd::prelude::*;

verus! {

/// A main flow whose outputs convert to flows, and all the sub-flows that it
/// has given and that have not completed. `ret` holds the result of the main
/// flow from the step in which it completed until the last sub-flow is done.
pub struct MergeAll<Fl1, Fl2, Ret, M> {
    pub main_flow: Fl1,
    pub sub_flows: Vec<Fl2>,
    pub ret: Option<Ret>,
    pub _m: PhantomData<M>,
}

/// Where a step of `MergeAll` stands: the main flow, the active sub-flows in
/// the order in which they are polled, the result of the main flow if it has
/// come, and what is in the outer input slot.
#[verifier::reject_recursive_types(Fl2)]
pub struct MergeTurn<Fl1, Fl2, Ret, Res> {
    pub main: Fl1,
    pub subs: Seq<Fl2>,
    pub ret: Option<Ret>,
    pub slot: Option<Res>,
}

/// The input that a flow is polled with inside a step: the outer one if there
/// is one and the flow can be resumed, and else none.
pub open spec fn offered<Res, Fl: Flow<Res>>(flow: Fl, slot: Option<Res>) -> Option<Res> {
    if slot is Some && flow.resumable() {
        slot
    } else {
        None
    }
}

/// What is in the outer input slot after a poll with `given` that left
/// `left`: an input that was not offered stays where it is.
pub open spec fn returned<Res>(slot: Option<Res>, given: Option<Res>, left: Option<Res>) -> Option<
    Res,
> {
    if given is Some {
        left
    } else {
        slot
    }
}

/// The sub-flows without the one at `i`: the last one takes its place.
pub open spec fn swap_removed<Fl>(subs: Seq<Fl>, i: int) -> Seq<Fl> {
    subs.update(i, subs.last()).drop_last()
}

impl<Fl1, Fl2, Ret, Res> MergeTurn<Fl1, Fl2, Ret, Res> {
    /// The first half of a step: unless the main flow has completed, it is
    /// polled once and reports `step`. What it gives is converted to a flow,
    /// `added`, which joins the sub-flows at the end; its result is kept.
    pub open spec fn admits<M>(
        pre: Self,
        left: Option<Res>,
        mid: Self,
        step: Poll<ControlFlow<Ret, Fl1::Yield>>,
        added: Fl2,
    ) -> bool where
        Fl1: Flow<Res, Return = Ret>,
        Fl1::Yield: IntoFlow<Res, M, IntoFlow = Fl2>,
        Fl2: Flow<Res>,
     {
        if pre.ret is Some {
            mid == pre
        } else {
            &&& Fl1::resumes(pre.main, offered(pre.main, pre.slot), mid.main, left, step)
            &&& mid.slot == returned(pre.slot, offered(pre.main, pre.slot), left)
            &&& match step {
                Poll::Ready(ControlFlow::Continue(item)) => {
                    &&& item.converts(added)
                    &&& mid.subs == pre.subs.push(added)
                    &&& mid.ret is None
                },
                Poll::Ready(ControlFlow::Break(ret)) => {
                    &&& mid.subs == pre.subs
                    &&& mid.ret == Some(ret)
                },
                Poll::Pending => mid.subs == pre.subs && mid.ret is None,
            }
        }
    }

    /// One poll of the sub-flow at `i`, which moves to `after`, leaves `left`
    /// of what it was offered and reports `step`.
    pub open spec fn visits(
        pre: Self,
        i: int,
        left: Option<Res>,
        after: Fl2,
        step: Poll<ControlFlow<Fl2::Return, Fl2::Yield>>,
    ) -> bool where Fl2: Flow<Res> {
        Fl2::resumes(pre.subs[i], offered(pre.subs[i], pre.slot), after, left, step)
    }

    /// The second half of a step, from the sub-flow at `i` on. The sub-flows
    /// are polled in order. The first output ends the step. A sub-flow that
    /// completes leaves, and the last one takes its place and is polled next.
    /// When all have been polled the step is pending, unless none is left:
    /// then it ends with the result of the main flow if that has come, which
    /// is then taken out.
    pub open spec fn scans(
        pre: Self,
        i: int,
        post: Self,
        out: Poll<ControlFlow<Ret, Fl2::Yield>>,
    ) -> bool where Fl2: Flow<Res>
        decreases pre.subs.len() - i,
    {
        if i < 0 || i >= pre.subs.len() {
            &&& post.main == pre.main
            &&& post.subs == pre.subs
            &&& post.slot == pre.slot
            &&& if pre.subs.len() == 0 {
                &&& post.ret is None
                &&& out == match pre.ret {
                    Some(ret) => Poll::Ready(ControlFlow::<Ret, Fl2::Yield>::Break(ret)),
                    None => Poll::Pending,
                }
            } else {
                post.ret == pre.ret && out is Pending
            }
        } else {
            exists|
                left: Option<Res>,
                after: Fl2,
                step: Poll<ControlFlow<Fl2::Return, Fl2::Yield>>,
            |
                {
                    &&& #[trigger] Self::visits(pre, i, left, after, step)
                    &&& match step {
                        Poll::Ready(ControlFlow::Continue(item)) => {
                            &&& out == Poll::Ready(ControlFlow::<Ret, Fl2::Yield>::Continue(item))
                            &&& post == Self::visited(pre, i, left, after, false)
                        },
                        Poll::Ready(ControlFlow::Break(_)) => Self::scans(
                            Self::visited(pre, i, left, after, true),
                            i,
                            post,
                            out,
                        ),
                        Poll::Pending => Self::scans(
                            Self::visited(pre, i, left, after, false),
                            i + 1,
                            post,
                            out,
                        ),
                    }
                }
        }
    }

    /// The turn after the poll of the sub-flow at `i` that `visits` speaks
    /// of; `done` says that the sub-flow completed.
    pub open spec fn visited(pre: Self, i: int, left: Option<Res>, after: Fl2, done: bool) -> Self where
        Fl2: Flow<Res>,
     {
        MergeTurn {
            main: pre.main,
            subs: if done {
                swap_removed(pre.subs.update(i, after), i)
            } else {
                pre.subs.update(i, after)
            },
            ret: pre.ret,
            slot: returned(pre.slot, offered(pre.subs[i], pre.slot), left),
        }
    }
}

impl<Fl1, Fl2, Ret, M> MergeAll<Fl1, Fl2, Ret, M> {
    /// The turn that a step begins or ends with, `slot` being what is in the
    /// outer input slot.
    pub open spec fn turn<Res>(self, slot: Option<Res>) -> MergeTurn<Fl1, Fl2, Ret, Res> {
        MergeTurn { main: self.main_flow, subs: self.sub_flows@, ret: self.ret, slot }
    }

    /// Whether every flow that comes of what the main flow can ever give may
    /// be stepped.
    pub open spec fn gives_pollable<Res>() -> bool where
        Fl1: Flow<Res, Return = Ret>,
        Fl1::Yield: IntoFlow<Res, M, IntoFlow = Fl2>,
        Fl2: Flow<Res>,
     {
        forall|
            pre: Fl1,
            given: Option<Res>,
            post: Fl1,
            left: Option<Res>,
            item: Fl1::Yield,
            sub: Fl2,
        |
            #[trigger] Fl1::resumes(pre, given, post, left, Poll::Ready(ControlFlow::Continue(item)))
                && #[trigger] item.converts(sub) ==> sub.pollable()
    }
}

impl<Fl1, Fl2, Res, Ret, M> Flow<Res> for MergeAll<Fl1, Fl2, Ret, M> where
    Fl1: Flow<Res, Return = Ret>,
    Fl1::Yield: IntoFlow<Res, M, IntoFlow = Fl2>,
    Fl2: Flow<Res>,
 {
    type Yield = Fl2::Yield;

    type Return = Ret;

    open spec fn pollable(&self) -> bool {
        &&& self.ret is None ==> self.main_flow.pollable()
        &&& forall|i: int| 0 <= i < self.sub_flows@.len() ==> (#[trigger] self.sub_flows@[i]).pollable()
        &&& Self::gives_pollable::<Res>()
    }

    /// One step polls the main flow, unless it has completed, and then the
    /// sub-flows in order.
    open spec fn resumes(
        pre: Self,
        input: Option<Res>,
        post: Self,
        rest: Option<Res>,
        out: Poll<ControlFlow<Ret, Fl2::Yield>>,
    ) -> bool {
        exists|
            left: Option<Res>,
            mid: MergeTurn<Fl1, Fl2, Ret, Res>,
            step: Poll<ControlFlow<Ret, Fl1::Yield>>,
            added: Fl2,
        |
            {
                &&& #[trigger] MergeTurn::admits(pre.turn(input), left, mid, step, added)
                &&& MergeTurn::scans(mid, 0, post.turn(rest), out)
            }
    }

    open spec fn resumable(&self) -> bool {
        true
    }

    fn poll_resume(&mut self, cx: &mut Context<'_>, input: &mut Option<Res>) -> (out: Poll<
        ControlFlow<Ret, Fl2::Yield>,
    >) {
        let ghost start = self.turn(*input);
        let ghost left: Option<Res> = None;
        let ghost first: Poll<ControlFlow<Ret, Fl1::Yield>> = Poll::Pending;
        let ghost added: Fl2 = arbitrary();
        if self.ret.is_none() {
            let step = if input.is_some() && self.main_flow.can_resume() {
                let step = self.main_flow.poll_resume(cx, input);
                proof {
                    left = *input;
                }
                step
            } else {
                let mut none = None;
                let step = self.main_flow.poll_resume(cx, &mut none);
                proof {
                    left = none;
                }
                step
            };
            proof {
                first = step;
            }
            match step {
                Poll::Ready(ControlFlow::Continue(item)) => {
                    let sub = item.into_flow();
                    proof {
                        added = sub;
                    }
                    self.sub_flows.push(sub);
                },
                Poll::Ready(ControlFlow::Break(ret)) => {
                    self.ret = Some(ret);
                },
                Poll::Pending => {},
            }
        }
        let ghost mid = self.turn(*input);
        assert(MergeTurn::admits(start, left, mid, first, added));
        let mut i: usize = 0;
        while i < self.sub_flows.len()
            invariant
                start == old(self).turn(*old(input)),
                MergeTurn::admits(start, left, mid, first, added),
                self.ret is None ==> self.main_flow.pollable(),
                Self::gives_pollable::<Res>(),
                forall|k: int|
                    0 <= k < self.sub_flows@.len() ==> (#[trigger] self.sub_flows@[k]).pollable(),
                forall|post: MergeTurn<Fl1, Fl2, Ret, Res>, out: Poll<ControlFlow<Ret, Fl2::Yield>>| #[trigger]
                    MergeTurn::scans(self.turn(*input), i as int, post, out) ==> MergeTurn::scans(
                        mid,
                        0,
                        post,
                        out,
                    ),
            decreases self.sub_flows.len() - i,
        {
            let ghost cur = self.turn(*input);
            let ghost at = i as int;
            let ghost seen_left: Option<Res>;
            let step = if input.is_some() && self.sub_flows[i].can_resume() {
                let step = self.sub_flows[i].poll_resume(cx, input);
                proof {
                    seen_left = *input;
                }
                step
            } else {
                let mut none = None;
                let step = self.sub_flows[i].poll_resume(cx, &mut none);
                proof {
                    seen_left = none;
                }
                step
            };
            let ghost after = self.sub_flows@[at];
            assert(self.sub_flows@ =~= cur.subs.update(at, after));
            assert(MergeTurn::visits(cur, at, seen_left, after, step));
            match step {
                Poll::Ready(ControlFlow::Continue(item)) => {
                    let out = Poll::Ready(ControlFlow::Continue(item));
                    proof {
                        assert(self.turn(*input) == MergeTurn::visited(
                            cur,
                            at,
                            seen_left,
                            after,
                            false,
                        ));
                        assert(MergeTurn::scans(cur, at, self.turn(*input), out));
                    }
                    return out;
                },
                Poll::Ready(ControlFlow::Break(_)) => {
                    let _ = self.sub_flows.swap_remove(i);
                    proof {
                        let next = self.turn(*input);
                        assert(next == MergeTurn::visited(cur, at, seen_left, after, true));
                        assert forall|
                            post: MergeTurn<Fl1, Fl2, Ret, Res>,
                            out: Poll<ControlFlow<Ret, Fl2::Yield>>,
                        | #[trigger]
                            MergeTurn::scans(next, at, post, out) implies MergeTurn::scans(
                            cur,
                            at,
                            post,
                            out,
                        ) by {
                            assert(MergeTurn::visits(cur, at, seen_left, after, step));
                        }
                    }
                },
                Poll::Pending => {
                    i = i + 1;
                    proof {
                        let next = self.turn(*input);
                        assert(next == MergeTurn::visited(cur, at, seen_left, after, false));
                        assert forall|
                            post: MergeTurn<Fl1, Fl2, Ret, Res>,
                            out: Poll<ControlFlow<Ret, Fl2::Yield>>,
                        | #[trigger]
                            MergeTurn::scans(next, at + 1, post, out) implies MergeTurn::scans(
                            cur,
                            at,
                            post,
                            out,
                        ) by {
                            assert(MergeTurn::visits(cur, at, seen_left, after, step));
                        }
                    }
                },
            }
        }
        let ghost end = self.turn(*input);
        let out = if self.sub_flows.is_empty() {
            match self.ret.take() {
                Some(ret) => Poll::Ready(ControlFlow::Break(ret)),
                None => Poll::Pending,
            }
        } else {
            Poll::Pending
        };
        assert(MergeTurn::scans(end, i as int, self.turn(*input), out));
        out
    }

    fn can_resume(&self) -> (b: bool) {
        true
    }
}

/// The operator that merges the flows that a flow gives.
pub struct MergeAllOp<M> {
    pub _m: PhantomData<M>,
}

impl<Fl1, Fl2, Res, M> FlowOp<Fl1, Res> for MergeAllOp<M> where
    Fl1: Flow<Res>,
    Fl1::Yield: IntoFlow<Res, M, IntoFlow = Fl2>,
    Fl2: Flow<Res>,
 {
    type Output = MergeAll<Fl1, Fl2, Fl1::Return, M>;

    open spec fn accepts(&self, flow: Fl1) -> bool {
        true
    }

    open spec fn applies(self, flow: Fl1, out: MergeAll<Fl1, Fl2, Fl1::Return, M>) -> bool {
        &&& out.main_flow == flow
        &&& out.sub_flows@ == Seq::<Fl2>::empty()
        &&& out.ret is None
    }

    fn execute(self, flow: Fl1) -> (out: MergeAll<Fl1, Fl2, Fl1::Return, M>) {
        MergeAll { main_flow: flow, sub_flows: Vec::new(), ret: None, _m: PhantomData }
    }
}

/// The operator that merges the flows that a flow gives.
pub fn merge_all<M>() -> (op: WrapOp<MergeAllOp<M>>) {
    WrapOp(MergeAllOp { _m: PhantomData })
}

/// The operator that maps each output of a flow to something that converts
/// to a flow, and runs all these flows side by side.
pub fn merge_map<In, M, I, F>(fun: F) -> (op: WrapOp<
    ChainOp<TransformEachOp<MapEachFn<F>, I>, MergeAllOp<M>, In>,
>)
    ensures
        op.0.first.fun.fun == fun,
{
    chain(map_each(fun), merge_all())
}

} // verus!
