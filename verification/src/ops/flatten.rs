//! Flattening: a flow of flows, run one sub-flow at a time.

use crate::convert::ExtendFromFlow;
use crate::convert::FromFlow;
use crate::convert::IntoFlow;
use crate::convert::IterFlow;
use crate::custom_fn::MapFn;
use crate::custom_fn::MapFnOnce;
use crate::flow::Flow;
use crate::ops::map::MapReturnSync;
use crate::ops::chain;
use crate::ops::latest::latest;
use crate::ops::latest::LatestOp;
use crate::ops::map::MapSync;
use crate::ops::transform::map_each;
use crate::ops::transform::MapEachFn;
use crate::ops::transform::TransformEachOp;
use crate::ops::ChainOp;
use crate::ops::FlowOp;
use crate::ops::WrapOp;
use crate::task::completes;
use crate::task::wake_again;
use crate::task::Task;
use crate::task::POLL_BUDGET;
use core::marker::PhantomData;
use core::ops::ControlFlow;
use core::task::Context;
use core::task::Poll;
use vstd::prelude::*;

verus! {

/// A main flow whose outputs are flows, with at most one of them active.
/// `input` holds what the main flow is to be resumed with next, and `ret`
/// holds the result of the main flow from the step in which it completed
/// until the last sub-flow is done.
pub struct Flatten<Fl1, Fl2, In, Ret> {
    pub main_flow: Fl1,
    pub sub_flow: Option<Fl2>,
    pub input: Option<In>,
    pub ret: Option<Ret>,
}

impl<Fl1, Fl2, In, Ret> Flatten<Fl1, Fl2, In, Ret> {
    /// Whether every flow that the main flow can ever give may be stepped.
    pub open spec fn gives_pollable<Res>() -> bool where
        Fl1: Flow<In, Yield = Fl2, Return = Ret>,
        Fl2: Flow<Res, Return = In>,
     {
        forall|pre: Fl1, given: Option<In>, post: Fl1, left: Option<In>, sub: Fl2| #[trigger]
            Fl1::resumes(pre, given, post, left, Poll::Ready(ControlFlow::Continue(sub)))
                ==> sub.pollable()
    }

    /// The first half of a round: unless the main flow has completed, it is
    /// polled once, with `input`, and reports `step`. A sub-flow that it
    /// gives takes the place of the active one; its result is kept in `ret`.
    pub open spec fn advances_main<Res>(
        pre: Self,
        fed: Self,
        step: Poll<ControlFlow<Ret, Fl2>>,
    ) -> bool where Fl1: Flow<In, Yield = Fl2, Return = Ret>, Fl2: Flow<Res, Return = In> {
        if pre.ret is Some {
            fed == pre && step is Pending
        } else {
            &&& Fl1::resumes(pre.main_flow, pre.input, fed.main_flow, fed.input, step)
            &&& fed.sub_flow == match step {
                Poll::Ready(ControlFlow::Continue(sub)) => Some(sub),
                _ => pre.sub_flow,
            }
            &&& fed.ret == match step {
                Poll::Ready(ControlFlow::Break(ret)) => Some(ret),
                _ => None,
            }
        }
    }

    /// The second half of a round: the active sub-flow is polled once, with
    /// the outer input `slot`, leaves `left` of it and reports `step`. An
    /// output or a pending step ends the turn. A result ends the sub-flow: it
    /// becomes the next input of the main flow, and an outer input that the
    /// sub-flow consumed is made up for by a default one.
    pub open spec fn advances_sub<Res>(
        fed: Self,
        slot: Option<Res>,
        sub: Fl2,
        left: Option<Res>,
        step: Poll<ControlFlow<In, Fl2::Yield>>,
        post: Self,
        rest: Option<Res>,
    ) -> bool where
        Fl1: Flow<In, Yield = Fl2, Return = Ret>,
        Fl2: Flow<Res, Return = In>,
        Res: Default,
     {
        &&& fed.sub_flow matches Some(active)
        &&& Fl2::resumes(active, slot, sub, left, step)
        &&& post.main_flow == fed.main_flow
        &&& post.ret == fed.ret
        &&& match step {
            Poll::Ready(ControlFlow::Break(ret)) => {
                &&& post.sub_flow is None
                &&& post.input == Some(ret)
                &&& if slot is Some && left is None {
                    rest matches Some(filler) && call_ensures(Res::default, (), filler)
                } else {
                    rest == left
                }
            },
            _ => {
                &&& post.sub_flow == Some(sub)
                &&& post.input == fed.input
                &&& rest == left
            },
        }
    }

    /// One round of a turn, and what it reports if it ends the turn. Without
    /// an active sub-flow the round ends the turn: with the result of the
    /// main flow if that has come, which is then taken out, and pending
    /// otherwise.
    pub open spec fn round<Res>(
        pre: Self,
        slot: Option<Res>,
        post: Self,
        rest: Option<Res>,
        report: Option<Poll<ControlFlow<Ret, Fl2::Yield>>>,
    ) -> bool where
        Fl1: Flow<In, Yield = Fl2, Return = Ret>,
        Fl2: Flow<Res, Return = In>,
        Res: Default,
     {
        exists|fed: Self, first: Poll<ControlFlow<Ret, Fl2>>|
            {
                &&& #[trigger] Self::advances_main::<Res>(pre, fed, first)
                &&& if fed.sub_flow is None {
                    &&& post.main_flow == fed.main_flow
                    &&& post.sub_flow is None
                    &&& post.input == fed.input
                    &&& post.ret is None
                    &&& rest == slot
                    &&& report == Some(
                        match fed.ret {
                            Some(ret) => Poll::Ready(ControlFlow::<Ret, Fl2::Yield>::Break(ret)),
                            None => Poll::Pending,
                        },
                    )
                } else {
                    exists|
                        sub: Fl2,
                        left: Option<Res>,
                        second: Poll<ControlFlow<In, Fl2::Yield>>,
                    |
                        {
                            &&& #[trigger] Self::advances_sub(
                                fed,
                                slot,
                                sub,
                                left,
                                second,
                                post,
                                rest,
                            )
                            &&& report == match second {
                                Poll::Ready(ControlFlow::Continue(value)) => Some(
                                    Poll::Ready(ControlFlow::<Ret, Fl2::Yield>::Continue(value)),
                                ),
                                Poll::Ready(ControlFlow::Break(_)) => None,
                                Poll::Pending => Some(Poll::Pending),
                            }
                        }
                }
            }
    }

    /// What a turn that may take `fuel` rounds can do. It goes on while the
    /// rounds report nothing. With no rounds left it is pending and changes
    /// nothing more.
    pub open spec fn turns<Res>(
        pre: Self,
        slot: Option<Res>,
        post: Self,
        rest: Option<Res>,
        out: Poll<ControlFlow<Ret, Fl2::Yield>>,
        fuel: nat,
    ) -> bool where
        Fl1: Flow<In, Yield = Fl2, Return = Ret>,
        Fl2: Flow<Res, Return = In>,
        Res: Default,

        decreases fuel,
    {
        if fuel == 0 {
            out is Pending && post == pre && rest == slot
        } else {
            exists|
                mid: Self,
                left: Option<Res>,
                report: Option<Poll<ControlFlow<Ret, Fl2::Yield>>>,
            |
                {
                    &&& #[trigger] Self::round(pre, slot, mid, left, report)
                    &&& match report {
                        Some(reported) => out == reported && post == mid && rest == left,
                        None => Self::turns(mid, left, post, rest, out, (fuel - 1) as nat),
                    }
                }
        }
    }
}

impl<Fl1, Fl2, Yield, In, Res, Ret> Flow<Res> for Flatten<Fl1, Fl2, In, Ret> where
    Fl1: Flow<In, Yield = Fl2, Return = Ret>,
    Fl2: Flow<Res, Yield = Yield, Return = In>,
    Res: Default,
 {
    type Yield = Yield;

    type Return = Ret;

    open spec fn pollable(&self) -> bool {
        &&& self.ret is None ==> self.main_flow.pollable()
        &&& self.sub_flow matches Some(sub) ==> sub.pollable()
        &&& Self::gives_pollable::<Res>()
    }

    open spec fn resumes(
        pre: Self,
        input: Option<Res>,
        post: Self,
        rest: Option<Res>,
        out: Poll<ControlFlow<Ret, Yield>>,
    ) -> bool {
        Self::turns(pre, input, post, rest, out, POLL_BUDGET as nat)
    }

    /// A new input is meaningful if the active sub-flow says so, and always
    /// when none is active.
    open spec fn resumable(&self) -> bool {
        match self.sub_flow {
            Some(sub) => sub.resumable(),
            None => true,
        }
    }

    fn poll_resume(&mut self, cx: &mut Context<'_>, input: &mut Option<Res>) -> (out: Poll<
        ControlFlow<Ret, Yield>,
    >) {
        let mut budget: usize = POLL_BUDGET;
        while budget > 0
            invariant
                self.pollable(),
                forall|post: Self, rest: Option<Res>, out: Poll<ControlFlow<Ret, Yield>>| #[trigger]
                    Self::turns(*self, *input, post, rest, out, budget as nat) ==> Self::turns(
                        *old(self),
                        *old(input),
                        post,
                        rest,
                        out,
                        POLL_BUDGET as nat,
                    ),
            decreases budget,
        {
            let ghost cur = *self;
            let ghost slot = *input;
            let ghost fuel = budget as nat;
            budget = budget - 1;
            let ghost first: Poll<ControlFlow<Ret, Fl2>> = Poll::Pending;
            if self.ret.is_none() {
                let step = self.main_flow.poll_resume(cx, &mut self.input);
                proof {
                    first = step;
                }
                match step {
                    Poll::Ready(ControlFlow::Continue(sub)) => {
                        self.sub_flow = Some(sub);
                    },
                    Poll::Ready(ControlFlow::Break(ret)) => {
                        self.ret = Some(ret);
                    },
                    Poll::Pending => {},
                }
            }
            let ghost fed = *self;
            assert(Self::advances_main::<Res>(cur, fed, first));
            let had_input = input.is_some();
            let second = match &mut self.sub_flow {
                Some(sub) => Some(sub.poll_resume(cx, input)),
                None => None,
            };
            let ghost left = *input;
            match second {
                Some(Poll::Ready(ControlFlow::Continue(value))) => {
                    let out = Poll::Ready(ControlFlow::Continue(value));
                    proof {
                        assert(Self::advances_sub(
                            fed,
                            slot,
                            self.sub_flow->0,
                            left,
                            second->0,
                            *self,
                            *input,
                        ));
                        assert(Self::round(cur, slot, *self, *input, Some(out)));
                        assert(Self::turns(cur, slot, *self, *input, out, fuel));
                    }
                    return out;
                },
                Some(Poll::Ready(ControlFlow::Break(ret))) => {
                    let ghost sub = self.sub_flow->0;
                    self.sub_flow = None;
                    self.input = Some(ret);
                    if had_input && input.is_none() {
                        *input = Some(Res::default());
                    }
                    proof {
                        let mid = *self;
                        let now = *input;
                        assert(Self::advances_sub(fed, slot, sub, left, second->0, mid, now));
                        assert(Self::round(cur, slot, mid, now, None));
                        assert forall|
                            post: Self,
                            rest: Option<Res>,
                            out: Poll<ControlFlow<Ret, Yield>>,
                        | #[trigger]
                            Self::turns(mid, now, post, rest, out, budget as nat) implies Self::turns(
                            cur,
                            slot,
                            post,
                            rest,
                            out,
                            fuel,
                        ) by {
                            assert(Self::round(cur, slot, mid, now, None));
                        }
                    }
                },
                Some(Poll::Pending) => {
                    proof {
                        assert(Self::advances_sub(
                            fed,
                            slot,
                            self.sub_flow->0,
                            left,
                            second->0,
                            *self,
                            *input,
                        ));
                        assert(Self::round(cur, slot, *self, *input, Some(Poll::Pending)));
                        assert(Self::turns(cur, slot, *self, *input, Poll::Pending, fuel));
                    }
                    return Poll::Pending;
                },
                None => {
                    let out = match self.ret.take() {
                        Some(ret) => Poll::Ready(ControlFlow::Break(ret)),
                        None => Poll::Pending,
                    };
                    proof {
                        assert(Self::round(cur, slot, *self, *input, Some(out)));
                        assert(Self::turns(cur, slot, *self, *input, out, fuel));
                    }
                    return out;
                },
            }
        }
        assert(Self::turns(*self, *input, *self, *input, Poll::Pending, 0));
        wake_again(cx);
        Poll::Pending
    }

    fn can_resume(&self) -> (b: bool) {
        match &self.sub_flow {
            Some(sub) => sub.can_resume(),
            None => true,
        }
    }
}

/// The mapper that turns a value into the flow it converts to.
pub struct IntoFlowFn<Res, M> {
    pub _marker: PhantomData<(Res, M)>,
}

impl<I, Res, M> MapFnOnce<I> for IntoFlowFn<Res, M> where I: IntoFlow<Res, M> {
    type Out = I::IntoFlow;

    open spec fn callable(&self) -> bool {
        true
    }

    open spec fn maps_once(self, value: I, out: I::IntoFlow) -> bool {
        value.converts(out)
    }

    fn map_exec_once(self, value: I) -> (out: I::IntoFlow) {
        value.into_flow()
    }
}

impl<I, Res, M> MapFn<I> for IntoFlowFn<Res, M> where I: IntoFlow<Res, M> {
    open spec fn maps(pre: Self, value: I, post: Self, out: I::IntoFlow) -> bool {
        value.converts(out)
    }

    fn map_exec(&mut self, value: I) -> (out: I::IntoFlow) {
        value.into_flow()
    }
}

/// The mapper that gives a default value, whatever it is called with.
pub struct DefaultFn<T> {
    pub _marker: PhantomData<T>,
}

impl<A, T: Default> MapFnOnce<A> for DefaultFn<T> {
    type Out = T;

    open spec fn callable(&self) -> bool {
        true
    }

    open spec fn maps_once(self, value: A, out: T) -> bool {
        call_ensures(T::default, (), out)
    }

    fn map_exec_once(self, value: A) -> (out: T) {
        T::default()
    }
}

/// The mapper that turns a value into the flow it converts to, with a
/// default value in place of that flow's result.
pub struct IntoSubFlowFn<Res, M, In> {
    pub _marker: PhantomData<(Res, M, In)>,
}

impl<I, Res, M, In> MapFnOnce<I> for IntoSubFlowFn<Res, M, In> where
    I: IntoFlow<Res, M>,
    In: Default,
 {
    type Out = MapReturnSync<I::IntoFlow, DefaultFn<In>>;

    open spec fn callable(&self) -> bool {
        true
    }

    open spec fn maps_once(self, value: I, out: MapReturnSync<I::IntoFlow, DefaultFn<In>>) -> bool {
        value.converts(out.flow) && out.fun is Some
    }

    fn map_exec_once(self, value: I) -> (out: MapReturnSync<I::IntoFlow, DefaultFn<In>>) {
        MapReturnSync { flow: value.into_flow(), fun: Some(DefaultFn { _marker: PhantomData }) }
    }
}

impl<I, Res, M, In> MapFn<I> for IntoSubFlowFn<Res, M, In> where I: IntoFlow<Res, M>, In: Default {
    open spec fn maps(
        pre: Self,
        value: I,
        post: Self,
        out: MapReturnSync<I::IntoFlow, DefaultFn<In>>,
    ) -> bool {
        value.converts(out.flow) && out.fun is Some
    }

    fn map_exec(&mut self, value: I) -> (out: MapReturnSync<I::IntoFlow, DefaultFn<In>>) {
        MapReturnSync { flow: value.into_flow(), fun: Some(DefaultFn { _marker: PhantomData }) }
    }
}

/// The operator that flattens a flow of things that convert to flows. The
/// main flow is started with a default input and gets another one whenever a
/// sub-flow is done.
pub struct FlattenOp<Res, M> {
    pub _marker: PhantomData<(Res, M)>,
}

impl<Fl, In, Res, M> FlowOp<Fl, In> for FlattenOp<Res, M> where
    Fl: Flow<In>,
    Fl::Yield: IntoFlow<Res, M>,
    In: Default,
 {
    type Output = Flatten<
        MapSync<Fl, IntoSubFlowFn<Res, M, In>>,
        MapReturnSync<<Fl::Yield as IntoFlow<Res, M>>::IntoFlow, DefaultFn<In>>,
        In,
        Fl::Return,
    >;

    open spec fn accepts(&self, flow: Fl) -> bool {
        true
    }

    open spec fn applies(self, flow: Fl, out: Self::Output) -> bool {
        &&& out.main_flow.flow == flow
        &&& out.sub_flow is None
        &&& out.input matches Some(first) && call_ensures(In::default, (), first)
        &&& out.ret is None
    }

    fn execute(self, flow: Fl) -> (out: Self::Output) {
        Flatten {
            main_flow: MapSync { flow, fun: IntoSubFlowFn { _marker: PhantomData } },
            sub_flow: None,
            input: Some(In::default()),
            ret: None,
        }
    }
}

/// The operator that flattens a flow of things that convert to flows.
pub fn flatten<Res, M>() -> (op: WrapOp<FlattenOp<Res, M>>) {
    WrapOp(FlattenOp { _marker: PhantomData })
}

/// The operator that flattens a flow of things that convert to flows, and
/// starts the main flow with the input it holds. The result of each sub-flow
/// is the next input of the main flow.
pub struct FlattenInitOp<In, Res, M> {
    pub init: In,
    pub _marker: PhantomData<(Res, M)>,
}

impl<Fl, In, Res, M> FlowOp<Fl, In> for FlattenInitOp<In, Res, M> where
    Fl: Flow<In>,
    Fl::Yield: IntoFlow<Res, M, Return = In>,
 {
    type Output = Flatten<
        MapSync<Fl, IntoFlowFn<Res, M>>,
        <Fl::Yield as IntoFlow<Res, M>>::IntoFlow,
        In,
        Fl::Return,
    >;

    open spec fn accepts(&self, flow: Fl) -> bool {
        true
    }

    open spec fn applies(self, flow: Fl, out: Self::Output) -> bool {
        &&& out.main_flow.flow == flow
        &&& out.sub_flow is None
        &&& out.input == Some(self.init)
        &&& out.ret is None
    }

    fn execute(self, flow: Fl) -> (out: Self::Output) {
        Flatten {
            main_flow: MapSync { flow, fun: IntoFlowFn { _marker: PhantomData } },
            sub_flow: None,
            input: Some(self.init),
            ret: None,
        }
    }
}

/// The operator that flattens a flow of things that convert to flows, and
/// starts the main flow with `init`.
pub fn flatten_init<In, Res, M>(init: In) -> (op: WrapOp<FlattenInitOp<In, Res, M>>)
    ensures
        op.0.init == init,
{
    WrapOp(FlattenInitOp { init, _marker: PhantomData })
}

/// The operator that maps each output of a flow to something that converts
/// to a flow, and runs these flows one after the other, each to its end.
pub fn concat_map<In, Res, M, I, F>(fun: F) -> (op: WrapOp<
    ChainOp<TransformEachOp<MapEachFn<F>, I>, FlattenOp<Res, M>, In>,
>)
    ensures
        op.0.first.fun.fun == fun,
{
    chain(map_each(fun), flatten())
}

/// The operator that maps each output of a flow to something that converts
/// to a flow, and runs the newest of these flows: the flow is stepped as long
/// as it makes progress, only its newest output is mapped, and what it is
/// mapped to takes the place of the flow that was running.
pub fn switch_map<In, Res, M, I, F>(fun: F) -> (op: WrapOp<
    ChainOp<ChainOp<LatestOp, TransformEachOp<MapEachFn<F>, I>, In>, FlattenOp<Res, M>, In>,
>)
    ensures
        op.0.first.second.fun.fun == fun,
{
    chain(chain(latest(), map_each(fun)), flatten())
}

/// A sequence of sequences held in memory, flattened: what `flatten_init`
/// makes of the flow over the outer sequence.
pub type FlatVecs<T> = Flatten<
    MapSync<IterFlow<Vec<T>>, IntoFlowFn<(), IterFlow<()>>>,
    IterFlow<T>,
    (),
    (),
>;

/// All the items of `seqs`: the items of the first, then those of the
/// second, and so on.
pub open spec fn flat<T>(seqs: Seq<Vec<T>>) -> Seq<T>
    decreases seqs.len(),
{
    if seqs.len() == 0 {
        Seq::empty()
    } else {
        seqs[0]@ + flat(seqs.drop_first())
    }
}

/// The items that `flow` has still to give: those of the active sequence,
/// then those of the sequences that the main flow still holds.
pub open spec fn items_to_come<T>(flow: FlatVecs<T>) -> Seq<T> {
    (match flow.sub_flow {
        Some(sub) => sub.items@,
        None => Seq::empty(),
    }) + flat(flow.main_flow.flow.items@)
}

/// Whether `flow` stands between two steps: the main flow has not ended, and
/// it has an input at hand exactly if no sequence is active.
pub open spec fn between_steps<T>(flow: FlatVecs<T>) -> bool {
    &&& flow.ret is None
    &&& flow.sub_flow is Some <==> flow.input is None
}

/// Order in flattening: a step that finds an input in the slot gives the
/// first of the items to come and leaves the others to come, in the same
/// order. The sequences are gone through strictly one after the other, each
/// to its end, and the flow ends exactly when no item is left. A step is
/// pending only when its budget is spent, and then nothing has been given and
/// the input is still in the slot.
pub proof fn lemma_flatten_in_order<T>(
    pre: FlatVecs<T>,
    slot: Option<()>,
    post: FlatVecs<T>,
    rest: Option<()>,
    out: Poll<ControlFlow<(), T>>,
    fuel: nat,
)
    requires
        between_steps(pre),
        slot is Some,
        FlatVecs::<T>::turns(pre, slot, post, rest, out, fuel),
    ensures
        match out {
            Poll::Ready(ControlFlow::Continue(item)) => {
                &&& items_to_come(pre) == seq![item] + items_to_come(post)
                &&& between_steps(post)
            },
            Poll::Ready(ControlFlow::Break(_)) => items_to_come(pre) == Seq::<T>::empty(),
            Poll::Pending => {
                &&& items_to_come(post) == items_to_come(pre)
                &&& between_steps(post)
                &&& rest is Some
            },
        },
    decreases fuel,
{
    if fuel > 0 {
        let (mid, left, report) = choose|
            mid: FlatVecs<T>,
            left: Option<()>,
            report: Option<Poll<ControlFlow<(), T>>>,
        |
            {
                &&& #[trigger] FlatVecs::<T>::round(pre, slot, mid, left, report)
                &&& match report {
                    Some(reported) => out == reported && post == mid && rest == left,
                    None => FlatVecs::<T>::turns(mid, left, post, rest, out, (fuel - 1) as nat),
                }
            };
        let (fed, first) = choose|fed: FlatVecs<T>, first: Poll<ControlFlow<(), IterFlow<T>>>|
            {
                &&& #[trigger] FlatVecs::<T>::advances_main::<()>(pre, fed, first)
                &&& if fed.sub_flow is None {
                    &&& mid.main_flow == fed.main_flow
                    &&& mid.sub_flow is None
                    &&& mid.input == fed.input
                    &&& mid.ret is None
                    &&& left == slot
                    &&& report == Some(
                        match fed.ret {
                            Some(ret) => Poll::Ready(ControlFlow::<(), T>::Break(ret)),
                            None => Poll::Pending,
                        },
                    )
                } else {
                    exists|sub: IterFlow<T>, taken: Option<()>, second: Poll<ControlFlow<(), T>>|
                        {
                            &&& #[trigger] FlatVecs::<T>::advances_sub(
                                fed,
                                slot,
                                sub,
                                taken,
                                second,
                                mid,
                                left,
                            )
                            &&& report == match second {
                                Poll::Ready(ControlFlow::Continue(value)) => Some(
                                    Poll::Ready(ControlFlow::<(), T>::Continue(value)),
                                ),
                                Poll::Ready(ControlFlow::Break(_)) => None,
                                Poll::Pending => Some(Poll::Pending),
                            }
                        }
                }
            };
        let drawn = choose|drawn: Poll<ControlFlow<(), Vec<T>>>|
            {
                &&& #[trigger] IterFlow::<Vec<T>>::resumes(
                    pre.main_flow.flow,
                    pre.input,
                    fed.main_flow.flow,
                    fed.input,
                    drawn,
                )
                &&& match drawn {
                    Poll::Ready(ControlFlow::Continue(v)) => {
                        &&& first matches Poll::Ready(ControlFlow::Continue(made))
                        &&& v.converts(made)
                    },
                    Poll::Ready(ControlFlow::Break(ret)) => first == Poll::Ready(
                        ControlFlow::<(), IterFlow<T>>::Break(ret),
                    ),
                    Poll::Pending => first is Pending,
                }
            };
        let seqs = pre.main_flow.flow.items@;
        if pre.sub_flow is None && seqs.len() > 0 {
            assert(flat(seqs) == seqs[0]@ + flat(seqs.drop_first()));
        }
        if fed.sub_flow is None {
            assert(flat(seqs) == Seq::<T>::empty());
            assert(items_to_come(pre) =~= Seq::<T>::empty());
        } else {
            let (sub, taken, second) = choose|
                sub: IterFlow<T>,
                taken: Option<()>,
                second: Poll<ControlFlow<(), T>>,
            |
                {
                    &&& #[trigger] FlatVecs::<T>::advances_sub(
                        fed,
                        slot,
                        sub,
                        taken,
                        second,
                        mid,
                        left,
                    )
                    &&& report == match second {
                        Poll::Ready(ControlFlow::Continue(value)) => Some(
                            Poll::Ready(ControlFlow::<(), T>::Continue(value)),
                        ),
                        Poll::Ready(ControlFlow::Break(_)) => None,
                        Poll::Pending => Some(Poll::Pending),
                    }
                };
            let active = fed.sub_flow->0;
            assert(items_to_come(pre) =~= active.items@ + flat(fed.main_flow.flow.items@));
            match second {
                Poll::Ready(ControlFlow::Continue(item)) => {
                    assert(active.items@ =~= seq![item] + sub.items@);
                    assert(items_to_come(pre) =~= seq![item] + items_to_come(mid));
                },
                Poll::Ready(ControlFlow::Break(_)) => {
                    assert(active.items@ =~= Seq::<T>::empty());
                    assert(items_to_come(mid) =~= items_to_come(pre));
                    lemma_flatten_in_order(mid, left, post, rest, out, (fuel - 1) as nat);
                },
                Poll::Pending => {},
            }
        }
    }
}

/// Whether `task` is on its way to collect `all` from a flattened sequence
/// of sequences: what it has gathered, followed by the items to come, is
/// `all`, and an input is at hand for the next step.
pub open spec fn gathering_flat<T>(task: ExtendFromFlow<T, FlatVecs<T>, ()>, all: Seq<T>) -> bool {
    &&& task.dest matches Some(dest) && dest@ + items_to_come(task.src) == all
    &&& task.input is Some
    &&& between_steps(task.src)
}

/// A poll keeps a task that collects from a flattened sequence of sequences
/// on its way, and can only be ready with all the items.
pub proof fn lemma_gathers_flat<T>(
    pre: ExtendFromFlow<T, FlatVecs<T>, ()>,
    post: ExtendFromFlow<T, FlatVecs<T>, ()>,
    out: Poll<Vec<T>>,
    fuel: nat,
    all: Seq<T>,
)
    requires
        gathering_flat(pre, all),
        ExtendFromFlow::<T, FlatVecs<T>, ()>::gathers(pre, post, out, fuel),
    ensures
        match out {
            Poll::Ready(dest) => dest@ == all,
            Poll::Pending => gathering_flat(post, all),
        },
    decreases fuel,
{
    if fuel > 0 {
        let (mid, rest, step) = choose|
            mid: ExtendFromFlow<T, FlatVecs<T>, ()>,
            rest: Option<()>,
            step: Poll<ControlFlow<(), T>>,
        |
            {
                &&& #[trigger] ExtendFromFlow::<T, FlatVecs<T>, ()>::gather_step(
                    pre,
                    mid,
                    rest,
                    step,
                )
                &&& match step {
                    Poll::Pending => out is Pending && post == mid,
                    Poll::Ready(ControlFlow::Break(_)) => {
                        &&& out matches Poll::Ready(dest)
                        &&& pre.dest == Some(dest)
                        &&& post == mid
                    },
                    Poll::Ready(ControlFlow::Continue(_)) => ExtendFromFlow::<
                        T,
                        FlatVecs<T>,
                        (),
                    >::gathers(mid, post, out, (fuel - 1) as nat),
                }
            };
        lemma_flatten_in_order(pre.src, pre.input, mid.src, rest, step, POLL_BUDGET as nat);
        match step {
            Poll::Ready(ControlFlow::Continue(item)) => {
                let before = pre.dest->0@;
                assert(before.push(item) + items_to_come(mid.src) =~= before + (seq![item]
                    + items_to_come(mid.src)));
                lemma_gathers_flat(mid, post, out, (fuel - 1) as nat, all);
            },
            Poll::Ready(ControlFlow::Break(_)) => {
                assert(pre.dest->0@ + items_to_come(pre.src) =~= pre.dest->0@);
            },
            Poll::Pending => {},
        }
    }
}

/// A task that is on its way to collect `all` from a flattened sequence of
/// sequences completes with `all` and nothing else.
pub proof fn lemma_collects_flat<T>(
    task: ExtendFromFlow<T, FlatVecs<T>, ()>,
    pending: nat,
    out: Vec<T>,
    all: Seq<T>,
)
    requires
        gathering_flat(task, all),
        completes(task, pending, out),
    ensures
        out@ == all,
    decreases pending,
{
    if pending == 0 {
        let post = choose|post: ExtendFromFlow<T, FlatVecs<T>, ()>| #[trigger]
            ExtendFromFlow::<T, FlatVecs<T>, ()>::polls(task, post, Poll::Ready(out));
        lemma_gathers_flat(task, post, Poll::Ready(out), POLL_BUDGET as nat, all);
    } else {
        let mid = choose|mid: ExtendFromFlow<T, FlatVecs<T>, ()>| #[trigger]
            ExtendFromFlow::<T, FlatVecs<T>, ()>::polls(task, mid, Poll::Pending) && completes(
                mid,
                (pending - 1) as nat,
                out,
            );
        lemma_gathers_flat(task, mid, Poll::Pending, POLL_BUDGET as nat, all);
        lemma_collects_flat(mid, (pending - 1) as nat, out, all);
    }
}

/// Flattening keeps the order: a sequence of sequences turned into a flow,
/// flattened and collected gives the items of the first sequence, then
/// those of the second, and so on, however many polls the collecting takes.
pub proof fn lemma_flatten_collects_in_order<T>(
    seqs: Vec<Vec<T>>,
    main: IterFlow<Vec<T>>,
    op: WrapOp<FlattenInitOp<(), (), IterFlow<()>>>,
    flow: FlatVecs<T>,
    task: ExtendFromFlow<T, FlatVecs<T>, ()>,
    pending: nat,
    out: Vec<T>,
)
    requires
        seqs.converts(main),
        op.0.applies(main, flow),
        <Vec<T> as FromFlow<T, FlatVecs<T>, (), ExtendFromFlow<(), (), ()>>>::collects(flow, task),
        completes(task, pending, out),
    ensures
        out@ == flat(seqs@),
{
    assert(Seq::<T>::empty() + (Seq::<T>::empty() + flat(seqs@)) =~= flat(seqs@));
    lemma_collects_flat(task, pending, out, flat(seqs@));
}

} // verus!
