//! Feedback: a flow whose outputs are fed back to it as its next inputs,
//! run as a task.

use crate::convert::IntoFlow;
use crate::convert::IterFlow;
use crate::custom_fn::MapFn;
use crate::custom_fn::MapFnOnce;
use crate::flow::Flow;
use crate::flow_impls::OnEachSync;
use crate::my_try::MapContinue;
use crate::my_try::MyTry;
use crate::ops::compose::Compose;
use crate::ops::map::MapReturnSync;
use crate::ops::map::MapSync;
use crate::ops::FlowOp;
use crate::ops::WrapOp;
use crate::task::completes;
use crate::task::wake_again;
use crate::task::Task;
use crate::task::POLL_BUDGET;
use crate::utils::map_future;
use crate::utils::MapFuture;
use core::convert::Infallible;
use core::marker::PhantomData;
use core::ops::ControlFlow;
use core::task::Context;
use core::task::Poll;
use vstd::prelude::*;

verus! {

/// The task that feeds a flow its own outputs. Each output is a success or a
/// failure: a success is the next input, the first failure ends the task.
pub struct TryFeedback<Res, Fl> {
    pub inner: Fl,
    pub input: Option<Res>,
}

impl<Res, Ret, Y, Fl> TryFeedback<Res, Fl> where
    Fl: Flow<Res, Yield = Y, Return = Ret>,
    Y: MyTry<Continue = Res>,
 {
    /// One step of the flow inside a poll: the flow is polled with what is in
    /// the input slot, leaves `rest` there and reports `step`. An output that
    /// is a success goes into the slot.
    pub open spec fn feed_step(
        pre: Self,
        rest: Option<Res>,
        mid: Self,
        step: Poll<ControlFlow<Ret, Y>>,
    ) -> bool {
        &&& Fl::resumes(pre.inner, pre.input, mid.inner, rest, step)
        &&& mid.input == match step {
            Poll::Ready(ControlFlow::Continue(item)) => match item.control() {
                ControlFlow::Continue(next) => Some(next),
                ControlFlow::Break(_) => rest,
            },
            _ => rest,
        }
    }

    /// Whether the loop goes on after a step that reported `step`: it does
    /// after an output that is a success, and after nothing else.
    pub open spec fn fed_back(step: Poll<ControlFlow<Ret, Y>>) -> bool {
        step matches Poll::Ready(ControlFlow::Continue(item)) && item.control() is Continue
    }
}

impl<Res, Ret, Y, Fl> TryFeedback<Res, Fl> where
    Fl: Flow<Res, Yield = Y, Return = Ret>,
    Y: MyTry<Continue = Res> + MapContinue<Ret>,
 {
    /// What the task is ready with after a step that ended the loop: the
    /// result of the flow as a success, or the failure among its outputs.
    pub open spec fn concludes(step: Poll<ControlFlow<Ret, Y>>, out: Poll<Y::Mapped>) -> bool {
        match step {
            Poll::Pending => out is Pending,
            Poll::Ready(ControlFlow::Break(ret)) => {
                &&& out matches Poll::Ready(done)
                &&& done.control() == ControlFlow::<Y::Break, Ret>::Continue(ret)
            },
            Poll::Ready(ControlFlow::Continue(item)) => {
                &&& out matches Poll::Ready(failed)
                &&& item.control() matches ControlFlow::Break(failure)
                &&& failed.control() == ControlFlow::<Y::Break, Ret>::Break(failure)
            },
        }
    }

    /// What a poll that may take `fuel` steps of the flow can do. It goes on
    /// while the outputs are successes. With no steps left it is pending and
    /// changes nothing more.
    pub open spec fn feeds(pre: Self, post: Self, out: Poll<Y::Mapped>, fuel: nat) -> bool
        decreases fuel,
    {
        if fuel == 0 {
            out is Pending && post == pre
        } else {
            exists|rest: Option<Res>, mid: Self, step: Poll<ControlFlow<Ret, Y>>|
                {
                    &&& #[trigger] Self::feed_step(pre, rest, mid, step)
                    &&& if Self::fed_back(step) {
                        Self::feeds(mid, post, out, (fuel - 1) as nat)
                    } else {
                        Self::concludes(step, out) && post == mid
                    }
                }
        }
    }
}

impl<Res, Ret, Y, Fl> Task for TryFeedback<Res, Fl> where
    Fl: Flow<Res, Yield = Y, Return = Ret>,
    Y: MyTry<Continue = Res> + MapContinue<Ret>,
 {
    type Output = Y::Mapped;

    open spec fn pollable(&self) -> bool {
        self.inner.pollable()
    }

    open spec fn polls(pre: Self, post: Self, out: Poll<Y::Mapped>) -> bool {
        Self::feeds(pre, post, out, POLL_BUDGET as nat)
    }

    fn poll(&mut self, cx: &mut Context<'_>) -> (out: Poll<Y::Mapped>) {
        let mut budget: usize = POLL_BUDGET;
        while budget > 0
            invariant
                self.inner.pollable(),
                forall|post: Self, out: Poll<Y::Mapped>| #[trigger]
                    Self::feeds(*self, post, out, budget as nat) ==> Self::feeds(
                        *old(self),
                        post,
                        out,
                        POLL_BUDGET as nat,
                    ),
            decreases budget,
        {
            let ghost cur = *self;
            let ghost fuel = budget as nat;
            budget = budget - 1;
            let step = self.inner.poll_resume(cx, &mut self.input);
            let ghost rest = self.input;
            let ghost seen = step;
            match step {
                Poll::Pending => {
                    proof {
                        assert(Self::feed_step(cur, rest, *self, seen));
                        assert(Self::feeds(cur, *self, Poll::Pending, fuel));
                    }
                    return Poll::Pending;
                },
                Poll::Ready(ControlFlow::Break(ret)) => {
                    let out = Poll::Ready(MyTry::from_continue(ret));
                    proof {
                        assert(Self::feed_step(cur, rest, *self, seen));
                        assert(Self::feeds(cur, *self, out, fuel));
                    }
                    return out;
                },
                Poll::Ready(ControlFlow::Continue(item)) => match item.into_control_flow() {
                    ControlFlow::Continue(next) => {
                        self.input = Some(next);
                        proof {
                            let mid = *self;
                            assert forall|post: Self, out: Poll<Y::Mapped>| #[trigger]
                                Self::feeds(mid, post, out, budget as nat) implies Self::feeds(
                                cur,
                                post,
                                out,
                                fuel,
                            ) by {
                                assert(Self::feed_step(cur, rest, mid, seen));
                            }
                        }
                    },
                    ControlFlow::Break(failure) => {
                        let out = Poll::Ready(MyTry::from_break(failure));
                        proof {
                            assert(Self::feed_step(cur, rest, *self, seen));
                            assert(Self::feeds(cur, *self, out, fuel));
                        }
                        return out;
                    },
                },
            }
        }
        assert(Self::feeds(*self, *self, Poll::Pending, 0));
        wake_again(cx);
        Poll::Pending
    }
}

/// The operator that feeds a flow its own outputs, beginning with the input
/// it holds.
pub struct TryFeedbackOp<Res> {
    pub init: Res,
}

impl<Res, Fl> FlowOp<Fl, Res> for TryFeedbackOp<Res> where
    Fl: Flow<Res>,
    Fl::Yield: MyTry<Continue = Res>,
 {
    type Output = TryFeedback<Res, Fl>;

    open spec fn accepts(&self, flow: Fl) -> bool {
        true
    }

    open spec fn applies(self, flow: Fl, out: TryFeedback<Res, Fl>) -> bool {
        out == (TryFeedback { inner: flow, input: Some(self.init) })
    }

    fn execute(self, flow: Fl) -> (out: TryFeedback<Res, Fl>) {
        TryFeedback { inner: flow, input: Some(self.init) }
    }
}

/// The operator that feeds a flow its own outputs, beginning with `init`.
pub fn try_feedback<Res>(init: Res) -> (op: WrapOp<TryFeedbackOp<Res>>)
    ensures
        op.0.init == init,
{
    WrapOp(TryFeedbackOp { init })
}

/// `Infallible` has no values, so no call of this function ever takes place.
/// Nothing is stated about what it returns.
#[verifier::external_body]
fn absurd<T>(value: Infallible) -> T {
    match value {
    }
}

/// The mapper from a result that cannot come to any type.
pub struct NeverToAny<T>(pub PhantomData<T>);

impl<T> MapFnOnce<Infallible> for NeverToAny<T> {
    type Out = T;

    open spec fn callable(&self) -> bool {
        true
    }

    open spec fn maps_once(self, value: Infallible, out: T) -> bool {
        true
    }

    fn map_exec_once(self, value: Infallible) -> (out: T) {
        let mut this = self;
        this.map_exec(value)
    }
}

impl<T> MapFn<Infallible> for NeverToAny<T> {
    open spec fn maps(pre: Self, value: Infallible, post: Self, out: T) -> bool {
        true
    }

    fn map_exec(&mut self, value: Infallible) -> (out: T) {
        absurd(value)
    }
}

/// The mapper that wraps a value as a success.
pub struct WrapOk<E>(pub PhantomData<E>);

impl<T, E> MapFnOnce<T> for WrapOk<E> {
    type Out = Result<T, E>;

    open spec fn callable(&self) -> bool {
        true
    }

    open spec fn maps_once(self, value: T, out: Result<T, E>) -> bool {
        out == Ok::<T, E>(value)
    }

    fn map_exec_once(self, value: T) -> (out: Result<T, E>) {
        let mut this = self;
        this.map_exec(value)
    }
}

impl<T, E> MapFn<T> for WrapOk<E> {
    open spec fn maps(pre: Self, value: T, post: Self, out: Result<T, E>) -> bool {
        out == Ok::<T, E>(value)
    }

    fn map_exec(&mut self, value: T) -> (out: Result<T, E>) {
        Ok(value)
    }
}

/// The mapper that unwraps a success that has no failure beside it.
pub struct UnwrapInfallible;

impl<T> MapFnOnce<Result<T, Infallible>> for UnwrapInfallible {
    type Out = T;

    open spec fn callable(&self) -> bool {
        true
    }

    open spec fn maps_once(self, value: Result<T, Infallible>, out: T) -> bool {
        value matches Ok(inner) ==> out == inner
    }

    fn map_exec_once(self, value: Result<T, Infallible>) -> (out: T) {
        let mut this = self;
        this.map_exec(value)
    }
}

impl<T> MapFn<Result<T, Infallible>> for UnwrapInfallible {
    open spec fn maps(pre: Self, value: Result<T, Infallible>, post: Self, out: T) -> bool {
        value matches Ok(inner) ==> out == inner
    }

    fn map_exec(&mut self, value: Result<T, Infallible>) -> (out: T) {
        match value {
            Ok(inner) => inner,
            Err(never) => absurd(never),
        }
    }
}

/// The task that feeds a flow its own outputs until the flow completes, and
/// is ready with the result of the flow.
pub type Feedback<Res, Fl> = MapFuture<
    TryFeedback<Res, MapSync<Fl, WrapOk<Infallible>>>,
    UnwrapInfallible,
>;

/// The operator that feeds a flow its own outputs until it completes,
/// beginning with the input it holds.
pub struct FeedbackOp<Res> {
    pub init: Res,
}

impl<Res, Fl> FlowOp<Fl, Res> for FeedbackOp<Res> where Fl: Flow<Res, Yield = Res> {
    type Output = Feedback<Res, Fl>;

    open spec fn accepts(&self, flow: Fl) -> bool {
        true
    }

    open spec fn applies(self, flow: Fl, out: Feedback<Res, Fl>) -> bool {
        &&& out.fut.inner.flow == flow
        &&& out.fut.input == Some(self.init)
        &&& out.fun is Some
    }

    fn execute(self, flow: Fl) -> (out: Feedback<Res, Fl>) {
        map_future(
            TryFeedback {
                inner: MapSync { flow, fun: WrapOk(PhantomData) },
                input: Some(self.init),
            },
            UnwrapInfallible,
        )
    }
}

/// The operator that feeds a flow its own outputs until it completes,
/// beginning with `init`.
pub fn feedback<Res>(init: Res) -> (op: WrapOp<FeedbackOp<Res>>)
    ensures
        op.0.init == init,
{
    WrapOp(FeedbackOp { init })
}

/// A source piped into a sink, with the answers of the sink fed back to the
/// source as long as they are successes.
pub type TryForEach<Yield, Resume, Src, Dst> = TryFeedback<
    Resume,
    Compose<Yield, Src, MapReturnSync<Dst, NeverToAny<<Src as Flow<Resume>>::Return>>>,
>;

/// A source piped into a sink, with the answers of the sink fed back to the
/// source.
pub type ForEach<Yield, Resume, Src, Dst> = Feedback<
    Resume,
    Compose<Yield, Src, MapReturnSync<Dst, NeverToAny<<Src as Flow<Resume>>::Return>>>,
>;

/// The source piped into the sink, with nothing moving yet.
pub fn pipe_into<Yield, Res, Src, Dst>(src: Src, collector: Dst) -> (piped: Compose<
    Yield,
    Src,
    MapReturnSync<Dst, NeverToAny<Src::Return>>,
>) where Src: Flow<Res, Yield = Yield>, Dst: Flow<Yield, Return = Infallible>
    ensures
        piped.src == src,
        piped.dst.flow == collector,
        piped.dst.fun is Some,
        piped.b is None,
{
    Compose {
        src,
        dst: MapReturnSync { flow: collector, fun: Some(NeverToAny(PhantomData)) },
        b: None,
    }
}

/// The task that runs `src` into `collector`: `src` is started with `init`,
/// each of its outputs goes to `collector`, and each answer of `collector`
/// that is a success is the next input of `src`. The task is ready with the
/// first failure that `collector` answers, or with the result of `src`.
pub fn try_for_each_init<Yield, Res, Out, Return, Src, Dst, M, I>(
    src: I,
    collector: Dst,
    init: Res,
) -> (task: TryForEach<Yield, Res, Src, Dst>) where
    I: IntoFlow<Res, M, IntoFlow = Src>,
    Src: Flow<Res, Yield = Yield, Return = Return>,
    Dst: Flow<Yield, Yield = Out, Return = Infallible>,
    Out: MyTry<Continue = Res>,

    ensures
        src.converts(task.inner.src),
        task.inner.dst.flow == collector,
        task.inner.dst.fun is Some,
        task.inner.b is None,
        task.input == Some(init),
{
    TryFeedback { inner: pipe_into(src.into_flow(), collector), input: Some(init) }
}

/// `try_for_each_init` with a default first input.
pub fn try_for_each<Yield, Res, Out, Return, Src, Dst, M, I>(src: I, collector: Dst) -> (task:
    TryForEach<Yield, Res, Src, Dst>) where
    Res: Default,
    I: IntoFlow<Res, M, IntoFlow = Src>,
    Src: Flow<Res, Yield = Yield, Return = Return>,
    Dst: Flow<Yield, Yield = Out, Return = Infallible>,
    Out: MyTry<Continue = Res>,

    ensures
        src.converts(task.inner.src),
        task.inner.dst.flow == collector,
        task.inner.dst.fun is Some,
        task.inner.b is None,
        task.input matches Some(first) && call_ensures(Res::default, (), first),
{
    try_for_each_init(src, collector, Res::default())
}

/// The task that runs `src` into `collector`: `src` is started with `init`,
/// each of its outputs goes to `collector`, and each answer of `collector` is
/// the next input of `src`. The task is ready with the result of `src`.
pub fn for_each_init<Yield, Res, Return, Src, Dst, M, I>(src: I, collector: Dst, init: Res) -> (task:
    ForEach<Yield, Res, Src, Dst>) where
    I: IntoFlow<Res, M, IntoFlow = Src>,
    Src: Flow<Res, Yield = Yield, Return = Return>,
    Dst: Flow<Yield, Yield = Res, Return = Infallible>,

    ensures
        src.converts(task.fut.inner.flow.src),
        task.fut.inner.flow.dst.flow == collector,
        task.fut.inner.flow.dst.fun is Some,
        task.fut.inner.flow.b is None,
        task.fut.input == Some(init),
        task.fun is Some,
{
    WrapOp(FeedbackOp { init }).execute(pipe_into(src.into_flow(), collector))
}

/// `for_each_init` with a default first input.
pub fn for_each<Yield, Res, Return, Src, Dst, M, I>(src: I, collector: Dst) -> (task: ForEach<
    Yield,
    Res,
    Src,
    Dst,
>) where
    Res: Default,
    I: IntoFlow<Res, M, IntoFlow = Src>,
    Src: Flow<Res, Yield = Yield, Return = Return>,
    Dst: Flow<Yield, Yield = Res, Return = Infallible>,

    ensures
        src.converts(task.fut.inner.flow.src),
        task.fut.inner.flow.dst.flow == collector,
        task.fut.inner.flow.dst.fun is Some,
        task.fut.inner.flow.b is None,
        task.fut.input matches Some(first) && call_ensures(Res::default, (), first),
        task.fun is Some,
{
    for_each_init(src, collector, Res::default())
}

/// A sequence held in memory run into a sink that answers each item at
/// once with a success or a failure: what `try_for_each` makes of the two.
pub type SeqIntoSink<T, F> = TryForEach<T, (), IterFlow<T>, OnEachSync<F, Infallible>>;

/// Whether the sink answers as `verdict` says.
pub open spec fn judges<T, E, F: MapFn<T, Out = Result<(), E>>>(
    verdict: spec_fn(T) -> Result<(), E>,
) -> bool {
    forall|pre: F, value: T, post: F, out: Result<(), E>| #[trigger]
        F::maps(pre, value, post, out) ==> out == verdict(value)
}

/// What comes of running `items` into a sink that answers as `verdict` says:
/// the first failure, with the items after the one that failed left over, or
/// success, with no item left over.
pub open spec fn outcome<T, E>(verdict: spec_fn(T) -> Result<(), E>, items: Seq<T>) -> (
    Result<(), E>,
    Seq<T>,
)
    decreases items.len(),
{
    if items.len() == 0 {
        (Ok(()), items)
    } else {
        match verdict(items[0]) {
            Ok(_) => outcome(verdict, items.drop_first()),
            Err(failure) => (Err(failure), items.drop_first()),
        }
    }
}

/// Whether `task` stands between two steps: an input is at hand for the
/// source, and no item waits for the sink.
pub open spec fn feeding<T, E, F: MapFn<T, Out = Result<(), E>>>(task: SeqIntoSink<T, F>) -> bool {
    &&& task.input is Some
    &&& task.inner.b is None
    &&& task.inner.dst.fun is Some
}

/// Early end: a poll runs the items into the sink one by one, in order, and
/// ends with the first failure that the sink answers. The source is not
/// resumed after that: the items after the one that failed are still in it.
/// Without a failure the poll ends with success when no item is left. A poll
/// that is pending has spent its budget on items that succeeded.
pub proof fn lemma_feeds_until_failure<T, E, F>(
    verdict: spec_fn(T) -> Result<(), E>,
    pre: SeqIntoSink<T, F>,
    post: SeqIntoSink<T, F>,
    out: Poll<Result<(), E>>,
    fuel: nat,
) where F: MapFn<T, Out = Result<(), E>>
    requires
        judges::<T, E, F>(verdict),
        feeding(pre),
        SeqIntoSink::<T, F>::feeds(pre, post, out, fuel),
    ensures
        match out {
            Poll::Ready(result) => (result, post.inner.src.items@) == outcome(
                verdict,
                pre.inner.src.items@,
            ),
            Poll::Pending => {
                &&& outcome(verdict, post.inner.src.items@) == outcome(
                    verdict,
                    pre.inner.src.items@,
                )
                &&& feeding(post)
            },
        },
    decreases fuel,
{
    if fuel > 0 {
        let (rest, mid, step) = choose|
            rest: Option<()>,
            mid: SeqIntoSink<T, F>,
            step: Poll<ControlFlow<(), Result<(), E>>>,
        |
            {
                &&& #[trigger] SeqIntoSink::<T, F>::feed_step(pre, rest, mid, step)
                &&& if SeqIntoSink::<T, F>::fed_back(step) {
                    SeqIntoSink::<T, F>::feeds(mid, post, out, (fuel - 1) as nat)
                } else {
                    SeqIntoSink::<T, F>::concludes(step, out) && post == mid
                }
            };
        let first = choose|first: Poll<ControlFlow<(), T>>|
            {
                &&& #[trigger] IterFlow::<T>::resumes(
                    pre.inner.src,
                    pre.input,
                    mid.inner.src,
                    rest,
                    first,
                )
                &&& match first {
                    Poll::Ready(ControlFlow::Break(ret)) => {
                        &&& step == Poll::Ready(ControlFlow::<(), Result<(), E>>::Break(ret))
                        &&& mid.inner.dst == pre.inner.dst
                        &&& mid.inner.b == pre.inner.b
                    },
                    Poll::Ready(ControlFlow::Continue(item)) => MapReturnSync::<
                        OnEachSync<F, Infallible>,
                        NeverToAny<()>,
                    >::resumes(pre.inner.dst, Some(item), mid.inner.dst, mid.inner.b, step),
                    Poll::Pending => MapReturnSync::<
                        OnEachSync<F, Infallible>,
                        NeverToAny<()>,
                    >::resumes(pre.inner.dst, pre.inner.b, mid.inner.dst, mid.inner.b, step),
                }
            };
        let items = pre.inner.src.items@;
        if items.len() == 0 {
            if let Poll::Ready(result) = out {
                assert(result.control() == ControlFlow::<E, ()>::Continue(()));
                assert(result == Ok::<(), E>(()));
            }
        } else {
            let item = items[0];
            let answered = choose|answered: Poll<ControlFlow<Infallible, Result<(), E>>>|
                {
                    &&& #[trigger] OnEachSync::<F, Infallible>::resumes(
                        pre.inner.dst.flow,
                        Some(item),
                        mid.inner.dst.flow,
                        mid.inner.b,
                        answered,
                    )
                    &&& match answered {
                        Poll::Ready(ControlFlow::Continue(y)) => {
                            &&& step == Poll::Ready(ControlFlow::<(), Result<(), E>>::Continue(y))
                            &&& mid.inner.dst.fun == pre.inner.dst.fun
                        },
                        Poll::Ready(ControlFlow::Break(ret)) => {
                            &&& step matches Poll::Ready(ControlFlow::Break(mapped))
                            &&& pre.inner.dst.fun matches Some(fun)
                            &&& fun.maps_once(ret, mapped)
                            &&& mid.inner.dst.fun is None
                        },
                        Poll::Pending => step is Pending && mid.inner.dst.fun == pre.inner.dst.fun,
                    }
                };
            if let Poll::Ready(ControlFlow::Continue(answer)) = answered {
                assert(answer == verdict(item));
                match answer {
                    Ok(_) => {
                        lemma_feeds_until_failure(verdict, mid, post, out, (fuel - 1) as nat);
                    },
                    Err(failure) => {
                        if let Poll::Ready(result) = out {
                            assert(result.control() == ControlFlow::<E, ()>::Break(failure));
                            assert(result == Err::<(), E>(failure));
                        }
                    },
                }
            }
        }
    }
}

/// Early end over a whole run: a task that `try_for_each` has made of a
/// sequence and a sink, and that has got as far as `items`, ends with what
/// `outcome` says of `items`, however many polls it takes.
pub proof fn lemma_try_for_each_ends_at_the_first_failure<T, E, F>(
    verdict: spec_fn(T) -> Result<(), E>,
    items: Seq<T>,
    task: SeqIntoSink<T, F>,
    pending: nat,
    out: Result<(), E>,
) where F: MapFn<T, Out = Result<(), E>>
    requires
        judges::<T, E, F>(verdict),
        feeding(task),
        outcome(verdict, task.inner.src.items@) == outcome(verdict, items),
        completes(task, pending, out),
    ensures
        out == outcome(verdict, items).0,
    decreases pending,
{
    if pending == 0 {
        let post = choose|post: SeqIntoSink<T, F>| #[trigger]
            SeqIntoSink::<T, F>::polls(task, post, Poll::Ready(out));
        lemma_feeds_until_failure(verdict, task, post, Poll::Ready(out), POLL_BUDGET as nat);
    } else {
        let mid = choose|mid: SeqIntoSink<T, F>| #[trigger]
            SeqIntoSink::<T, F>::polls(task, mid, Poll::Pending) && completes(
                mid,
                (pending - 1) as nat,
                out,
            );
        lemma_feeds_until_failure(verdict, task, mid, Poll::Pending, POLL_BUDGET as nat);
        lemma_try_for_each_ends_at_the_first_failure(
            verdict,
            items,
            mid,
            (pending - 1) as nat,
            out,
        );
    }
}

} // verus!
