//! Conversions: what can be turned into a flow, and what a flow can be
//! collected into.

use crate::flow::Flow;
use crate::task::completes;
use crate::task::wake_again;
use crate::task::Task;
use crate::task::POLL_BUDGET;
use core::ops::ControlFlow;
use core::task::Context;
use core::task::Poll;
use either::Either;
use std::collections::VecDeque;
use vstd::prelude::*;

verus! {

/// Something that can be turned into a flow. The marker `M` tells the
/// conversions of one type apart.
pub trait IntoFlow<Resume, M = ()>: Sized {
    type Yield;

    type Return;

    type IntoFlow: Flow<Resume, Yield = Self::Yield, Return = Self::Return>;

    /// The flows that the conversion of `self` can give.
    open spec fn converts(self, flow: Self::IntoFlow) -> bool {
        true
    }

    fn into_flow(self) -> (flow: Self::IntoFlow)
        ensures
            self.converts(flow),
    ;
}

impl<Fl, R> IntoFlow<R> for Fl where Fl: Flow<R> {
    type Yield = Fl::Yield;

    type Return = Fl::Return;

    type IntoFlow = Fl;

    open spec fn converts(self, flow: Fl) -> bool {
        flow == self
    }

    fn into_flow(self) -> (flow: Fl) {
        self
    }
}

/// The flow over a sequence held in memory: every input is answered with the
/// next item, and the first input after the last item with the result.
pub struct IterFlow<T> {
    pub items: VecDeque<T>,
}

impl<T> Flow<()> for IterFlow<T> {
    type Yield = T;

    type Return = ();

    open spec fn pollable(&self) -> bool {
        true
    }

    open spec fn resumes(
        pre: Self,
        input: Option<()>,
        post: Self,
        rest: Option<()>,
        out: Poll<ControlFlow<(), T>>,
    ) -> bool {
        &&& rest is None
        &&& match input {
            Some(_) => if pre.items@.len() > 0 {
                &&& out == Poll::Ready(ControlFlow::<(), T>::Continue(pre.items@[0]))
                &&& post.items@ == pre.items@.drop_first()
            } else {
                &&& out == Poll::Ready(ControlFlow::<(), T>::Break(()))
                &&& post.items@ == pre.items@
            },
            None => out is Pending && post.items@ == pre.items@,
        }
    }

    open spec fn resumable(&self) -> bool {
        true
    }

    fn poll_resume(&mut self, cx: &mut Context<'_>, input: &mut Option<()>) -> (out: Poll<
        ControlFlow<(), T>,
    >) {
        if input.take().is_some() {
            match self.items.pop_front() {
                Some(item) => {
                    assert(self.items@ =~= old(self).items@.drop_first());
                    Poll::Ready(ControlFlow::Continue(item))
                },
                None => Poll::Ready(ControlFlow::Break(())),
            }
        } else {
            Poll::Pending
        }
    }

    fn can_resume(&self) -> (b: bool) {
        true
    }
}

impl<T> IntoFlow<(), IterFlow<()>> for Vec<T> {
    type Yield = T;

    type Return = ();

    type IntoFlow = IterFlow<T>;

    open spec fn converts(self, flow: IterFlow<T>) -> bool {
        flow.items@ == self@
    }

    fn into_flow(self) -> (flow: IterFlow<T>) {
        IterFlow { items: into_deque(self) }
    }
}

/// The items of `source`, in the same order, in a queue that gives them out
/// from the front.
pub fn into_deque<T>(source: Vec<T>) -> (items: VecDeque<T>)
    ensures
        items@ == source@,
{
    let mut rest = source;
    let mut items: VecDeque<T> = VecDeque::new();
    while rest.len() > 0
        invariant
            rest@ + items@ == source@,
        decreases rest.len(),
    {
        let ghost before = rest@;
        let ghost moved = items@;
        let item = rest.pop().unwrap();
        items.push_front(item);
        assert(rest@ + items@ =~= before + moved);
    }
    assert(items@ =~= rest@ + items@);
    items
}

/// Something that a flow can be collected into. The marker `M` tells the
/// ways of collecting into one type apart.
pub trait FromFlow<Item, Fl: Flow<Resume, Yield = Item>, Resume = (), M = ()>: Sized {
    type FromFlowFuture: Task<Output = Self>;

    /// The tasks that collecting `src` can start with.
    open spec fn collects(src: Fl, task: Self::FromFlowFuture) -> bool {
        true
    }

    fn from_flow(src: Fl) -> (task: Self::FromFlowFuture)
        requires
            src.pollable(),
        ensures
            Self::collects(src, task),
            task.pollable(),
    ;
}

/// The task that gathers the outputs of `src` in `dest`, in the order in
/// which they come, and is ready with `dest` when `src` has completed. Each
/// output is answered with a default input.
pub struct ExtendFromFlow<T, Src, Res> {
    pub src: Src,
    pub dest: Option<Vec<T>>,
    pub input: Option<Res>,
}

impl<T, Src, Res> ExtendFromFlow<T, Src, Res> where Src: Flow<Res, Yield = T>, Res: Default {
    /// One step of `src` inside a poll: `src` is polled with what is in the
    /// input slot, leaves `rest` there and reports `step`. An output is
    /// appended to what was gathered, and the slot is filled with a default
    /// input if the step left it empty. A result takes what was gathered out
    /// of the task.
    pub open spec fn gather_step(
        pre: Self,
        mid: Self,
        rest: Option<Res>,
        step: Poll<ControlFlow<Src::Return, T>>,
    ) -> bool {
        &&& Src::resumes(pre.src, pre.input, mid.src, rest, step)
        &&& match step {
            Poll::Pending => mid.dest == pre.dest && mid.input == rest,
            Poll::Ready(ControlFlow::Break(_)) => mid.dest is None && mid.input == rest,
            Poll::Ready(ControlFlow::Continue(item)) => {
                &&& pre.dest matches Some(before)
                &&& mid.dest matches Some(after)
                &&& after@ == before@.push(item)
                &&& if rest is Some {
                    mid.input == rest
                } else {
                    mid.input matches Some(filler) && call_ensures(Res::default, (), filler)
                }
            },
        }
    }

    /// What a poll that may take `fuel` steps of `src` can do. A step that is
    /// pending ends the poll; a result ends it, ready with what was gathered;
    /// after an output the poll goes on. With no steps left the poll is
    /// pending and changes nothing more.
    pub open spec fn gathers(pre: Self, post: Self, out: Poll<Vec<T>>, fuel: nat) -> bool
        decreases fuel,
    {
        if fuel == 0 {
            out is Pending && post == pre
        } else {
            exists|mid: Self, rest: Option<Res>, step: Poll<ControlFlow<Src::Return, T>>|
                {
                    &&& #[trigger] Self::gather_step(pre, mid, rest, step)
                    &&& match step {
                        Poll::Pending => out is Pending && post == mid,
                        Poll::Ready(ControlFlow::Break(_)) => {
                            &&& out matches Poll::Ready(dest)
                            &&& pre.dest == Some(dest)
                            &&& post == mid
                        },
                        Poll::Ready(ControlFlow::Continue(_)) => Self::gathers(
                            mid,
                            post,
                            out,
                            (fuel - 1) as nat,
                        ),
                    }
                }
        }
    }
}

impl<T, Src, Res> Task for ExtendFromFlow<T, Src, Res> where Src: Flow<Res, Yield = T>, Res: Default {
    type Output = Vec<T>;

    open spec fn pollable(&self) -> bool {
        self.src.pollable() && self.dest is Some
    }

    open spec fn polls(pre: Self, post: Self, out: Poll<Vec<T>>) -> bool {
        Self::gathers(pre, post, out, POLL_BUDGET as nat)
    }

    fn poll(&mut self, cx: &mut Context<'_>) -> (out: Poll<Vec<T>>) {
        let mut budget: usize = POLL_BUDGET;
        while budget > 0
            invariant
                self.pollable(),
                forall|post: Self, out: Poll<Vec<T>>| #[trigger]
                    Self::gathers(*self, post, out, budget as nat) ==> Self::gathers(
                        *old(self),
                        post,
                        out,
                        POLL_BUDGET as nat,
                    ),
            decreases budget,
        {
            let ghost cur = *self;
            let ghost fuel = budget as nat;
            budget = budget - 1;
            let step = self.src.poll_resume(cx, &mut self.input);
            let ghost rest = self.input;
            let ghost seen = step;
            match step {
                Poll::Pending => {
                    proof {
                        assert(Self::gather_step(cur, *self, rest, seen));
                        assert(Self::gathers(cur, *self, Poll::Pending, fuel));
                    }
                    return Poll::Pending;
                },
                Poll::Ready(ControlFlow::Break(_)) => {
                    let dest = self.dest.take().unwrap();
                    let out = Poll::Ready(dest);
                    proof {
                        assert(Self::gather_step(cur, *self, rest, seen));
                        assert(Self::gathers(cur, *self, out, fuel));
                    }
                    return out;
                },
                Poll::Ready(ControlFlow::Continue(item)) => {
                    let mut dest = self.dest.take().unwrap();
                    dest.push(item);
                    self.dest = Some(dest);
                    if self.input.is_none() {
                        self.input = Some(Res::default());
                    }
                    proof {
                        let mid = *self;
                        assert forall|post: Self, out: Poll<Vec<T>>| #[trigger]
                            Self::gathers(mid, post, out, budget as nat) implies Self::gathers(
                            cur,
                            post,
                            out,
                            fuel,
                        ) by {
                            assert(Self::gather_step(cur, mid, rest, seen));
                        }
                    }
                },
            }
        }
        assert(Self::gathers(*self, *self, Poll::Pending, 0));
        wake_again(cx);
        Poll::Pending
    }
}

impl<T, Fl, Res> FromFlow<T, Fl, Res, ExtendFromFlow<(), (), ()>> for Vec<T> where
    Fl: Flow<Res, Yield = T>,
    Res: Default,
 {
    type FromFlowFuture = ExtendFromFlow<T, Fl, Res>;

    open spec fn collects(src: Fl, task: ExtendFromFlow<T, Fl, Res>) -> bool {
        &&& task.src == src
        &&& task.dest matches Some(dest) && dest@ == Seq::<T>::empty()
        &&& task.input matches Some(first) && call_ensures(Res::default, (), first)
    }

    fn from_flow(src: Fl) -> (task: ExtendFromFlow<T, Fl, Res>) {
        ExtendFromFlow { src, dest: Some(Vec::new()), input: Some(Res::default()) }
    }
}

/// Whether `task` is on its way to collect `all`: what it has gathered,
/// followed by what its source still holds, is `all`, and an input is at hand
/// for the next step.
pub open spec fn gathering<T>(task: ExtendFromFlow<T, IterFlow<T>, ()>, all: Seq<T>) -> bool {
    &&& task.dest matches Some(dest) && dest@ + task.src.items@ == all
    &&& task.input is Some
}

/// A poll keeps a collecting task on its way, and can only be ready with all
/// the items.
pub proof fn lemma_gathers_in_order<T>(
    pre: ExtendFromFlow<T, IterFlow<T>, ()>,
    post: ExtendFromFlow<T, IterFlow<T>, ()>,
    out: Poll<Vec<T>>,
    fuel: nat,
    all: Seq<T>,
)
    requires
        gathering(pre, all),
        ExtendFromFlow::<T, IterFlow<T>, ()>::gathers(pre, post, out, fuel),
    ensures
        match out {
            Poll::Ready(dest) => dest@ == all,
            Poll::Pending => gathering(post, all),
        },
    decreases fuel,
{
    if fuel > 0 {
        let (mid, rest, step) = choose|
            mid: ExtendFromFlow<T, IterFlow<T>, ()>,
            rest: Option<()>,
            step: Poll<ControlFlow<(), T>>,
        |
            {
                &&& #[trigger] ExtendFromFlow::<T, IterFlow<T>, ()>::gather_step(pre, mid, rest, step)
                &&& match step {
                    Poll::Pending => out is Pending && post == mid,
                    Poll::Ready(ControlFlow::Break(_)) => {
                        &&& out matches Poll::Ready(dest)
                        &&& pre.dest == Some(dest)
                        &&& post == mid
                    },
                    Poll::Ready(ControlFlow::Continue(_)) => ExtendFromFlow::<
                        T,
                        IterFlow<T>,
                        (),
                    >::gathers(mid, post, out, (fuel - 1) as nat),
                }
            };
        match step {
            Poll::Ready(ControlFlow::Continue(item)) => {
                let before = pre.dest->0@;
                assert(before.push(item) + pre.src.items@.drop_first() =~= before
                    + pre.src.items@);
                lemma_gathers_in_order(mid, post, out, (fuel - 1) as nat, all);
            },
            Poll::Ready(ControlFlow::Break(_)) => {
                assert(pre.dest->0@ + pre.src.items@ =~= pre.dest->0@);
            },
            Poll::Pending => {},
        }
    }
}

/// Round trip: a sequence turned into a flow and collected again comes back
/// unchanged, however many polls the collecting takes.
pub proof fn lemma_round_trip<T>(
    items: Vec<T>,
    flow: IterFlow<T>,
    task: ExtendFromFlow<T, IterFlow<T>, ()>,
    pending: nat,
    out: Vec<T>,
)
    requires
        items.converts(flow),
        <Vec<T> as FromFlow<T, IterFlow<T>, (), ExtendFromFlow<(), (), ()>>>::collects(flow, task),
        completes(task, pending, out),
    ensures
        out@ == items@,
{
    assert(Seq::<T>::empty() + flow.items@ =~= flow.items@);
    lemma_collects_all(task, pending, out, items@);
}

/// A collecting task that is on its way to collect `all` completes with
/// `all` and nothing else.
pub proof fn lemma_collects_all<T>(
    task: ExtendFromFlow<T, IterFlow<T>, ()>,
    pending: nat,
    out: Vec<T>,
    all: Seq<T>,
)
    requires
        gathering(task, all),
        completes(task, pending, out),
    ensures
        out@ == all,
    decreases pending,
{
    if pending == 0 {
        let post = choose|post: ExtendFromFlow<T, IterFlow<T>, ()>| #[trigger]
            ExtendFromFlow::<T, IterFlow<T>, ()>::polls(task, post, Poll::Ready(out));
        lemma_gathers_in_order(task, post, Poll::Ready(out), POLL_BUDGET as nat, all);
    } else {
        let mid = choose|mid: ExtendFromFlow<T, IterFlow<T>, ()>| #[trigger]
            ExtendFromFlow::<T, IterFlow<T>, ()>::polls(task, mid, Poll::Pending) && completes(
                mid,
                (pending - 1) as nat,
                out,
            );
        lemma_gathers_in_order(task, mid, Poll::Pending, POLL_BUDGET as nat, all);
        lemma_collects_all(mid, (pending - 1) as nat, out, all);
    }
}

/// `either::Either`, with its two variants `Left` and `Right`.
#[verifier::external_type_specification]
#[verifier::reject_recursive_types(L)]
#[verifier::reject_recursive_types(R)]
pub struct ExEither<L, R>(Either<L, R>);

/// `Either::map_either` applies `f` to what a `Left` holds, or `g` to what a
/// `Right` holds, and wraps the result in the same variant. The other function
/// is not called.
pub assume_specification<L, R, F, G, M, S>[ Either::<L, R>::map_either ](
    this: Either<L, R>,
    f: F,
    g: G,
) -> (out: Either<M, S>) where F: FnOnce(L) -> M, G: FnOnce(R) -> S
    requires
        match this {
            Either::Left(l) => call_requires(f, (l,)),
            Either::Right(r) => call_requires(g, (r,)),
        },
    ensures
        match this {
            Either::Left(l) => out matches Either::Left(m) && call_ensures(f, (l,), m),
            Either::Right(r) => out matches Either::Right(s) && call_ensures(g, (r,), s),
        },
;

/// One of two flows of the same shape.
#[verifier::reject_recursive_types(L)]
#[verifier::reject_recursive_types(R)]
pub struct EitherFlow<L, R> {
    pub inner: Either<L, R>,
}

impl<Y, Res, Ret, L, R, ML, MR> IntoFlow<Res, Either<ML, MR>> for Either<L, R> where
    L: IntoFlow<Res, ML, Yield = Y, Return = Ret>,
    R: IntoFlow<Res, MR, Yield = Y, Return = Ret>,
 {
    type Yield = Y;

    type Return = Ret;

    type IntoFlow = EitherFlow<L::IntoFlow, R::IntoFlow>;

    open spec fn converts(self, flow: EitherFlow<L::IntoFlow, R::IntoFlow>) -> bool {
        match self {
            Either::Left(l) => flow.inner matches Either::Left(inner) && l.converts(inner),
            Either::Right(r) => flow.inner matches Either::Right(inner) && r.converts(inner),
        }
    }

    fn into_flow(self) -> (flow: EitherFlow<L::IntoFlow, R::IntoFlow>) {
        EitherFlow { inner: self.map_either(L::into_flow, R::into_flow) }
    }
}

impl<Y, Res, Ret, L, R> Flow<Res> for EitherFlow<L, R> where
    L: Flow<Res, Yield = Y, Return = Ret>,
    R: Flow<Res, Yield = Y, Return = Ret>,
 {
    type Yield = Y;

    type Return = Ret;

    open spec fn pollable(&self) -> bool {
        match self.inner {
            Either::Left(flow) => flow.pollable(),
            Either::Right(flow) => flow.pollable(),
        }
    }

    open spec fn resumes(
        pre: Self,
        input: Option<Res>,
        post: Self,
        rest: Option<Res>,
        out: Poll<ControlFlow<Ret, Y>>,
    ) -> bool {
        match pre.inner {
            Either::Left(flow) => post.inner matches Either::Left(after) && L::resumes(
                flow,
                input,
                after,
                rest,
                out,
            ),
            Either::Right(flow) => post.inner matches Either::Right(after) && R::resumes(
                flow,
                input,
                after,
                rest,
                out,
            ),
        }
    }

    open spec fn resumable(&self) -> bool {
        match self.inner {
            Either::Left(flow) => flow.resumable(),
            Either::Right(flow) => flow.resumable(),
        }
    }

    fn poll_resume(&mut self, cx: &mut Context<'_>, input: &mut Option<Res>) -> (out: Poll<
        ControlFlow<Ret, Y>,
    >) {
        match &mut self.inner {
            Either::Left(flow) => flow.poll_resume(cx, input),
            Either::Right(flow) => flow.poll_resume(cx, input),
        }
    }

    fn can_resume(&self) -> (b: bool) {
        match &self.inner {
            Either::Left(flow) => flow.can_resume(),
            Either::Right(flow) => flow.can_resume(),
        }
    }
}

} // verus!
