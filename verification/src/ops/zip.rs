//! Pairing: two flows advance side by side and their outputs come out as
//! pairs.

use crate::convert::ExtendFromFlow;
use crate::convert::IntoFlow;
use crate::convert::IterFlow;
use crate::flow::Flow;
use crate::ops::FlowOp;
use crate::ops::WrapOp;
use crate::task::completes;
use crate::task::Task;
use crate::task::POLL_BUDGET;
use core::marker::PhantomData;
use core::ops::ControlFlow;
use core::task::Context;
use core::task::Poll;
use vstd::prelude::*;

verus! {

/// Two flows side by side. `res` holds, for each branch, the half of an input
/// that the branch has not taken yet, and that it is offered in every step
/// until it takes it or a new input takes its place; `yld` holds, for each branch, an output
/// that waits for its partner.
pub struct Zip<F0, F1, R0, R1, Y0, Y1> {
    pub f0: F0,
    pub f1: F1,
    pub res: (Option<R0>, Option<R1>),
    pub yld: (Option<Y0>, Option<Y1>),
}

/// What the first branch is polled with: its half of the input that came with
/// the step, or else the half that waited for it.
pub open spec fn zip_first<R0, R1>(input: Option<(R0, R1)>, waiting: Option<R0>) -> Option<R0> {
    match input {
        Some(pair) => Some(pair.0),
        None => waiting,
    }
}

/// What the second branch is polled with, in the same way.
pub open spec fn zip_second<R0, R1>(input: Option<(R0, R1)>, waiting: Option<R1>) -> Option<R1> {
    match input {
        Some(pair) => Some(pair.1),
        None => waiting,
    }
}

/// The output that waits in a branch after a poll of that branch reported
/// `polled`: a new output takes the place of the one that `waiting` held.
pub open spec fn zip_waiting<Ret, Y>(waiting: Option<Y>, polled: Poll<ControlFlow<Ret, Y>>) -> Option<
    Y,
> {
    match polled {
        Poll::Ready(ControlFlow::Continue(y)) => Some(y),
        _ => waiting,
    }
}

/// What a step of the pair reports and which outputs it leaves waiting, given
/// what the two branches reported and what waits in each after that. A result
/// of either branch ends the pair at once, the first branch going first. A
/// pair comes out only in a step in which a branch gave an output and both
/// have one waiting.
pub open spec fn zip_outcome<Ret, Y0, Y1>(
    step0: Poll<ControlFlow<Ret, Y0>>,
    step1: Poll<ControlFlow<Ret, Y1>>,
    w0: Option<Y0>,
    w1: Option<Y1>,
    left: (Option<Y0>, Option<Y1>),
    out: Poll<ControlFlow<Ret, (Y0, Y1)>>,
) -> bool {
    if let Poll::Ready(ControlFlow::Break(ret)) = step0 {
        out == Poll::Ready(ControlFlow::<Ret, (Y0, Y1)>::Break(ret)) && left == (w0, w1)
    } else if let Poll::Ready(ControlFlow::Break(ret)) = step1 {
        out == Poll::Ready(ControlFlow::<Ret, (Y0, Y1)>::Break(ret)) && left == (w0, w1)
    } else if step0 is Pending && step1 is Pending {
        out is Pending && left == (w0, w1)
    } else if let (Some(y0), Some(y1)) = (w0, w1) {
        out == Poll::Ready(ControlFlow::<Ret, (Y0, Y1)>::Continue((y0, y1))) && left == (
            None::<Y0>,
            None::<Y1>,
        )
    } else {
        out is Pending && left == (w0, w1)
    }
}

/// Where the halves of an input are after a step, given what each branch left
/// of the half it was polled with. An input that came with this step goes
/// back into the slot whole if neither branch took its half; otherwise the
/// half not taken waits in the pair. Without a new input each half that
/// waited goes on waiting until its branch takes it.
pub open spec fn zip_leftover<R0, R1>(
    input: Option<(R0, R1)>,
    l0: Option<R0>,
    l1: Option<R1>,
    rest: Option<(R0, R1)>,
    res: (Option<R0>, Option<R1>),
) -> bool {
    match input {
        Some(_) => match (l0, l1) {
            (Some(r0), Some(r1)) => rest == Some((r0, r1)) && res == (None::<R0>, None::<R1>),
            _ => rest is None && res == (l0, l1),
        },
        None => rest is None && res == (l0, l1),
    }
}

impl<R0, R1, Y0, Y1, Ret, F0, F1> Flow<(R0, R1)> for Zip<F0, F1, R0, R1, Y0, Y1> where
    F0: Flow<R0, Yield = Y0, Return = Ret>,
    F1: Flow<R1, Yield = Y1, Return = Ret>,
 {
    type Yield = (Y0, Y1);

    type Return = Ret;

    open spec fn pollable(&self) -> bool {
        self.f0.pollable() && self.f1.pollable()
    }

    /// One step polls both branches, each once: with its half of the input
    /// that came with the step, or else with the half that waited for it.
    open spec fn resumes(
        pre: Self,
        input: Option<(R0, R1)>,
        post: Self,
        rest: Option<(R0, R1)>,
        out: Poll<ControlFlow<Ret, (Y0, Y1)>>,
    ) -> bool {
        exists|
            step0: Poll<ControlFlow<Ret, Y0>>,
            step1: Poll<ControlFlow<Ret, Y1>>,
            l0: Option<R0>,
            l1: Option<R1>,
        |
            {
                &&& #[trigger] F0::resumes(
                    pre.f0,
                    zip_first(input, pre.res.0),
                    post.f0,
                    l0,
                    step0,
                )
                &&& #[trigger] F1::resumes(
                    pre.f1,
                    zip_second(input, pre.res.1),
                    post.f1,
                    l1,
                    step1,
                )
                &&& zip_leftover(input, l0, l1, rest, post.res)
                &&& zip_outcome(
                    step0,
                    step1,
                    zip_waiting(pre.yld.0, step0),
                    zip_waiting(pre.yld.1, step1),
                    post.yld,
                    out,
                )
            }
    }

    open spec fn resumable(&self) -> bool {
        self.f0.resumable() || self.f1.resumable()
    }

    fn poll_resume(&mut self, cx: &mut Context<'_>, input: &mut Option<(R0, R1)>) -> (out: Poll<
        ControlFlow<Ret, (Y0, Y1)>,
    >) {
        let mut half0: Option<R0>;
        let mut half1: Option<R1>;
        let fresh = input.is_some();
        match input.take() {
            Some((v0, v1)) => {
                half0 = Some(v0);
                half1 = Some(v1);
            },
            None => {
                half0 = self.res.0.take();
                half1 = self.res.1.take();
            },
        }
        self.res = (None, None);
        let ghost in0 = half0;
        let ghost in1 = half1;

        let step0 = self.f0.poll_resume(cx, &mut half0);
        let step1 = self.f1.poll_resume(cx, &mut half1);
        let ghost l0 = half0;
        let ghost l1 = half1;
        let ghost w0 = step0;
        let ghost w1 = step1;

        if fresh {
            match (half0, half1) {
                (Some(r0), Some(r1)) => {
                    *input = Some((r0, r1));
                },
                (h0, h1) => {
                    self.res = (h0, h1);
                },
            }
        } else {
            self.res = (half0, half1);
        }
        let mut ret: Option<Ret> = None;
        let mut progressed = false;
        match step0 {
            Poll::Ready(ControlFlow::Continue(y)) => {
                self.yld.0 = Some(y);
                progressed = true;
            },
            Poll::Ready(ControlFlow::Break(r)) => {
                ret = Some(r);
            },
            Poll::Pending => {},
        }
        match step1 {
            Poll::Ready(ControlFlow::Continue(y)) => {
                self.yld.1 = Some(y);
                progressed = true;
            },
            Poll::Ready(ControlFlow::Break(r)) => {
                if ret.is_none() {
                    ret = Some(r);
                }
            },
            Poll::Pending => {},
        }
        let out = if let Some(r) = ret {
            Poll::Ready(ControlFlow::Break(r))
        } else if !progressed {
            Poll::Pending
        } else if self.yld.0.is_some() && self.yld.1.is_some() {
            let y0 = self.yld.0.take().unwrap();
            let y1 = self.yld.1.take().unwrap();
            Poll::Ready(ControlFlow::Continue((y0, y1)))
        } else {
            Poll::Pending
        };
        proof {
            assert(F0::resumes(old(self).f0, in0, self.f0, l0, w0));
            assert(F1::resumes(old(self).f1, in1, self.f1, l1, w1));
            assert(zip_leftover(*old(input), l0, l1, *input, self.res));
            assert(zip_outcome(
                w0,
                w1,
                zip_waiting(old(self).yld.0, w0),
                zip_waiting(old(self).yld.1, w1),
                self.yld,
                out,
            ));
        }
        out
    }

    fn can_resume(&self) -> (b: bool) {
        self.f0.can_resume() || self.f1.can_resume()
    }
}

/// The pair of two flows, with nothing waiting in it.
pub fn zip<Res0, Res1, Fl0, Fl1, M0, M1, I0, I1>(f0: I0, f1: I1) -> (pair: Zip<
    Fl0,
    Fl1,
    Res0,
    Res1,
    Fl0::Yield,
    Fl1::Yield,
>) where
    I0: IntoFlow<Res0, M0, IntoFlow = Fl0>,
    I1: IntoFlow<Res1, M1, IntoFlow = Fl1>,
    Fl0: Flow<Res0>,
    Fl1: Flow<Res1>,

    ensures
        f0.converts(pair.f0),
        f1.converts(pair.f1),
        pair.res == (None::<Res0>, None::<Res1>),
        pair.yld == (None::<Fl0::Yield>, None::<Fl1::Yield>),
{
    Zip { f0: f0.into_flow(), f1: f1.into_flow(), res: (None, None), yld: (None, None) }
}

/// The operator that pairs a flow with the one it holds.
pub struct ZipOp<I1, Res1, M> {
    pub rhs: I1,
    pub _marker: PhantomData<(Res1, M)>,
}

impl<Res0, Res1, Fl0, Fl1, M, I1> FlowOp<Fl0, Res0> for ZipOp<I1, Res1, M> where
    I1: IntoFlow<Res1, M, IntoFlow = Fl1>,
    Fl0: Flow<Res0>,
    Fl1: Flow<Res1>,
 {
    type Output = Zip<Fl0, Fl1, Res0, Res1, Fl0::Yield, Fl1::Yield>;

    open spec fn accepts(&self, flow: Fl0) -> bool {
        true
    }

    open spec fn applies(
        self,
        flow: Fl0,
        out: Zip<Fl0, Fl1, Res0, Res1, Fl0::Yield, Fl1::Yield>,
    ) -> bool {
        &&& out.f0 == flow
        &&& self.rhs.converts(out.f1)
        &&& out.res == (None::<Res0>, None::<Res1>)
        &&& out.yld == (None::<Fl0::Yield>, None::<Fl1::Yield>)
    }

    fn execute(self, flow: Fl0) -> (out: Zip<Fl0, Fl1, Res0, Res1, Fl0::Yield, Fl1::Yield>) {
        zip(flow, self.rhs)
    }
}

/// The operator that pairs a flow with `rhs`.
pub fn zip_with<Res1, M, I1>(rhs: I1) -> (op: WrapOp<ZipOp<I1, Res1, M>>) where
    I1: IntoFlow<Res1, M>,

    ensures
        op.0.rhs == rhs,
{
    WrapOp(ZipOp { rhs, _marker: PhantomData })
}

/// Parity: a pair that holds no two waiting outputs holds no two after a
/// step either, unless the step ended it. Two outputs that meet go out
/// together in the step in which the second comes.
pub proof fn lemma_zip_holds_no_pair<R0, R1, Y0, Y1, Ret, F0, F1>(
    pre: Zip<F0, F1, R0, R1, Y0, Y1>,
    input: Option<(R0, R1)>,
    post: Zip<F0, F1, R0, R1, Y0, Y1>,
    rest: Option<(R0, R1)>,
    out: Poll<ControlFlow<Ret, (Y0, Y1)>>,
) where F0: Flow<R0, Yield = Y0, Return = Ret>, F1: Flow<R1, Yield = Y1, Return = Ret>
    requires
        !(pre.yld.0 is Some && pre.yld.1 is Some),
        Zip::resumes(pre, input, post, rest, out),
        !(out matches Poll::Ready(ControlFlow::Break(_))),
    ensures
        !(post.yld.0 is Some && post.yld.1 is Some),
{
}

/// Two sequences held in memory, side by side.
pub type ZipSeqs<A, B> = Zip<IterFlow<A>, IterFlow<B>, (), (), A, B>;

/// The pairs of `left` and `right`: the first items of both, the second
/// items of both, and so on, as far as the shorter of the two goes.
pub open spec fn paired<A, B>(left: Seq<A>, right: Seq<B>) -> Seq<(A, B)>
    decreases left.len(),
{
    if left.len() == 0 || right.len() == 0 {
        Seq::empty()
    } else {
        seq![(left[0], right[0])] + paired(left.drop_first(), right.drop_first())
    }
}

/// Whether nothing waits in `pair`: no half of an input and no output.
pub open spec fn even<A, B>(pair: ZipSeqs<A, B>) -> bool {
    &&& pair.res == (None::<()>, None::<()>)
    &&& pair.yld == (None::<A>, None::<B>)
}

/// Pairs in step: a step that finds an input in the slot gives the first
/// pair of what the two sequences still hold and leaves the other pairs to
/// come, or ends the pair when one of the sequences is at its end. So the
/// pairs are as many as the shorter sequence has items, the i-th of them
/// made of the i-th item of each.
pub proof fn lemma_zip_in_step<A, B>(
    pre: ZipSeqs<A, B>,
    input: Option<((), ())>,
    post: ZipSeqs<A, B>,
    rest: Option<((), ())>,
    out: Poll<ControlFlow<(), (A, B)>>,
)
    requires
        even(pre),
        input is Some,
        ZipSeqs::<A, B>::resumes(pre, input, post, rest, out),
    ensures
        rest is None,
        match out {
            Poll::Ready(ControlFlow::Continue(both)) => {
                &&& paired(pre.f0.items@, pre.f1.items@) == seq![both] + paired(
                    post.f0.items@,
                    post.f1.items@,
                )
                &&& even(post)
            },
            Poll::Ready(ControlFlow::Break(_)) => paired(pre.f0.items@, pre.f1.items@)
                == Seq::<(A, B)>::empty(),
            Poll::Pending => false,
        },
{
    let (step0, step1, l0, l1) = choose|
        step0: Poll<ControlFlow<(), A>>,
        step1: Poll<ControlFlow<(), B>>,
        l0: Option<()>,
        l1: Option<()>,
    |
        {
            &&& #[trigger] IterFlow::<A>::resumes(
                pre.f0,
                zip_first(input, pre.res.0),
                post.f0,
                l0,
                step0,
            )
            &&& #[trigger] IterFlow::<B>::resumes(
                pre.f1,
                zip_second(input, pre.res.1),
                post.f1,
                l1,
                step1,
            )
            &&& zip_leftover(input, l0, l1, rest, post.res)
            &&& zip_outcome(
                step0,
                step1,
                zip_waiting(pre.yld.0, step0),
                zip_waiting(pre.yld.1, step1),
                post.yld,
                out,
            )
        };
}

/// Whether `task` is on its way to collect `all` from two sequences side by
/// side: what it has gathered, followed by the pairs to come, is `all`, and
/// an input is at hand for the next step.
pub open spec fn gathering_pairs<A, B>(
    task: ExtendFromFlow<(A, B), ZipSeqs<A, B>, ((), ())>,
    all: Seq<(A, B)>,
) -> bool {
    &&& task.dest matches Some(dest) && dest@ + paired(task.src.f0.items@, task.src.f1.items@)
        == all
    &&& task.input is Some
    &&& even(task.src)
}

/// A poll keeps a task that collects pairs on its way, and can only be ready
/// with all the pairs.
pub proof fn lemma_gathers_pairs<A, B>(
    pre: ExtendFromFlow<(A, B), ZipSeqs<A, B>, ((), ())>,
    post: ExtendFromFlow<(A, B), ZipSeqs<A, B>, ((), ())>,
    out: Poll<Vec<(A, B)>>,
    fuel: nat,
    all: Seq<(A, B)>,
)
    requires
        gathering_pairs(pre, all),
        ExtendFromFlow::<(A, B), ZipSeqs<A, B>, ((), ())>::gathers(pre, post, out, fuel),
    ensures
        match out {
            Poll::Ready(dest) => dest@ == all,
            Poll::Pending => gathering_pairs(post, all),
        },
    decreases fuel,
{
    if fuel > 0 {
        let (mid, rest, step) = choose|
            mid: ExtendFromFlow<(A, B), ZipSeqs<A, B>, ((), ())>,
            rest: Option<((), ())>,
            step: Poll<ControlFlow<(), (A, B)>>,
        |
            {
                &&& #[trigger] ExtendFromFlow::<(A, B), ZipSeqs<A, B>, ((), ())>::gather_step(
                    pre,
                    mid,
                    rest,
                    step,
                )
                &&& match step {
                    Poll::Pending => out is Pending && post == mid,
                    Poll::Ready(ControlFlow::Break(_)) => {
                        &&& out matches Poll::Ready(dest)
                        &&& pre.dest == Some(dest)
                        &&& post == mid
                    },
                    Poll::Ready(ControlFlow::Continue(_)) => ExtendFromFlow::<
                        (A, B),
                        ZipSeqs<A, B>,
                        ((), ()),
                    >::gathers(mid, post, out, (fuel - 1) as nat),
                }
            };
        lemma_zip_in_step(pre.src, pre.input, mid.src, rest, step);
        match step {
            Poll::Ready(ControlFlow::Continue(both)) => {
                let before = pre.dest->0@;
                let to_come = paired(mid.src.f0.items@, mid.src.f1.items@);
                assert(before.push(both) + to_come =~= before + (seq![both] + to_come));
                lemma_gathers_pairs(mid, post, out, (fuel - 1) as nat, all);
            },
            Poll::Ready(ControlFlow::Break(_)) => {
                assert(pre.dest->0@ + Seq::<(A, B)>::empty() =~= pre.dest->0@);
            },
            Poll::Pending => {},
        }
    }
}

/// The shorter sequence decides: two sequences turned into flows, put side
/// by side and collected give their pairs, as many as the shorter of the two
/// has items, however many polls the collecting takes.
pub proof fn lemma_zip_collects_pairs<A, B>(
    task: ExtendFromFlow<(A, B), ZipSeqs<A, B>, ((), ())>,
    pending: nat,
    out: Vec<(A, B)>,
    all: Seq<(A, B)>,
)
    requires
        gathering_pairs(task, all),
        completes(task, pending, out),
    ensures
        out@ == all,
    decreases pending,
{
    if pending == 0 {
        let post = choose|post: ExtendFromFlow<(A, B), ZipSeqs<A, B>, ((), ())>| #[trigger]
            ExtendFromFlow::<(A, B), ZipSeqs<A, B>, ((), ())>::polls(task, post, Poll::Ready(out));
        lemma_gathers_pairs(task, post, Poll::Ready(out), POLL_BUDGET as nat, all);
    } else {
        let mid = choose|mid: ExtendFromFlow<(A, B), ZipSeqs<A, B>, ((), ())>| #[trigger]
            ExtendFromFlow::<(A, B), ZipSeqs<A, B>, ((), ())>::polls(task, mid, Poll::Pending)
                && completes(mid, (pending - 1) as nat, out);
        lemma_gathers_pairs(task, mid, Poll::Pending, POLL_BUDGET as nat, all);
        lemma_zip_collects_pairs(mid, (pending - 1) as nat, out, all);
    }
}

} // verus!
