//! The generator adapter: a routine that emits through a sender, driven as a
//! flow.

use crate::flow::Flow;
use crate::self_ref::SelfRef;
use crate::sender::Routine;
use crate::sender::Sender;
use crate::state::resumed;
use crate::state::yielded;
use crate::state::FlowState;
use crate::state::StateRef;
use core::ops::ControlFlow;
use core::task::Context;
use core::task::Poll;
use vstd::prelude::*;

verus! {

/// What a flow can be made from: called once with the first input, it gives
/// the routine that the adapter then drives.
pub trait FlowFn<Yield, Resume>: Sized {
    type FlowReturn;

    type FlowFut: Routine<Yield, Resume, Output = Self::FlowReturn>;

    /// Whether the call may be made, whatever the first input.
    open spec fn startable(&self) -> bool {
        true
    }

    /// The routines that the call with `init` can give.
    open spec fn starts(self, init: Resume, fut: Self::FlowFut) -> bool {
        true
    }

    fn call_once(self, init: Resume) -> (fut: Self::FlowFut)
        requires
            self.startable(),
        ensures
            self.starts(init, fut),
            fut.pollable(),
    ;
}

impl<F, Fut, Yield, Resume> FlowFn<Yield, Resume> for F where
    F: FnOnce(Resume) -> Fut,
    Fut: Routine<Yield, Resume>,
 {
    type FlowReturn = Fut::Output;

    type FlowFut = Fut;

    open spec fn startable(&self) -> bool {
        &&& forall|init: Resume| call_requires(*self, (init,))
        &&& forall|init: Resume, fut: Fut| call_ensures(*self, (init,), fut) ==> fut.pollable()
    }

    open spec fn starts(self, init: Resume, fut: Fut) -> bool {
        call_ensures(self, (init,), fut)
    }

    fn call_once(self, init: Resume) -> (fut: Fut) {
        self(init)
    }
}

/// The two stages of an adapter: the routine has not been started, or it is
/// running.
pub enum FlowFromFnInner<Fun, Fut> {
    Fun { fun: Option<Fun> },
    Fut { fut: Fut },
}

/// A routine driven as a flow. The adapter owns the handoff cell, inside the
/// sender, and beside it the routine.
pub struct FlowFromFn<Yield, Resume, Fun: FlowFn<Yield, Resume>> {
    pub inner: SelfRef<Sender<Yield, Resume>, FlowFromFnInner<Fun, Fun::FlowFut>>,
}

impl<Yield, Resume, Fun: FlowFn<Yield, Resume>> FlowFromFn<Yield, Resume, Fun> {
    /// What the handoff cell holds.
    pub open spec fn cell(self) -> FlowState<Yield, Resume> {
        self.inner.target@
    }

    /// The stage the adapter is in.
    pub open spec fn stage(self) -> FlowFromFnInner<Fun, Fun::FlowFut> {
        self.inner.reference
    }

    /// Whether the routine may be polled whenever no output waits in the
    /// cell. The adapter polls it at no other time.
    pub open spec fn routine_admits() -> bool {
        forall|fut: Fun::FlowFut, cell: FlowState<Yield, Resume>|
            !(cell is Yield) ==> #[trigger] fut.admits(cell)
    }

    /// How a step that reaches the routine enters it: `fut` is the routine as
    /// it is polled and `cell` is what the handoff cell holds at that moment.
    /// A routine that has not been started is started with the input, which
    /// must be there, and finds the cell as it was. A running routine finds
    /// the input in the cell, if one came with the step.
    pub open spec fn enters(
        pre: Self,
        input: Option<Resume>,
        fut: Fun::FlowFut,
        cell: FlowState<Yield, Resume>,
    ) -> bool {
        match pre.stage() {
            FlowFromFnInner::Fun { fun } => {
                &&& fun matches Some(f)
                &&& input matches Some(init)
                &&& f.starts(init, fut)
                &&& cell == pre.cell()
            },
            FlowFromFnInner::Fut { fut: running } => {
                &&& fut == running
                &&& cell == match input {
                    Some(value) => FlowState::Resume(value),
                    None => pre.cell(),
                }
            },
        }
    }

    /// One poll of the routine inside a step: entered as `enters` says, the
    /// routine moves to the state that `post` holds, leaves `left` in the
    /// cell and reports `poll`.
    pub open spec fn drives(
        pre: Self,
        input: Option<Resume>,
        fut: Fun::FlowFut,
        cell: FlowState<Yield, Resume>,
        post: Self,
        left: FlowState<Yield, Resume>,
        poll: Poll<Fun::FlowReturn>,
    ) -> bool {
        &&& Self::enters(pre, input, fut, cell)
        &&& post.stage() matches FlowFromFnInner::Fut { fut: after }
        &&& Fun::FlowFut::runs(fut, cell, after, left, poll)
    }

    /// One step of the adapter, with what the routine emitted in it.
    ///
    /// An output that waits in the cell goes out first, and the routine is
    /// not polled. A routine that has not been started stays so while no
    /// input comes. In every other step the routine is polled, once. An input
    /// that the routine left in the cell goes back into the input slot. If
    /// the routine has completed, its result is the result of the flow; if
    /// not, the output that it left in the cell goes out, and without one the
    /// step is pending.
    pub open spec fn steps(
        pre: Self,
        input: Option<Resume>,
        post: Self,
        rest: Option<Resume>,
        out: Poll<ControlFlow<Fun::FlowReturn, Yield>>,
        emission: Option<Yield>,
    ) -> bool {
        if let FlowState::Yield(waiting) = pre.cell() {
            &&& out == Poll::Ready(ControlFlow::<Fun::FlowReturn, Yield>::Continue(waiting))
            &&& post.stage() == pre.stage()
            &&& post.cell() is Empty
            &&& rest == input
            &&& emission is None
        } else if pre.stage() is Fun && input is None {
            &&& out is Pending
            &&& post == pre
            &&& rest is None
            &&& emission is None
        } else {
            exists|
                fut: Fun::FlowFut,
                cell: FlowState<Yield, Resume>,
                left: FlowState<Yield, Resume>,
                poll: Poll<Fun::FlowReturn>,
            |
                {
                    &&& #[trigger] Self::drives(pre, input, fut, cell, post, left, poll)
                    &&& rest == resumed(left)
                    &&& emission == yielded(left)
                    &&& match poll {
                        Poll::Ready(ret) => {
                            &&& out == Poll::Ready(ControlFlow::<Fun::FlowReturn, Yield>::Break(ret))
                            &&& post.cell() == if left is Resume {
                                FlowState::Empty
                            } else {
                                left
                            }
                        },
                        Poll::Pending => {
                            &&& post.cell() is Empty
                            &&& out == match left {
                                FlowState::Yield(value) => Poll::Ready(
                                    ControlFlow::<Fun::FlowReturn, Yield>::Continue(value),
                                ),
                                _ => Poll::Pending,
                            }
                        },
                    }
                }
        }
    }
}

impl<Fun, Yield, Resume, Ret> Flow<Resume> for FlowFromFn<Yield, Resume, Fun> where
    Fun: FlowFn<Yield, Resume, FlowReturn = Ret>,
 {
    type Yield = Yield;

    type Return = Ret;

    open spec fn pollable(&self) -> bool {
        &&& match self.stage() {
            FlowFromFnInner::Fun { fun } => fun matches Some(f) && f.startable(),
            FlowFromFnInner::Fut { fut } => fut.pollable(),
        }
        &&& Self::routine_admits()
    }

    open spec fn resumes(
        pre: Self,
        input: Option<Resume>,
        post: Self,
        rest: Option<Resume>,
        out: Poll<ControlFlow<Ret, Yield>>,
    ) -> bool {
        exists|emission: Option<Yield>| #[trigger]
            Self::steps(pre, input, post, rest, out, emission)
    }

    /// A new input is meaningful while no output waits in the cell.
    open spec fn resumable(&self) -> bool {
        self.cell() is Empty
    }

    fn poll_resume(&mut self, cx: &mut Context<'_>, input: &mut Option<Resume>) -> (out: Poll<
        ControlFlow<Ret, Yield>,
    >) {
        if let Some(waiting) = self.inner.target.state_ref.take_yielded() {
            let out = Poll::Ready(ControlFlow::Continue(waiting));
            assert(Self::steps(*old(self), *old(input), *self, *input, out, None));
            return out;
        }
        let started = match &mut self.inner.reference {
            FlowFromFnInner::Fun { fun } => {
                match input.take() {
                    None => {
                        assert(Self::steps(
                            *old(self),
                            *old(input),
                            *self,
                            *input,
                            Poll::Pending,
                            None,
                        ));
                        return Poll::Pending;
                    },
                    Some(init) => {
                        let fun = fun.take().unwrap();
                        Some(fun.call_once(init))
                    },
                }
            },
            FlowFromFnInner::Fut { .. } => None,
        };
        match started {
            Some(fut) => {
                self.inner.reference = FlowFromFnInner::Fut { fut };
            },
            None => {
                if let Some(value) = input.take() {
                    self.inner.target.state_ref.set(FlowState::Resume(value));
                }
            },
        }
        let ghost cell = self.cell();
        let ghost entered = self.stage()->Fut_fut;
        let poll = match &mut self.inner.reference {
            FlowFromFnInner::Fut { fut } => fut.poll(cx, &mut self.inner.target),
            FlowFromFnInner::Fun { .. } => {
                assert(false);
                Poll::Pending
            },
        };
        let ghost left = self.cell();
        let ghost seen = poll;
        *input = self.inner.target.state_ref.take_resumed();
        let out = match poll {
            Poll::Ready(ret) => Poll::Ready(ControlFlow::Break(ret)),
            Poll::Pending => match self.inner.target.state_ref.take_yielded() {
                Some(value) => Poll::Ready(ControlFlow::Continue(value)),
                None => Poll::Pending,
            },
        };
        proof {
            assert(Self::drives(*old(self), *old(input), entered, cell, *self, left, seen));
            assert(Self::steps(*old(self), *old(input), *self, *input, out, yielded(left)));
        }
        out
    }

    fn can_resume(&self) -> (b: bool) {
        self.inner.target.state_ref.is_empty()
    }
}

/// The flow that drives the routine that `fun` gives. The routine is started
/// by the first input; the handoff cell starts empty.
pub fn flow_from_fn<Yield, Resume, Fun>(fun: Fun) -> (flow: FlowFromFn<Yield, Resume, Fun>) where
    Fun: FlowFn<Yield, Resume>,

    ensures
        flow.cell() is Empty,
        flow.stage() == (FlowFromFnInner::<Fun, Fun::FlowFut>::Fun { fun: Some(fun) }),
{
    FlowFromFn {
        inner: SelfRef {
            reference: FlowFromFnInner::Fun { fun: Some(fun) },
            target: Sender { state_ref: StateRef::new(FlowState::Empty) },
        },
    }
}

/// The record of one step of an adapter: what came in, what the step left
/// and reported, and what the routine emitted in it.
#[verifier::reject_recursive_types(Yield)]
#[verifier::reject_recursive_types(Fun)]
pub struct AdapterStep<Yield, Resume, Fun: FlowFn<Yield, Resume>> {
    pub input: Option<Resume>,
    pub post: FlowFromFn<Yield, Resume, Fun>,
    pub rest: Option<Resume>,
    pub out: Poll<ControlFlow<Fun::FlowReturn, Yield>>,
    pub emission: Option<Yield>,
}

/// The adapter as it is before step `i` of `trace`, when the run began with
/// `start`.
pub open spec fn state_before<Yield, Resume, Fun: FlowFn<Yield, Resume>>(
    start: FlowFromFn<Yield, Resume, Fun>,
    trace: Seq<AdapterStep<Yield, Resume, Fun>>,
    i: int,
) -> FlowFromFn<Yield, Resume, Fun> {
    if i == 0 {
        start
    } else {
        trace[i - 1].post
    }
}

/// Whether `trace` records a run of the adapter from `start`: each entry is a
/// step from where the entry before it ended.
pub open spec fn is_run<Yield, Resume, Fun: FlowFn<Yield, Resume>>(
    start: FlowFromFn<Yield, Resume, Fun>,
    trace: Seq<AdapterStep<Yield, Resume, Fun>>,
) -> bool {
    forall|i: int|
        0 <= i < trace.len() ==> FlowFromFn::steps(
            state_before(start, trace, i),
            (#[trigger] trace[i]).input,
            trace[i].post,
            trace[i].rest,
            trace[i].out,
            trace[i].emission,
        )
}

/// The outputs that the steps of `trace` delivered, in order.
pub open spec fn outputs<Yield, Resume, Fun: FlowFn<Yield, Resume>>(
    trace: Seq<AdapterStep<Yield, Resume, Fun>>,
) -> Seq<Yield>
    decreases trace.len(),
{
    if trace.len() == 0 {
        Seq::empty()
    } else {
        outputs(trace.drop_last()) + match trace.last().out {
            Poll::Ready(ControlFlow::Continue(value)) => seq![value],
            _ => Seq::empty(),
        }
    }
}

/// The values that the routine emitted in the steps of `trace`, in order.
pub open spec fn emissions<Yield, Resume, Fun: FlowFn<Yield, Resume>>(
    trace: Seq<AdapterStep<Yield, Resume, Fun>>,
) -> Seq<Yield>
    decreases trace.len(),
{
    if trace.len() == 0 {
        Seq::empty()
    } else {
        emissions(trace.drop_last()) + match trace.last().emission {
            Some(value) => seq![value],
            None => Seq::empty(),
        }
    }
}

/// Whether the routine emitted a value in the very step in which it
/// completed. Such a value stays in the cell and never goes out.
pub open spec fn emits_at_end<Yield, Resume, Fun: FlowFn<Yield, Resume>>(
    step: AdapterStep<Yield, Resume, Fun>,
) -> bool {
    step.out matches Poll::Ready(ControlFlow::Break(_)) && step.emission is Some
}

/// A run cut short is a run: the first `n` steps of a run from `start` are a
/// run from `start` that ends where step `n` begins, and if the routine
/// emits in no step of the whole in which it completes, it does so in none of
/// the part.
pub proof fn lemma_prefix_is_a_run<Yield, Resume, Fun: FlowFn<Yield, Resume>>(
    start: FlowFromFn<Yield, Resume, Fun>,
    trace: Seq<AdapterStep<Yield, Resume, Fun>>,
    n: int,
)
    requires
        is_run(start, trace),
        0 <= n <= trace.len(),
    ensures
        is_run(start, trace.take(n)),
        state_before(start, trace.take(n), n) == state_before(start, trace, n),
        (forall|i: int| 0 <= i < trace.len() ==> !emits_at_end(#[trigger] trace[i])) ==> (forall|
            i: int,
        |
            0 <= i < n ==> !emits_at_end(#[trigger] trace.take(n)[i])),
{
    let part = trace.take(n);
    assert forall|i: int| 0 <= i < part.len() implies FlowFromFn::steps(
        state_before(start, part, i),
        (#[trigger] part[i]).input,
        part[i].post,
        part[i].rest,
        part[i].out,
        part[i].emission,
    ) by {
        assert(part[i] == trace[i]);
        assert(state_before(start, part, i) == state_before(start, trace, i));
    }
    assert forall|i: int| 0 <= i < n implies part[i] == trace[i] by {}
}

/// Emission order: over any run that begins with no output waiting in the
/// cell, the outputs that the adapter delivers are the values that the
/// routine emits, each once and in the order of emission, as long as the
/// routine does not emit in the step in which it completes. After such a run
/// no output waits in the cell.
pub proof fn lemma_outputs_are_emissions<Yield, Resume, Fun: FlowFn<Yield, Resume>>(
    start: FlowFromFn<Yield, Resume, Fun>,
    trace: Seq<AdapterStep<Yield, Resume, Fun>>,
)
    requires
        !(start.cell() is Yield),
        is_run(start, trace),
        forall|i: int| 0 <= i < trace.len() ==> !emits_at_end(#[trigger] trace[i]),
    ensures
        outputs(trace) == emissions(trace),
        !(state_before(start, trace, trace.len() as int).cell() is Yield),
    decreases trace.len(),
{
    if trace.len() > 0 {
        let earlier = trace.drop_last();
        let last = trace.last();
        assert(earlier =~= trace.take(trace.len() - 1));
        lemma_prefix_is_a_run(start, trace, trace.len() - 1);
        lemma_outputs_are_emissions(start, earlier);
        assert(trace[trace.len() - 1] == last);
        assert(FlowFromFn::steps(
            state_before(start, trace, trace.len() - 1),
            last.input,
            last.post,
            last.rest,
            last.out,
            last.emission,
        ));
        assert(!emits_at_end(last));
    }
}

/// No delay: over a run as in `lemma_outputs_are_emissions`, each output goes
/// out in the very step in which the routine emitted it, and a step in which
/// the routine emitted nothing delivers no output.
pub proof fn lemma_output_in_the_step_of_its_emission<Yield, Resume, Fun: FlowFn<Yield, Resume>>(
    start: FlowFromFn<Yield, Resume, Fun>,
    trace: Seq<AdapterStep<Yield, Resume, Fun>>,
    i: int,
)
    requires
        !(start.cell() is Yield),
        is_run(start, trace),
        forall|k: int| 0 <= k < trace.len() ==> !emits_at_end(#[trigger] trace[k]),
        0 <= i < trace.len(),
    ensures
        trace[i].emission == match trace[i].out {
            Poll::Ready(ControlFlow::Continue(value)) => Some(value),
            _ => None,
        },
{
    lemma_prefix_is_a_run(start, trace, i);
    lemma_outputs_are_emissions(start, trace.take(i));
    let step = trace[i];
    assert(FlowFromFn::steps(
        state_before(start, trace, i),
        step.input,
        step.post,
        step.rest,
        step.out,
        step.emission,
    ));
    assert(!emits_at_end(step));
}

/// The routine is never polled over an output: in a step that begins with no
/// output waiting in the cell, the routine finds none there either, so that
/// an adapter that may be stepped polls its routine only as the routine
/// admits.
pub proof fn lemma_routine_finds_no_output<Yield, Resume, Fun: FlowFn<Yield, Resume>>(
    pre: FlowFromFn<Yield, Resume, Fun>,
    input: Option<Resume>,
    fut: Fun::FlowFut,
    cell: FlowState<Yield, Resume>,
)
    requires
        !(pre.cell() is Yield),
        FlowFromFn::enters(pre, input, fut, cell),
    ensures
        !(cell is Yield),
        FlowFromFn::<Yield, Resume, Fun>::routine_admits() ==> fut.admits(cell),
{
}

} // verus!
