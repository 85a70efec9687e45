//! The routine's side of the handoff cell: the sender and its three suspend
//! points.

use crate::convert::IntoFlow;
use crate::flow::Flow;
use crate::state::resumed;
use crate::state::FlowState;
use crate::state::StateRef;
use crate::task::Task;
use core::ops::ControlFlow;
use core::task::Context;
use core::task::Poll;
use vstd::prelude::*;

verus! {

/// The handle through which a routine emits values and receives the inputs
/// that answer them. The adapter that drives the routine owns the sender and
/// lends it to the routine for the length of each poll.
pub struct Sender<Yield, Resume> {
    pub state_ref: StateRef<Yield, Resume>,
}

impl<Yield, Resume> View for Sender<Yield, Resume> {
    type V = FlowState<Yield, Resume>;

    open spec fn view(&self) -> FlowState<Yield, Resume> {
        self.state_ref@
    }
}

/// A computation that is polled with the sender in hand: a routine, or one of
/// its suspend points.
///
/// The cell takes one emission at a time. To emit while an output still
/// waits in the cell is an error of the caller: `admits` says with which
/// cells a routine may be polled, and a routine that goes on after a suspend
/// point of its own has emitted ends the poll before it polls the next.
///
/// An implementation says what its polls can do by giving `pollable`,
/// `admits` and `runs`. The bodies given here are for an implementation that
/// has nothing to say.
pub trait Routine<Yield, Resume>: Sized {
    type Output;

    /// Whether the routine may be polled: it is well formed and has not yet
    /// delivered its output.
    open spec fn pollable(&self) -> bool {
        true
    }

    /// Whether the routine may be polled while the handoff cell holds `cell`.
    open spec fn admits(&self, cell: FlowState<Yield, Resume>) -> bool {
        true
    }

    /// The steps the routine can take. Polled in state `pre` with `cell` in
    /// the handoff cell, it may move to `post`, leave `left` in the cell and
    /// report `out`.
    open spec fn runs(
        pre: Self,
        cell: FlowState<Yield, Resume>,
        post: Self,
        left: FlowState<Yield, Resume>,
        out: Poll<Self::Output>,
    ) -> bool {
        true
    }

    fn poll(&mut self, cx: &mut Context<'_>, sender: &mut Sender<Yield, Resume>) -> (out: Poll<
        Self::Output,
    >)
        requires
            old(self).pollable(),
            old(self).admits(old(sender)@),
        ensures
            Self::runs(*old(self), old(sender)@, *final(self), final(sender)@, out),
            out is Pending ==> final(self).pollable(),
    ;
}

impl<Yield, Resume> Sender<Yield, Resume> {
    /// The suspend point that emits `value` and waits for the input that
    /// answers it.
    pub fn next(&mut self, value: Yield) -> (point: Next<Yield>)
        ensures
            point.value == Some(value),
            *final(self) == *old(self),
    {
        Next { value: Some(value) }
    }

    /// The suspend point that emits the output of `fut`, once `fut` is ready,
    /// and waits for the input that answers it.
    pub fn next_await<Fut>(&mut self, fut: Fut) -> (point: NextAwait<Fut>) where
        Fut: Task<Output = Yield>,

        ensures
            point.fut == Some(fut),
            *final(self) == *old(self),
    {
        NextAwait { fut: Some(fut) }
    }

    /// The suspend point that hands over to the flow that `src` converts to,
    /// starting it with `init`, until that flow has completed.
    pub fn next_from<M, F: Flow<Resume, Yield = Yield>, I: IntoFlow<Resume, M, IntoFlow = F>>(
        &mut self,
        src: I,
        init: Resume,
    ) -> (point: NextFrom<Resume, F>)
        ensures
            point.input == Some(init),
            src.converts(point.src),
            *final(self) == *old(self),
    {
        NextFrom { input: Some(init), src: src.into_flow() }
    }
}

/// Emit and wait. The value is held until the first poll that finds no
/// output in the cell.
pub struct Next<Yield> {
    pub value: Option<Yield>,
}

impl<Yield> Next<Yield> {
    /// What a poll does, as a function of the suspend point and of what the
    /// cell holds: the suspend point and the cell after the poll, and the
    /// report.
    ///
    /// A poll that finds an output in the cell, after the value has gone
    /// out, waits and touches nothing. Any other poll puts the value into the
    /// cell as an output, if the value has not gone out yet, and else empties
    /// the cell; it is ready with the input that the cell held, if it held
    /// one.
    pub open spec fn stepped<Resume>(self, cell: FlowState<Yield, Resume>) -> (
        Next<Yield>,
        FlowState<Yield, Resume>,
        Poll<Resume>,
    ) {
        if cell is Yield {
            (self, cell, Poll::Pending)
        } else {
            (
                Next { value: None },
                match self.value {
                    Some(value) => FlowState::Yield(value),
                    None => FlowState::Empty,
                },
                match cell {
                    FlowState::Resume(input) => Poll::Ready(input),
                    _ => Poll::Pending,
                },
            )
        }
    }
}

impl<Yield, Resume> Routine<Yield, Resume> for Next<Yield> {
    type Output = Resume;

    open spec fn pollable(&self) -> bool {
        true
    }

    /// The value must not meet an output that has not been taken.
    open spec fn admits(&self, cell: FlowState<Yield, Resume>) -> bool {
        !(self.value is Some && cell is Yield)
    }

    open spec fn runs(
        pre: Self,
        cell: FlowState<Yield, Resume>,
        post: Self,
        left: FlowState<Yield, Resume>,
        out: Poll<Resume>,
    ) -> bool {
        (post, left, out) == pre.stepped(cell)
    }

    fn poll(&mut self, cx: &mut Context<'_>, sender: &mut Sender<Yield, Resume>) -> (out: Poll<
        Resume,
    >) {
        if sender.state_ref.is_yield() {
            return Poll::Pending;
        }
        let new_state = match self.value.take() {
            Some(value) => FlowState::Yield(value),
            None => FlowState::Empty,
        };
        match sender.state_ref.replace(new_state) {
            FlowState::Resume(input) => Poll::Ready(input),
            _ => Poll::Pending,
        }
    }
}

/// Emit the output of an inner task and wait. The task is held until it is
/// ready.
pub struct NextAwait<Fut> {
    pub fut: Option<Fut>,
}

impl<Yield, Resume, Fut> Routine<Yield, Resume> for NextAwait<Fut> where Fut: Task<Output = Yield> {
    type Output = Resume;

    open spec fn pollable(&self) -> bool {
        self.fut matches Some(fut) ==> fut.pollable()
    }

    /// While the inner task is held, its output is still to come and must
    /// not meet an output that has not been taken.
    open spec fn admits(&self, cell: FlowState<Yield, Resume>) -> bool {
        !(self.fut is Some && cell is Yield)
    }

    /// A poll that finds an output in the cell, the inner task being gone,
    /// waits and touches nothing.
    /// While the inner task is held, a poll polls it once: if it is pending,
    /// so is the poll, and the cell is left as it is; if it is ready, its
    /// output goes into the cell, and the poll is ready with the input that
    /// the cell held, if it held one. When the inner task is gone, a poll
    /// empties the cell and is ready with the input that the cell held, if it
    /// held one.
    open spec fn runs(
        pre: Self,
        cell: FlowState<Yield, Resume>,
        post: Self,
        left: FlowState<Yield, Resume>,
        out: Poll<Resume>,
    ) -> bool {
        if cell is Yield {
            out is Pending && post == pre && left == cell
        } else {
            match pre.fut {
                None => {
                    &&& post.fut is None
                    &&& left is Empty
                    &&& out == match cell {
                        FlowState::Resume(input) => Poll::Ready(input),
                        _ => Poll::Pending,
                    }
                },
                Some(fut) => exists|after: Fut, inner: Poll<Yield>|
                    {
                        &&& #[trigger] Fut::polls(fut, after, inner)
                        &&& match inner {
                            Poll::Pending => {
                                &&& post.fut == Some(after)
                                &&& left == cell
                                &&& out is Pending
                            },
                            Poll::Ready(value) => {
                                &&& post.fut is None
                                &&& left == FlowState::<Yield, Resume>::Yield(value)
                                &&& out == match cell {
                                    FlowState::Resume(input) => Poll::Ready(input),
                                    _ => Poll::Pending,
                                }
                            },
                        }
                    },
            }
        }
    }

    fn poll(&mut self, cx: &mut Context<'_>, sender: &mut Sender<Yield, Resume>) -> (out: Poll<
        Resume,
    >) {
        if sender.state_ref.is_yield() {
            return Poll::Pending;
        }
        let new_state = match self.fut.take() {
            None => FlowState::Empty,
            Some(fut) => {
                let mut fut = fut;
                let ghost before = fut;
                let inner = fut.poll(cx);
                let ghost seen = inner;
                match inner {
                    Poll::Pending => {
                        assert(Fut::polls(before, fut, seen));
                        self.fut = Some(fut);
                        return Poll::Pending;
                    },
                    Poll::Ready(value) => {
                        assert(Fut::polls(before, fut, seen));
                        FlowState::Yield(value)
                    },
                }
            },
        };
        match sender.state_ref.replace(new_state) {
            FlowState::Resume(input) => Poll::Ready(input),
            _ => Poll::Pending,
        }
    }
}

/// Delegate to a nested flow. `input` holds the next input of the nested
/// flow: what it is to be started with, and later an input of the parent
/// that had to make room in the cell for an output of the nested flow.
pub struct NextFrom<Resume, Src> {
    pub input: Option<Resume>,
    pub src: Src,
}

impl<Resume, Src> NextFrom<Resume, Src> where Src: Flow<Resume> {
    /// What the nested flow is polled with when the cell holds `cell`:
    /// nothing if it cannot be resumed now; else what `input` holds, as long
    /// as it holds something; else the input in the cell.
    pub open spec fn given(self, cell: FlowState<Src::Yield, Resume>) -> Option<Resume> {
        if !self.src.resumable() {
            None
        } else if self.input is Some {
            self.input
        } else {
            resumed(cell)
        }
    }

    /// What `input` holds after a poll of the nested flow that left `rest` of
    /// what it was given.
    pub open spec fn kept(self, rest: Option<Resume>) -> Option<Resume> {
        if self.src.resumable() && self.input is Some {
            rest
        } else {
            self.input
        }
    }

    /// What the cell holds after a poll of the nested flow that left `rest`
    /// of what it was given: an input that was taken from the cell and not
    /// used goes back there.
    pub open spec fn stashed(self, cell: FlowState<Src::Yield, Resume>, rest: Option<Resume>) -> FlowState<
        Src::Yield,
        Resume,
    > {
        if self.src.resumable() && self.input is None {
            match rest {
                Some(input) => FlowState::Resume(input),
                None => if cell is Resume {
                    FlowState::Empty
                } else {
                    cell
                },
            }
        } else {
            cell
        }
    }

    /// What `input` holds after a poll in which the nested flow gave an
    /// output and left `rest` of what it was given. The output needs the
    /// cell, so the input that the cell holds moves into `input`. It has no
    /// place there, and is dropped, only if `input` still holds an older
    /// input that the nested flow has not taken.
    pub open spec fn moved(self, cell: FlowState<Src::Yield, Resume>, rest: Option<Resume>) -> Option<
        Resume,
    > {
        if self.kept(rest) is Some {
            self.kept(rest)
        } else {
            resumed(self.stashed(cell, rest))
        }
    }
}

impl<Yield, Resume, Src> Routine<Yield, Resume> for NextFrom<Resume, Src> where
    Src: Flow<Resume, Yield = Yield>,
 {
    type Output = Src::Return;

    open spec fn pollable(&self) -> bool {
        self.src.pollable()
    }

    /// Every poll may bring an output of the nested flow, which must not meet
    /// an output that has not been taken.
    open spec fn admits(&self, cell: FlowState<Yield, Resume>) -> bool {
        !(cell is Yield)
    }

    /// A poll steps the nested flow once. If the nested flow is pending or
    /// gives its result, so does the poll, and an input that the nested flow
    /// did not take from the cell is in the cell for the parent. If the
    /// nested flow gives an output, the output goes into the cell, the poll
    /// is pending, and the input that was in the cell is kept in `input`.
    open spec fn runs(
        pre: Self,
        cell: FlowState<Yield, Resume>,
        post: Self,
        left: FlowState<Yield, Resume>,
        out: Poll<Src::Return>,
    ) -> bool {
        exists|rest: Option<Resume>, step: Poll<ControlFlow<Src::Return, Yield>>|
            {
                &&& #[trigger] Src::resumes(pre.src, pre.given(cell), post.src, rest, step)
                &&& match step {
                    Poll::Pending => {
                        &&& out is Pending
                        &&& post.input == pre.kept(rest)
                        &&& left == pre.stashed(cell, rest)
                    },
                    Poll::Ready(ControlFlow::Continue(value)) => {
                        &&& out is Pending
                        &&& post.input == pre.moved(cell, rest)
                        &&& left == FlowState::<Yield, Resume>::Yield(value)
                    },
                    Poll::Ready(ControlFlow::Break(ret)) => {
                        &&& out == Poll::Ready(ret)
                        &&& post.input == pre.kept(rest)
                        &&& left == pre.stashed(cell, rest)
                    },
                }
            }
    }

    fn poll(&mut self, cx: &mut Context<'_>, sender: &mut Sender<Yield, Resume>) -> (out: Poll<
        Src::Return,
    >) {
        let ghost cell = sender@;
        let ghost given = self.given(cell);
        let ghost rest: Option<Resume>;
        let step = if !self.src.can_resume() {
            let mut none = None;
            let step = self.src.poll_resume(cx, &mut none);
            proof {
                rest = none;
            }
            step
        } else if self.input.is_some() {
            let step = self.src.poll_resume(cx, &mut self.input);
            proof {
                rest = self.input;
            }
            step
        } else {
            let mut input = sender.state_ref.take_resumed();
            let step = self.src.poll_resume(cx, &mut input);
            proof {
                rest = input;
            }
            if let Some(unused) = input {
                sender.state_ref.set(FlowState::Resume(unused));
            }
            step
        };
        let ghost seen = step;
        let out = match step {
            Poll::Pending => Poll::Pending,
            Poll::Ready(ControlFlow::Continue(value)) => {
                let waiting = sender.state_ref.take_resumed();
                if self.input.is_none() {
                    self.input = waiting;
                }
                sender.state_ref.set(FlowState::Yield(value));
                Poll::Pending
            },
            Poll::Ready(ControlFlow::Break(ret)) => Poll::Ready(ret),
        };
        assert(Src::resumes(old(self).src, given, self.src, rest, seen));
        out
    }
}

/// Nothing is lost where there is room: when the nested flow gives an output
/// and `input` is free after the poll, the input that the cell held for the
/// parent, or that the nested flow left of it, is in `input` afterwards.
pub proof fn lemma_delegate_keeps_the_input<Yield, Resume, Src>(
    pre: NextFrom<Resume, Src>,
    cell: FlowState<Yield, Resume>,
    post: NextFrom<Resume, Src>,
    left: FlowState<Yield, Resume>,
    out: Poll<Src::Return>,
    held: Resume,
) where Src: Flow<Resume, Yield = Yield>
    requires
        <NextFrom<Resume, Src> as Routine<Yield, Resume>>::runs(pre, cell, post, left, out),
        left is Yield,
        cell == FlowState::<Yield, Resume>::Resume(held),
        pre.input is None,
        !pre.src.resumable(),
    ensures
        post.input == Some(held),
{
}

/// One emission at a time: a suspend point that is polled, as it may be,
/// while an output waits in the cell leaves the output there, stays as it is
/// and is pending.
pub proof fn lemma_waiting_output_stays<Yield, Resume, Fut>(
    cell: FlowState<Yield, Resume>,
    left: FlowState<Yield, Resume>,
    emit: (Next<Yield>, Next<Yield>, Poll<Resume>),
    emit_async: (NextAwait<Fut>, NextAwait<Fut>, Poll<Resume>),
) where Fut: Task<Output = Yield>
    requires
        cell is Yield,
    ensures
        emit.0.admits(cell) && <Next<Yield> as Routine<Yield, Resume>>::runs(
            emit.0,
            cell,
            emit.1,
            left,
            emit.2,
        ) ==> left == cell && emit.1 == emit.0 && emit.2 is Pending,
        <NextAwait<Fut> as Routine<Yield, Resume>>::admits(&emit_async.0, cell) && <NextAwait<
            Fut,
        > as Routine<Yield, Resume>>::runs(emit_async.0, cell, emit_async.1, left, emit_async.2)
            ==> left == cell && emit_async.1 == emit_async.0 && emit_async.2 is Pending,
{
}

} // verus!
