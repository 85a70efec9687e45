//! The flow protocol: the one interface that every stage implements.

use crate::task::Task;
use core::ops::ControlFlow;
use core::task::Context;
use core::task::Poll;
use vstd::prelude::*;

verus! {

/// A resumable computation that is pushed values of type `Resume`, produces
/// values of type `Yield` and completes once with a value of type `Return`.
///
/// An implementation says what its steps can do by giving `pollable`,
/// `resumes` and `resumable`. The bodies given here are for an implementation
/// that has nothing to say: it may always be stepped, and a step may do
/// anything.
pub trait Flow<Resume>: Sized {
    type Yield;

    type Return;

    /// Whether the flow may be stepped: it is well formed and has not yet
    /// completed.
    open spec fn pollable(&self) -> bool {
        true
    }

    /// The steps the flow can take. Stepped in state `pre` with `input` in the
    /// slot, it may move to `post`, leave `rest` in the slot and report `out`.
    open spec fn resumes(
        pre: Self,
        input: Option<Resume>,
        post: Self,
        rest: Option<Resume>,
        out: Poll<ControlFlow<Self::Return, Self::Yield>>,
    ) -> bool {
        true
    }

    /// Whether handing the flow a new input right now is meaningful.
    open spec fn resumable(&self) -> bool {
        true
    }

    /// Takes one step. The flow may consume the value in `input` or leave it
    /// there for a later call. `Pending` reports that no output is ready,
    /// `Ready(Continue(y))` delivers one output, and `Ready(Break(r))`
    /// delivers the final result, after which the flow is not stepped again.
    fn poll_resume(&mut self, cx: &mut Context<'_>, input: &mut Option<Resume>) -> (out: Poll<
        ControlFlow<Self::Return, Self::Yield>,
    >)
        requires
            old(self).pollable(),
        ensures
            Self::resumes(*old(self), *old(input), *final(self), *final(input), out),
            !(out matches Poll::Ready(ControlFlow::Break(_))) ==> final(self).pollable(),
    ;

    /// Reports whether a new input would be accepted now; `false` asks the
    /// caller to poll again without one. It changes nothing.
    fn can_resume(&self) -> (b: bool)
        ensures
            b == self.resumable(),
    ;

    /// The task that steps this flow with `value` until it has an output.
    fn resume<'flow>(&'flow mut self, value: Resume) -> (task: FlowResume<'flow, Self, Resume>)
        ensures
            *task.flow == *old(self),
            *final(self) == *final(task.flow),
            task.value == value,
    {
        FlowResume { flow: self, value }
    }

    /// The task that steps this flow with a default input until it has an
    /// output.
    fn next<'flow>(&'flow mut self) -> (task: FlowResume<'flow, Self, Resume>) where Resume: Default
        ensures
            *task.flow == *old(self),
            *final(self) == *final(task.flow),
            call_ensures(Resume::default, (), task.value),
    {
        FlowResume { flow: self, value: Resume::default() }
    }
}

/// A flow together with the value it is to be resumed with.
pub struct FlowResume<'flow, F, Resume> {
    pub flow: &'flow mut F,
    pub value: Resume,
}

impl<'flow, F: Flow<Resume>, Resume> FlowResume<'flow, F, Resume> {
    /// The task that makes the resumption.
    pub fn into_future(self) -> (task: FlowResumeFuture<'flow, F, Resume>)
        ensures
            *task.flow == *old(self.flow),
            *final(task.flow) == *final(self.flow),
            task.value == Some(self.value),
    {
        let FlowResume { flow, value } = self;
        FlowResumeFuture { flow, value: Some(value) }
    }
}

/// The task of one resumption: polled, it steps the flow with what is left of
/// the value.
pub struct FlowResumeFuture<'flow, F, Resume> {
    pub flow: &'flow mut F,
    pub value: Option<Resume>,
}

impl<'flow, F: Flow<Resume>, Resume> Task for FlowResumeFuture<'flow, F, Resume> {
    type Output = ControlFlow<F::Return, F::Yield>;

    open spec fn pollable(&self) -> bool {
        self.flow.pollable()
    }

    open spec fn polls(pre: Self, post: Self, out: Poll<ControlFlow<F::Return, F::Yield>>) -> bool {
        F::resumes(*pre.flow, pre.value, *post.flow, post.value, out)
    }

    fn poll(&mut self, cx: &mut Context<'_>) -> (out: Poll<ControlFlow<F::Return, F::Yield>>) {
        self.flow.poll_resume(cx, &mut self.value)
    }
}

} // verus!
