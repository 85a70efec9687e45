//! The decisions of the flows that stand in front of an outside stream or
//! sink. The calls into the stream or sink are made by whoever owns it; each
//! decision here says which call comes next and what to report.

use core::ops::ControlFlow;
use core::task::Poll;
use vstd::prelude::*;

verus! {

/// What a flow over a stream reports, the stream having been polled because
/// an input was there. An item is an output, the end of the stream is the
/// result; either uses up the input. A pending stream leaves the input where
/// it is.
pub fn stream_step<T>(input: &mut Option<()>, polled: Poll<Option<T>>) -> (out: Poll<
    ControlFlow<(), T>,
>)
    ensures
        out == match polled {
            Poll::Ready(Some(item)) => Poll::Ready(ControlFlow::<(), T>::Continue(item)),
            Poll::Ready(None) => Poll::Ready(ControlFlow::Break(())),
            Poll::Pending => Poll::Pending,
        },
        *final(input) == if polled is Pending {
            *old(input)
        } else {
            None
        },
{
    match polled {
        Poll::Ready(Some(item)) => {
            *input = None;
            Poll::Ready(ControlFlow::Continue(item))
        },
        Poll::Ready(None) => {
            *input = None;
            Poll::Ready(ControlFlow::Break(()))
        },
        Poll::Pending => Poll::Pending,
    }
}

/// Where a flow into a sink stands: ready for an item, waiting for the sink
/// to take the last one, or closing.
#[derive(Clone, Copy, Debug, PartialEq, Eq, Structural)]
pub enum SinkFlowState {
    Ready,
    Pending,
    Closing,
}

/// What has just happened at the sink.
#[verifier::reject_recursive_types(E)]
pub enum SinkEvent<E> {
    /// Nothing yet: the step begins, or the sink has become ready.
    Turn,
    /// `start_send` has returned.
    Sent(Result<(), E>),
    /// `poll_ready` has returned.
    Readied(Poll<Result<(), E>>),
    /// `poll_close` has returned.
    Closed(Poll<Result<(), E>>),
}

/// What is to be done next.
#[verifier::reject_recursive_types(E)]
pub enum SinkAction<Res, E> {
    /// Call `start_send` with the item.
    StartSend(Res),
    /// Call `poll_ready`.
    PollReady,
    /// Call `poll_close`.
    PollClose,
    /// Decide again, with the event `Turn`.
    Again,
    /// End the step with this report.
    Done(Poll<ControlFlow<E, ()>>),
}

/// The state of a flow into a sink, without the sink. The flow takes
/// `Continue(item)` to send an item and `Break(())` to close the sink; it
/// gives `()` for each item that the sink has taken and ends with the error of
/// the sink, if one comes.
pub struct SinkFlowCore {
    pub item_sent: bool,
    pub state: SinkFlowState,
}

/// What comes of what the sink answered: its error ends the flow, its success
/// is an output, and pending stays pending.
pub open spec fn sink_report<E>(polled: Poll<Result<(), E>>) -> Poll<ControlFlow<E, ()>> {
    match polled {
        Poll::Ready(Ok(_)) => Poll::Ready(ControlFlow::Continue(())),
        Poll::Ready(Err(error)) => Poll::Ready(ControlFlow::Break(error)),
        Poll::Pending => Poll::Pending,
    }
}

impl SinkFlowCore {
    /// The decision as a function: the state after `event`, what is left in
    /// the input slot, and the action.
    pub open spec fn decides<Res, E>(
        self,
        event: SinkEvent<E>,
        input: Option<ControlFlow<(), Res>>,
    ) -> (SinkFlowCore, Option<ControlFlow<(), Res>>, SinkAction<Res, E>) {
        match event {
            SinkEvent::Turn => match self.state {
                SinkFlowState::Ready => match input {
                    Some(ControlFlow::Continue(item)) => (self, None, SinkAction::StartSend(item)),
                    Some(ControlFlow::Break(_)) => (
                        SinkFlowCore { item_sent: self.item_sent, state: SinkFlowState::Closing },
                        None,
                        SinkAction::PollClose,
                    ),
                    None => (
                        SinkFlowCore { item_sent: false, state: self.state },
                        None,
                        SinkAction::Done(
                            if self.item_sent {
                                Poll::Ready(ControlFlow::Continue(()))
                            } else {
                                Poll::Pending
                            },
                        ),
                    ),
                },
                SinkFlowState::Pending => (self, input, SinkAction::PollReady),
                SinkFlowState::Closing => (self, input, SinkAction::PollClose),
            },
            SinkEvent::Sent(Ok(_)) => (
                SinkFlowCore { item_sent: true, state: SinkFlowState::Pending },
                input,
                SinkAction::PollReady,
            ),
            SinkEvent::Sent(Err(error)) => (
                self,
                input,
                SinkAction::Done(Poll::Ready(ControlFlow::Break(error))),
            ),
            SinkEvent::Readied(Poll::Ready(Ok(_))) => (
                SinkFlowCore { item_sent: self.item_sent, state: SinkFlowState::Ready },
                input,
                SinkAction::Again,
            ),
            SinkEvent::Readied(polled) => (self, input, SinkAction::Done(sink_report(polled))),
            SinkEvent::Closed(polled) => (self, input, SinkAction::Done(sink_report(polled))),
        }
    }

    /// The core of a flow into a sink that is ready for its first item.
    pub fn new() -> (core: Self)
        ensures
            core.state == SinkFlowState::Ready,
            !core.item_sent,
    {
        SinkFlowCore { item_sent: false, state: SinkFlowState::Ready }
    }

    /// Whether a new input is meaningful: only while the flow is ready for
    /// an item.
    pub fn can_resume(&self) -> (b: bool)
        ensures
            b == (self.state == SinkFlowState::Ready),
    {
        self.state == SinkFlowState::Ready
    }

    /// Takes in what has just happened at the sink and says what is to be
    /// done next.
    pub fn step<Res, E>(
        &mut self,
        event: SinkEvent<E>,
        input: &mut Option<ControlFlow<(), Res>>,
    ) -> (action: SinkAction<Res, E>)
        ensures
            (*final(self), *final(input), action) == old(self).decides(event, *old(input)),
    {
        match event {
            SinkEvent::Turn => match self.state {
                SinkFlowState::Ready => match input.take() {
                    Some(ControlFlow::Continue(item)) => SinkAction::StartSend(item),
                    Some(ControlFlow::Break(_)) => {
                        self.state = SinkFlowState::Closing;
                        SinkAction::PollClose
                    },
                    None => {
                        let sent = self.item_sent;
                        self.item_sent = false;
                        SinkAction::Done(
                            if sent {
                                Poll::Ready(ControlFlow::Continue(()))
                            } else {
                                Poll::Pending
                            },
                        )
                    },
                },
                SinkFlowState::Pending => SinkAction::PollReady,
                SinkFlowState::Closing => SinkAction::PollClose,
            },
            SinkEvent::Sent(Ok(_)) => {
                self.item_sent = true;
                self.state = SinkFlowState::Pending;
                SinkAction::PollReady
            },
            SinkEvent::Sent(Err(error)) => SinkAction::Done(Poll::Ready(ControlFlow::Break(error))),
            SinkEvent::Readied(Poll::Ready(Ok(_))) => {
                self.state = SinkFlowState::Ready;
                SinkAction::Again
            },
            SinkEvent::Readied(Poll::Ready(Err(error))) => SinkAction::Done(
                Poll::Ready(ControlFlow::Break(error)),
            ),
            SinkEvent::Readied(Poll::Pending) => SinkAction::Done(Poll::Pending),
            SinkEvent::Closed(Poll::Ready(Ok(_))) => SinkAction::Done(
                Poll::Ready(ControlFlow::Continue(())),
            ),
            SinkEvent::Closed(Poll::Ready(Err(error))) => SinkAction::Done(
                Poll::Ready(ControlFlow::Break(error)),
            ),
            SinkEvent::Closed(Poll::Pending) => SinkAction::Done(Poll::Pending),
        }
    }
}

} // verus!
