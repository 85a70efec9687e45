//! The scheduler's side of the protocol: what a poll reports, the context a
//! poll receives, and computations that are polled to completion.

use core::task::Context;
use core::task::Poll;
use core::task::Waker;
use vstd::prelude::*;

verus! {

/// `core::task::Poll`, with its two variants `Ready` and `Pending`.
#[verifier::external_type_specification]
#[verifier::reject_recursive_types(T)]
pub struct ExPoll<T>(Poll<T>);

/// `core::task::Context`: carried through every poll down to the leaves that
/// register for a wake-up. Nothing is stated about what it holds.
#[verifier::external_type_specification]
#[verifier::external_body]
pub struct ExContext<'a>(Context<'a>);

/// `core::task::Waker`, the handle that re-queues the driver.
#[verifier::external_type_specification]
#[verifier::external_body]
pub struct ExWaker(Waker);

/// `Context::waker` hands out the waker of the task being polled. Nothing is
/// stated about it.
pub assume_specification<'a, 'b>[ Context::<'a>::waker ](cx: &'b Context<'a>) -> (waker: &'a Waker);

/// `Waker::wake_by_ref` asks the scheduler to poll the task again. It changes
/// nothing that this library can observe.
pub assume_specification[ Waker::wake_by_ref ](waker: &Waker);

/// The number of inner steps that one poll of a looping stage may take. A
/// stage that still has work after that many steps asks to be polled again and
/// gives control back, so that every poll returns.
pub const POLL_BUDGET: usize = 1024;

/// Asks the scheduler for another poll of the task that `cx` belongs to.
pub(crate) fn wake_again(cx: &mut Context<'_>) {
    cx.waker().wake_by_ref();
}

/// A computation that is polled until it is ready with its output.
///
/// An implementation says what its polls can do by giving `pollable` and
/// `polls`. The bodies given here are for an implementation that has nothing
/// to say: it may always be polled, and a poll may do anything.
pub trait Task: Sized {
    type Output;

    /// Whether the task may be polled: it is well formed and has not yet
    /// delivered its output.
    open spec fn pollable(&self) -> bool {
        true
    }

    /// The steps the task can take: polled in state `pre` it may move to
    /// `post` and report `out`.
    open spec fn polls(pre: Self, post: Self, out: Poll<Self::Output>) -> bool {
        true
    }

    fn poll(&mut self, cx: &mut Context<'_>) -> (out: Poll<Self::Output>)
        requires
            old(self).pollable(),
        ensures
            Self::polls(*old(self), *final(self), out),
            out is Pending ==> final(self).pollable(),
    ;
}

/// Whether `task`, polled again after every `Pending`, is ready with `out`
/// after exactly `pending` polls that reported `Pending`.
pub open spec fn completes<K: Task>(task: K, pending: nat, out: K::Output) -> bool
    decreases pending,
{
    if pending == 0 {
        exists|post: K| #[trigger] K::polls(task, post, Poll::Ready(out))
    } else {
        exists|mid: K| #[trigger]
            K::polls(task, mid, Poll::Pending) && completes(mid, (pending - 1) as nat, out)
    }
}

} // verus!
