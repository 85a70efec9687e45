//! The routine that emits a sequence of values, one after the other.

use crate::convert::into_deque;
use crate::flow::Flow;
use crate::generator::flow_from_fn;
use crate::generator::FlowFn;
use crate::generator::FlowFromFn;
use crate::generator::FlowFromFnInner;
use crate::sender::Next;
use crate::sender::Routine;
use crate::sender::Sender;
use crate::state::FlowState;
use core::task::Context;
use core::task::Poll;
use std::collections::VecDeque;
use vstd::prelude::*;

verus! {

/// Emits its items in order, waits after each for the input that answers it,
/// and is done after the last. `point` is the suspend point of the item that
/// is on its way.
pub struct EmitAll<T> {
    pub items: VecDeque<T>,
    pub point: Option<Next<T>>,
}

/// What a poll of `EmitAll` does, as a function of the items not yet taken
/// up, the suspend point and what the cell holds: the three after the poll,
/// and the report.
///
/// While an output waits in the cell the routine is pending and touches
/// nothing. Else a suspend point that is there is polled: if it is pending,
/// so is the routine. Once it is ready, or if there is none, the next item is
/// taken up with a suspend point of its own, which is polled in turn unless
/// an output waits by then. Without a suspend point and without items the
/// routine is done.
pub open spec fn emitted<T, Res>(items: Seq<T>, point: Option<Next<T>>, cell: FlowState<T, Res>) -> (
    Seq<T>,
    Option<Next<T>>,
    FlowState<T, Res>,
    Poll<()>,
)
    decreases items.len(), (if point is Some { 1nat } else { 0nat }),
{
    if cell is Yield {
        (items, point, cell, Poll::Pending)
    } else {
        match point {
            Some(next) => {
                let (after, left, polled) = next.stepped(cell);
                if polled is Pending {
                    (items, Some(after), left, Poll::Pending)
                } else {
                    emitted(items, None, left)
                }
            },
            None => if items.len() == 0 {
                (items, None, cell, Poll::Ready(()))
            } else {
                emitted(items.drop_first(), Some(Next { value: Some(items[0]) }), cell)
            },
        }
    }
}

impl<T, Res> Routine<T, Res> for EmitAll<T> {
    type Output = ();

    open spec fn pollable(&self) -> bool {
        true
    }

    open spec fn runs(
        pre: Self,
        cell: FlowState<T, Res>,
        post: Self,
        left: FlowState<T, Res>,
        out: Poll<()>,
    ) -> bool {
        (post.items@, post.point, left, out) == emitted(pre.items@, pre.point, cell)
    }

    fn poll(&mut self, cx: &mut Context<'_>, sender: &mut Sender<T, Res>) -> (out: Poll<()>) {
        loop
            invariant
                emitted(self.items@, self.point, sender@) == emitted(
                    old(self).items@,
                    old(self).point,
                    old(sender)@,
                ),
            decreases self.items.len(), (if self.point is Some { 1nat } else { 0nat }),
        {
            let ghost items = self.items@;
            let ghost point = self.point;
            let ghost cell = sender@;
            if sender.state_ref.is_yield() {
                assert(emitted(items, point, cell) == (items, point, cell, Poll::<()>::Pending));
                return Poll::Pending;
            }
            match self.point.take() {
                Some(next) => {
                    let mut next = next;
                    let polled: Poll<Res> = next.poll(cx, sender);
                    if let Poll::Pending = polled {
                        self.point = Some(next);
                        assert(emitted(items, point, cell) == (
                            items,
                            Some(next),
                            sender@,
                            Poll::<()>::Pending,
                        ));
                        return Poll::Pending;
                    }
                    assert(emitted(items, point, cell) == emitted(items, None, sender@));
                },
                None => {
                    match self.items.pop_front() {
                        Some(item) => {
                            assert(self.items@ =~= items.drop_first());
                            self.point = Some(sender.next(item));
                            assert(emitted(items, None, cell) == emitted(
                                self.items@,
                                self.point,
                                cell,
                            ));
                        },
                        None => {
                            assert(emitted(items, None, cell) == (
                                items,
                                None::<Next<T>>,
                                cell,
                                Poll::Ready(()),
                            ));
                            return Poll::Ready(());
                        },
                    }
                },
            }
        }
    }
}

/// One item a poll: what a poll of `EmitAll` does when no output waits in
/// the cell and the suspend point, if there is one, has sent its value. A
/// suspend point that finds no input waits. Else the suspend point, if any,
/// takes the input; then the routine is done if no item is left, and
/// otherwise the first item goes into the cell, answered at once if an input
/// is still there, and the others stay, in order.
pub proof fn lemma_emits_one<T, Res>(items: Seq<T>, point: Option<Next<T>>, cell: FlowState<T, Res>)
    requires
        !(cell is Yield),
        point is None || point == Some(Next { value: None::<T> }),
    ensures
        emitted(items, point, cell) == if point is Some && !(cell is Resume) {
            (items, point, cell, Poll::<()>::Pending)
        } else {
            let found: FlowState<T, Res> = if point is Some {
                FlowState::Empty
            } else {
                cell
            };
            if items.len() == 0 {
                (items, None::<Next<T>>, found, Poll::Ready(()))
            } else {
                (
                    items.drop_first(),
                    if found is Resume {
                        None
                    } else {
                        Some(Next { value: None::<T> })
                    },
                    FlowState::<T, Res>::Yield(items[0]),
                    Poll::<()>::Pending,
                )
            }
        },
{
    let found: FlowState<T, Res> = if point is Some {
        FlowState::Empty
    } else {
        cell
    };
    if point is Some && cell is Resume {
        assert(emitted(items, point, cell) == emitted(items, None, found));
    }
    if !(point is Some && !(cell is Resume)) && items.len() > 0 {
        let first = Some(Next { value: Some(items[0]) });
        assert(emitted(items, None, found) == emitted(items.drop_first(), first, found));
        if found is Resume {
            assert(emitted(items.drop_first(), first, found) == emitted(
                items.drop_first(),
                None,
                FlowState::<T, Res>::Yield(items[0]),
            ));
        }
    }
}

/// The routine that emits `items` in order.
pub fn emit_all<T>(items: Vec<T>) -> (routine: EmitAll<T>)
    ensures
        routine.items@ == items@,
        routine.point is None,
{
    EmitAll { items: into_deque(items), point: None }
}

/// What starts the routine that emits the items it holds.
pub struct EmitAllFn<T> {
    pub items: Vec<T>,
}

impl<T> FlowFn<T, ()> for EmitAllFn<T> {
    type FlowReturn = ();

    type FlowFut = EmitAll<T>;

    open spec fn startable(&self) -> bool {
        true
    }

    open spec fn starts(self, init: (), fut: EmitAll<T>) -> bool {
        fut.items@ == self.items@ && fut.point is None
    }

    fn call_once(self, init: ()) -> (fut: EmitAll<T>) {
        emit_all(self.items)
    }
}

/// The flow that gives `items` in order, one for each input after the first
/// has started it, and then completes.
pub fn flow_of<T>(items: Vec<T>) -> (flow: FlowFromFn<T, (), EmitAllFn<T>>)
    ensures
        flow.cell() is Empty,
        flow.stage() matches FlowFromFnInner::Fun { fun: Some(fun) } && fun.items == items,
        flow.pollable(),
{
    flow_from_fn(EmitAllFn { items })
}

} // verus!
