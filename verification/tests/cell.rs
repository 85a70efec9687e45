use flows::convert::IntoFlow;
use flows::emit::emit_all;
use flows::emit::flow_of;
use flows::flow::Flow;
use flows::generator::flow_from_fn;
use flows::sender::Next;
use flows::sender::NextAwait;
use flows::sender::NextFrom;
use flows::sender::Routine;
use flows::sender::Sender;
use flows::state::FlowState;
use flows::state::StateRef;
use flows::task::Task;
use std::ops::ControlFlow;
use std::task::Context;
use std::task::Poll;
use std::task::Waker;

fn sender<Y, R>(state: FlowState<Y, R>) -> Sender<Y, R> {
    Sender { state_ref: StateRef::new(state) }
}

/// Pending for `left` polls, then ready with `value`.
struct Countdown {
    left: u32,
    value: Option<i32>,
}

impl Task for Countdown {
    type Output = i32;

    fn poll(&mut self, _: &mut Context<'_>) -> Poll<i32> {
        if self.left == 0 {
            Poll::Ready(self.value.take().unwrap())
        } else {
            self.left -= 1;
            Poll::Pending
        }
    }
}

/// Never takes the input and never has an output.
struct Deaf;

impl Flow<u8> for Deaf {
    type Yield = i32;

    type Return = ();

    fn poll_resume(&mut self, _: &mut Context<'_>, _: &mut Option<u8>) -> Poll<ControlFlow<(), i32>> {
        Poll::Pending
    }

    fn can_resume(&self) -> bool {
        true
    }
}

#[test]
fn cell_holds_one_thing_at_a_time() {
    let mut cell = StateRef::new(FlowState::<i32, u8>::Empty);
    assert!(cell.is_empty());
    assert!(!cell.is_resume());
    assert!(!cell.is_yield());
    assert!(matches!(cell.kind(), FlowState::Empty));

    cell.set(FlowState::Resume(3));
    assert!(cell.is_resume());
    assert!(matches!(cell.kind(), FlowState::Resume(())));
    assert_eq!(cell.take_yielded(), None);
    assert!(cell.is_resume());
    assert_eq!(cell.take_resumed(), Some(3));
    assert!(cell.is_empty());
    assert_eq!(cell.take_resumed(), None);

    cell.set(FlowState::Yield(5));
    assert!(cell.is_yield());
    assert!(matches!(cell.kind(), FlowState::Yield(())));
    assert_eq!(cell.take_resumed(), None);
    assert!(cell.is_yield());

    let prev = cell.replace(FlowState::Resume(1));
    assert!(matches!(prev, FlowState::Yield(5)));
    let prev = cell.take();
    assert!(matches!(prev, FlowState::Resume(1)));
    assert!(cell.is_empty());

    cell.set(FlowState::Yield(8));
    assert_eq!(cell.reborrow_mut().take_yielded(), Some(8));
    assert!(cell.is_empty());
}

#[test]
fn default_cell_is_empty() {
    assert!(matches!(FlowState::<i32, u8>::default(), FlowState::Empty));
}

#[test]
fn next_emits_once_and_waits_for_the_answer() {
    let mut cx = Context::from_waker(Waker::noop());
    let mut sender = sender::<i32, u8>(FlowState::Empty);
    let mut point = sender.next(7);

    assert_eq!(point.poll(&mut cx, &mut sender), Poll::Pending);
    assert!(matches!(sender.state_ref.state, FlowState::Yield(7)));

    // The emission has not been taken: the suspend point waits and touches nothing.
    assert_eq!(point.poll(&mut cx, &mut sender), Poll::Pending);
    assert!(matches!(sender.state_ref.state, FlowState::Yield(7)));

    assert_eq!(sender.state_ref.take_yielded(), Some(7));
    assert_eq!(point.poll(&mut cx, &mut sender), Poll::Pending);
    assert!(sender.state_ref.is_empty());

    sender.state_ref.set(FlowState::Resume(2));
    assert_eq!(point.poll(&mut cx, &mut sender), Poll::Ready(2));
    assert!(sender.state_ref.is_empty());
}

#[test]
fn next_takes_an_input_that_waits_while_it_emits() {
    let mut cx = Context::from_waker(Waker::noop());
    let mut sender = sender::<i32, u8>(FlowState::Resume(9));
    let mut point = Next { value: Some(7) };

    assert_eq!(point.poll(&mut cx, &mut sender), Poll::Ready(9));
    assert!(matches!(sender.state_ref.state, FlowState::Yield(7)));
    assert_eq!(point.value, None);
}

#[test]
fn next_await_stays_pending_while_the_inner_task_is() {
    let mut cx = Context::from_waker(Waker::noop());
    let mut sender = sender::<i32, u8>(FlowState::Resume(4));
    let mut point: NextAwait<Countdown> =
        sender.next_await(Countdown { left: 2, value: Some(30) });

    assert_eq!(point.poll(&mut cx, &mut sender), Poll::Pending);
    assert!(matches!(sender.state_ref.state, FlowState::Resume(4)));
    assert_eq!(point.poll(&mut cx, &mut sender), Poll::Pending);
    assert!(matches!(sender.state_ref.state, FlowState::Resume(4)));

    // The inner task is ready: its output goes out, and the input that waited is taken.
    assert_eq!(point.poll(&mut cx, &mut sender), Poll::Ready(4));
    assert!(matches!(sender.state_ref.state, FlowState::Yield(30)));
    assert!(point.fut.is_none());
}

#[test]
fn next_await_waits_for_the_answer_after_emitting() {
    let mut cx = Context::from_waker(Waker::noop());
    let mut sender = sender::<i32, u8>(FlowState::Empty);
    let mut point: NextAwait<Countdown> =
        sender.next_await(Countdown { left: 0, value: Some(30) });

    assert_eq!(point.poll(&mut cx, &mut sender), Poll::Pending);
    assert!(matches!(sender.state_ref.state, FlowState::Yield(30)));
    assert_eq!(point.poll(&mut cx, &mut sender), Poll::Pending);
    assert!(matches!(sender.state_ref.state, FlowState::Yield(30)));

    assert_eq!(sender.state_ref.take_yielded(), Some(30));
    assert_eq!(point.poll(&mut cx, &mut sender), Poll::Pending);
    sender.state_ref.set(FlowState::Resume(1));
    assert_eq!(point.poll(&mut cx, &mut sender), Poll::Ready(1));
    assert!(sender.state_ref.is_empty());
}

#[test]
fn next_from_forwards_outputs_and_inputs() {
    let mut cx = Context::from_waker(Waker::noop());
    let mut sender = sender::<i32, ()>(FlowState::Empty);
    let mut point = sender.next_from(vec![1, 2], ());

    assert_eq!(point.poll(&mut cx, &mut sender), Poll::Pending);
    assert!(matches!(sender.state_ref.state, FlowState::Yield(1)));
    assert_eq!(point.input, None);
    assert_eq!(point.src.items.len(), 1);

    assert_eq!(sender.state_ref.take_yielded(), Some(1));
    // Without an input the nested flow has nothing to answer.
    assert_eq!(point.poll(&mut cx, &mut sender), Poll::Pending);
    assert!(sender.state_ref.is_empty());

    sender.state_ref.set(FlowState::Resume(()));
    assert_eq!(point.poll(&mut cx, &mut sender), Poll::Pending);
    assert!(matches!(sender.state_ref.state, FlowState::Yield(2)));

    assert_eq!(sender.state_ref.take_yielded(), Some(2));
    sender.state_ref.set(FlowState::Resume(()));
    assert_eq!(point.poll(&mut cx, &mut sender), Poll::Ready(()));
    assert!(sender.state_ref.is_empty());
}

#[test]
fn next_from_puts_an_unused_input_back() {
    let mut cx = Context::from_waker(Waker::noop());
    let mut sender = sender::<i32, u8>(FlowState::Empty);
    let mut point = sender.next_from(Deaf, 1);

    // The starting input stays with the suspend point while the nested flow leaves it.
    assert_eq!(point.poll(&mut cx, &mut sender), Poll::Pending);
    assert_eq!(point.input, Some(1));
    assert!(sender.state_ref.is_empty());

    point.input = None;
    sender.state_ref.set(FlowState::Resume(6));
    assert_eq!(point.poll(&mut cx, &mut sender), Poll::Pending);
    assert!(matches!(sender.state_ref.state, FlowState::Resume(6)));
}

/// Gives its outputs without being asked and takes no input while it is busy.
struct Busy {
    outputs: Vec<i32>,
    busy: bool,
    taken: Vec<u8>,
}

impl Flow<u8> for Busy {
    type Yield = i32;

    type Return = ();

    fn poll_resume(&mut self, _: &mut Context<'_>, input: &mut Option<u8>) -> Poll<ControlFlow<(), i32>> {
        if !self.busy {
            if let Some(value) = input.take() {
                self.taken.push(value);
            }
        }
        if self.outputs.is_empty() {
            Poll::Pending
        } else {
            Poll::Ready(ControlFlow::Continue(self.outputs.remove(0)))
        }
    }

    fn can_resume(&self) -> bool {
        !self.busy
    }
}

#[test]
fn next_from_keeps_the_input_that_makes_room_for_an_output() {
    let mut cx = Context::from_waker(Waker::noop());
    let mut sender = sender::<i32, u8>(FlowState::Resume(6));
    let mut point =
        NextFrom { input: None, src: Busy { outputs: vec![5], busy: true, taken: vec![] } };

    // The nested flow cannot be resumed and gives an output: the input moves out of the cell.
    assert_eq!(point.poll(&mut cx, &mut sender), Poll::Pending);
    assert!(matches!(sender.state_ref.state, FlowState::Yield(5)));
    assert_eq!(point.input, Some(6));
    assert!(point.src.taken.is_empty());

    // Once the nested flow can be resumed it gets the input that was kept.
    assert_eq!(sender.state_ref.take_yielded(), Some(5));
    point.src.busy = false;
    assert_eq!(point.poll(&mut cx, &mut sender), Poll::Pending);
    assert_eq!(point.input, None);
    assert_eq!(point.src.taken, [6]);
    assert!(sender.state_ref.is_empty());
}

#[test]
fn next_from_keeps_what_the_nested_flow_left_when_it_gives_an_output() {
    let mut cx = Context::from_waker(Waker::noop());
    let mut sender = sender::<i32, u8>(FlowState::Resume(6));
    let mut point =
        NextFrom { input: None, src: Busy { outputs: vec![5], busy: false, taken: vec![] } };

    // The nested flow takes the input from the cell and gives an output.
    assert_eq!(point.poll(&mut cx, &mut sender), Poll::Pending);
    assert!(matches!(sender.state_ref.state, FlowState::Yield(5)));
    assert_eq!(point.input, None);
    assert_eq!(point.src.taken, [6]);
}

#[test]
fn next_from_offers_the_oldest_input_first() {
    let mut cx = Context::from_waker(Waker::noop());
    let mut sender = sender::<i32, u8>(FlowState::Resume(6));
    let mut point =
        NextFrom { input: Some(1), src: Busy { outputs: vec![5, 7], busy: true, taken: vec![] } };

    // Two inputs wait and the nested flow gives an output, which needs the cell: the older
    // input keeps its place, and the one from the cell has none.
    assert_eq!(point.poll(&mut cx, &mut sender), Poll::Pending);
    assert!(matches!(sender.state_ref.state, FlowState::Yield(5)));
    assert_eq!(point.input, Some(1));

    // The nested flow takes the older input; the one in the cell moves up.
    assert_eq!(sender.state_ref.take_yielded(), Some(5));
    sender.state_ref.set(FlowState::Resume(8));
    point.src.busy = false;
    assert_eq!(point.poll(&mut cx, &mut sender), Poll::Pending);
    assert!(matches!(sender.state_ref.state, FlowState::Yield(7)));
    assert_eq!(point.src.taken, [1]);
    assert_eq!(point.input, Some(8));
}

#[test]
fn emit_all_ends_the_poll_while_an_output_waits() {
    let mut cx = Context::from_waker(Waker::noop());
    let mut sender = sender::<i32, ()>(FlowState::Resume(()));
    let mut routine = emit_all(vec![1, 2]);

    // The first item meets an input and is answered at once; the second waits its turn.
    assert_eq!(routine.poll(&mut cx, &mut sender), Poll::Pending);
    assert!(matches!(sender.state_ref.state, FlowState::Yield(1)));
    assert_eq!(routine.items.len(), 1);
    assert!(routine.point.is_none());

    assert_eq!(routine.poll(&mut cx, &mut sender), Poll::Pending);
    assert!(matches!(sender.state_ref.state, FlowState::Yield(1)));
    assert_eq!(routine.items.len(), 1);

    assert_eq!(sender.state_ref.take_yielded(), Some(1));
    assert_eq!(routine.poll(&mut cx, &mut sender), Poll::Pending);
    assert!(matches!(sender.state_ref.state, FlowState::Yield(2)));
    assert_eq!(sender.state_ref.take_yielded(), Some(2));
    sender.state_ref.set(FlowState::Resume(()));
    assert_eq!(routine.poll(&mut cx, &mut sender), Poll::Ready(()));
}

#[test]
fn adapter_starts_with_the_first_input() {
    let mut cx = Context::from_waker(Waker::noop());
    let mut flow = flow_of(vec![1, 2]);

    assert!(flow.can_resume());
    let mut input = None;
    assert_eq!(flow.poll_resume(&mut cx, &mut input), Poll::Pending);

    let mut input = Some(());
    assert_eq!(flow.poll_resume(&mut cx, &mut input), Poll::Ready(ControlFlow::Continue(1)));
    assert_eq!(input, None);
    assert!(flow.can_resume());

    let mut input = None;
    assert_eq!(flow.poll_resume(&mut cx, &mut input), Poll::Pending);

    let mut input = Some(());
    assert_eq!(flow.poll_resume(&mut cx, &mut input), Poll::Ready(ControlFlow::Continue(2)));
    let mut input = Some(());
    assert_eq!(flow.poll_resume(&mut cx, &mut input), Poll::Ready(ControlFlow::Break(())));
}

#[test]
fn adapter_gives_back_an_input_that_the_routine_left() {
    let mut cx = Context::from_waker(Waker::noop());
    let mut flow = flow_from_fn(|first: u8| NextAwait {
        fut: Some(Countdown { left: 2, value: Some(i32::from(first)) }),
    });

    let mut input = Some(3);
    assert_eq!(flow.poll_resume(&mut cx, &mut input), Poll::Pending);
    assert_eq!(input, None);

    // The inner task is still pending: the input stays in the slot.
    let mut input = Some(8);
    assert_eq!(flow.poll_resume(&mut cx, &mut input), Poll::Pending);
    assert_eq!(input, Some(8));

    // The inner task is ready: the routine takes the input and completes with it.
    let out: Poll<ControlFlow<u8, i32>> = flow.poll_resume(&mut cx, &mut input);
    assert_eq!(out, Poll::Ready(ControlFlow::Break(8)));
    assert_eq!(input, None);
}

#[test]
fn adapter_lets_a_waiting_output_out_first() {
    let mut cx = Context::from_waker(Waker::noop());
    let mut flow = flow_of(vec![1]);
    flow.inner.target.state_ref.set(FlowState::Yield(40));

    assert!(!flow.can_resume());
    let mut input = Some(());
    assert_eq!(flow.poll_resume(&mut cx, &mut input), Poll::Ready(ControlFlow::Continue(40)));
    assert_eq!(input, Some(()));
    assert!(flow.can_resume());
    assert_eq!(flow.poll_resume(&mut cx, &mut input), Poll::Ready(ControlFlow::Continue(1)));
}

#[test]
fn adapter_delivers_in_emission_order() {
    let mut cx = Context::from_waker(Waker::noop());
    let mut flow = flow_of(vec![5, 3, 9, 3]);
    let mut seen = Vec::new();
    loop {
        let mut input = Some(());
        match flow.poll_resume(&mut cx, &mut input) {
            Poll::Ready(ControlFlow::Continue(value)) => seen.push(value),
            Poll::Ready(ControlFlow::Break(())) => break,
            Poll::Pending => panic!("an input was there"),
        }
    }
    assert_eq!(seen, [5, 3, 9, 3]);
}

#[test]
fn sequence_flow_answers_each_input_with_the_next_item() {
    let mut cx = Context::from_waker(Waker::noop());
    let mut flow = vec![7, 9].into_flow();
    let mut input = Some(());
    assert_eq!(flow.poll_resume(&mut cx, &mut input), Poll::Ready(ControlFlow::Continue(7)));
    assert_eq!(input, None);
    assert_eq!(flow.poll_resume(&mut cx, &mut input), Poll::Pending);
    let mut input = Some(());
    assert_eq!(flow.poll_resume(&mut cx, &mut input), Poll::Ready(ControlFlow::Continue(9)));
    let mut input = Some(());
    assert_eq!(flow.poll_resume(&mut cx, &mut input), Poll::Ready(ControlFlow::Break(())));
}
