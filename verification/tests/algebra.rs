use flows::async_fn::AsyncFnOnce0;
use flows::async_fn::AsyncFnOnce1;
use flows::async_fn::AsyncFnOnce2;
use flows::async_fn::AsyncFnOnce3;
use flows::convert::IntoFlow;
use flows::custom_fn::CloneFn;
use flows::custom_fn::MapFn;
use flows::custom_fn::MapFnOnce;
use flows::custom_fn::NewFn;
use flows::custom_fn::NewFnOnce;
use flows::flow::Flow;
use flows::macro_utils::NotCopy;
use flows::macro_utils::_flow_op;
use flows::macro_utils::_flow_to_flow_op;
use flows::macro_utils::_flow_transform_op;
use flows::macro_utils::_flow_try_transform_op;
use flows::my_try::flat_map;
use flows::my_try::flatten;
use flows::my_try::transpose;
use flows::my_try::MapContinue;
use flows::my_try::MyTry;
use flows::ops::for_each::UnwrapInfallible;
use flows::ops::for_each::WrapOk;
use flows::ops::map::map_sync;
use flows::ops::try_unwrap::try_unwrap;
use flows::self_ref::SelfRef;
use flows::sink::stream_step;
use flows::sink::SinkAction;
use flows::sink::SinkEvent;
use flows::sink::SinkFlowCore;
use flows::sink::SinkFlowState;
use flows::task::Task;
use std::convert::Infallible;
use std::marker::PhantomData;
use std::ops::ControlFlow;
use std::ops::ControlFlow::Break;
use std::ops::ControlFlow::Continue;
use std::task::Context;
use std::task::Poll;
use std::task::Waker;

/// Ready at once with the value it holds.
struct Now(Option<i32>);

impl Task for Now {
    type Output = i32;

    fn poll(&mut self, _: &mut Context<'_>) -> Poll<i32> {
        Poll::Ready(self.0.take().unwrap())
    }
}

#[test]
fn result_is_a_try() {
    assert_eq!(Ok::<i32, &str>(1).into_control_flow(), Continue(1));
    assert_eq!(Err::<i32, &str>("e").into_control_flow(), Break("e"));
    assert_eq!(Result::<i32, &str>::from_control_flow(Continue(1)), Ok(1));
    assert_eq!(Result::<i32, &str>::from_control_flow(Break("e")), Err("e"));
    assert_eq!(Result::<i32, &str>::from_continue(1), Ok(1));
    assert_eq!(Result::<i32, &str>::from_break("e"), Err("e"));
    assert!(MyTry::is_continue(&Ok::<i32, &str>(1)));
    assert!(!MyTry::is_break(&Ok::<i32, &str>(1)));
    assert!(MyTry::is_break(&Err::<i32, &str>("e")));
    assert_eq!(Ok::<i32, &str>(1).into_continue(), Some(1));
    assert_eq!(Ok::<i32, &str>(1).into_break(), None);
    assert_eq!(Err::<i32, &str>("e").into_continue(), None);
    assert_eq!(Err::<i32, &str>("e").into_break(), Some("e"));
}

#[test]
fn option_is_a_try() {
    assert_eq!(Some(1).into_control_flow(), Continue(1));
    assert_eq!(None::<i32>.into_control_flow(), Break(()));
    assert_eq!(Option::<i32>::from_control_flow(Continue(1)), Some(1));
    assert_eq!(Option::<i32>::from_control_flow(Break(())), None);
    assert!(MyTry::is_continue(&Some(1)));
    assert!(MyTry::is_break(&None::<i32>));
    assert_eq!(None::<i32>.into_break(), Some(()));
}

#[test]
fn control_flow_is_a_try() {
    let go: ControlFlow<&str, i32> = Continue(1);
    let stop: ControlFlow<&str, i32> = Break("e");
    assert_eq!(go.into_control_flow(), Continue(1));
    assert_eq!(stop.into_control_flow(), Break("e"));
    assert_eq!(ControlFlow::<&str, i32>::from_control_flow(Break("e")), Break("e"));
    assert!(MyTry::is_continue(&go));
    assert!(MyTry::is_break(&stop));
}

#[test]
fn map_touches_successes_only() {
    assert_eq!(MapContinue::map(Ok::<i32, &str>(2), |x| x.to_string()), Ok("2".to_string()));
    let mut called = false;
    let out: Result<String, &str> = MapContinue::map(Err::<i32, &str>("e"), |x| {
        called = true;
        x.to_string()
    });
    assert_eq!(out, Err("e"));
    assert!(!called);
    assert_eq!(MapContinue::map(Some(2), |x| x + 1), Some(3));
    assert_eq!(MapContinue::map(None::<i32>, |x| x + 1), None);
    let out: ControlFlow<&str, i32> = MapContinue::map(Continue::<&str, i32>(2), |x| x + 1);
    assert_eq!(out, Continue(3));
}

#[test]
fn flatten_and_flat_map_pass_failures_on() {
    assert_eq!(flatten(Ok::<Result<i32, &str>, &str>(Ok(1))), Ok(1));
    assert_eq!(flatten(Ok::<Result<i32, &str>, &str>(Err("in"))), Err("in"));
    assert_eq!(flatten(Err::<Result<i32, &str>, &str>("out")), Err("out"));
    assert_eq!(flatten(Some(Some(1))), Some(1));
    assert_eq!(flatten(None::<Option<i32>>), None);

    let half = |x: i32| if x % 2 == 0 { Ok(x / 2) } else { Err("odd") };
    assert_eq!(flat_map(Ok::<i32, &str>(4), half), Ok(2));
    assert_eq!(flat_map(Ok::<i32, &str>(3), half), Err("odd"));
    assert_eq!(flat_map(Err::<i32, &str>("e"), half), Err("e"));
}

#[test]
fn transpose_swaps_the_levels() {
    let both: Option<Result<i32, &str>> = Some(Ok(1));
    let out: Result<Option<i32>, &str> = transpose::<_, Option<i32>, _>(both);
    assert_eq!(out, Ok(Some(1)));

    let inner_fails: Option<Result<i32, &str>> = Some(Err("e"));
    let out: Result<Option<i32>, &str> = transpose::<_, Option<i32>, _>(inner_fails);
    assert_eq!(out, Err("e"));

    let outer_fails: Option<Result<i32, &str>> = None;
    let out: Result<Option<i32>, &str> = transpose::<_, Option<i32>, _>(outer_fails);
    assert_eq!(out, Ok(None));
}

#[test]
fn function_objects_call_through() {
    assert_eq!(MapFnOnce::map_exec_once(|x: i32| x + 1, 1), 2);
    let mut sum = 0;
    let mut add = |x: i32| {
        sum += x;
        sum
    };
    assert_eq!(MapFn::map_exec(&mut add, 2), 2);
    assert_eq!(MapFn::map_exec(&mut add, 3), 5);

    assert_eq!(NewFnOnce::new_exec_once(|| 7), 7);
    let mut n = 0;
    let mut count = || {
        n += 1;
        n
    };
    assert_eq!(NewFn::new_exec(&mut count), 1);
    assert_eq!(NewFn::new_exec(&mut count), 2);

    let mut clones = CloneFn(vec![1, 2]);
    assert_eq!(clones.new_exec(), vec![1, 2]);
    assert_eq!(clones.new_exec(), vec![1, 2]);
    assert_eq!(clones.new_exec_once(), vec![1, 2]);
}

#[test]
fn wrappers_of_success() {
    let mut wrap = WrapOk::<&str>(PhantomData);
    assert_eq!(wrap.map_exec(3), Ok(3));
    assert_eq!(WrapOk::<&str>(PhantomData).map_exec_once(4), Ok(4));
    let mut unwrap = UnwrapInfallible;
    assert_eq!(unwrap.map_exec(Ok::<i32, Infallible>(3)), 3);
    assert_eq!(UnwrapInfallible.map_exec_once(Ok::<i32, Infallible>(4)), 4);
}

#[test]
fn async_functions_give_their_tasks() {
    let mut cx = Context::from_waker(Waker::noop());
    assert_eq!(AsyncFnOnce0::call_once(|| Now(Some(1))).poll(&mut cx), Poll::Ready(1));
    assert_eq!(AsyncFnOnce0::call_once((|a: i32| Now(Some(a)), 2)).poll(&mut cx), Poll::Ready(2));
    assert_eq!(AsyncFnOnce1::call_once(|a: i32| Now(Some(a)), 3).poll(&mut cx), Poll::Ready(3));
    assert_eq!(
        AsyncFnOnce1::call_once((|a: i32, b: i32| Now(Some(a * 10 + b)), 4), 3).poll(&mut cx),
        Poll::Ready(34)
    );
    assert_eq!(
        AsyncFnOnce2::call_once(|a: i32, b: i32| Now(Some(a * 10 + b)), 1, 2).poll(&mut cx),
        Poll::Ready(12)
    );
    assert_eq!(
        AsyncFnOnce2::call_once((|a: i32, b: i32, c: i32| Now(Some(a * 100 + b * 10 + c)), 3), 1, 2)
            .poll(&mut cx),
        Poll::Ready(123)
    );
    assert_eq!(
        AsyncFnOnce3::call_once(|a: i32, b: i32, c: i32| Now(Some(a * 100 + b * 10 + c)), 1, 2, 3)
            .poll(&mut cx),
        Poll::Ready(123)
    );
    assert_eq!(
        AsyncFnOnce3::call_once(
            (|a: i32, b: i32, c: i32, d: i32| Now(Some(a * 1000 + b * 100 + c * 10 + d)), 4),
            1,
            2,
            3
        )
        .poll(&mut cx),
        Poll::Ready(1234)
    );
}

#[test]
fn self_ref_owns_both() {
    let plain: SelfRef<&str, i32> = SelfRef::new("target");
    assert_eq!(plain.target, "target");
    assert_eq!(*plain.reference(), 0);

    let made: SelfRef<&str, Vec<i32>> = SelfRef::new_with("target", || vec![1]);
    assert_eq!(made.target, "target");
    assert_eq!(*made.reference(), vec![1]);
}

#[test]
fn operators_from_plain_functions() {
    let mut cx = Context::from_waker(Waker::noop());
    let moved = NotCopy(3);

    let op = _flow_op(move |src| map_sync(move |x: i32| x + moved.0).execute(src));
    let mut flow = op.execute(vec![1].into_flow());
    let mut input = Some(());
    assert_eq!(flow.poll_resume(&mut cx, &mut input), Poll::Ready(Continue(4)));

    let op = _flow_to_flow_op(|src| map_sync(|x: i32| x * 2).execute(src));
    let mut flow = op.execute(vec![1].into_flow());
    let mut input = Some(());
    assert_eq!(flow.poll_resume(&mut cx, &mut input), Poll::Ready(Continue(2)));

    let op = _flow_transform_op(|src| map_sync(|x: i32| x * 3).execute(src));
    let mut flow = op.execute(vec![1].into_flow());
    let mut input = Some(());
    assert_eq!(flow.poll_resume(&mut cx, &mut input), Poll::Ready(Continue(3)));

    let op = _flow_try_transform_op(|src| try_unwrap().execute(src));
    let mut flow = op.execute(vec![Ok::<i32, &str>(1)].into_flow());
    let mut input = Some(());
    assert_eq!(flow.poll_resume(&mut cx, &mut input), Poll::Ready(Continue(1)));
}

#[test]
fn stream_step_uses_up_the_input_unless_pending() {
    let mut input = Some(());
    assert_eq!(stream_step(&mut input, Poll::Ready(Some(3))), Poll::Ready(Continue(3)));
    assert_eq!(input, None);

    let mut input = Some(());
    assert_eq!(stream_step(&mut input, Poll::Ready(None::<i32>)), Poll::Ready(Break(())));
    assert_eq!(input, None);

    let mut input = Some(());
    assert_eq!(stream_step(&mut input, Poll::<Option<i32>>::Pending), Poll::Pending);
    assert_eq!(input, Some(()));
}

/// Plays the answers of a sink and gives back the actions that were asked for, as text.
fn drive(
    core: &mut SinkFlowCore,
    input: &mut Option<ControlFlow<(), i32>>,
    mut sent: Vec<Result<(), &'static str>>,
    mut readied: Vec<Poll<Result<(), &'static str>>>,
    mut closed: Vec<Poll<Result<(), &'static str>>>,
) -> (Vec<String>, Poll<ControlFlow<&'static str, ()>>) {
    let mut asked = Vec::new();
    let mut event = SinkEvent::Turn;
    loop {
        event = match core.step(event, input) {
            SinkAction::StartSend(item) => {
                asked.push(format!("send {item}"));
                SinkEvent::Sent(sent.remove(0))
            }
            SinkAction::PollReady => {
                asked.push("ready".to_string());
                SinkEvent::Readied(readied.remove(0))
            }
            SinkAction::PollClose => {
                asked.push("close".to_string());
                SinkEvent::Closed(closed.remove(0))
            }
            SinkAction::Again => SinkEvent::Turn,
            SinkAction::Done(out) => return (asked, out),
        };
    }
}

#[test]
fn sink_core_sends_then_waits_for_the_sink() {
    let mut core = SinkFlowCore::new();
    assert!(core.can_resume());
    assert!(!core.item_sent);

    let mut input = Some(Continue(5));
    let (asked, out) =
        drive(&mut core, &mut input, vec![Ok(())], vec![Poll::Pending], vec![]);
    assert_eq!(asked, ["send 5", "ready"]);
    assert_eq!(out, Poll::Pending);
    assert_eq!(input, None);
    assert_eq!(core.state, SinkFlowState::Pending);
    assert!(core.item_sent);
    assert!(!core.can_resume());

    // The sink becomes ready: the item counts as taken, once.
    let mut input = None;
    let (asked, out) = drive(&mut core, &mut input, vec![], vec![Poll::Ready(Ok(()))], vec![]);
    assert_eq!(asked, ["ready"]);
    assert_eq!(out, Poll::Ready(Continue(())));
    assert_eq!(core.state, SinkFlowState::Ready);
    assert!(!core.item_sent);

    let (asked, out) = drive(&mut core, &mut input, vec![], vec![], vec![]);
    assert!(asked.is_empty());
    assert_eq!(out, Poll::Pending);
}

#[test]
fn sink_core_takes_the_next_item_when_the_sink_is_ready_at_once() {
    let mut core = SinkFlowCore::new();
    let mut input = Some(Continue(5));
    let (asked, out) =
        drive(&mut core, &mut input, vec![Ok(())], vec![Poll::Ready(Ok(()))], vec![]);
    assert_eq!(asked, ["send 5", "ready"]);
    assert_eq!(out, Poll::Ready(Continue(())));
    assert_eq!(core.state, SinkFlowState::Ready);
}

#[test]
fn sink_core_ends_with_the_error_of_the_sink() {
    let mut core = SinkFlowCore::new();
    let mut input = Some(Continue(5));
    let (asked, out) = drive(&mut core, &mut input, vec![Err("full")], vec![], vec![]);
    assert_eq!(asked, ["send 5"]);
    assert_eq!(out, Poll::Ready(Break("full")));

    let mut core = SinkFlowCore::new();
    let mut input = Some(Continue(5));
    let (asked, out) =
        drive(&mut core, &mut input, vec![Ok(())], vec![Poll::Ready(Err("gone"))], vec![]);
    assert_eq!(asked, ["send 5", "ready"]);
    assert_eq!(out, Poll::Ready(Break("gone")));
}

#[test]
fn sink_core_closes_on_break() {
    let mut core = SinkFlowCore::new();
    let mut input = Some(Break(()));
    let (asked, out) = drive(&mut core, &mut input, vec![], vec![], vec![Poll::Pending]);
    assert_eq!(asked, ["close"]);
    assert_eq!(out, Poll::Pending);
    assert_eq!(input, None);
    assert_eq!(core.state, SinkFlowState::Closing);

    // While closing, an input stays in the slot.
    let mut input = Some(Continue(1));
    let (asked, out) =
        drive(&mut core, &mut input, vec![], vec![], vec![Poll::Ready(Ok(()))]);
    assert_eq!(asked, ["close"]);
    assert_eq!(out, Poll::Ready(Continue(())));
    assert_eq!(input, Some(Continue(1)));

    let (asked, out) =
        drive(&mut core, &mut input, vec![], vec![], vec![Poll::Ready(Err("late"))]);
    assert_eq!(asked, ["close"]);
    assert_eq!(out, Poll::Ready(Break("late")));
}
