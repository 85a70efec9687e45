use flows::convert::FromFlow;
use flows::convert::IntoFlow;
use flows::flow::Flow;
use flows::ops::map::map_return_sync;
use flows::ops::map::map_sync;
use flows::flow_impls::identity;
use flows::flow_impls::on_each_sync;
use flows::flow_impls::repeat_with;
use flows::ops::for_each::feedback;
use flows::ops::for_each::for_each;
use flows::ops::for_each::for_each_init;
use flows::ops::for_each::try_feedback;
use flows::ops::for_each::try_for_each_init;
use flows::task::Task;
use flows::task::POLL_BUDGET;
use flows::utils::map_future;
use std::cell::Cell;
use std::convert::Infallible;
use std::ops::ControlFlow;
use std::rc::Rc;
use std::sync::atomic::AtomicUsize;
use std::sync::atomic::Ordering;
use std::sync::Arc;
use std::task::Context;
use std::task::Poll;
use std::task::Wake;
use std::task::Waker;

/// A waker that counts how often it was asked for another poll.
struct Wakes(AtomicUsize);

impl Wake for Wakes {
    fn wake(self: Arc<Self>) {
        self.0.fetch_add(1, Ordering::SeqCst);
    }
}

/// Pending for `left` polls, then ready with `value`.
struct Countdown {
    left: u32,
    value: Option<i32>,
}

impl Task for Countdown {
    type Output = i32;

    fn poll(&mut self, _: &mut Context<'_>) -> Poll<i32> {
        if self.left == 0 {
            Poll::Ready(self.value.take().unwrap())
        } else {
            self.left -= 1;
            Poll::Pending
        }
    }
}

#[test]
fn collecting_keeps_the_sequence() {
    let mut cx = Context::from_waker(Waker::noop());
    let mut task = Vec::from_flow(vec![3, 1, 4, 1, 5].into_flow());
    assert_eq!(task.poll(&mut cx), Poll::Ready(vec![3, 1, 4, 1, 5]));
}

#[test]
fn collecting_nothing_gives_nothing() {
    let mut cx = Context::from_waker(Waker::noop());
    let mut task = Vec::from_flow(Vec::<i32>::new().into_flow());
    assert_eq!(task.poll(&mut cx), Poll::Ready(vec![]));
}

#[test]
fn collecting_gives_control_back_when_the_budget_is_spent() {
    let wakes = Arc::new(Wakes(AtomicUsize::new(0)));
    let waker = Waker::from(wakes.clone());
    let mut cx = Context::from_waker(&waker);
    let all: Vec<usize> = (0..2500).collect();
    let mut task = Vec::from_flow(all.clone().into_flow());

    assert_eq!(task.poll(&mut cx), Poll::Pending);
    assert_eq!(task.dest.as_ref().map(Vec::len), Some(POLL_BUDGET));
    assert_eq!(wakes.0.load(Ordering::SeqCst), 1);
    assert_eq!(task.poll(&mut cx), Poll::Pending);
    assert_eq!(wakes.0.load(Ordering::SeqCst), 2);
    assert_eq!(task.poll(&mut cx), Poll::Ready(all));
    assert_eq!(wakes.0.load(Ordering::SeqCst), 2);
}

#[test]
fn try_feedback_feeds_successes_back_and_ends_with_the_failure() {
    let mut cx = Context::from_waker(Waker::noop());
    let flow = on_each_sync::<i32, Result<i32, String>, (), _>(|x: i32| {
        if x < 5 {
            Ok(x + 1)
        } else {
            Err(format!("stopped at {x}"))
        }
    });
    let mut task = try_feedback(0).execute(flow);
    assert_eq!(task.poll(&mut cx), Poll::Ready(Err("stopped at 5".to_string())));
}

#[test]
fn try_feedback_ends_with_the_result_as_a_success() {
    let mut cx = Context::from_waker(Waker::noop());
    let mut task = try_feedback(()).execute(vec![Some(()), Some(())].into_flow());
    assert_eq!(task.poll(&mut cx), Poll::Ready(Some(())));
    assert!(task.inner.items.is_empty());
}

#[test]
fn try_feedback_stops_at_the_first_failure() {
    let mut cx = Context::from_waker(Waker::noop());
    let mut task = try_feedback(()).execute(vec![Some(()), None, Some(())].into_flow());
    assert_eq!(task.poll(&mut cx), Poll::Ready(None));
    assert_eq!(task.inner.items.len(), 1);
}

#[test]
fn try_feedback_is_pending_with_the_flow() {
    let mut cx = Context::from_waker(Waker::noop());
    let mut task = try_feedback(()).execute(vec![Some(())].into_flow());
    task.input = None;
    assert_eq!(task.poll(&mut cx), Poll::Pending);
    task.input = Some(());
    assert_eq!(task.poll(&mut cx), Poll::Ready(Some(())));
}

#[test]
fn feedback_gives_control_back_when_the_budget_is_spent() {
    let wakes = Arc::new(Wakes(AtomicUsize::new(0)));
    let waker = Waker::from(wakes.clone());
    let mut cx = Context::from_waker(&waker);
    let calls = Rc::new(Cell::new(0usize));
    let seen = calls.clone();
    let src = repeat_with::<_, &str>(move || seen.set(seen.get() + 1));
    let mut task = for_each(src, identity::<Infallible>());

    assert_eq!(task.poll(&mut cx), Poll::Pending);
    assert_eq!(calls.get(), POLL_BUDGET);
    assert_eq!(wakes.0.load(Ordering::SeqCst), 1);
    assert_eq!(task.poll(&mut cx), Poll::Pending);
    assert_eq!(calls.get(), 2 * POLL_BUDGET);
    assert_eq!(wakes.0.load(Ordering::SeqCst), 2);
}

#[test]
fn feedback_ends_with_the_result_of_the_flow() {
    let mut cx = Context::from_waker(Waker::noop());
    let (log, mut task) = {
        let log = Rc::new(Cell::new(0));
        let seen = log.clone();
        let flow = map_return_sync(|(): ()| "over").execute(
            map_sync(move |x: i32| seen.set(seen.get() * 10 + x))
                .execute(vec![1, 2, 3].into_flow()),
        );
        (log, feedback(()).execute(flow))
    };
    assert_eq!(task.poll(&mut cx), Poll::Ready("over"));
    assert_eq!(log.get(), 123);
}

#[test]
fn for_each_init_starts_the_source_with_the_first_input() {
    let mut cx = Context::from_waker(Waker::noop());
    let mut last = 0;
    let src = flows::ops::try_unwrap::try_unwrap().execute(
        on_each_sync::<i32, Option<i32>, (), _>(|x: i32| if x < 40 { Some(x) } else { None }),
    );
    let sink = on_each_sync::<i32, i32, Infallible, _>(|x: i32| {
        last = x;
        x * 2
    });
    let mut task = for_each_init(src, sink, 5);
    assert_eq!(task.poll(&mut cx), Poll::Ready(None));
    drop(task);
    assert_eq!(last, 20);
}

#[test]
fn try_for_each_init_ends_with_the_result_of_the_source() {
    let mut cx = Context::from_waker(Waker::noop());
    let mut out = Vec::new();
    let sink = on_each_sync::<i32, Result<(), i32>, Infallible, _>(|x: i32| {
        out.push(x);
        Ok(())
    });
    let mut task = try_for_each_init(vec![4, 5].into_flow(), sink, ());
    assert_eq!(task.poll(&mut cx), Poll::Ready(Ok(())));
    drop(task);
    assert_eq!(out, [4, 5]);
}

#[test]
fn map_future_maps_the_output_once_it_is_there() {
    let mut cx = Context::from_waker(Waker::noop());
    let mut task = map_future(Countdown { left: 1, value: Some(20) }, |x: i32| x + 1);
    assert_eq!(task.poll(&mut cx), Poll::Pending);
    assert!(task.fun.is_some());
    assert_eq!(task.poll(&mut cx), Poll::Ready(21));
    assert!(task.fun.is_none());
}

#[test]
fn resuming_a_flow_is_a_task() {
    let mut cx = Context::from_waker(Waker::noop());
    let mut flow = identity::<()>();
    let mut task = flow.resume(5).into_future();
    assert_eq!(task.poll(&mut cx), Poll::Ready(ControlFlow::Continue(5)));
    assert_eq!(task.value, None);

    let mut flow = vec![8].into_flow();
    let mut task = flow.next().into_future();
    assert_eq!(task.poll(&mut cx), Poll::Ready(ControlFlow::Continue(8)));
}

#[test]
fn try_for_each_leaves_the_items_after_the_failure_in_the_source() {
    let mut cx = Context::from_waker(Waker::noop());
    let mut seen = Vec::new();
    let sink = on_each_sync::<i32, Result<(), &str>, Infallible, _>(|x: i32| {
        seen.push(x);
        if x == 3 {
            Err("three")
        } else {
            Ok(())
        }
    });
    let mut task = flows::ops::for_each::try_for_each(vec![1, 2, 3, 4, 5].into_flow(), sink);
    assert_eq!(task.poll(&mut cx), Poll::Ready(Err("three")));
    assert_eq!(task.inner.src.items, [4, 5]);
    drop(task);
    assert_eq!(seen, [1, 2, 3]);
}
