use either::Either;
use flows::convert::FromFlow;
use flows::convert::IntoFlow;
use flows::emit::emit_all;
use flows::emit::flow_of;
use flows::emit::EmitAll;
use flows::flow::Flow;
use flows::flow_impls::on_each_sync;
use flows::generator::flow_from_fn;
use flows::ops::flatten::concat_map;
use flows::ops::flatten::flatten;
use flows::ops::for_each::for_each;
use flows::ops::for_each::try_for_each;
use flows::ops::transform::filter;
use flows::ops::transform::transform_each;
use flows::ops::transform::try_transform_each;
use flows::ops::zip::zip;
use flows::sender::Next;
use flows::sender::NextFrom;
use flows::sender::Routine;
use flows::sender::Sender;
use flows::task::Task;
use std::convert::identity;
use std::convert::Infallible;
use std::future::Future;
use std::pin::Pin;
use std::task::Context;
use std::task::Poll;
use std::task::Waker;
use std::time::Duration;

/// Polls `task` until it is ready.
fn run<K: Task>(mut task: K) -> K::Output {
    let mut cx = Context::from_waker(Waker::noop());
    loop {
        if let Poll::Ready(out) = task.poll(&mut cx) {
            return out;
        }
        std::hint::spin_loop();
    }
}

/// A timer as a task.
struct Sleep(async_io::Timer);

fn sleep(ms: u64) -> Sleep {
    Sleep(async_io::Timer::after(Duration::from_millis(ms)))
}

impl Sleep {
    fn is_over(&mut self, cx: &mut Context<'_>) -> bool {
        Pin::new(&mut self.0).poll(cx).is_ready()
    }
}

/// Emits 0, 1, 2 and so on, without end.
struct Counter {
    i: i32,
    point: Option<Next<i32>>,
}

impl Routine<i32, ()> for Counter {
    type Output = i32;

    fn poll(&mut self, cx: &mut Context<'_>, sender: &mut Sender<i32, ()>) -> Poll<i32> {
        loop {
            if self.point.is_none() {
                self.point = Some(sender.next(self.i));
            }
            let point = self.point.as_mut().unwrap();
            match Routine::<i32, ()>::poll(point, cx, sender) {
                Poll::Ready(()) => {
                    self.point = None;
                    self.i += 1;
                }
                Poll::Pending => return Poll::Pending,
            }
        }
    }
}

/// Emits the numbers from `from` to `to`, then completes with `"foo"`.
struct Span {
    items: EmitAll<i32>,
}

fn span(from: i32, to: i32) -> Span {
    Span { items: emit_all((from..=to).collect()) }
}

impl Routine<i32, ()> for Span {
    type Output = &'static str;

    fn poll(&mut self, cx: &mut Context<'_>, sender: &mut Sender<i32, ()>) -> Poll<&'static str> {
        match Routine::<i32, ()>::poll(&mut self.items, cx, sender) {
            Poll::Ready(()) => Poll::Ready("foo"),
            Poll::Pending => Poll::Pending,
        }
    }
}

/// Emits `x * 2`, sleeps, emits `x * 2 + 1` and is done with `done`.
struct Doubled<B> {
    first: Option<Next<i32>>,
    pause: Option<Sleep>,
    second: Option<Next<i32>>,
    done: Option<B>,
}

fn doubled<B>(x: i32, done: B) -> Doubled<B> {
    Doubled {
        first: Some(Next { value: Some(x * 2) }),
        pause: Some(sleep(10)),
        second: Some(Next { value: Some(x * 2 + 1) }),
        done: Some(done),
    }
}

impl<B> Routine<i32, ()> for Doubled<B> {
    type Output = B;

    fn poll(&mut self, cx: &mut Context<'_>, sender: &mut Sender<i32, ()>) -> Poll<B> {
        if let Some(point) = self.first.as_mut() {
            if Routine::<i32, ()>::poll(point, cx, sender).is_pending() {
                return Poll::Pending;
            }
            self.first = None;
        }
        if let Some(pause) = self.pause.as_mut() {
            if !pause.is_over(cx) {
                return Poll::Pending;
            }
            self.pause = None;
        }
        if let Some(point) = self.second.as_mut() {
            if Routine::<i32, ()>::poll(point, cx, sender).is_pending() {
                return Poll::Pending;
            }
            self.second = None;
        }
        Poll::Ready(self.done.take().unwrap())
    }
}

#[test]
fn try_for_each_break() {
    let f = flow_from_fn(|(): ()| Counter { i: 0, point: None });

    let mut out = Vec::new();

    let ret = {
        let out = &mut out;
        run(try_for_each(
            f,
            on_each_sync::<_, _, Infallible, _>(move |x: i32| {
                out.push(x);

                if x == 10 {
                    Err(123)
                } else {
                    Ok(())
                }
            }),
        ))
    };

    let ret = ret.unwrap_or_else(identity);

    assert_eq!(out, [0, 1, 2, 3, 4, 5, 6, 7, 8, 9, 10]);
    assert_eq!(ret, 123);
}

/// Emits 99, hands over to the transformed numbers, emits 100 and completes
/// with what the nested flow completed with.
struct Framed<F: Flow<(), Yield = i32, Return = &'static str>> {
    head: Option<Next<i32>>,
    nested: Option<NextFrom<(), F>>,
    ret: Option<&'static str>,
    tail: Option<Next<i32>>,
}

impl<F: Flow<(), Yield = i32, Return = &'static str>> Routine<i32, ()> for Framed<F> {
    type Output = &'static str;

    fn poll(&mut self, cx: &mut Context<'_>, sender: &mut Sender<i32, ()>) -> Poll<&'static str> {
        if let Some(point) = self.head.as_mut() {
            if Routine::<i32, ()>::poll(point, cx, sender).is_pending() {
                return Poll::Pending;
            }
            self.head = None;
        }
        if let Some(point) = self.nested.as_mut() {
            match point.poll(cx, sender) {
                Poll::Ready(ret) => {
                    self.ret = Some(ret);
                    self.nested = None;
                }
                Poll::Pending => return Poll::Pending,
            }
        }
        if let Some(point) = self.tail.as_mut() {
            if Routine::<i32, ()>::poll(point, cx, sender).is_pending() {
                return Poll::Pending;
            }
            self.tail = None;
        }
        Poll::Ready(self.ret.take().unwrap())
    }
}

#[test]
fn flow_with_next_from() {
    let f1 = flow_from_fn(|(): ()| span(1, 5));

    let f2 = flow_from_fn(move |(): ()| Framed {
        head: Some(Next { value: Some(99) }),
        nested: Some(NextFrom {
            input: Some(()),
            src: transform_each::<i32, _>(|x: i32| doubled(x, ())).execute(f1),
        }),
        ret: None,
        tail: Some(Next { value: Some(100) }),
    });

    let mut out = Vec::new();

    let ret = run(for_each(
        f2,
        on_each_sync::<_, _, Infallible, _>(|x: i32| {
            out.push(x);
        }),
    ));

    assert_eq!(out, [99, 2, 3, 4, 5, 6, 7, 8, 9, 10, 11, 100]);
    assert_eq!(ret, "foo");
}

#[test]
fn transform_flow() {
    let f1 = flow_from_fn(|(): ()| span(1, 5));

    let f2 = transform_each::<i32, _>(|x: i32| doubled(x, ())).execute(f1);

    let mut out = Vec::new();

    let ret = run(for_each(
        f2,
        on_each_sync::<_, _, Infallible, _>(|x: i32| {
            out.push(x);
        }),
    ));

    assert_eq!(out, [2, 3, 4, 5, 6, 7, 8, 9, 10, 11]);
    assert_eq!(ret, "foo");
}

#[test]
fn try_transform_flow() {
    let f1 = flow_from_fn(|(): ()| span(1, 9));

    let f2 = try_transform_each::<i32, _>(|x: i32| {
        doubled(x, if x == 5 { Err("bar") } else { Ok(()) })
    })
    .execute(f1);

    let mut out = Vec::new();

    let ret = run(for_each(
        f2,
        on_each_sync::<_, _, Infallible, _>(|x: i32| {
            out.push(x);
        }),
    ));

    assert_eq!(out, [2, 3, 4, 5, 6, 7, 8, 9, 10, 11]);
    assert_eq!(ret, Err("bar"));
}

#[test]
fn flow_from_iter() {
    let out = run(Vec::from_flow(
        transform_each::<i32, _>(|x: i32| emit_all(vec![x * 2 - 1, x * 2]))
            .execute(vec![1, 2, 3].into_flow()),
    ));

    assert_eq!(out, [1, 2, 3, 4, 5, 6])
}

#[test]
fn flow_flatten() {
    let out = run(Vec::from_flow(
        flatten().execute(flow_of(vec![
            Either::Left(vec![1, 2]),
            Either::Right(vec![3, 4, 5]),
            Either::Left(vec![6, 7]),
        ])),
    ));
    assert_eq!(out, [1, 2, 3, 4, 5, 6, 7])
}

#[test]
fn flow_concat_map() {
    let out = run(Vec::from_flow(
        concat_map::<(), (), _, _, _>(|x: i32| vec![x * 2 - 1, x * 2])
            .execute(vec![1, 2, 3].into_flow()),
    ));

    assert_eq!(out, [1, 2, 3, 4, 5, 6]);
}

#[test]
fn flow_filter() {
    let out = run(Vec::from_flow(
        filter(|x: &i32| x % 2 == 0).execute(flow_of(vec![1, 2, 3, 4, 5, 6])),
    ));

    assert_eq!(out, [2, 4, 6]);
}

/// Sleeps, then emits the item and hands back the input that answers it.
struct Delayed<T> {
    pause: Option<Sleep>,
    point: Next<T>,
}

impl<T> Routine<T, ()> for Delayed<T> {
    type Output = ();

    fn poll(&mut self, cx: &mut Context<'_>, sender: &mut Sender<T, ()>) -> Poll<()> {
        if let Some(pause) = self.pause.as_mut() {
            if !pause.is_over(cx) {
                return Poll::Pending;
            }
            self.pause = None;
        }
        self.point.poll(cx, sender)
    }
}

fn delayed<T>(ms: u64, item: T) -> Delayed<T> {
    Delayed { pause: Some(sleep(ms)), point: Next { value: Some(item) } }
}

#[test]
fn flow_zip() {
    let out = run(Vec::from_flow(zip(
        transform_each::<i32, _>(|item: i32| delayed(3, item)).execute(flow_of(vec![1, 2, 3])),
        transform_each::<&str, _>(|item: &'static str| delayed(8, item))
            .execute(flow_of(vec!["a", "b", "c", "d"])),
    )));

    assert_eq!(out, [(1, "a"), (2, "b"), (3, "c")]);
}
