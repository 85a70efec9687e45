use flows::convert::IntoFlow;
use flows::flow::Flow;
use flows::flow_impls::identity;
use flows::flow_impls::on_each_sync;
use flows::flow_impls::repeat;
use flows::flow_impls::repeat_with;
use flows::ops::compose::compose_with;
use flows::ops::flatten::flatten_init;
use flows::ops::flatten::switch_map;
use flows::ops::input::discard_input;
use flows::ops::input::map_input;
use flows::ops::latest::latest;
use flows::ops::map::map_return_sync;
use flows::ops::map::map_sync;
use flows::ops::merge_all::merge_all;
use flows::ops::merge_all::merge_map;
use flows::ops::try_unwrap::try_unwrap;
use flows::ops::zip::zip;
use flows::ops::zip::zip_with;
use flows::task::POLL_BUDGET;
use std::cell::RefCell;
use std::collections::VecDeque;
use std::ops::ControlFlow;
use std::ops::ControlFlow::Break;
use std::ops::ControlFlow::Continue;
use std::rc::Rc;
use std::task::Context;
use std::task::Poll;
use std::task::Poll::Pending;
use std::task::Poll::Ready;
use std::task::Waker;

/// One entry of a script: what the flow reports, and whether it takes the input.
enum Step<Y, Ret> {
    Take(Poll<ControlFlow<Ret, Y>>),
    Leave(Poll<ControlFlow<Ret, Y>>),
}

use Step::Leave;
use Step::Take;

/// A flow that plays a script and keeps a log of the inputs it was polled with.
struct Script<R, Y, Ret> {
    steps: VecDeque<Step<Y, Ret>>,
    log: Rc<RefCell<Vec<Option<R>>>>,
    open: bool,
}

type Log<R> = Rc<RefCell<Vec<Option<R>>>>;

fn script<R, Y, Ret>(steps: Vec<Step<Y, Ret>>) -> (Script<R, Y, Ret>, Log<R>) {
    let log = Rc::new(RefCell::new(Vec::new()));
    (Script { steps: steps.into(), log: log.clone(), open: true }, log)
}

impl<R: Clone, Y, Ret> Flow<R> for Script<R, Y, Ret> {
    type Yield = Y;

    type Return = Ret;

    fn poll_resume(&mut self, _: &mut Context<'_>, input: &mut Option<R>) -> Poll<ControlFlow<Ret, Y>> {
        self.log.borrow_mut().push(input.clone());
        match self.steps.pop_front() {
            Some(Take(out)) => {
                *input = None;
                out
            }
            Some(Leave(out)) => out,
            None => Pending,
        }
    }

    fn can_resume(&self) -> bool {
        self.open
    }
}

#[test]
fn simple_flows_answer_every_input() {
    let mut cx = Context::from_waker(Waker::noop());

    let mut same = identity::<()>();
    let mut input = Some(5);
    assert_eq!(same.poll_resume(&mut cx, &mut input), Ready(Continue(5)));
    assert_eq!(input, None);
    assert_eq!(same.poll_resume(&mut cx, &mut input), Pending);
    assert!(Flow::<i32>::can_resume(&same));

    let mut sevens = repeat::<i32, ()>(7);
    let mut input = Some(());
    assert_eq!(sevens.poll_resume(&mut cx, &mut input), Ready(Continue(7)));
    assert_eq!(input, None);
    assert_eq!(sevens.poll_resume(&mut cx, &mut input), Pending);
    let mut input = Some(());
    assert_eq!(sevens.poll_resume(&mut cx, &mut input), Ready(Continue(7)));

    let mut n = 0;
    let mut counting = repeat_with::<_, ()>(move || {
        n += 1;
        n
    });
    let mut input = Some(());
    assert_eq!(counting.poll_resume(&mut cx, &mut input), Ready(Continue(1)));
    let mut input = Some(());
    assert_eq!(counting.poll_resume(&mut cx, &mut input), Ready(Continue(2)));

    let mut tripled = on_each_sync::<i32, i32, (), _>(|x| x * 3);
    let mut input = Some(4);
    assert_eq!(tripled.poll_resume(&mut cx, &mut input), Ready(Continue(12)));
    assert_eq!(input, None);
    assert_eq!(tripled.poll_resume(&mut cx, &mut input), Pending);
}

#[test]
fn compose_ends_with_the_source_and_leaves_the_sink_alone() {
    let mut cx = Context::from_waker(Waker::noop());
    let (src, _) = script::<u8, i32, &str>(vec![Take(Ready(Break("done")))]);
    let (dst, dst_log) = script::<i32, char, &str>(vec![Take(Ready(Continue('x')))]);
    let mut flow = compose_with(dst).execute(src);

    let mut input = Some(1);
    assert_eq!(flow.poll_resume(&mut cx, &mut input), Ready(Break("done")));
    assert_eq!(input, None);
    assert!(dst_log.borrow().is_empty());
}

#[test]
fn compose_keeps_an_output_until_the_sink_takes_it() {
    let mut cx = Context::from_waker(Waker::noop());
    let (src, src_log) =
        script::<u8, i32, &str>(vec![Take(Ready(Continue(5))), Leave(Pending), Leave(Pending)]);
    let (dst, dst_log) = script::<i32, char, &str>(vec![
        Leave(Pending),
        Take(Ready(Continue('a'))),
        Take(Ready(Break("sink"))),
    ]);
    let mut flow = compose_with(dst).execute(src);
    assert!(flow.can_resume());

    let mut input = Some(1);
    assert_eq!(flow.poll_resume(&mut cx, &mut input), Pending);
    assert_eq!(input, None);
    assert_eq!(flow.b, Some(5));

    assert_eq!(flow.poll_resume(&mut cx, &mut input), Ready(Continue('a')));
    assert_eq!(flow.b, None);

    assert_eq!(flow.poll_resume(&mut cx, &mut input), Ready(Break("sink")));
    assert_eq!(*src_log.borrow(), [Some(1), None, None]);
    assert_eq!(*dst_log.borrow(), [Some(5), Some(5), None]);
}

#[test]
fn map_sync_maps_outputs_only() {
    let mut cx = Context::from_waker(Waker::noop());
    let (src, _) = script::<(), i32, i32>(vec![
        Take(Ready(Continue(2))),
        Leave(Pending),
        Take(Ready(Break(3))),
    ]);
    let mut calls = 0;
    let mut flow = map_sync(|x: i32| {
        calls += 1;
        x * 10
    })
    .execute(src);

    let mut input = Some(());
    assert_eq!(flow.poll_resume(&mut cx, &mut input), Ready(Continue(20)));
    assert_eq!(flow.poll_resume(&mut cx, &mut input), Pending);
    assert_eq!(flow.poll_resume(&mut cx, &mut input), Ready(Break(3)));
    drop(flow);
    assert_eq!(calls, 1);
}

#[test]
fn map_return_sync_maps_the_result_only() {
    let mut cx = Context::from_waker(Waker::noop());
    let (src, _) = script::<(), i32, i32>(vec![
        Take(Ready(Continue(2))),
        Leave(Pending),
        Take(Ready(Break(3))),
    ]);
    let mut flow = map_return_sync(|x: i32| format!("<{x}>")).execute(src);

    let mut input = Some(());
    assert_eq!(flow.poll_resume(&mut cx, &mut input), Ready(Continue(2)));
    assert!(flow.fun.is_some());
    assert_eq!(flow.poll_resume(&mut cx, &mut input), Pending);
    assert_eq!(flow.poll_resume(&mut cx, &mut input), Ready(Break("<3>".to_string())));
    assert!(flow.fun.is_none());
}

#[test]
fn zip_pairs_outputs_that_come_in_different_steps() {
    let mut cx = Context::from_waker(Waker::noop());
    let (f0, log0) = script::<u8, i32, ()>(vec![Take(Ready(Continue(1))), Leave(Pending)]);
    let (f1, log1) = script::<u16, &str, ()>(vec![Leave(Pending), Take(Ready(Continue("a")))]);
    let mut pair = zip(f0, f1);
    assert!(pair.can_resume());

    let mut input = Some((10, 20));
    assert_eq!(pair.poll_resume(&mut cx, &mut input), Pending);
    assert_eq!(input, None);
    assert_eq!(pair.res, (None, Some(20)));
    assert_eq!(pair.yld, (Some(1), None));

    assert_eq!(pair.poll_resume(&mut cx, &mut input), Ready(Continue((1, "a"))));
    assert_eq!(pair.res, (None, None));
    assert_eq!(pair.yld, (None, None));
    assert_eq!(*log0.borrow(), [Some(10), None]);
    assert_eq!(*log1.borrow(), [Some(20), Some(20)]);
}

#[test]
fn zip_gives_back_an_input_that_neither_branch_took() {
    let mut cx = Context::from_waker(Waker::noop());
    let (f0, _) = script::<u8, i32, ()>(vec![Leave(Pending)]);
    let (f1, _) = script::<u16, &str, ()>(vec![Leave(Pending)]);
    let mut pair = zip(f0, f1);

    let mut input = Some((10, 20));
    assert_eq!(pair.poll_resume(&mut cx, &mut input), Pending);
    assert_eq!(input, Some((10, 20)));
    assert_eq!(pair.res, (None, None));
}

#[test]
fn zip_offers_a_leftover_half_until_it_is_taken() {
    let mut cx = Context::from_waker(Waker::noop());
    let (f0, log0) = script::<u8, i32, ()>(vec![
        Take(Ready(Continue(1))),
        Leave(Pending),
        Leave(Pending),
        Leave(Pending),
    ]);
    let (f1, log1) = script::<u16, &str, ()>(vec![
        Leave(Pending),
        Leave(Pending),
        Leave(Pending),
        Take(Ready(Continue("a"))),
    ]);
    let mut pair = zip(f0, f1);

    let mut input = Some((10, 20));
    assert_eq!(pair.poll_resume(&mut cx, &mut input), Pending);
    assert_eq!(input, None);
    assert_eq!(pair.res, (None, Some(20)));
    assert_eq!(pair.poll_resume(&mut cx, &mut input), Pending);
    assert_eq!(pair.res, (None, Some(20)));
    assert_eq!(pair.poll_resume(&mut cx, &mut input), Pending);
    assert_eq!(pair.res, (None, Some(20)));
    assert_eq!(pair.poll_resume(&mut cx, &mut input), Ready(Continue((1, "a"))));
    assert_eq!(pair.res, (None, None));
    assert_eq!(*log0.borrow(), [Some(10), None, None, None]);
    assert_eq!(*log1.borrow(), [Some(20), Some(20), Some(20), Some(20)]);
}

#[test]
fn zip_lets_a_new_input_take_the_place_of_a_leftover_half() {
    let mut cx = Context::from_waker(Waker::noop());
    let (f0, log0) = script::<u8, i32, ()>(vec![Take(Pending), Take(Pending)]);
    let (f1, log1) = script::<u16, &str, ()>(vec![Leave(Pending), Take(Pending)]);
    let mut pair = zip(f0, f1);

    let mut input = Some((10, 20));
    assert_eq!(pair.poll_resume(&mut cx, &mut input), Pending);
    assert_eq!(pair.res, (None, Some(20)));
    let mut input = Some((11, 21));
    assert_eq!(pair.poll_resume(&mut cx, &mut input), Pending);
    assert_eq!(input, None);
    assert_eq!(pair.res, (None, None));
    assert_eq!(*log0.borrow(), [Some(10), Some(11)]);
    assert_eq!(*log1.borrow(), [Some(20), Some(21)]);
}

#[test]
fn zip_ends_with_the_first_branch_that_ends() {
    let mut cx = Context::from_waker(Waker::noop());
    let (f0, _) = script::<u8, i32, &str>(vec![Take(Ready(Continue(1))), Take(Ready(Break("left")))]);
    let (f1, log1) =
        script::<u16, i32, &str>(vec![Take(Ready(Break("right"))), Take(Ready(Break("right")))]);
    let mut pair = zip_with::<u16, (), _>(f1).execute(f0);

    let mut input = Some((10, 20));
    assert_eq!(pair.poll_resume(&mut cx, &mut input), Ready(Break("right")));
    assert_eq!(pair.yld, (Some(1), None));

    // Both end in one step: the first branch goes first, and the second was polled all the same.
    let mut input = Some((11, 21));
    assert_eq!(pair.poll_resume(&mut cx, &mut input), Ready(Break("left")));
    assert_eq!(log1.borrow().len(), 2);
}

#[test]
fn zip_can_resume_if_either_branch_can() {
    let (mut f0, _) = script::<u8, i32, ()>(vec![]);
    let (mut f1, _) = script::<u16, i32, ()>(vec![]);
    f0.open = false;
    f1.open = false;
    let mut pair = zip(f0, f1);
    assert!(!pair.can_resume());
    pair.f1.open = true;
    assert!(pair.can_resume());
}

#[test]
fn latest_reports_the_newest_output_of_a_turn() {
    let mut cx = Context::from_waker(Waker::noop());
    let (src, log) = script::<u8, i32, ()>(vec![
        Take(Ready(Continue(1))),
        Take(Ready(Continue(2))),
        Leave(Pending),
        Leave(Pending),
        Take(Ready(Continue(3))),
        Take(Ready(Break(()))),
    ]);
    let mut flow = latest().execute(src);
    assert!(flow.can_resume());

    let mut input = Some(9);
    assert_eq!(flow.poll_resume(&mut cx, &mut input), Ready(Continue(2)));
    assert_eq!(input, None);
    // The outer input went first; after it the filler, which the third step left.
    assert_eq!(*log.borrow(), [Some(9), Some(0), Some(0)]);

    assert_eq!(flow.poll_resume(&mut cx, &mut input), Pending);
    assert_eq!(flow.poll_resume(&mut cx, &mut input), Ready(Break(())));
    assert_eq!(*log.borrow(), [Some(9), Some(0), Some(0), Some(0), Some(0), Some(0)]);
}

#[test]
fn latest_without_filler_when_the_flow_cannot_resume() {
    let mut cx = Context::from_waker(Waker::noop());
    let (mut src, log) = script::<u8, i32, ()>(vec![Leave(Ready(Continue(1))), Leave(Pending)]);
    src.open = false;
    let mut flow = latest().execute(src);
    assert!(!flow.can_resume());

    let mut input = None;
    assert_eq!(flow.poll_resume(&mut cx, &mut input), Ready(Continue(1)));
    assert_eq!(*log.borrow(), [None, None]);
}

#[test]
fn latest_stops_when_the_budget_is_spent() {
    let mut cx = Context::from_waker(Waker::noop());
    let mut n = 0usize;
    let mut flow = latest().execute(repeat_with::<_, ()>(move || {
        n += 1;
        n
    }));

    assert_eq!(POLL_BUDGET, 1024);
    let mut input = Some(());
    assert_eq!(flow.poll_resume(&mut cx, &mut input), Ready(Continue(1024)));
    assert_eq!(input, None);
    assert_eq!(flow.poll_resume(&mut cx, &mut input), Ready(Continue(2048)));
}

type Sub = Script<(), i32, u8>;

#[test]
fn flatten_runs_the_sub_flows_one_after_the_other() {
    let mut cx = Context::from_waker(Waker::noop());
    let (first, first_log) = script::<(), i32, u8>(vec![
        Take(Ready(Continue(1))),
        Leave(Pending),
        Take(Ready(Break(50))),
    ]);
    let (second, _) = script::<(), i32, u8>(vec![Take(Ready(Continue(2))), Take(Ready(Break(60)))]);
    let (main, main_log) = script::<u8, Sub, &str>(vec![
        Take(Ready(Continue(first))),
        Leave(Pending),
        Leave(Pending),
        Take(Ready(Continue(second))),
        Leave(Pending),
        Take(Ready(Break("end"))),
    ]);
    let mut flow = flatten_init::<u8, (), ()>(40).execute(main);
    assert!(flow.can_resume());

    let mut input = Some(());
    assert_eq!(flow.poll_resume(&mut cx, &mut input), Ready(Continue(1)));
    assert_eq!(input, None);
    assert_eq!(flow.poll_resume(&mut cx, &mut input), Pending);

    // The first sub-flow ends: its result is the next input of the main flow, which gives the
    // second one, and the input that the first one used up is made up for.
    let mut input = Some(());
    assert_eq!(flow.poll_resume(&mut cx, &mut input), Ready(Continue(2)));
    assert_eq!(input, None);
    assert_eq!(*first_log.borrow(), [Some(()), None, Some(())]);

    // The second sub-flow ends, and the main flow with the input it gets from it.
    let mut input = None;
    assert_eq!(flow.poll_resume(&mut cx, &mut input), Ready(Break("end")));
    assert_eq!(*main_log.borrow(), [Some(40), None, None, Some(50), None, Some(60)]);
    assert!(flow.ret.is_none());
}

#[test]
fn flatten_waits_for_the_last_sub_flow() {
    let mut cx = Context::from_waker(Waker::noop());
    let (only, _) = script::<(), i32, u8>(vec![
        Leave(Pending),
        Take(Ready(Continue(1))),
        Take(Ready(Break(50))),
    ]);
    let (main, main_log) =
        script::<u8, Sub, &str>(vec![Take(Ready(Continue(only))), Take(Ready(Break("end")))]);
    let mut flow = flatten_init::<u8, (), ()>(40).execute(main);

    let mut input = Some(());
    assert_eq!(flow.poll_resume(&mut cx, &mut input), Pending);
    // The main flow ends while the sub-flow is active: the result waits.
    assert_eq!(flow.poll_resume(&mut cx, &mut input), Ready(Continue(1)));
    assert_eq!(flow.ret, Some("end"));
    let mut input = Some(());
    assert_eq!(flow.poll_resume(&mut cx, &mut input), Ready(Break("end")));
    assert_eq!(input, Some(()));
    assert_eq!(*main_log.borrow(), [Some(40), None]);
}

#[test]
fn flatten_drops_the_active_sub_flow_for_a_new_one() {
    let mut cx = Context::from_waker(Waker::noop());
    let (first, first_log) = script::<(), i32, u8>(vec![Take(Ready(Continue(1)))]);
    let (second, _) = script::<(), i32, u8>(vec![Take(Ready(Continue(2)))]);
    let (main, _) =
        script::<u8, Sub, &str>(vec![Take(Ready(Continue(first))), Take(Ready(Continue(second)))]);
    let mut flow = flatten_init::<u8, (), ()>(40).execute(main);

    let mut input = Some(());
    assert_eq!(flow.poll_resume(&mut cx, &mut input), Ready(Continue(1)));
    let mut input = Some(());
    assert_eq!(flow.poll_resume(&mut cx, &mut input), Ready(Continue(2)));
    assert_eq!(first_log.borrow().len(), 1);
}

#[test]
fn merge_all_keeps_every_sub_flow_active() {
    let mut cx = Context::from_waker(Waker::noop());
    let (first, first_log) = script::<(), i32, u8>(vec![
        Leave(Pending),
        Leave(Pending),
        Take(Ready(Continue(1))),
        Take(Ready(Break(50))),
    ]);
    let (second, second_log) =
        script::<(), i32, u8>(vec![Take(Ready(Continue(2))), Take(Ready(Break(60)))]);
    let (last, _) = script::<(), i32, u8>(vec![Leave(Pending), Take(Ready(Continue(3)))]);
    let (main, main_log) = script::<(), Sub, &str>(vec![
        Take(Ready(Continue(first))),
        Take(Ready(Continue(second))),
        Leave(Pending),
        Take(Ready(Continue(last))),
        Take(Ready(Break("end"))),
    ]);
    let mut flow = merge_all::<()>().execute(main);
    assert!(flow.can_resume());

    // The main flow takes the input and gives the first sub-flow, which is pending.
    let mut input = Some(());
    assert_eq!(flow.poll_resume(&mut cx, &mut input), Pending);
    assert_eq!(input, None);
    assert_eq!(flow.sub_flows.len(), 1);

    // The second sub-flow joins; the first is polled before it, and the input goes to the first
    // that takes it.
    let mut input = Some(());
    assert_eq!(flow.poll_resume(&mut cx, &mut input), Ready(Continue(2)));
    assert_eq!(flow.sub_flows.len(), 2);
    assert_eq!(*first_log.borrow(), [None, None]);
    assert_eq!(*second_log.borrow(), [None]);

    // A pending main flow does not hold the sub-flows up.
    let mut input = Some(());
    assert_eq!(flow.poll_resume(&mut cx, &mut input), Ready(Continue(1)));
    assert_eq!(input, None);

    // The first sub-flow ends and leaves; the one that joined last takes its place and is polled
    // next. Then the second ends and leaves too.
    let mut input = Some(());
    assert_eq!(flow.poll_resume(&mut cx, &mut input), Pending);
    assert_eq!(flow.sub_flows.len(), 1);

    // The main flow ends; its result waits until the sub-flows are done.
    let mut input = Some(());
    assert_eq!(flow.poll_resume(&mut cx, &mut input), Ready(Continue(3)));
    assert_eq!(flow.ret, Some("end"));
    assert_eq!(flow.sub_flows.len(), 1);
    assert_eq!(*main_log.borrow(), [Some(()), Some(()), Some(()), Some(()), Some(())]);
}

#[test]
fn merge_all_ends_when_the_main_flow_and_all_sub_flows_have() {
    let mut cx = Context::from_waker(Waker::noop());
    let (only, _) = script::<(), i32, u8>(vec![Leave(Pending), Take(Ready(Break(50)))]);
    let (main, main_log) =
        script::<(), Sub, &str>(vec![Take(Ready(Continue(only))), Take(Ready(Break("end")))]);
    let mut flow = merge_all::<()>().execute(main);

    let mut input = Some(());
    assert_eq!(flow.poll_resume(&mut cx, &mut input), Pending);
    let mut input = Some(());
    assert_eq!(flow.poll_resume(&mut cx, &mut input), Ready(Break("end")));
    assert!(flow.sub_flows.is_empty());
    assert!(flow.ret.is_none());
    assert_eq!(main_log.borrow().len(), 2);
}

#[test]
fn merge_all_without_sub_flows_is_pending_until_the_main_flow_ends() {
    let mut cx = Context::from_waker(Waker::noop());
    let (main, _) = script::<(), Sub, &str>(vec![Leave(Pending), Take(Ready(Break("end")))]);
    let mut flow = merge_all::<()>().execute(main);

    let mut input = None;
    assert_eq!(flow.poll_resume(&mut cx, &mut input), Pending);
    assert_eq!(flow.poll_resume(&mut cx, &mut input), Ready(Break("end")));
}

#[test]
fn discard_input_steps_with_a_default_input() {
    let mut cx = Context::from_waker(Waker::noop());
    let (src, log) = script::<u8, i32, ()>(vec![
        Leave(Pending),
        Leave(Ready(Continue(1))),
        Take(Ready(Continue(2))),
    ]);
    let mut flow = discard_input::<u8>().execute(src);
    assert!(Flow::<&str>::can_resume(&flow));

    let mut input: Option<&str> = None;
    assert_eq!(flow.poll_resume(&mut cx, &mut input), Pending);
    let mut input = Some("anything");
    assert_eq!(flow.poll_resume(&mut cx, &mut input), Ready(Continue(1)));
    assert_eq!(input, Some("anything"));
    assert_eq!(flow.poll_resume(&mut cx, &mut input), Ready(Continue(2)));
    assert_eq!(input, None);
    assert_eq!(*log.borrow(), [None, Some(0), Some(0)]);
}

#[test]
fn map_input_maps_what_comes_in() {
    let mut cx = Context::from_waker(Waker::noop());
    let (src, log) = script::<usize, i32, ()>(vec![Take(Ready(Continue(1)))]);
    let mut flow = map_input::<&str, _>(|text: &str| text.len()).execute(src);

    let mut input = Some("four");
    assert_eq!(flow.poll_resume(&mut cx, &mut input), Ready(Continue(1)));
    assert_eq!(input, None);
    assert_eq!(*log.borrow(), [Some(4)]);
}

#[test]
fn try_unwrap_ends_at_the_first_failure() {
    let mut cx = Context::from_waker(Waker::noop());
    let mut flow = try_unwrap().execute(vec![Ok(1), Err("bad"), Ok(3)].into_flow());

    let mut input = Some(());
    assert_eq!(flow.poll_resume(&mut cx, &mut input), Ready(Continue(1)));
    assert_eq!(flow.poll_resume(&mut cx, &mut input), Pending);
    let mut input = Some(());
    assert_eq!(flow.poll_resume(&mut cx, &mut input), Ready(Break(Err("bad"))));
    assert!(flow.can_resume());
}

#[test]
fn try_unwrap_wraps_the_result_as_a_success() {
    let mut cx = Context::from_waker(Waker::noop());
    let mut flow = try_unwrap().execute(vec![Some(1)].into_flow());

    let mut input = Some(());
    assert_eq!(flow.poll_resume(&mut cx, &mut input), Ready(Continue(1)));
    let mut input = Some(());
    assert_eq!(flow.poll_resume(&mut cx, &mut input), Ready(Break(Some(()))));
}

#[test]
fn switch_map_maps_the_newest_output_only() {
    let mut cx = Context::from_waker(Waker::noop());
    let (src, log) = script::<(), i32, ()>(vec![
        Take(Ready(Continue(1))),
        Take(Ready(Continue(2))),
        Leave(Pending),
        Take(Ready(Continue(3))),
        Leave(Pending),
    ]);
    let mut flow = switch_map::<(), (), _, _, _>(|x: i32| vec![x * 10, x * 10 + 1]).execute(src);

    let mut seen = Vec::new();
    for _ in 0..4 {
        let mut input = Some(());
        match flow.poll_resume(&mut cx, &mut input) {
            Ready(Continue(value)) => seen.push(value),
            other => panic!("{other:?}"),
        }
    }
    assert_eq!(seen, [20, 21, 30, 31]);
    assert_eq!(log.borrow().len(), 5);
}

#[test]
fn merge_map_runs_the_mapped_flows_side_by_side() {
    let mut cx = Context::from_waker(Waker::noop());
    let mut flow =
        merge_map::<(), _, _, _>(|x: i32| vec![x * 10, x * 10 + 1]).execute(vec![1, 2].into_flow());

    let mut seen = Vec::new();
    loop {
        let mut input = Some(());
        match flow.poll_resume(&mut cx, &mut input) {
            Ready(Continue(value)) => seen.push(Some(value)),
            Ready(Break(())) => break,
            Pending => seen.push(None),
        }
    }
    assert_eq!(
        seen,
        [None, None, None, Some(10), Some(11), None, Some(20), Some(21)]
    );
}

#[test]
fn flatten_init_goes_through_the_sequences_in_order() {
    let mut cx = Context::from_waker(Waker::noop());
    let seqs = vec![vec![1, 2], vec![], vec![3], vec![4, 5, 6]];
    let mut flow = flatten_init::<(), (), _>(()).execute(seqs.into_flow());

    let mut seen = Vec::new();
    loop {
        let mut input = Some(());
        match flow.poll_resume(&mut cx, &mut input) {
            Ready(Continue(value)) => seen.push(value),
            Ready(Break(())) => break,
            Pending => panic!("an input was there"),
        }
    }
    assert_eq!(seen, [1, 2, 3, 4, 5, 6]);
}

#[test]
fn zip_of_sequences_is_as_long_as_the_shorter() {
    let mut cx = Context::from_waker(Waker::noop());
    let mut pair = zip(vec![1, 2, 3].into_flow(), vec!["a", "b", "c", "d"].into_flow());

    let mut seen = Vec::new();
    loop {
        let mut input = Some(((), ()));
        match pair.poll_resume(&mut cx, &mut input) {
            Ready(Continue(both)) => seen.push(both),
            Ready(Break(())) => break,
            Pending => panic!("an input was there"),
        }
    }
    assert_eq!(seen, [(1, "a"), (2, "b"), (3, "c")]);
    assert_eq!(pair.f1.items.len(), 0);
}
