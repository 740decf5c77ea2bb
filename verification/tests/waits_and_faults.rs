use gdext_coroutines::builder::CoroutineBuilder;
use gdext_coroutines::coroutine::{Event, PollMode, SpireCoroutine, FORCE_RUN_CAP};
use gdext_coroutines::routine::Step;
use gdext_coroutines::scheduler::Scheduler;
use gdext_coroutines::start_async_task::StartAsyncTask;
use gdext_coroutines::start_coroutine::StartCoroutine;
use gdext_coroutines::yielding::{
    frames, wait_until, wait_while, KeepWaiting, SpireYield, Wait, WaitUntilFinished,
};
use gdext_coroutines::Value;

#[test]
fn yield_constructors_build_the_declared_suspensions() {
    assert_eq!(frames(5), SpireYield::Frames(5));
    assert_eq!(gdext_coroutines::yielding::seconds(75), SpireYield::Seconds(75));
    assert_eq!(wait_while(3), SpireYield::Dyn(Wait::While(3)));
    assert_eq!(wait_until(4), SpireYield::Dyn(Wait::Until(4)));
}

#[test]
fn keep_waiting_reads_flags_and_liveness() {
    let flags = vec![true, false];
    let alive = vec![false, true];
    assert!(Wait::While(0).keep_waiting(&flags, &alive));
    assert!(!Wait::While(1).keep_waiting(&flags, &alive));
    // an unregistered flag reads as false
    assert!(!Wait::While(9).keep_waiting(&flags, &alive));
    assert!(!Wait::Until(0).keep_waiting(&flags, &alive));
    assert!(Wait::Until(1).keep_waiting(&flags, &alive));
    assert!(Wait::Until(9).keep_waiting(&flags, &alive));
    assert!(!Wait::TaskFinished(0).keep_waiting(&flags, &alive));
    assert!(Wait::TaskFinished(1).keep_waiting(&flags, &alive));
    // a task index that never existed counts as no longer alive
    assert!(!Wait::TaskFinished(9).keep_waiting(&flags, &alive));
}

#[test]
fn wait_until_resolves_in_the_tick_the_flag_turns_true() {
    let mut sched = Scheduler::new();
    let flag = sched.register_flag(false);
    let steps = vec![Step::Yielded(wait_until(flag))];
    let id = CoroutineBuilder::new_coroutine(steps, Value::Int(6)).spawn(&mut sched);

    sched.on_tick(PollMode::Process, 0);
    sched.on_tick(PollMode::Process, 0);
    assert!(!sched.task(id).is_finished());

    sched.set_flag(flag, true);
    sched.on_tick(PollMode::Process, 0);
    assert!(sched.task(id).is_finished());
}

#[test]
fn wait_while_resolves_once_the_flag_turns_false() {
    let mut sched = Scheduler::new();
    let flag = sched.register_flag(true);
    let steps = vec![Step::Yielded(wait_while(flag))];
    let id = CoroutineBuilder::new_coroutine(steps, Value::Nil).spawn(&mut sched);

    sched.on_tick(PollMode::Process, 0);
    assert!(!sched.task(id).is_finished());

    sched.set_flag(flag, false);
    sched.on_tick(PollMode::Process, 0);
    assert!(sched.task(id).is_finished());
}

#[test]
fn wait_until_finished_resolves_in_the_same_tick_the_target_terminates() {
    let mut sched = Scheduler::new();

    // spawned first, so it is polled first within each tick
    let b = sched.start_coroutine(vec![Step::Yielded(frames(1))], Value::Int(1));
    let wait = sched.task(b).wait_until_finished();
    let a = sched.start_coroutine(vec![Step::Yielded(wait)], Value::Int(2));

    sched.on_tick(PollMode::Process, 0);
    assert!(!sched.task(b).is_finished());
    assert!(!sched.task(a).is_finished());

    // this tick finishes the awaited task, and the waiting one follows
    // within the very same tick, not one tick later
    let evs = sched.on_tick(PollMode::Process, 0);
    assert!(sched.task(b).is_finished());
    assert!(sched.task(a).is_finished());
    let finishes: Vec<usize> = evs
        .iter()
        .filter(|te| matches!(te.event, Event::Finished(_)))
        .map(|te| te.task)
        .collect();
    assert_eq!(finishes, vec![b, a]);
}

#[test]
fn a_fault_is_quarantined_and_siblings_still_advance() {
    let mut sched = Scheduler::new();
    let faulty = CoroutineBuilder::new_coroutine(vec![Step::Trap], Value::Int(1))
        .on_finish(40)
        .spawn(&mut sched);
    let healthy = sched.start_coroutine(vec![Step::Yielded(frames(0))], Value::Int(9));

    let evs = sched.on_tick(PollMode::Process, 0);

    // the faulty task is reported and detached, and its listener is never
    // invoked
    let faulty_events: Vec<Event> = evs
        .iter()
        .filter(|te| te.task == faulty)
        .map(|te| te.event)
        .collect();
    assert_eq!(faulty_events, vec![Event::FaultReport, Event::Detach]);
    assert!(sched.task(faulty).is_finished());
    assert!(!sched.task(faulty).is_running());

    // the sibling scheduled in the same tick advanced normally
    let healthy_events: Vec<Event> = evs
        .iter()
        .filter(|te| te.task == healthy)
        .map(|te| te.event)
        .collect();
    assert_eq!(healthy_events, vec![Event::Finished(Value::Int(9)), Event::Detach]);
    assert!(sched.task(healthy).is_finished());
}

#[test]
fn force_run_returns_the_result_without_listeners() {
    let mut sched = Scheduler::new();
    let steps = vec![Step::Yielded(frames(100)), Step::Yielded(frames(100))];
    let id = CoroutineBuilder::new_coroutine(steps, Value::Int(31))
        .on_finish(50)
        .spawn(&mut sched);

    let (v, evs) = sched.task_mut(id).force_run_to_completion();
    assert_eq!(v, Value::Int(31));
    assert_eq!(evs, vec![Event::Detach]);
    assert!(sched.task(id).is_finished());
}

#[test]
fn force_run_aborts_at_exactly_the_cap() {
    let cap = FORCE_RUN_CAP as usize;

    // a script with one suspension fewer than the cap still completes
    let mut sched = Scheduler::new();
    let steps: Vec<Step> = (0..cap - 1).map(|_| Step::Yielded(frames(1))).collect();
    let id = CoroutineBuilder::new_coroutine(steps, Value::Int(8)).spawn(&mut sched);
    let (v, evs) = sched.task_mut(id).force_run_to_completion();
    assert_eq!(v, Value::Int(8));
    assert_eq!(evs, vec![Event::Detach]);

    // one with as many suspensions as the cap is given up on
    let steps: Vec<Step> = (0..cap).map(|_| Step::Yielded(frames(1))).collect();
    let id = CoroutineBuilder::new_coroutine(steps, Value::Int(8)).spawn(&mut sched);
    let (v, evs) = sched.task_mut(id).force_run_to_completion();
    assert_eq!(v, Value::Nil);
    assert_eq!(evs, vec![Event::CapReport, Event::Detach]);
    assert!(sched.task(id).is_finished());
}

#[test]
fn force_run_on_a_bridge_that_never_finishes_aborts() {
    let mut sched = Scheduler::new();
    let id = sched.start_async_task();
    let (v, evs) = sched.task_mut(id).force_run_to_completion();
    assert_eq!(v, Value::Nil);
    assert_eq!(evs, vec![Event::CapReport, Event::Detach]);
    assert!(sched.task(id).is_finished());
}

#[test]
fn force_run_on_a_trapping_script_reports_the_fault() {
    let mut sched = Scheduler::new();
    let id = CoroutineBuilder::new_coroutine(
        vec![Step::Yielded(frames(1)), Step::Trap],
        Value::Int(2),
    )
    .spawn(&mut sched);
    let (v, evs) = sched.task_mut(id).force_run_to_completion();
    assert_eq!(v, Value::Nil);
    assert_eq!(evs, vec![Event::FaultReport, Event::Detach]);
    assert!(sched.task(id).is_finished());
}

#[test]
fn background_bridge_polls_once_per_tick_until_published() {
    let mut sched = Scheduler::new();
    let id = sched.start_async_task();

    for _ in 0..3 {
        let evs = sched.on_tick(PollMode::Process, 0);
        assert!(evs.is_empty());
        assert!(!sched.task(id).is_finished());
    }

    sched.finish_background(id, Value::Int(64));
    sched.on_tick(PollMode::Process, 0);
    sched.on_tick(PollMode::Process, 0);
    assert!(sched.task(id).is_finished());
}

#[test]
fn background_bridge_published_before_first_tick_completes_on_it() {
    let mut sched = Scheduler::new();
    let id = sched.start_async_task();
    sched.finish_background(id, Value::Int(3));
    let evs = sched.on_tick(PollMode::Process, 0);
    assert!(sched.task(id).is_finished());
    assert_eq!(evs.first().unwrap().event, Event::Finished(Value::Int(3)));
}

#[test]
fn background_bridge_with_real_executor() {
    let mut sched = Scheduler::new();
    let id = sched.start_async_task();

    let work = smol::spawn(async { 21i64 * 2 });

    // the bridge keeps the task pending while the work is out
    sched.on_tick(PollMode::Process, 0);
    assert!(!sched.task(id).is_finished());

    // retrieve the already-completed (or soon-completed) result and
    // publish it; the next tick completes the task with it
    let result = smol::block_on(work);
    sched.finish_background(id, Value::Int(result));
    sched.on_tick(PollMode::Process, 0);
    sched.on_tick(PollMode::Process, 0);
    assert!(sched.task(id).is_finished());
}

#[test]
fn wait_until_finished_names_the_task_index() {
    let mut sched = Scheduler::new();
    let id = sched.start_coroutine(vec![Step::Yielded(frames(1))], Value::Nil);
    let task: &SpireCoroutine = sched.task(id);
    assert_eq!(task.wait_until_finished(), SpireYield::Dyn(Wait::TaskFinished(id)));
}
