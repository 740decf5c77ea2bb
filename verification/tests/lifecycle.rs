use gdext_coroutines::builder::CoroutineBuilder;
use gdext_coroutines::coroutine::{Event, OnFinishCall, PollMode, ProcessMode};
use gdext_coroutines::routine::Step;
use gdext_coroutines::scheduler::{Scheduler, TaskEvent};
use gdext_coroutines::yielding::{frames, seconds};
use gdext_coroutines::Value;

fn invokes(events: &[TaskEvent]) -> Vec<(usize, OnFinishCall, Value)> {
    events
        .iter()
        .filter_map(|te| match te.event {
            Event::Invoke(c, v) => Some((te.task, c, v)),
            _ => None,
        })
        .collect()
}

#[test]
fn frames_two_completes_on_third_tick_with_listener() {
    let mut sched = Scheduler::new();
    let steps = vec![Step::Yielded(frames(2))];
    let id = CoroutineBuilder::new_coroutine(steps, Value::Int(5))
        .on_finish(77)
        .spawn(&mut sched);

    let evs = sched.on_tick(PollMode::Process, 0);
    assert!(evs.is_empty());
    assert!(!sched.task(id).is_finished());
    assert!(sched.task(id).is_running());

    let evs = sched.on_tick(PollMode::Process, 0);
    assert!(evs.is_empty());
    assert!(!sched.task(id).is_finished());

    let evs = sched.on_tick(PollMode::Process, 0);
    assert!(sched.task(id).is_finished());
    assert!(!sched.task(id).is_running());
    assert_eq!(
        evs,
        vec![
            TaskEvent { task: id, event: Event::Invoke(OnFinishCall::Closure(77), Value::Int(5)) },
            TaskEvent { task: id, event: Event::Finished(Value::Int(5)) },
            TaskEvent { task: id, event: Event::Detach },
        ]
    );
    assert_eq!(invokes(&evs).len(), 1);

    // the task is inert from now on: further ticks produce nothing
    let evs = sched.on_tick(PollMode::Process, 0);
    assert!(evs.is_empty());
}

#[test]
fn zero_frames_resolves_within_the_tick_it_was_produced() {
    let mut sched = Scheduler::new();
    let steps = vec![Step::Yielded(frames(0))];
    let id = CoroutineBuilder::new_coroutine(steps, Value::Int(1)).spawn(&mut sched);
    let evs = sched.on_tick(PollMode::Process, 0);
    assert!(sched.task(id).is_finished());
    assert_eq!(evs.last().unwrap().event, Event::Detach);
}

#[test]
fn negative_frame_count_behaves_like_zero() {
    let mut sched = Scheduler::new();
    let steps = vec![Step::Yielded(frames(-3))];
    let id = CoroutineBuilder::new_coroutine(steps, Value::Nil).spawn(&mut sched);
    sched.on_tick(PollMode::Process, 0);
    assert!(sched.task(id).is_finished());
}

#[test]
fn duration_resolves_once_cumulative_delta_reaches_it() {
    let mut sched = Scheduler::new();
    let steps = vec![Step::Yielded(seconds(1500))];
    let id = CoroutineBuilder::new_coroutine(steps, Value::Bool(true)).spawn(&mut sched);

    sched.on_tick(PollMode::Process, 600);
    assert!(!sched.task(id).is_finished()); // 600 elapsed
    sched.on_tick(PollMode::Process, 600);
    assert!(!sched.task(id).is_finished()); // 1200 elapsed
    sched.on_tick(PollMode::Process, 600);
    assert!(sched.task(id).is_finished()); // 1800 elapsed, 1800 >= 1500
}

#[test]
fn duration_remainder_resolves_following_suspension_same_tick() {
    // One large tick resolves the timed suspension and the zero-frame
    // suspension behind it within the same call.
    let mut sched = Scheduler::new();
    let steps = vec![Step::Yielded(seconds(1500)), Step::Yielded(frames(0))];
    let id = CoroutineBuilder::new_coroutine(steps, Value::Int(2)).spawn(&mut sched);
    let evs = sched.on_tick(PollMode::Process, 2000);
    assert!(sched.task(id).is_finished());
    assert_eq!(evs.first().unwrap().event, Event::Finished(Value::Int(2)));
}

#[test]
fn duration_exactly_consumed_resolves() {
    let mut sched = Scheduler::new();
    let steps = vec![Step::Yielded(seconds(1500))];
    let id = CoroutineBuilder::new_coroutine(steps, Value::Nil).spawn(&mut sched);
    sched.on_tick(PollMode::Process, 1500);
    assert!(sched.task(id).is_finished());
}

#[test]
fn kill_never_invokes_listeners() {
    let mut sched = Scheduler::new();
    let steps = vec![Step::Yielded(frames(10))];
    let id = CoroutineBuilder::new_coroutine(steps, Value::Int(9))
        .on_finish(1)
        .on_finish_callable(2)
        .spawn(&mut sched);
    sched.on_tick(PollMode::Process, 0);

    let evs = sched.task_mut(id).kill();
    assert_eq!(evs, vec![Event::Detach]);
    assert!(sched.task(id).is_finished());
    assert!(!sched.task(id).is_running());

    // finishing a killed task invokes nobody either
    let evs = sched.task_mut(id).finish_with(Value::Int(9));
    assert!(evs.is_empty());
}

#[test]
fn finish_with_invokes_each_listener_exactly_once_in_order() {
    let mut sched = Scheduler::new();
    let steps = vec![Step::Yielded(frames(10))];
    let id = CoroutineBuilder::new_coroutine(steps, Value::Nil)
        .on_finish(10)
        .on_finish_callable(20)
        .on_finish(30)
        .spawn(&mut sched);

    let evs = sched.task_mut(id).finish_with(Value::Int(4));
    assert_eq!(
        evs,
        vec![
            Event::Invoke(OnFinishCall::Closure(10), Value::Int(4)),
            Event::Invoke(OnFinishCall::Callable(20), Value::Int(4)),
            Event::Invoke(OnFinishCall::Closure(30), Value::Int(4)),
            Event::Finished(Value::Int(4)),
            Event::Detach,
        ]
    );
    assert!(sched.task(id).is_finished());

    // a second call in sequence is a no-op on the now terminal task
    let evs = sched.task_mut(id).finish_with(Value::Int(8));
    assert!(evs.is_empty());
}

#[test]
fn queries_after_each_way_of_terminating() {
    let mut sched = Scheduler::new();
    let mk = |sched: &mut Scheduler| {
        CoroutineBuilder::new_coroutine(vec![Step::Yielded(frames(0))], Value::Nil)
            .spawn(sched)
    };

    // natural completion
    let a = mk(&mut sched);
    sched.on_tick(PollMode::Process, 0);
    assert!(!sched.task(a).is_running());
    assert!(sched.task(a).is_finished());

    // kill
    let b = mk(&mut sched);
    sched.task_mut(b).kill();
    assert!(!sched.task(b).is_running());
    assert!(sched.task(b).is_finished());

    // finish_with
    let c = mk(&mut sched);
    sched.task_mut(c).finish_with(Value::Int(1));
    assert!(!sched.task(c).is_running());
    assert!(sched.task(c).is_finished());
}

#[test]
fn pause_and_resume_are_idempotent_and_gate_progress() {
    let mut sched = Scheduler::new();
    let steps = vec![Step::Yielded(frames(1))];
    let id = CoroutineBuilder::new_coroutine(steps, Value::Nil).spawn(&mut sched);

    sched.task_mut(id).pause();
    sched.task_mut(id).pause();
    assert!(sched.task(id).is_paused());
    assert!(!sched.task(id).is_running());

    // a paused task makes no progress however many ticks pass
    for _ in 0..5 {
        sched.on_tick(PollMode::Process, 0);
    }
    assert!(!sched.task(id).is_finished());

    sched.task_mut(id).resume();
    sched.task_mut(id).resume();
    assert!(!sched.task(id).is_paused());

    // resuming does not itself cause progress; the next matching tick does
    assert!(!sched.task(id).is_finished());
    sched.on_tick(PollMode::Process, 0);
    sched.on_tick(PollMode::Process, 0);
    assert!(sched.task(id).is_finished());
}

#[test]
fn lifecycle_operations_on_dead_handles_are_noops() {
    let mut sched = Scheduler::new();
    let id = CoroutineBuilder::new_coroutine(vec![], Value::Int(3)).spawn(&mut sched);
    sched.task_mut(id).kill();

    assert!(sched.task_mut(id).kill().is_empty());
    assert!(sched.task_mut(id).finish_with(Value::Int(1)).is_empty());
    let (v, evs) = sched.task_mut(id).force_run_to_completion();
    assert_eq!(v, Value::Nil);
    assert!(evs.is_empty());
    let was_paused = sched.task(id).is_paused();
    sched.task_mut(id).pause();
    assert_eq!(sched.task(id).is_paused(), was_paused);
}

#[test]
fn empty_script_completes_immediately() {
    let mut sched = Scheduler::new();
    let id = CoroutineBuilder::new_coroutine(Vec::new(), Value::Int(12)).spawn(&mut sched);
    let evs = sched.on_tick(PollMode::Process, 0);
    assert!(sched.task(id).is_finished());
    assert_eq!(evs.first().unwrap().event, Event::Finished(Value::Int(12)));
}

#[test]
fn opaque_completion_value_rounds_through_unchanged() {
    // a host-kept engine value travels as its token and reaches every
    // listener and the finished notification exactly as it went in
    let mut sched = Scheduler::new();
    let steps = vec![Step::Yielded(frames(0))];
    let id = CoroutineBuilder::new_coroutine(steps, Value::Opaque(41))
        .on_finish(7)
        .spawn(&mut sched);
    let evs = sched.on_tick(PollMode::Process, 0);
    assert!(sched.task(id).is_finished());
    assert_eq!(
        evs,
        vec![
            TaskEvent {
                task: id,
                event: Event::Invoke(OnFinishCall::Closure(7), Value::Opaque(41)),
            },
            TaskEvent { task: id, event: Event::Finished(Value::Opaque(41)) },
            TaskEvent { task: id, event: Event::Detach },
        ]
    );

    // forced completion hands the token back to the caller untouched
    let id2 = CoroutineBuilder::new_coroutine(Vec::new(), Value::Opaque(42)).spawn(&mut sched);
    let (v, _) = sched.task_mut(id2).force_run_to_completion();
    assert_eq!(v, Value::Opaque(42));
}

#[test]
fn builder_defaults_and_options() {
    let mut sched = Scheduler::new();
    let id = CoroutineBuilder::new_coroutine(vec![Step::Yielded(frames(1))], Value::Nil)
        .spawn(&mut sched);
    assert!(!sched.task(id).is_paused());
    assert_eq!(sched.task(id).poll_mode, PollMode::Process);
    assert_eq!(sched.task(id).process_mode, ProcessMode::Inherit);

    let id2 = CoroutineBuilder::new_coroutine(vec![Step::Yielded(frames(1))], Value::Nil)
        .auto_start(false)
        .poll_mode(PollMode::Physics)
        .process_mode(ProcessMode::Always)
        .spawn(&mut sched);
    assert!(sched.task(id2).is_paused());
    assert_eq!(sched.task(id2).poll_mode, PollMode::Physics);
    assert_eq!(sched.task(id2).process_mode, ProcessMode::Always);
}

#[test]
fn task_only_advances_on_its_own_channel() {
    let mut sched = Scheduler::new();
    let id = CoroutineBuilder::new_coroutine(vec![Step::Yielded(frames(0))], Value::Nil)
        .poll_mode(PollMode::Physics)
        .spawn(&mut sched);

    sched.on_tick(PollMode::Process, 100);
    assert!(!sched.task(id).is_finished());

    sched.on_tick(PollMode::Physics, 100);
    assert!(sched.task(id).is_finished());
}
