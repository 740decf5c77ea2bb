use vstd::prelude::*;

use crate::Value;
use crate::coroutine::{Liveness, OnFinishCall, PollMode, ProcessMode, SpireCoroutine, TaskModel};
use crate::routine::{Routine, RoutineModel, Step};
use crate::scheduler::{task_models, Scheduler};

verus! {

/// Builder struct for customizing coroutine behavior.
///
/// The underlying computation is fixed at construction; every option-setting
/// operation returns the updated configuration.
#[must_use]
#[derive(Debug)]
pub struct CoroutineBuilder {
    pub routine: Routine,
    /// Determines if the coroutine should be polled on the primary or on
    /// the fixed-step tick channel.
    pub poll_mode: PollMode,
    /// Pause semantics of the host which the coroutine should run in.
    pub process_mode: ProcessMode,
    /// Whether the coroutine should be started automatically.
    pub auto_start: bool,
    /// The listeners to invoke when the coroutine finishes, in order of
    /// registration.
    pub calls_on_finish: Vec<OnFinishCall>,
}

impl CoroutineBuilder {
    /// Creates a new coroutine builder with default settings around the
    /// given scripted computation.
    pub fn new_coroutine(steps: Vec<Step>, result: Value) -> (b: CoroutineBuilder)
        ensures
            b.routine@ == (RoutineModel::Scripted { steps: steps@, pos: 0int, result }),
            b.poll_mode == PollMode::Process,
            b.process_mode == ProcessMode::Inherit,
            b.auto_start == true,
            b.calls_on_finish@ == Seq::<OnFinishCall>::empty(),
    {
        CoroutineBuilder {
            routine: Routine::scripted(steps, result),
            poll_mode: PollMode::Process,
            process_mode: ProcessMode::Inherit,
            auto_start: true,
            calls_on_finish: Vec::new(),
        }
    }

    /// Creates a new coroutine builder with default settings around the
    /// bridge over a computation that runs to completion on an external
    /// executor.
    ///
    /// Each resume of the bridge checks the published completion marker:
    /// while it is unset the task yields a one-frame suspension, so such a
    /// task occupies at least one tick of polling before it can complete.
    pub fn new_async_task() -> (b: CoroutineBuilder)
        ensures
            b.routine@ == (RoutineModel::Background { done: false, result: Value::Nil }),
            b.poll_mode == PollMode::Process,
            b.process_mode == ProcessMode::Inherit,
            b.auto_start == true,
            b.calls_on_finish@ == Seq::<OnFinishCall>::empty(),
    {
        CoroutineBuilder {
            routine: Routine::background(),
            poll_mode: PollMode::Process,
            process_mode: ProcessMode::Inherit,
            auto_start: true,
            calls_on_finish: Vec::new(),
        }
    }

    /// Whether the coroutine should be started automatically upon spawning.
    ///
    /// If false, the spawned coroutine begins paused and must be resumed
    /// manually.
    pub fn auto_start(self, enabled: bool) -> (b: CoroutineBuilder)
        ensures
            b.routine@ == self.routine@,
            b.poll_mode == self.poll_mode,
            b.process_mode == self.process_mode,
            b.auto_start == enabled,
            b.calls_on_finish@ == self.calls_on_finish@,
    {
        CoroutineBuilder { auto_start: enabled, ..self }
    }

    /// Pause semantics of the host which the coroutine should run in.
    pub fn process_mode(self, mode: ProcessMode) -> (b: CoroutineBuilder)
        ensures
            b.routine@ == self.routine@,
            b.poll_mode == self.poll_mode,
            b.process_mode == mode,
            b.auto_start == self.auto_start,
            b.calls_on_finish@ == self.calls_on_finish@,
    {
        CoroutineBuilder { process_mode: mode, ..self }
    }

    /// Determines if the coroutine should be polled on the primary or on
    /// the fixed-step tick channel.
    pub fn poll_mode(self, mode: PollMode) -> (b: CoroutineBuilder)
        ensures
            b.routine@ == self.routine@,
            b.poll_mode == mode,
            b.process_mode == self.process_mode,
            b.auto_start == self.auto_start,
            b.calls_on_finish@ == self.calls_on_finish@,
    {
        CoroutineBuilder { poll_mode: mode, ..self }
    }

    /// Adds the host closure kept under `token` to the list of listeners
    /// that will be invoked with the coroutine's completion value when it
    /// finishes.
    ///
    /// The finished notification and the listeners only fire if the
    /// coroutine finishes normally or through `finish_with`; a kill, a
    /// fault or a forced run never invokes them.
    pub fn on_finish(self, token: u64) -> (b: CoroutineBuilder)
        ensures
            b.routine@ == self.routine@,
            b.poll_mode == self.poll_mode,
            b.process_mode == self.process_mode,
            b.auto_start == self.auto_start,
            b.calls_on_finish@ == self.calls_on_finish@.push(OnFinishCall::Closure(token)),
    {
        let mut calls_on_finish = self.calls_on_finish;
        calls_on_finish.push(OnFinishCall::Closure(token));
        CoroutineBuilder { calls_on_finish, ..self }
    }

    /// See [`CoroutineBuilder::on_finish`].
    ///
    /// This variant registers the opaque external callable kept under
    /// `token` instead of a host closure.
    pub fn on_finish_callable(self, token: u64) -> (b: CoroutineBuilder)
        ensures
            b.routine@ == self.routine@,
            b.poll_mode == self.poll_mode,
            b.process_mode == self.process_mode,
            b.auto_start == self.auto_start,
            b.calls_on_finish@ == self.calls_on_finish@.push(OnFinishCall::Callable(token)),
    {
        let mut calls_on_finish = self.calls_on_finish;
        calls_on_finish.push(OnFinishCall::Callable(token));
        CoroutineBuilder { calls_on_finish, ..self }
    }

    /// Completes the builder, attaching the configured coroutine under the
    /// scheduler that owns it; the returned id is its handle.
    ///
    /// The task begins with no stored suspension; if it was not auto
    /// started it begins paused.
    pub fn spawn(self, sched: &mut Scheduler) -> (id: usize)
        ensures
            id == old(sched).tasks@.len(),
            final(sched).flags@ == old(sched).flags@,
            task_models(final(sched).tasks@) == task_models(old(sched).tasks@).push(
                TaskModel {
                    id: id as int,
                    routine: self.routine@,
                    poll_mode: self.poll_mode,
                    process_mode: self.process_mode,
                    last_yield: Option::None,
                    paused: !self.auto_start,
                    calls_on_finish: self.calls_on_finish@,
                    liveness: Liveness::Active,
                },
            ),
            old(sched).wf() && self.routine@.wf() ==> final(sched).wf(),
    {
        let CoroutineBuilder { routine, poll_mode, process_mode, auto_start, calls_on_finish } =
            self;
        let task = SpireCoroutine {
            id: 0,
            routine,
            poll_mode,
            process_mode,
            last_yield: Option::None,
            paused: !auto_start,
            calls_on_finish,
            liveness: Liveness::Active,
        };
        sched.attach(task)
    }
}

} // verus!
