use vstd::prelude::*;

use crate::Value;
use crate::routine::{Resumed, Routine, RoutineModel};
use crate::yielding::{KeepWaiting, SpireYield, Wait, WaitUntilFinished};

verus! {

/// Defines whether the coroutine polls on process or physics frames.
#[derive(Clone, Copy, Debug, PartialEq, Eq, Structural)]
pub enum PollMode {
    Process,
    Physics,
}

/// The host's pause semantics a spawned coroutine should run under; the
/// scheduler stores it and passes it through to the host untouched.
#[derive(Clone, Copy, Debug, PartialEq, Eq, Structural)]
pub enum ProcessMode {
    Inherit,
    Pausable,
    WhenPaused,
    Always,
    Disabled,
}

/// Lifecycle state of a coroutine; every state but `Active` is terminal and
/// leaves the task permanently inert.
#[derive(Clone, Copy, Debug, PartialEq, Eq, Structural)]
pub enum Liveness {
    Active,
    Completed,
    Killed,
    Faulted,
}

/// A completion listener registered on a coroutine, identified by the token
/// under which the host keeps the actual closure or callable.
#[derive(Clone, Copy, Debug, PartialEq, Eq, Structural)]
pub enum OnFinishCall {
    /// An in-process closure of the host.
    Closure(u64),
    /// An opaque external callable reference.
    Callable(u64),
}

/// An effect the host must perform, in order, after an operation on a
/// coroutine returned it.
#[derive(Clone, Copy, Debug, PartialEq, Eq, Structural)]
pub enum Event {
    /// Deliver the completion value to the listener; a failure to convert
    /// or deliver it must be logged and must not stop later listeners.
    Invoke(OnFinishCall, Value),
    /// Emit the single externally observable finished notification.
    Finished(Value),
    /// Detach the coroutine's executor from its owner and free it.
    Detach,
    /// Report on the diagnostic channel that a resume step faulted.
    FaultReport,
    /// Report on the diagnostic channel that a forced run exceeded its
    /// iteration cap.
    CapReport,
}

/// What polling a coroutine for one tick concluded.
#[derive(Clone, Copy, Debug, PartialEq, Eq, Structural)]
pub enum PollResult {
    /// The coroutine is still suspended.
    Pending,
    /// The computation finished with this value.
    Complete(Value),
    /// The resume step faulted.
    Trapped,
}

/// How many resume steps a forced run performs before it gives up on a
/// computation that never stops suspending.
pub const FORCE_RUN_CAP: u64 = 4096;

/// Measure of how much chained resolution work a stored suspension can still
/// cause within the current tick; used to bound the poll recursion.
pub open spec fn yield_weight(ly: Option<SpireYield>) -> int {
    match ly {
        Option::None => 1,
        Option::Some(SpireYield::Frames(n)) => if n > 0 {
            0
        } else {
            2
        },
        Option::Some(_) => 2,
    }
}

/// Resolve the stored suspension of a task and advance its computation, all
/// within a single tick: the new routine state, the new stored suspension,
/// and what the tick concluded.
///
/// A suspension that resolves re-enters the loop with the delta time that is
/// still unconsumed, so a zero-length suspension — or the remainder of a
/// tick that overshot a timed suspension — is spent within the same tick.
pub open spec fn spec_poll(
    r: RoutineModel,
    ly: Option<SpireYield>,
    delta: int,
    flags: Seq<bool>,
    alive: Seq<bool>,
) -> (RoutineModel, Option<SpireYield>, PollResult)
    decreases r.remaining(), yield_weight(ly),
{
    match ly {
        Option::Some(SpireYield::Frames(n)) => if n > 0 {
            (r, Option::Some(SpireYield::Frames((n - 1) as i64)), PollResult::Pending)
        } else {
            spec_poll(r, Option::None, delta, flags, alive)
        },
        Option::Some(SpireYield::Seconds(s)) => if s as int > delta {
            (r, Option::Some(SpireYield::Seconds((s as int - delta) as u64)), PollResult::Pending)
        } else {
            spec_poll(r, Option::None, delta - s as int, flags, alive)
        },
        Option::Some(SpireYield::Dyn(w)) => if w.spec_keep_waiting(flags, alive) {
            (r, ly, PollResult::Pending)
        } else {
            spec_poll(r, Option::None, delta, flags, alive)
        },
        Option::None => {
            let step = r.spec_resume();
            match step.1 {
                Resumed::Yielded(y) => spec_poll(step.0, Option::Some(y), delta, flags, alive),
                Resumed::Complete(v) => (step.0, Option::None, PollResult::Complete(v)),
                Resumed::Trapped => (step.0, Option::None, PollResult::Trapped),
            }
        },
    }
}

/// The mathematical view of a [`SpireCoroutine`].
pub struct TaskModel {
    pub id: int,
    pub routine: RoutineModel,
    pub poll_mode: PollMode,
    pub process_mode: ProcessMode,
    pub last_yield: Option<SpireYield>,
    pub paused: bool,
    pub calls_on_finish: Seq<OnFinishCall>,
    pub liveness: Liveness,
}

impl TaskModel {
    pub open spec fn wf(self) -> bool {
        self.routine.wf()
    }

    pub open spec fn is_active(self) -> bool {
        self.liveness == Liveness::Active
    }

    pub open spec fn spec_is_paused(self) -> bool {
        self.paused
    }

    pub open spec fn spec_is_running(self) -> bool {
        !self.paused && self.is_active()
    }

    pub open spec fn spec_is_finished(self) -> bool {
        !self.is_active()
    }
}

/// Completing a task with a value: every registered listener is invoked
/// exactly once with the value, in registration order, then the single
/// finished notification goes out and the task detaches; the listener list
/// is drained so that finishing again can never re-invoke anyone. On a task
/// that is already terminal nothing happens at all.
pub open spec fn spec_finish_with(m: TaskModel, result: Value) -> (TaskModel, Seq<Event>) {
    if m.is_active() {
        (
            TaskModel { calls_on_finish: Seq::empty(), liveness: Liveness::Completed, ..m },
            m.calls_on_finish.map_values(|c: OnFinishCall| Event::Invoke(c, result)) + seq![
                Event::Finished(result),
                Event::Detach,
            ],
        )
    } else {
        (m, Seq::empty())
    }
}

/// Killing a task detaches it immediately; no listener is invoked and no
/// finished notification goes out. On a terminal task nothing happens.
pub open spec fn spec_kill(m: TaskModel) -> (TaskModel, Seq<Event>) {
    if m.is_active() {
        (TaskModel { liveness: Liveness::Killed, ..m }, seq![Event::Detach])
    } else {
        (m, Seq::empty())
    }
}

/// One tick of a task on the given channel: nothing happens unless the task
/// is alive, unpaused and subscribed to the channel; otherwise the stored
/// suspension is resolved and the computation advanced, and a completion is
/// dispatched — or a fault quarantined — within the same tick.
pub open spec fn spec_tick(
    m: TaskModel,
    mode: PollMode,
    delta: int,
    flags: Seq<bool>,
    alive: Seq<bool>,
) -> (TaskModel, Seq<Event>) {
    if !m.is_active() || m.paused || m.poll_mode != mode {
        (m, Seq::empty())
    } else {
        let polled = spec_poll(m.routine, m.last_yield, delta, flags, alive);
        let m2 = TaskModel { routine: polled.0, last_yield: polled.1, ..m };
        match polled.2 {
            PollResult::Pending => (m2, Seq::empty()),
            PollResult::Complete(v) => spec_finish_with(m2, v),
            PollResult::Trapped => (
                TaskModel { liveness: Liveness::Faulted, ..m2 },
                seq![Event::FaultReport, Event::Detach],
            ),
        }
    }
}

/// How a forced run ends when it may resume the computation `k` more times,
/// treating every suspension as immediately resolved.
pub enum ForceOutcome {
    Done { routine: RoutineModel, value: Value },
    Trapped { routine: RoutineModel },
    CapHit { routine: RoutineModel },
}

pub open spec fn spec_force(r: RoutineModel, k: nat) -> ForceOutcome
    decreases k,
{
    let step = r.spec_resume();
    match step.1 {
        Resumed::Complete(v) => ForceOutcome::Done { routine: step.0, value: v },
        Resumed::Trapped => ForceOutcome::Trapped { routine: step.0 },
        Resumed::Yielded(_) => if k <= 1 {
            ForceOutcome::CapHit { routine: step.0 }
        } else {
            spec_force(step.0, (k - 1) as nat)
        },
    }
}

/// Forcing a task to run to completion: on success the value is returned to
/// the caller directly, without invoking any listener or emitting the
/// finished notification; hitting the cap reports a diagnostic and returns
/// an absent value; either way the task ends terminal. A terminal task is
/// left untouched and yields an absent value.
pub open spec fn spec_force_run(m: TaskModel) -> (TaskModel, Value, Seq<Event>) {
    if !m.is_active() {
        (m, Value::Nil, Seq::empty())
    } else {
        match spec_force(m.routine, FORCE_RUN_CAP as nat) {
            ForceOutcome::Done { routine, value } => (
                TaskModel { routine, liveness: Liveness::Completed, ..m },
                value,
                seq![Event::Detach],
            ),
            ForceOutcome::Trapped { routine } => (
                TaskModel { routine, liveness: Liveness::Faulted, ..m },
                Value::Nil,
                seq![Event::FaultReport, Event::Detach],
            ),
            ForceOutcome::CapHit { routine } => (
                TaskModel { routine, liveness: Liveness::Killed, ..m },
                Value::Nil,
                seq![Event::CapReport, Event::Detach],
            ),
        }
    }
}

/// A managed coroutine: the resumable computation together with its stored
/// suspension, lifecycle state, tick-channel subscription and completion
/// listeners.
///
/// Operations that detach or free the executor, invoke listeners or report
/// diagnostics return the [`Event`]s the host must perform, in order.
#[derive(Debug)]
pub struct SpireCoroutine {
    /// The task's index in its scheduler; other tasks wait on it by this
    /// index.
    pub id: usize,
    pub routine: Routine,
    pub poll_mode: PollMode,
    pub process_mode: ProcessMode,
    pub last_yield: Option<SpireYield>,
    pub paused: bool,
    pub calls_on_finish: Vec<OnFinishCall>,
    pub liveness: Liveness,
}

impl View for SpireCoroutine {
    type V = TaskModel;

    open spec fn view(&self) -> TaskModel {
        TaskModel {
            id: self.id as int,
            routine: self.routine@,
            poll_mode: self.poll_mode,
            process_mode: self.process_mode,
            last_yield: self.last_yield,
            paused: self.paused,
            calls_on_finish: self.calls_on_finish@,
            liveness: self.liveness,
        }
    }
}

impl SpireCoroutine {
    pub fn is_paused(&self) -> (r: bool)
        ensures
            r == self@.spec_is_paused(),
    {
        self.paused
    }

    /// Returns `true` if both:
    /// - The coroutine is not paused
    /// - The coroutine is not finished
    pub fn is_running(&self) -> (r: bool)
        ensures
            r == self@.spec_is_running(),
    {
        !self.paused && matches!(self.liveness, Liveness::Active)
    }

    pub fn is_finished(&self) -> (r: bool)
        ensures
            r == self@.spec_is_finished(),
    {
        !matches!(self.liveness, Liveness::Active)
    }

    /// Resumes the coroutine.
    ///
    /// Resuming a coroutine that's already running doesn't do anything, and
    /// neither does resuming a terminal one.
    pub fn resume(&mut self)
        ensures
            final(self)@ == (if old(self)@.is_active() {
                TaskModel { paused: false, ..old(self)@ }
            } else {
                old(self)@
            }),
    {
        if matches!(self.liveness, Liveness::Active) {
            self.paused = false;
        }
    }

    /// Pauses the coroutine, ensuring it won't execute any instructions
    /// until it is resumed.
    ///
    /// Pausing a coroutine that's already paused doesn't do anything, and
    /// neither does pausing a terminal one.
    pub fn pause(&mut self)
        ensures
            final(self)@ == (if old(self)@.is_active() {
                TaskModel { paused: true, ..old(self)@ }
            } else {
                old(self)@
            }),
    {
        if matches!(self.liveness, Liveness::Active) {
            self.paused = true;
        }
    }

    /// De-spawns the coroutine.
    ///
    /// Completion listeners are not invoked and no finished notification
    /// goes out; the in-flight suspension state is simply discarded.
    pub fn kill(&mut self) -> (events: Vec<Event>)
        ensures
            final(self)@ == spec_kill(old(self)@).0,
            events@ == spec_kill(old(self)@).1,
    {
        if !matches!(self.liveness, Liveness::Active) {
            return Vec::new();
        }
        self.liveness = Liveness::Killed;
        let mut events: Vec<Event> = Vec::new();
        events.push(Event::Detach);
        events
    }

    /// De-spawns the coroutine, invoking every completion listener exactly
    /// once with `result`, in registration order, then emitting the
    /// finished notification.
    ///
    /// On a task that is already terminal this is a no-op, so finishing a
    /// second time can never re-invoke a listener.
    pub fn finish_with(&mut self, result: Value) -> (events: Vec<Event>)
        ensures
            final(self)@ == spec_finish_with(old(self)@, result).0,
            events@ == spec_finish_with(old(self)@, result).1,
    {
        if !matches!(self.liveness, Liveness::Active) {
            return Vec::new();
        }
        let ghost calls0 = self.calls_on_finish@;
        let ghost m0 = self@;
        let mut events: Vec<Event> = Vec::new();
        let n = self.calls_on_finish.len();
        for i in 0..n
            invariant
                self@ == m0,
                calls0 == self.calls_on_finish@,
                n == calls0.len(),
                events@ == calls0.take(i as int).map_values(
                    |c: OnFinishCall| Event::Invoke(c, result),
                ),
        {
            let c = self.calls_on_finish[i];
            events.push(Event::Invoke(c, result));
            proof {
                assert(calls0.take(i + 1int).drop_last() =~= calls0.take(i as int));
                assert(events@ =~= calls0.take(i + 1int).map_values(
                    |c: OnFinishCall| Event::Invoke(c, result),
                ));
            }
        }
        proof {
            assert(calls0.take(n as int) =~= calls0);
        }
        self.calls_on_finish = Vec::new();
        events.push(Event::Finished(result));
        events.push(Event::Detach);
        self.liveness = Liveness::Completed;
        proof {
            assert(events@ =~= spec_finish_with(m0, result).1);
        }
        events
    }

    /// Resolve the stored suspension and advance the computation as far as
    /// this tick allows.
    fn poll(&mut self, delta: u64, flags: &Vec<bool>, alive: &Vec<bool>) -> (res: PollResult)
        requires
            old(self)@.wf(),
        ensures
            ({
                let p = spec_poll(
                    old(self)@.routine,
                    old(self)@.last_yield,
                    delta as int,
                    flags@,
                    alive@,
                );
                final(self)@ == (TaskModel { routine: p.0, last_yield: p.1, ..old(self)@ })
                    && res == p.2
            }),
            final(self)@.wf(),
    {
        let ghost m0 = self@;
        let ghost target = spec_poll(m0.routine, m0.last_yield, delta as int, flags@, alive@);
        let mut dt: u64 = delta;
        let mut res: PollResult = PollResult::Pending;
        loop
            invariant_except_break
                self@.wf(),
                self@ == (TaskModel { routine: self@.routine, last_yield: self@.last_yield, ..m0 }),
                spec_poll(self@.routine, self@.last_yield, dt as int, flags@, alive@) == target,
            ensures
                self@.wf(),
                self@ == (TaskModel { routine: target.0, last_yield: target.1, ..m0 }),
                res == target.2,
            decreases self@.routine.remaining(), yield_weight(self@.last_yield),
        {
            match self.last_yield {
                Option::Some(SpireYield::Frames(n)) => {
                    if n > 0 {
                        self.last_yield = Option::Some(SpireYield::Frames(n - 1));
                        res = PollResult::Pending;
                        break;
                    } else {
                        self.last_yield = Option::None;
                    }
                },
                Option::Some(SpireYield::Seconds(s)) => {
                    if s > dt {
                        self.last_yield = Option::Some(SpireYield::Seconds(s - dt));
                        res = PollResult::Pending;
                        break;
                    } else {
                        self.last_yield = Option::None;
                        dt = dt - s;
                    }
                },
                Option::Some(SpireYield::Dyn(w)) => {
                    if w.keep_waiting(flags, alive) {
                        res = PollResult::Pending;
                        break;
                    } else {
                        self.last_yield = Option::None;
                    }
                },
                Option::None => {
                    let stepped = self.routine.resume();
                    match stepped {
                        Resumed::Yielded(y) => {
                            self.last_yield = Option::Some(y);
                        },
                        Resumed::Complete(v) => {
                            res = PollResult::Complete(v);
                            break;
                        },
                        Resumed::Trapped => {
                            res = PollResult::Trapped;
                            break;
                        },
                    }
                },
            }
        }
        res
    }

    /// One tick on the given channel: a paused task, a terminal task or a
    /// task subscribed to the other channel is left untouched; otherwise
    /// the task is polled and, if its computation completes, the listeners
    /// are dispatched within this same tick; a fault is quarantined to this
    /// task alone.
    pub fn tick(
        &mut self,
        mode: PollMode,
        delta: u64,
        flags: &Vec<bool>,
        alive: &Vec<bool>,
    ) -> (events: Vec<Event>)
        requires
            old(self)@.wf(),
        ensures
            final(self)@ == spec_tick(old(self)@, mode, delta as int, flags@, alive@).0,
            events@ == spec_tick(old(self)@, mode, delta as int, flags@, alive@).1,
            final(self)@.wf(),
    {
        if !matches!(self.liveness, Liveness::Active) || self.paused || self.poll_mode != mode {
            return Vec::new();
        }
        let res = self.poll(delta, flags, alive);
        match res {
            PollResult::Pending => Vec::new(),
            PollResult::Complete(v) => self.finish_with(v),
            PollResult::Trapped => {
                self.liveness = Liveness::Faulted;
                let mut events: Vec<Event> = Vec::new();
                events.push(Event::FaultReport);
                events.push(Event::Detach);
                proof {
                    assert(events@ =~= seq![Event::FaultReport, Event::Detach]);
                }
                events
            },
        }
    }

    /// The tick entry point of the primary channel.
    pub fn process(&mut self, delta: u64, flags: &Vec<bool>, alive: &Vec<bool>) -> (events: Vec<
        Event,
    >)
        requires
            old(self)@.wf(),
        ensures
            final(self)@ == spec_tick(old(self)@, PollMode::Process, delta as int, flags@, alive@).0,
            events@ == spec_tick(old(self)@, PollMode::Process, delta as int, flags@, alive@).1,
            final(self)@.wf(),
    {
        self.tick(PollMode::Process, delta, flags, alive)
    }

    /// The tick entry point of the secondary, fixed-step channel.
    pub fn physics_process(&mut self, delta: u64, flags: &Vec<bool>, alive: &Vec<bool>) -> (events:
        Vec<Event>)
        requires
            old(self)@.wf(),
        ensures
            final(self)@ == spec_tick(old(self)@, PollMode::Physics, delta as int, flags@, alive@).0,
            events@ == spec_tick(old(self)@, PollMode::Physics, delta as int, flags@, alive@).1,
            final(self)@.wf(),
    {
        self.tick(PollMode::Physics, delta, flags, alive)
    }

    /// Forces the coroutine to finish immediately, treating every
    /// suspension as already resolved.
    ///
    /// Does not trigger the finished notification or any listener; the
    /// result is returned directly. A computation that suspends
    /// [`FORCE_RUN_CAP`] times without completing is given up on: the cap
    /// is reported as a diagnostic and an absent value is returned, and the
    /// task is terminated regardless.
    pub fn force_run_to_completion(&mut self) -> (r: (Value, Vec<Event>))
        requires
            old(self)@.wf(),
        ensures
            final(self)@ == spec_force_run(old(self)@).0,
            r.0 == spec_force_run(old(self)@).1,
            r.1@ == spec_force_run(old(self)@).2,
            final(self)@.wf(),
    {
        if !matches!(self.liveness, Liveness::Active) {
            return (Value::Nil, Vec::new());
        }
        let ghost m0 = self@;
        let ghost target = spec_force(m0.routine, FORCE_RUN_CAP as nat);
        let mut iters_remaining: u64 = FORCE_RUN_CAP;
        let mut fate: PollResult = PollResult::Pending;
        loop
            invariant_except_break
                self@.wf(),
                self@ == (TaskModel { routine: self@.routine, ..m0 }),
                1 <= iters_remaining <= FORCE_RUN_CAP,
                spec_force(self@.routine, iters_remaining as nat) == target,
            ensures
                self@.wf(),
                self@ == (TaskModel { routine: self@.routine, ..m0 }),
                match fate {
                    PollResult::Complete(v) => target == (ForceOutcome::Done {
                        routine: self@.routine,
                        value: v,
                    }),
                    PollResult::Trapped => target == (ForceOutcome::Trapped {
                        routine: self@.routine,
                    }),
                    PollResult::Pending => target == (ForceOutcome::CapHit {
                        routine: self@.routine,
                    }),
                },
            decreases iters_remaining,
        {
            let stepped = self.routine.resume();
            match stepped {
                Resumed::Complete(v) => {
                    fate = PollResult::Complete(v);
                    break;
                },
                Resumed::Trapped => {
                    fate = PollResult::Trapped;
                    break;
                },
                Resumed::Yielded(_) => {
                    iters_remaining = iters_remaining - 1;
                    if iters_remaining == 0 {
                        fate = PollResult::Pending;
                        break;
                    }
                },
            }
        }
        match fate {
            PollResult::Complete(v) => {
                self.liveness = Liveness::Completed;
                let mut events: Vec<Event> = Vec::new();
                events.push(Event::Detach);
                proof {
                    assert(events@ =~= seq![Event::Detach]);
                }
                (v, events)
            },
            PollResult::Trapped => {
                self.liveness = Liveness::Faulted;
                let mut events: Vec<Event> = Vec::new();
                events.push(Event::FaultReport);
                events.push(Event::Detach);
                proof {
                    assert(events@ =~= seq![Event::FaultReport, Event::Detach]);
                }
                (Value::Nil, events)
            },
            PollResult::Pending => {
                self.liveness = Liveness::Killed;
                let mut events: Vec<Event> = Vec::new();
                events.push(Event::CapReport);
                events.push(Event::Detach);
                proof {
                    assert(events@ =~= seq![Event::CapReport, Event::Detach]);
                }
                (Value::Nil, events)
            },
        }
    }
}

impl WaitUntilFinished for SpireCoroutine {
    open spec fn spec_wait_until_finished(&self) -> SpireYield {
        SpireYield::Dyn(Wait::TaskFinished(self.id))
    }

    fn wait_until_finished(&self) -> (y: SpireYield) {
        SpireYield::Dyn(Wait::TaskFinished(self.id))
    }
}

pub trait IsRunning {
    /// What [`IsRunning::is_running`] returns.
    spec fn spec_running(&self) -> bool;

    /// See [`SpireCoroutine::is_running`].
    fn is_running(&self) -> (r: bool)
        ensures
            r == self.spec_running(),
    ;
}

impl IsRunning for SpireCoroutine {
    open spec fn spec_running(&self) -> bool {
        self@.spec_is_running()
    }

    fn is_running(&self) -> (r: bool) {
        !self.paused && matches!(self.liveness, Liveness::Active)
    }
}

pub trait IsFinished {
    /// What [`IsFinished::is_finished`] returns.
    spec fn spec_finished(&self) -> bool;

    /// See [`SpireCoroutine::is_finished`].
    fn is_finished(&self) -> (r: bool)
        ensures
            r == self.spec_finished(),
    ;
}

impl IsFinished for SpireCoroutine {
    open spec fn spec_finished(&self) -> bool {
        self@.spec_is_finished()
    }

    fn is_finished(&self) -> (r: bool) {
        !matches!(self.liveness, Liveness::Active)
    }
}

pub trait IsPaused {
    /// What [`IsPaused::is_paused`] returns.
    spec fn spec_paused(&self) -> bool;

    /// See [`SpireCoroutine::is_paused`].
    fn is_paused(&self) -> (r: bool)
        ensures
            r == self.spec_paused(),
    ;
}

impl IsPaused for SpireCoroutine {
    open spec fn spec_paused(&self) -> bool {
        self@.spec_is_paused()
    }

    fn is_paused(&self) -> (r: bool) {
        self.paused
    }
}

} // verus!
