use vstd::prelude::*;

use crate::Value;
use crate::coroutine::{spec_tick, Event, Liveness, PollMode, SpireCoroutine, TaskModel};

verus! {

/// An effect of one scheduler tick, tagged with the task that produced it.
#[derive(Clone, Copy, Debug, PartialEq, Eq, Structural)]
pub struct TaskEvent {
    pub task: usize,
    pub event: Event,
}

/// The views of all tasks a scheduler holds, in spawn order.
pub open spec fn task_models(s: Seq<SpireCoroutine>) -> Seq<TaskModel> {
    s.map_values(|t: SpireCoroutine| t@)
}

/// The per-task liveness snapshot that waiting predicates read.
pub open spec fn alive_of(ms: Seq<TaskModel>) -> Seq<bool> {
    ms.map_values(|m: TaskModel| m.is_active())
}

/// Driving every task from index `i` on once for a tick on the given
/// channel.
///
/// Tasks advance in spawn order, each against the liveness snapshot taken
/// at its own turn: a task that waits on an earlier task therefore observes
/// a termination from this very tick, and each task's advance is a function
/// of its own state alone, so no outcome of one task — a fault included —
/// can keep a later task from advancing.
pub open spec fn spec_tick_from(
    ms: Seq<TaskModel>,
    i: int,
    mode: PollMode,
    delta: int,
    flags: Seq<bool>,
) -> (Seq<TaskModel>, Seq<TaskEvent>)
    decreases ms.len() - i,
{
    if i < 0 || i >= ms.len() {
        (ms, Seq::empty())
    } else {
        let t = spec_tick(ms[i], mode, delta, flags, alive_of(ms));
        let tagged = t.1.map_values(|e: Event| TaskEvent { task: i as usize, event: e });
        let rest = spec_tick_from(ms.update(i, t.0), i + 1, mode, delta, flags);
        (rest.0, tagged + rest.1)
    }
}

/// The host container that owns every spawned coroutine and drives them
/// from its tick callbacks; it also keeps the boolean flags through which
/// the host communicates the current truth of waiting predicates.
#[derive(Debug)]
pub struct Scheduler {
    pub tasks: Vec<SpireCoroutine>,
    pub flags: Vec<bool>,
}

impl Scheduler {
    /// Every task is well formed and is stored under its own id.
    pub open spec fn wf(self) -> bool {
        forall|i: int|
            0 <= i < self.tasks@.len() ==> (#[trigger] self.tasks@[i])@.wf()
                && self.tasks@[i]@.id == i
    }

    pub fn new() -> (s: Scheduler)
        ensures
            s.tasks@ == Seq::<SpireCoroutine>::empty(),
            s.flags@ == Seq::<bool>::empty(),
            s.wf(),
    {
        Scheduler { tasks: Vec::new(), flags: Vec::new() }
    }

    /// Register a host flag that waiting predicates may reference, with its
    /// initial truth value; returns the flag's number.
    pub fn register_flag(&mut self, value: bool) -> (flag: usize)
        ensures
            flag == old(self).flags@.len(),
            final(self).flags@ == old(self).flags@.push(value),
            final(self).tasks@ == old(self).tasks@,
    {
        let flag = self.flags.len();
        self.flags.push(value);
        flag
    }

    /// Publish the current truth value of a registered flag.
    pub fn set_flag(&mut self, flag: usize, value: bool)
        requires
            flag < old(self).flags@.len(),
        ensures
            final(self).flags@ == old(self).flags@.update(flag as int, value),
            final(self).tasks@ == old(self).tasks@,
    {
        self.flags[flag] = value;
    }

    /// Read-only access to a task.
    pub fn task(&self, id: usize) -> (t: &SpireCoroutine)
        requires
            id < self.tasks@.len(),
        ensures
            *t == self.tasks@[id as int],
    {
        &self.tasks[id]
    }

    /// Mutable access to a task, for the lifecycle operations of its
    /// handle.
    pub fn task_mut(&mut self, id: usize) -> (t: &mut SpireCoroutine)
        requires
            id < old(self).tasks@.len(),
        ensures
            *t == old(self).tasks@[id as int],
            final(self).tasks@ == old(self).tasks@.update(id as int, *final(t)),
            final(self).flags@ == old(self).flags@,
    {
        &mut self.tasks[id]
    }

    /// Attach a configured task under this scheduler; it is polled from the
    /// next matching tick on.
    pub fn attach(&mut self, mut task: SpireCoroutine) -> (id: usize)
        ensures
            id == old(self).tasks@.len(),
            final(self).flags@ == old(self).flags@,
            task_models(final(self).tasks@) == task_models(old(self).tasks@).push(
                TaskModel { id: id as int, ..task@ },
            ),
            old(self).wf() && task@.wf() ==> final(self).wf(),
    {
        let id = self.tasks.len();
        task.id = id;
        self.tasks.push(task);
        proof {
            assert(task_models(self.tasks@) =~= task_models(old(self).tasks@).push(
                self.tasks@[id as int]@,
            ));
        }
        id
    }

    /// Publish that the external work bridged by the task's background
    /// routine has finished, together with its result; the task's next
    /// resume completes with it. On a scripted routine this does nothing.
    pub fn finish_background(&mut self, id: usize, value: Value)
        requires
            id < old(self).tasks@.len(),
        ensures
            final(self).flags@ == old(self).flags@,
            final(self).tasks@.len() == old(self).tasks@.len(),
            task_models(final(self).tasks@) == task_models(old(self).tasks@).update(
                id as int,
                TaskModel {
                    routine: match old(self).tasks@[id as int]@.routine {
                        crate::routine::RoutineModel::Background { .. } =>
                            crate::routine::RoutineModel::Background { done: true, result: value },
                        m => m,
                    },
                    ..old(self).tasks@[id as int]@
                },
            ),
            old(self).wf() ==> final(self).wf(),
    {
        self.tasks[id].routine.publish_background(value);
        proof {
            assert(task_models(self.tasks@) =~= task_models(old(self).tasks@).update(
                id as int,
                self.tasks@[id as int]@,
            ));
        }
    }

    /// The liveness snapshot of every task, in spawn order.
    pub fn alive_snapshot(&self) -> (alive: Vec<bool>)
        ensures
            alive@ == alive_of(task_models(self.tasks@)),
    {
        let mut alive: Vec<bool> = Vec::new();
        let n = self.tasks.len();
        for i in 0..n
            invariant
                n == self.tasks@.len(),
                alive@ == alive_of(task_models(self.tasks@)).take(i as int),
        {
            alive.push(matches!(self.tasks[i].liveness, Liveness::Active));
            proof {
                assert(alive@ =~= alive_of(task_models(self.tasks@)).take(i + 1int));
            }
        }
        proof {
            assert(alive_of(task_models(self.tasks@)).take(n as int) =~= alive_of(
                task_models(self.tasks@),
            ));
        }
        alive
    }

    /// One tick of the whole scheduler on the given channel: every task
    /// subscribed to it that is alive and unpaused advances once, in spawn
    /// order; the returned events of all tasks must be performed by the
    /// host in order.
    pub fn on_tick(&mut self, mode: PollMode, delta: u64) -> (events: Vec<TaskEvent>)
        requires
            old(self).wf(),
        ensures
            task_models(final(self).tasks@) == spec_tick_from(
                task_models(old(self).tasks@),
                0,
                mode,
                delta as int,
                old(self).flags@,
            ).0,
            events@ == spec_tick_from(
                task_models(old(self).tasks@),
                0,
                mode,
                delta as int,
                old(self).flags@,
            ).1,
            final(self).flags@ == old(self).flags@,
            final(self).tasks@.len() == old(self).tasks@.len(),
            final(self).wf(),
    {
        let ghost ms0 = task_models(self.tasks@);
        let ghost flags0 = self.flags@;
        let ghost full = spec_tick_from(ms0, 0, mode, delta as int, flags0);
        let mut events: Vec<TaskEvent> = Vec::new();
        let n = self.tasks.len();
        proof {
            assert(events@ + full.1 =~= full.1);
        }
        for i in 0..n
            invariant
                n == self.tasks@.len(),
                self.flags@ == flags0,
                self.wf(),
                spec_tick_from(
                    task_models(self.tasks@),
                    i as int,
                    mode,
                    delta as int,
                    flags0,
                ).0 == full.0,
                events@ + spec_tick_from(
                    task_models(self.tasks@),
                    i as int,
                    mode,
                    delta as int,
                    flags0,
                ).1 == full.1,
        {
            let ghost ms_i = task_models(self.tasks@);
            let alive = self.alive_snapshot();
            let tevs = self.tasks[i].tick(mode, delta, &self.flags, &alive);
            let ghost stepped = spec_tick(ms_i[i as int], mode, delta as int, flags0, alive_of(ms_i));
            proof {
                assert(task_models(self.tasks@) =~= ms_i.update(i as int, stepped.0));
            }
            let ghost ev_base = events@;
            let ghost tagged = stepped.1.map_values(
                |e: Event| TaskEvent { task: i as usize, event: e },
            );
            let m = tevs.len();
            for k in 0..m
                invariant
                    m == tevs@.len(),
                    tevs@ == stepped.1,
                    tagged == stepped.1.map_values(
                        |e: Event| TaskEvent { task: i as usize, event: e },
                    ),
                    events@ == ev_base + tagged.take(k as int),
            {
                events.push(TaskEvent { task: i, event: tevs[k] });
                proof {
                    assert(events@ =~= ev_base + tagged.take(k + 1int));
                }
            }
            proof {
                assert(tagged.take(m as int) =~= tagged);
                assert(events@ =~= ev_base + tagged);
                assert(ev_base + spec_tick_from(ms_i, i as int, mode, delta as int, flags0).1
                    =~= full.1);
                assert(spec_tick_from(ms_i, i as int, mode, delta as int, flags0).1 == tagged
                    + spec_tick_from(ms_i.update(i as int, stepped.0), i + 1int, mode, delta as int, flags0).1);
                assert(events@ + spec_tick_from(
                    task_models(self.tasks@),
                    i + 1int,
                    mode,
                    delta as int,
                    flags0,
                ).1 =~= full.1);
            }
        }
        proof {
            assert(events@ + Seq::<TaskEvent>::empty() =~= events@);
        }
        events
    }
}

} // verus!
