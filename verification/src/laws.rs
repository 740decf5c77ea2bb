use vstd::prelude::*;

use crate::Value;
use crate::coroutine::{
    spec_finish_with, spec_force, spec_force_run, spec_kill, spec_poll, spec_tick, Event,
    ForceOutcome, Liveness, PollMode, TaskModel, FORCE_RUN_CAP,
};
use crate::routine::{RoutineModel, Step};
use crate::scheduler::{alive_of, spec_tick_from};
use crate::yielding::{SpireYield, Wait};

verus! {

/// Killing a task never invokes a completion listener: whatever the task's
/// state, no event of a kill delivers a value to anyone.
pub proof fn lemma_kill_never_invokes(m: TaskModel)
    ensures
        forall|i: int|
            0 <= i < spec_kill(m).1.len() ==> !(#[trigger] spec_kill(m).1[i] is Invoke),
{
}

/// Quarantining a fault never invokes a completion listener either: the
/// events of a tick whose poll trapped are the fault report and the detach
/// alone.
pub proof fn lemma_fault_never_invokes(
    m: TaskModel,
    mode: PollMode,
    delta: int,
    flags: Seq<bool>,
    alive: Seq<bool>,
)
    requires
        spec_poll(m.routine, m.last_yield, delta, flags, alive).2 is Trapped,
    ensures
        forall|i: int|
            0 <= i < spec_tick(m, mode, delta, flags, alive).1.len() ==> !(#[trigger] spec_tick(
                m,
                mode,
                delta,
                flags,
                alive,
            ).1[i] is Invoke),
{
}

/// Finishing an active task with `v` invokes every registered listener
/// exactly once, in registration order, each with `v`; and because the
/// first finish drains the list and ends the task, finishing again — with
/// any value — invokes nobody.
pub proof fn lemma_finish_with_invokes_exactly_once(m: TaskModel, v: Value, later: Value)
    requires
        m.is_active(),
    ensures
        spec_finish_with(m, v).1.len() == m.calls_on_finish.len() + 2,
        forall|i: int|
            0 <= i < m.calls_on_finish.len() ==> spec_finish_with(m, v).1[i] == Event::Invoke(
                m.calls_on_finish[i],
                v,
            ),
        spec_finish_with(spec_finish_with(m, v).0, later).0 == spec_finish_with(m, v).0,
        spec_finish_with(spec_finish_with(m, v).0, later).1 == Seq::<Event>::empty(),
{
}

/// Immediately after a kill the task reports not running and finished,
/// whatever its state was before.
pub proof fn lemma_killed_is_finished(m: TaskModel)
    ensures
        !spec_kill(m).0.spec_is_running(),
        spec_kill(m).0.spec_is_finished(),
        !m.is_active() ==> spec_kill(m).0 == m,
{
}

/// Immediately after finishing with a value the task reports not running
/// and finished.
pub proof fn lemma_finished_with_is_finished(m: TaskModel, v: Value)
    requires
        m.is_active(),
    ensures
        !spec_finish_with(m, v).0.spec_is_running(),
        spec_finish_with(m, v).0.spec_is_finished(),
{
}

/// Immediately after a tick in which its computation completed naturally,
/// the task reports not running and finished.
pub proof fn lemma_completion_is_finished(
    m: TaskModel,
    mode: PollMode,
    delta: int,
    flags: Seq<bool>,
    alive: Seq<bool>,
)
    requires
        m.is_active(),
        !m.paused,
        m.poll_mode == mode,
        spec_poll(m.routine, m.last_yield, delta, flags, alive).2 is Complete,
    ensures
        !spec_tick(m, mode, delta, flags, alive).0.spec_is_running(),
        spec_tick(m, mode, delta, flags, alive).0.spec_is_finished(),
{
}

/// Every lifecycle operation on a task that is already terminal is a
/// no-op: the task stays exactly as it is, nothing is invoked, reported or
/// detached, and ticks pass it by.
pub proof fn lemma_dead_handle_noops(
    m: TaskModel,
    v: Value,
    mode: PollMode,
    delta: int,
    flags: Seq<bool>,
    alive: Seq<bool>,
)
    requires
        !m.is_active(),
    ensures
        spec_kill(m) == (m, Seq::<Event>::empty()),
        spec_finish_with(m, v) == (m, Seq::<Event>::empty()),
        spec_force_run(m) == (m, Value::Nil, Seq::<Event>::empty()),
        spec_tick(m, mode, delta, flags, alive) == (m, Seq::<Event>::empty()),
{
}

/// A suspension waiting on another task resolves within the very tick in
/// which that task's liveness turns terminal: polled against a snapshot
/// that already reports the referenced task not alive, the wait clears and
/// the tick's remaining delta is spent behind it at once.
pub proof fn lemma_wait_on_finished_resolves(
    r: RoutineModel,
    b: usize,
    delta: int,
    flags: Seq<bool>,
    alive: Seq<bool>,
)
    requires
        !(b < alive.len() && alive[b as int]),
    ensures
        spec_poll(r, Option::Some(SpireYield::Dyn(Wait::TaskFinished(b))), delta, flags, alive)
            == spec_poll(r, Option::None, delta, flags, alive),
{
    reveal_with_fuel(spec_poll, 2);
}

/// Resolving a timed suspension consumes only its own remainder: the rest
/// of the tick's delta is carried into whatever the computation does next
/// within this same tick.
pub proof fn lemma_duration_remainder_carries(
    r: RoutineModel,
    s: u64,
    delta: int,
    flags: Seq<bool>,
    alive: Seq<bool>,
)
    requires
        s <= delta,
    ensures
        spec_poll(r, Option::Some(SpireYield::Seconds(s)), delta, flags, alive) == spec_poll(
            r,
            Option::None,
            delta - s,
            flags,
            alive,
        ),
{
    reveal_with_fuel(spec_poll, 2);
}

/// The state of a task after being driven once per tick with the given
/// sequence of delta times, on its own channel, with the host flags and
/// the liveness snapshot held fixed across the ticks.
pub open spec fn spec_run_ticks(
    m: TaskModel,
    deltas: Seq<int>,
    mode: PollMode,
    flags: Seq<bool>,
    alive: Seq<bool>,
) -> TaskModel
    decreases deltas.len(),
{
    if deltas.len() == 0 {
        m
    } else {
        spec_run_ticks(
            spec_tick(m, mode, deltas[0], flags, alive).0,
            deltas.drop_first(),
            mode,
            flags,
            alive,
        )
    }
}

/// A terminal task is permanently inert: however many further ticks pass,
/// its state never changes again.
pub proof fn lemma_terminal_inert(
    m: TaskModel,
    deltas: Seq<int>,
    mode: PollMode,
    flags: Seq<bool>,
    alive: Seq<bool>,
)
    requires
        !m.is_active(),
    ensures
        spec_run_ticks(m, deltas, mode, flags, alive) == m,
    decreases deltas.len(),
{
    if deltas.len() > 0 {
        lemma_terminal_inert(m, deltas.drop_first(), mode, flags, alive);
    }
}

/// Countdown of a stored frame suspension over a task whose script is
/// exhausted: each tick takes one frame off; the tick after the count runs
/// out completes the task.
proof fn lemma_frames_countdown(
    base: TaskModel,
    steps: Seq<Step>,
    v: Value,
    k: i64,
    deltas: Seq<int>,
    mode: PollMode,
    flags: Seq<bool>,
    alive: Seq<bool>,
)
    requires
        base.is_active(),
        !base.paused,
        base.poll_mode == mode,
        base.last_yield == Option::Some(SpireYield::Frames(k)),
        0 <= k,
        base.routine == (RoutineModel::Scripted {
            steps,
            pos: steps.len() as int,
            result: v,
        }),
    ensures
        deltas.len() <= k ==> spec_run_ticks(base, deltas, mode, flags, alive) == (TaskModel {
            last_yield: Option::Some(SpireYield::Frames((k - deltas.len()) as i64)),
            ..base
        }),
        deltas.len() > k ==> spec_run_ticks(base, deltas, mode, flags, alive).liveness
            == Liveness::Completed,
    decreases deltas.len(),
{
    if deltas.len() == 0 {
        assert(spec_run_ticks(base, deltas, mode, flags, alive) == base);
    } else {
        reveal_with_fuel(spec_poll, 3);
        let t = spec_tick(base, mode, deltas[0], flags, alive);
        if k > 0 {
            assert(t.0 == (TaskModel {
                last_yield: Option::Some(SpireYield::Frames((k - 1) as i64)),
                ..base
            }));
            lemma_frames_countdown(
                t.0,
                steps,
                v,
                (k - 1) as i64,
                deltas.drop_first(),
                mode,
                flags,
                alive,
            );
        } else {
            assert(t.0.liveness == Liveness::Completed);
            lemma_terminal_inert(t.0, deltas.drop_first(), mode, flags, alive);
        }
    }
}

/// A task whose computation yields one frame suspension of `n` frames and
/// nothing else is still suspended after each of the first `n` matching
/// ticks, holding the exact number of frames still to wait, and its
/// computation completes on the tick after that — on the very first tick
/// when `n` is zero, the suspension being resolved within the tick that
/// produced it.
pub proof fn lemma_frames_completes_exactly(
    m: TaskModel,
    n: i64,
    v: Value,
    deltas: Seq<int>,
    mode: PollMode,
    flags: Seq<bool>,
    alive: Seq<bool>,
)
    requires
        m.is_active(),
        !m.paused,
        m.poll_mode == mode,
        m.last_yield is None,
        m.routine == (RoutineModel::Scripted {
            steps: seq![Step::Yielded(SpireYield::Frames(n))],
            pos: 0,
            result: v,
        }),
        0 <= n,
        1 <= deltas.len(),
    ensures
        deltas.len() <= n ==> spec_run_ticks(m, deltas, mode, flags, alive).is_active()
            && spec_run_ticks(m, deltas, mode, flags, alive).last_yield == Option::Some(
            SpireYield::Frames((n - deltas.len()) as i64),
        ),
        deltas.len() > n ==> spec_run_ticks(m, deltas, mode, flags, alive).liveness
            == Liveness::Completed,
{
    reveal_with_fuel(spec_poll, 4);
    let steps = seq![Step::Yielded(SpireYield::Frames(n))];
    let t = spec_tick(m, mode, deltas[0], flags, alive);
    if n > 0 {
        assert(t.0 == (TaskModel {
            routine: RoutineModel::Scripted { steps, pos: 1, result: v },
            last_yield: Option::Some(SpireYield::Frames((n - 1) as i64)),
            ..m
        }));
        lemma_frames_countdown(
            t.0,
            steps,
            v,
            (n - 1) as i64,
            deltas.drop_first(),
            mode,
            flags,
            alive,
        );
    } else {
        assert(t.0.liveness == Liveness::Completed);
        lemma_terminal_inert(t.0, deltas.drop_first(), mode, flags, alive);
    }
}

/// The total delta time of a sequence of ticks.
pub open spec fn sum_of(deltas: Seq<int>) -> int
    decreases deltas.len(),
{
    if deltas.len() == 0 {
        0
    } else {
        deltas[0] + sum_of(deltas.drop_first())
    }
}

/// A sequence of nonnegative delta times sums to a nonnegative total.
proof fn lemma_sum_of_nonneg(deltas: Seq<int>)
    requires
        forall|i: int| 0 <= i < deltas.len() ==> #[trigger] deltas[i] >= 0,
    ensures
        sum_of(deltas) >= 0,
    decreases deltas.len(),
{
    if deltas.len() > 0 {
        let rest = deltas.drop_first();
        assert forall|i: int| 0 <= i < rest.len() implies #[trigger] rest[i] >= 0 by {
            assert(rest[i] == deltas[i + 1]);
        }
        lemma_sum_of_nonneg(rest);
    }
}

/// Countdown of a stored timed suspension over a task whose script is
/// exhausted: the task finishes exactly when the cumulative delta time of
/// the ticks reaches what is left of the suspension.
proof fn lemma_duration_countdown(
    base: TaskModel,
    steps: Seq<Step>,
    v: Value,
    rem: u64,
    deltas: Seq<int>,
    mode: PollMode,
    flags: Seq<bool>,
    alive: Seq<bool>,
)
    requires
        base.is_active(),
        !base.paused,
        base.poll_mode == mode,
        base.last_yield == Option::Some(SpireYield::Seconds(rem)),
        rem > 0,
        base.routine == (RoutineModel::Scripted {
            steps,
            pos: steps.len() as int,
            result: v,
        }),
        forall|i: int| 0 <= i < deltas.len() ==> #[trigger] deltas[i] >= 0,
    ensures
        spec_run_ticks(base, deltas, mode, flags, alive).spec_is_finished() <==> sum_of(deltas)
            >= rem,
    decreases deltas.len(),
{
    if deltas.len() == 0 {
    } else {
        reveal_with_fuel(spec_poll, 3);
        let d0 = deltas[0];
        let rest = deltas.drop_first();
        assert forall|i: int| 0 <= i < rest.len() implies #[trigger] rest[i] >= 0 by {
            assert(rest[i] == deltas[i + 1]);
        }
        let t = spec_tick(base, mode, d0, flags, alive);
        if rem > d0 {
            assert(t.0 == (TaskModel {
                last_yield: Option::Some(SpireYield::Seconds((rem - d0) as u64)),
                ..base
            }));
            lemma_duration_countdown(t.0, steps, v, (rem - d0) as u64, rest, mode, flags, alive);
        } else {
            assert(t.0.liveness == Liveness::Completed);
            lemma_terminal_inert(t.0, rest, mode, flags, alive);
            lemma_sum_of_nonneg(rest);
        }
    }
}

/// A task whose computation yields one timed suspension of `s` and nothing
/// else is finished exactly when the cumulative delta time of the ticks
/// that drove it reaches `s`: the time elapsed while it was suspended is
/// never less than what was asked.
pub proof fn lemma_duration_cumulative(
    m: TaskModel,
    s: u64,
    v: Value,
    deltas: Seq<int>,
    mode: PollMode,
    flags: Seq<bool>,
    alive: Seq<bool>,
)
    requires
        m.is_active(),
        !m.paused,
        m.poll_mode == mode,
        m.last_yield is None,
        m.routine == (RoutineModel::Scripted {
            steps: seq![Step::Yielded(SpireYield::Seconds(s))],
            pos: 0,
            result: v,
        }),
        1 <= deltas.len(),
        forall|i: int| 0 <= i < deltas.len() ==> #[trigger] deltas[i] >= 0,
    ensures
        spec_run_ticks(m, deltas, mode, flags, alive).spec_is_finished() <==> sum_of(deltas)
            >= s,
{
    reveal_with_fuel(spec_poll, 4);
    let steps = seq![Step::Yielded(SpireYield::Seconds(s))];
    let d0 = deltas[0];
    let rest = deltas.drop_first();
    assert forall|i: int| 0 <= i < rest.len() implies #[trigger] rest[i] >= 0 by {
        assert(rest[i] == deltas[i + 1]);
    }
    let t = spec_tick(m, mode, d0, flags, alive);
    if s > d0 {
        assert(t.0 == (TaskModel {
            routine: RoutineModel::Scripted { steps, pos: 1, result: v },
            last_yield: Option::Some(SpireYield::Seconds((s - d0) as u64)),
            ..m
        }));
        lemma_duration_countdown(t.0, steps, v, (s - d0) as u64, rest, mode, flags, alive);
    } else {
        assert(t.0.liveness == Liveness::Completed);
        lemma_terminal_inert(t.0, rest, mode, flags, alive);
        lemma_sum_of_nonneg(rest);
    }
}

/// The bridge over external work that never finishes suspends at every
/// resume, so a forced run of it always runs out of its budget.
proof fn lemma_force_background_caps(res: Value, k: nat)
    ensures
        spec_force(RoutineModel::Background { done: false, result: res }, k)
            == (ForceOutcome::CapHit {
            routine: RoutineModel::Background { done: false, result: res },
        }),
    decreases k,
{
    if k > 1 {
        lemma_force_background_caps(res, (k - 1) as nat);
    }
}

/// Forcing a task whose computation never stops suspending runs the resume
/// budget out: the caller gets an absent value, the cap is reported as a
/// diagnostic, and the task is terminated rather than looping forever.
pub proof fn lemma_force_cap_on_nonterminating(m: TaskModel, res: Value)
    requires
        m.is_active(),
        m.routine == (RoutineModel::Background { done: false, result: res }),
    ensures
        spec_force_run(m).1 == Value::Nil,
        spec_force_run(m).2 == seq![Event::CapReport, Event::Detach],
        spec_force_run(m).0.spec_is_finished(),
{
    lemma_force_background_caps(res, FORCE_RUN_CAP as nat);
}

/// A forced run of a script of plain suspensions stops after exactly the
/// budgeted number of resume steps: a script with at least that many
/// suspensions left is given up on, one with fewer completes with its
/// result.
pub proof fn lemma_force_scripted_exact(steps: Seq<Step>, pos: int, v: Value, k: nat)
    requires
        0 <= pos <= steps.len(),
        1 <= k,
        forall|i: int| pos <= i < steps.len() ==> #[trigger] steps[i] is Yielded,
    ensures
        steps.len() - pos >= k ==> spec_force(
            RoutineModel::Scripted { steps, pos, result: v },
            k,
        ) is CapHit,
        steps.len() - pos < k ==> spec_force(RoutineModel::Scripted { steps, pos, result: v }, k)
            == (ForceOutcome::Done {
            routine: RoutineModel::Scripted { steps, pos: steps.len() as int, result: v },
            value: v,
        }),
    decreases k,
{
    if pos < steps.len() {
        assert(steps[pos] is Yielded);
        if k > 1 {
            lemma_force_scripted_exact(steps, pos + 1, v, (k - 1) as nat);
        }
    }
}

/// The tasks a scheduler tick has already passed, processed one by one:
/// the state of the whole task list once the tasks with indices in
/// `[i, j)` have advanced.
pub open spec fn spec_tick_upto(
    ms: Seq<TaskModel>,
    i: int,
    j: int,
    mode: PollMode,
    delta: int,
    flags: Seq<bool>,
) -> Seq<TaskModel>
    decreases j - i,
{
    if i < 0 || j <= i || i >= ms.len() {
        ms
    } else {
        spec_tick_upto(
            ms.update(i, spec_tick(ms[i], mode, delta, flags, alive_of(ms)).0),
            i + 1,
            j,
            mode,
            delta,
            flags,
        )
    }
}

/// A scheduler tick drives every task and drops none.
pub proof fn lemma_tick_from_len(
    ms: Seq<TaskModel>,
    i: int,
    mode: PollMode,
    delta: int,
    flags: Seq<bool>,
)
    ensures
        spec_tick_from(ms, i, mode, delta, flags).0.len() == ms.len(),
    decreases ms.len() - i,
{
    if 0 <= i < ms.len() {
        let t = spec_tick(ms[i], mode, delta, flags, alive_of(ms));
        lemma_tick_from_len(ms.update(i, t.0), i + 1, mode, delta, flags);
    }
}

/// Tasks whose turn already passed are not touched by the rest of the
/// tick.
proof fn lemma_tick_from_prefix_untouched(
    ms: Seq<TaskModel>,
    i: int,
    j: int,
    mode: PollMode,
    delta: int,
    flags: Seq<bool>,
)
    requires
        0 <= j < i,
        j < ms.len(),
    ensures
        spec_tick_from(ms, i, mode, delta, flags).0[j] == ms[j],
    decreases ms.len() - i,
{
    if 0 <= i < ms.len() {
        let t = spec_tick(ms[i], mode, delta, flags, alive_of(ms));
        lemma_tick_from_prefix_untouched(ms.update(i, t.0), i + 1, j, mode, delta, flags);
    }
}

/// Processing the tasks in `[i, j)` touches neither the tasks before `i`
/// nor the task `j` and those after it.
proof fn lemma_tick_upto_untouched(
    ms: Seq<TaskModel>,
    i: int,
    j: int,
    k: int,
    mode: PollMode,
    delta: int,
    flags: Seq<bool>,
)
    requires
        0 <= k < ms.len(),
        !(i <= k < j),
    ensures
        spec_tick_upto(ms, i, j, mode, delta, flags).len() == ms.len(),
        spec_tick_upto(ms, i, j, mode, delta, flags)[k] == ms[k],
    decreases j - i,
{
    if !(i < 0 || j <= i || i >= ms.len()) {
        let t = spec_tick(ms[i], mode, delta, flags, alive_of(ms));
        lemma_tick_upto_untouched(ms.update(i, t.0), i + 1, j, k, mode, delta, flags);
    }
}

/// Fault isolation of the tick loop: what a task becomes over a scheduler
/// tick is exactly one advance of its own pre-tick state — whatever
/// happened to the tasks before it in the same tick, a fault of theirs
/// included. Only the liveness snapshot its waiting predicates read
/// reflects the earlier tasks, which is what lets a wait on a task that
/// terminated earlier in this very tick resolve without an extra tick of
/// latency.
pub proof fn lemma_tick_isolates_tasks(
    ms: Seq<TaskModel>,
    i: int,
    j: int,
    mode: PollMode,
    delta: int,
    flags: Seq<bool>,
)
    requires
        0 <= i <= j < ms.len(),
    ensures
        spec_tick_from(ms, i, mode, delta, flags).0[j] == spec_tick(
            ms[j],
            mode,
            delta,
            flags,
            alive_of(spec_tick_upto(ms, i, j, mode, delta, flags)),
        ).0,
    decreases j - i,
{
    let t = spec_tick(ms[i], mode, delta, flags, alive_of(ms));
    let ms2 = ms.update(i, t.0);
    if i == j {
        lemma_tick_from_prefix_untouched(ms2, i + 1, j, mode, delta, flags);
    } else {
        lemma_tick_isolates_tasks(ms2, i + 1, j, mode, delta, flags);
    }
}

/// Same-tick resolution of a wait on another task, over a whole scheduler
/// tick: if the awaited task is already terminal by the waiting task's own
/// turn — because it terminated earlier in this very tick, or before it —
/// the tick treats the wait as already cleared, with the full delta time
/// behind it; the waiting task does not lose a tick of latency.
pub proof fn lemma_wait_resolves_within_the_tick(
    ms: Seq<TaskModel>,
    a: int,
    b: usize,
    mode: PollMode,
    delta: int,
    flags: Seq<bool>,
)
    requires
        0 <= a < ms.len(),
        ms[a].is_active(),
        !ms[a].paused,
        ms[a].poll_mode == mode,
        ms[a].last_yield == Option::Some(SpireYield::Dyn(Wait::TaskFinished(b))),
        !(b < spec_tick_upto(ms, 0, a, mode, delta, flags).len() && spec_tick_upto(
            ms,
            0,
            a,
            mode,
            delta,
            flags,
        )[b as int].is_active()),
    ensures
        spec_tick_from(ms, 0, mode, delta, flags).0[a] == spec_tick(
            TaskModel { last_yield: Option::None, ..ms[a] },
            mode,
            delta,
            flags,
            alive_of(spec_tick_upto(ms, 0, a, mode, delta, flags)),
        ).0,
{
    let snapshot = spec_tick_upto(ms, 0, a, mode, delta, flags);
    let alive = alive_of(snapshot);
    lemma_tick_isolates_tasks(ms, 0, a, mode, delta, flags);
    lemma_wait_on_finished_resolves(ms[a].routine, b, delta, flags, alive);
}

} // verus!
