use vstd::prelude::*;

use crate::Value;
use crate::builder::CoroutineBuilder;
use crate::coroutine::{Liveness, OnFinishCall, PollMode, ProcessMode, TaskModel};
use crate::routine::{RoutineModel, Step};
use crate::scheduler::{task_models, Scheduler};

verus! {

pub trait StartCoroutine: Sized {
    /// Whether `post` is `pre` with one fresh task attached under `id`: a
    /// default-configured coroutine around the given scripted computation,
    /// alive, unpaused and with no stored suspension.
    spec fn scripted_spawned(
        pre: Self,
        post: Self,
        steps: Seq<Step>,
        result: Value,
        id: usize,
    ) -> bool;

    /// Creates a new coroutine builder with default settings around the
    /// given scripted computation; the coroutine does not actually spawn
    /// until [`CoroutineBuilder::spawn`] is called.
    fn coroutine(&self, steps: Vec<Step>, result: Value) -> (b: CoroutineBuilder)
        ensures
            b.routine@ == (RoutineModel::Scripted { steps: steps@, pos: 0int, result }),
            b.poll_mode == PollMode::Process,
            b.process_mode == ProcessMode::Inherit,
            b.auto_start == true,
            b.calls_on_finish@ == Seq::<OnFinishCall>::empty(),
    ;

    /// Spawns and starts a new coroutine with default settings, returning
    /// the id under which its owner keeps it.
    fn start_coroutine(&mut self, steps: Vec<Step>, result: Value) -> (id: usize)
        ensures
            Self::scripted_spawned(*old(self), *final(self), steps@, result, id),
    ;
}

impl StartCoroutine for Scheduler {
    open spec fn scripted_spawned(
        pre: Scheduler,
        post: Scheduler,
        steps: Seq<Step>,
        result: Value,
        id: usize,
    ) -> bool {
        &&& id == pre.tasks@.len()
        &&& post.flags@ == pre.flags@
        &&& task_models(post.tasks@) == task_models(pre.tasks@).push(
            TaskModel {
                id: id as int,
                routine: RoutineModel::Scripted { steps, pos: 0, result },
                poll_mode: PollMode::Process,
                process_mode: ProcessMode::Inherit,
                last_yield: Option::None,
                paused: false,
                calls_on_finish: Seq::empty(),
                liveness: Liveness::Active,
            },
        )
        &&& pre.wf() ==> post.wf()
    }

    fn coroutine(&self, steps: Vec<Step>, result: Value) -> (b: CoroutineBuilder) {
        CoroutineBuilder::new_coroutine(steps, result)
    }

    fn start_coroutine(&mut self, steps: Vec<Step>, result: Value) -> (id: usize) {
        CoroutineBuilder::new_coroutine(steps, result).spawn(self)
    }
}

} // verus!
