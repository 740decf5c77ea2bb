use vstd::prelude::*;

use crate::Value;
use crate::builder::CoroutineBuilder;
use crate::coroutine::{Liveness, OnFinishCall, PollMode, ProcessMode, TaskModel};
use crate::routine::RoutineModel;
use crate::scheduler::{task_models, Scheduler};

verus! {

pub trait StartAsyncTask: Sized {
    /// Whether `post` is `pre` with one fresh task attached under `id`: a
    /// default-configured background-bridge coroutine whose completion
    /// marker is still unset, alive, unpaused and with no stored
    /// suspension.
    spec fn background_spawned(pre: Self, post: Self, id: usize) -> bool;

    /// Creates a new coroutine builder with default settings around the
    /// bridge over work that runs to completion on an external executor;
    /// the coroutine does not actually spawn until
    /// [`CoroutineBuilder::spawn`] is called.
    ///
    /// The host hands the work itself to its executor and publishes the
    /// result through [`Scheduler::finish_background`] when it is done.
    fn async_task(&self) -> (b: CoroutineBuilder)
        ensures
            b.routine@ == (RoutineModel::Background { done: false, result: Value::Nil }),
            b.poll_mode == PollMode::Process,
            b.process_mode == ProcessMode::Inherit,
            b.auto_start == true,
            b.calls_on_finish@ == Seq::<OnFinishCall>::empty(),
    ;

    /// Spawns and starts a new background-bridge task with default
    /// settings, returning the id under which its owner keeps it.
    fn start_async_task(&mut self) -> (id: usize)
        ensures
            Self::background_spawned(*old(self), *final(self), id),
    ;
}

impl StartAsyncTask for Scheduler {
    open spec fn background_spawned(pre: Scheduler, post: Scheduler, id: usize) -> bool {
        &&& id == pre.tasks@.len()
        &&& post.flags@ == pre.flags@
        &&& task_models(post.tasks@) == task_models(pre.tasks@).push(
            TaskModel {
                id: id as int,
                routine: RoutineModel::Background { done: false, result: Value::Nil },
                poll_mode: PollMode::Process,
                process_mode: ProcessMode::Inherit,
                last_yield: Option::None,
                paused: false,
                calls_on_finish: Seq::empty(),
                liveness: Liveness::Active,
            },
        )
        &&& pre.wf() ==> post.wf()
    }

    fn async_task(&self) -> (b: CoroutineBuilder) {
        CoroutineBuilder::new_async_task()
    }

    fn start_async_task(&mut self) -> (id: usize) {
        CoroutineBuilder::new_async_task().spawn(self)
    }
}

} // verus!
