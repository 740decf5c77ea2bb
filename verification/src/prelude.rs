pub use crate::builder::CoroutineBuilder;
pub use crate::coroutine::{
    Event, IsFinished, IsPaused, IsRunning, Liveness, OnFinishCall, PollMode, PollResult,
    ProcessMode, SpireCoroutine, FORCE_RUN_CAP,
};
pub use crate::routine::{Resumed, Routine, Step};
pub use crate::scheduler::{Scheduler, TaskEvent};
pub use crate::start_async_task::StartAsyncTask;
pub use crate::start_coroutine::StartCoroutine;
pub use crate::yielding::{
    frames, seconds, wait_until, wait_while, KeepWaiting, SpireYield, Wait, WaitUntilFinished,
};
pub use crate::Value;
