use vstd::prelude::*;

verus! {

/// A condition a suspended coroutine keeps checking before it may resume.
///
/// The stateful predicate closures of the host are communicated through
/// numbered boolean flags that the host updates between ticks; waiting on
/// another coroutine is a liveness query on its task index.
#[derive(Clone, Copy, Debug, PartialEq, Eq, Structural)]
pub enum Wait {
    /// Keep waiting as long as the numbered host flag is true.
    While(usize),
    /// Keep waiting until the numbered host flag becomes true.
    Until(usize),
    /// Keep waiting as long as the referenced task is still alive.
    TaskFinished(usize),
}

/// Possible wait modes for coroutines.
///
/// See [`frames`], [`seconds`] and [`KeepWaiting`].
#[derive(Clone, Copy, Debug, PartialEq, Eq, Structural)]
pub enum SpireYield {
    /// Resolved after the given number of polled frames; zero or a negative
    /// count resolves within the tick that produced it.
    Frames(i64),
    /// Resolved once the cumulative delta time reaches the given amount,
    /// measured in the host's time unit; leftover time carries into the
    /// next resolution step of the same tick.
    Seconds(u64),
    /// Resolved once the condition no longer asks to keep waiting.
    Dyn(Wait),
}

/// Truth value of the numbered host flag; a flag that was never registered
/// reads as false.
pub open spec fn spec_flag(flags: Seq<bool>, f: int) -> bool {
    0 <= f < flags.len() && flags[f]
}

pub trait KeepWaiting {
    /// What the executable check returns, over the host flags and the
    /// per-task liveness of the scheduler.
    spec fn spec_keep_waiting(&self, flags: Seq<bool>, alive: Seq<bool>) -> bool;

    /// The coroutine calls this to check if it should keep waiting.
    ///
    /// Execution will not resume as long as this returns true.
    fn keep_waiting(&self, flags: &Vec<bool>, alive: &Vec<bool>) -> (r: bool)
        ensures
            r == self.spec_keep_waiting(flags@, alive@),
    ;
}

impl KeepWaiting for Wait {
    open spec fn spec_keep_waiting(&self, flags: Seq<bool>, alive: Seq<bool>) -> bool {
        match *self {
            Wait::While(f) => spec_flag(flags, f as int),
            Wait::Until(f) => !spec_flag(flags, f as int),
            Wait::TaskFinished(t) => 0 <= t < alive.len() && alive[t as int],
        }
    }

    fn keep_waiting(&self, flags: &Vec<bool>, alive: &Vec<bool>) -> (r: bool) {
        match *self {
            Wait::While(f) => f < flags.len() && flags[f],
            Wait::Until(f) => !(f < flags.len() && flags[f]),
            Wait::TaskFinished(t) => t < alive.len() && alive[t],
        }
    }
}

pub trait WaitUntilFinished {
    /// What [`WaitUntilFinished::wait_until_finished`] returns.
    spec fn spec_wait_until_finished(&self) -> SpireYield;

    /// A suspension that clears in the same tick the awaited task turns
    /// terminal; the wait reads the task's liveness only and never drives
    /// the task.
    fn wait_until_finished(&self) -> (y: SpireYield)
        ensures
            y == self.spec_wait_until_finished(),
    ;
}

/// Coroutine pauses execution as long as the numbered host flag is true.
///
/// The flag is checked whenever the coroutine is polled.
pub fn wait_while(flag: usize) -> (y: SpireYield)
    ensures
        y == SpireYield::Dyn(Wait::While(flag)),
{
    SpireYield::Dyn(Wait::While(flag))
}

/// Coroutine resumes execution once the numbered host flag is true.
///
/// The flag is checked whenever the coroutine is polled.
pub fn wait_until(flag: usize) -> (y: SpireYield)
    ensures
        y == SpireYield::Dyn(Wait::Until(flag)),
{
    SpireYield::Dyn(Wait::Until(flag))
}

/// Yield for a number of frames.
///
/// A frame equals a single poll on the tick channel the coroutine
/// subscribed to.
pub fn frames(count: i64) -> (y: SpireYield)
    ensures
        y == SpireYield::Frames(count),
{
    SpireYield::Frames(count)
}

/// Yield for a specific amount of engine time, in the host's time unit.
///
/// Time does not pass if the coroutine's not being processed.
pub fn seconds(amount: u64) -> (y: SpireYield)
    ensures
        y == SpireYield::Seconds(amount),
{
    SpireYield::Seconds(amount)
}

} // verus!
