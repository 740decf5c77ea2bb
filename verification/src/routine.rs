use vstd::prelude::*;

use crate::Value;
use crate::yielding::SpireYield;

verus! {

/// One observable step of a resumable computation: it either suspends with a
/// yield, or it traps (the host-language equivalent of a panic inside the
/// user-supplied code).
#[derive(Clone, Copy, Debug, PartialEq, Eq, Structural)]
pub enum Step {
    Yielded(SpireYield),
    Trap,
}

/// What one resume of a routine produced.
#[derive(Clone, Copy, Debug, PartialEq, Eq, Structural)]
pub enum Resumed {
    /// The computation suspended again.
    Yielded(SpireYield),
    /// The computation finished with its completion value.
    Complete(Value),
    /// The resume step faulted; the routine has been replaced by an inert
    /// one and must not be treated as having completed.
    Trapped,
}

/// The mathematical view of a [`Routine`].
pub enum RoutineModel {
    Scripted { steps: Seq<Step>, pos: int, result: Value },
    Background { done: bool, result: Value },
}

impl RoutineModel {
    pub open spec fn wf(self) -> bool {
        match self {
            RoutineModel::Scripted { steps, pos, .. } => 0 <= pos <= steps.len(),
            RoutineModel::Background { .. } => true,
        }
    }

    /// Upper bound on how many more times the routine can suspend before it
    /// must complete; a background routine may suspend forever, but between
    /// two of its suspensions a whole tick passes, which bounds the chained
    /// resolution work of a single tick.
    pub open spec fn remaining(self) -> int {
        match self {
            RoutineModel::Scripted { steps, pos, .. } => if pos <= steps.len() {
                steps.len() - pos
            } else {
                0
            },
            RoutineModel::Background { done, .. } => if done {
                0
            } else {
                1
            },
        }
    }

    /// The inert routine substituted for one whose resume step trapped: its
    /// internal state may be torn, so it is replaced rather than resumed or
    /// unwound any further.
    pub open spec fn inert() -> RoutineModel {
        RoutineModel::Scripted { steps: Seq::empty(), pos: 0, result: Value::Nil }
    }

    /// Advance the computation one step: the new routine state and what the
    /// step produced.
    pub open spec fn spec_resume(self) -> (RoutineModel, Resumed) {
        match self {
            RoutineModel::Scripted { steps, pos, result } => {
                if 0 <= pos < steps.len() {
                    match steps[pos] {
                        Step::Yielded(y) => (
                            RoutineModel::Scripted { steps, pos: pos + 1, result },
                            Resumed::Yielded(y),
                        ),
                        Step::Trap => (RoutineModel::inert(), Resumed::Trapped),
                    }
                } else {
                    (self, Resumed::Complete(result))
                }
            },
            RoutineModel::Background { done, result } => {
                if done {
                    (self, Resumed::Complete(result))
                } else {
                    (self, Resumed::Yielded(SpireYield::Frames(1)))
                }
            },
        }
    }
}

/// A resumable computation advanced one step at a time, as the scheduler
/// sees it: a pre-declared sequence of suspension steps ending in a
/// completion value, or the bridge over a computation running to completion
/// on an external executor.
///
/// A scripted routine models the suspend/resume state machine of the user's
/// code: each resume either hands out the next suspension request, traps, or
/// — once the steps are exhausted — completes with the result.
#[derive(Debug)]
pub enum Routine {
    Scripted { steps: Vec<Step>, pos: usize, result: Value },
    /// Bridges work that finishes on an external executor: while the
    /// published completion marker is not set, every resume yields a
    /// one-frame suspension; once set, the resume completes with the
    /// published value.
    Background { done: bool, result: Value },
}

impl View for Routine {
    type V = RoutineModel;

    open spec fn view(&self) -> RoutineModel {
        match *self {
            Routine::Scripted { steps, pos, result } => RoutineModel::Scripted {
                steps: steps@,
                pos: pos as int,
                result: result,
            },
            Routine::Background { done, result } => RoutineModel::Background {
                done: done,
                result: result,
            },
        }
    }
}

impl Routine {
    /// A routine that yields each scripted step in order, then completes
    /// with `result`.
    pub fn scripted(steps: Vec<Step>, result: Value) -> (r: Routine)
        ensures
            r@ == (RoutineModel::Scripted { steps: steps@, pos: 0int, result }),
    {
        Routine::Scripted { steps, pos: 0, result }
    }

    /// The bridge routine for a computation handed to an external executor;
    /// its completion marker starts unset.
    pub fn background() -> (r: Routine)
        ensures
            r@ == (RoutineModel::Background { done: false, result: Value::Nil }),
    {
        Routine::Background { done: false, result: Value::Nil }
    }

    /// Resume the computation one step.
    ///
    /// If the step traps, the routine is replaced by an inert one: its torn
    /// state is abandoned rather than resumed or destructed.
    pub fn resume(&mut self) -> (r: Resumed)
        requires
            old(self)@.wf(),
        ensures
            final(self)@ == old(self)@.spec_resume().0,
            r == old(self)@.spec_resume().1,
            final(self)@.wf(),
    {
        let mut res: Resumed = Resumed::Trapped;
        let mut trapped: bool = false;
        match self {
            Routine::Scripted { steps, pos, result } => {
                if *pos < steps.len() {
                    let s: Step = steps[*pos];
                    *pos = *pos + 1;
                    match s {
                        Step::Yielded(y) => {
                            res = Resumed::Yielded(y);
                        },
                        Step::Trap => {
                            trapped = true;
                        },
                    }
                } else {
                    res = Resumed::Complete(*result);
                }
            },
            Routine::Background { done, result } => {
                if *done {
                    res = Resumed::Complete(*result);
                } else {
                    res = Resumed::Yielded(SpireYield::Frames(1));
                }
            },
        }
        if trapped {
            *self = Routine::Scripted { steps: Vec::new(), pos: 0, result: Value::Nil };
        }
        res
    }

    /// Publish the completion of the external work bridged by a background
    /// routine; on a scripted routine this does nothing.
    pub fn publish_background(&mut self, value: Value)
        ensures
            final(self)@ == (match old(self)@ {
                RoutineModel::Background { .. } => RoutineModel::Background {
                    done: true,
                    result: value,
                },
                m => m,
            }),
    {
        match self {
            Routine::Background { done, result } => {
                *done = true;
                *result = value;
            },
            Routine::Scripted { .. } => {},
        }
    }
}

} // verus!
