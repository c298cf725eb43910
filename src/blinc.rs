//! The run: the controller built from a configuration, and the decisions of
//! the loop that runs the tasks in order and reports their outcome.
use vstd::prelude::*;

use crate::config::{Config, ConfigView};
use crate::transition::{animation_of, frame_of, Msg, Transition, TransitionError, TransitionView};

verus! {

/// What the task loop does next.
#[derive(Debug, Clone, Copy, PartialEq, Eq, Structural)]
pub enum Step {
    /// Run the task at this index.
    Run(usize),
    /// Stop and report this outcome.
    Finish(Msg),
}

/// The task loop's next step after the task at `index` ran: a failure ends
/// the run at once, otherwise the next task runs, and after the last the run
/// succeeds.
pub open spec fn step_after(len: nat, index: nat, succeeded: bool) -> Step {
    if !succeeded {
        Step::Finish(Msg::Failure)
    } else if index + 1 < len {
        Step::Run((index + 1) as usize)
    } else {
        Step::Finish(Msg::Success)
    }
}

/// The process's exit code for an outcome.
pub open spec fn exit_code_of(outcome: Msg) -> i32 {
    match outcome {
        Msg::Success => 0,
        Msg::Failure => 1,
    }
}

/// The controller a configuration asks for.
pub fn transition(config: &Config) -> (r: Result<Transition, TransitionError>)
    ensures
        match r {
            Ok(t) => config@.pending.len() > 0 && t@ == (TransitionView {
                frames: animation_of(config@.pending),
                success: frame_of(config@.success),
                failure: frame_of(config@.failure),
                started: false,
            }),
            Err(e) => config@.pending.len() == 0 && e == TransitionError::EmptyAnimation,
        },
{
    match Transition::new(config.pending()) {
        Ok(t) => Ok(t.on_success(config.success()).on_failure(config.failure())),
        Err(e) => Err(e),
    }
}

/// A run of the configured tasks.
pub struct Blinc {
    config: Config,
}

impl Blinc {
    pub fn new(config: Config) -> (r: Blinc)
        ensures
            r.config_view() == config@,
    {
        Blinc { config }
    }

    pub closed spec fn config_view(&self) -> ConfigView {
        self.config@
    }

    /// The configuration of this run.
    pub fn config(&self) -> (r: &Config)
        ensures
            r@ == self.config_view(),
    {
        &self.config
    }

    /// The first step: the first task, or success when there is none.
    pub fn first_step(&self) -> (r: Step)
        ensures
            r == (if self.config_view().tasks.len() > 0 {
                Step::Run(0)
            } else {
                Step::Finish(Msg::Success)
            }),
    {
        if self.config.tasks().len() > 0 {
            Step::Run(0)
        } else {
            Step::Finish(Msg::Success)
        }
    }

    /// The step after the task at `index` ran.
    pub fn after_task(&self, index: usize, succeeded: bool) -> (r: Step)
        requires
            index < self.config_view().tasks.len(),
        ensures
            r == step_after(self.config_view().tasks.len(), index as nat, succeeded),
    {
        let len = self.config.tasks().len();
        if !succeeded {
            Step::Finish(Msg::Failure)
        } else if index + 1 < len {
            Step::Run(index + 1)
        } else {
            Step::Finish(Msg::Success)
        }
    }
}

/// The process's exit code for an outcome: 0 for success, 1 for failure.
pub fn exit_code(outcome: Msg) -> (r: i32)
    ensures
        r == exit_code_of(outcome),
{
    match outcome {
        Msg::Success => 0,
        Msg::Failure => 1,
    }
}

} // verus!
