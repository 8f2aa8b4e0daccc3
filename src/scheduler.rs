//! The decisions of the periodic scheduler: when a sweep runs, and which
//! background timer is armed or cancelled.
//!
//! The caller owns the timer task. It performs each returned action and
//! reports each tick with the generation the task was started with, so a
//! tick from a cancelled task is recognised and ignored.

use vstd::prelude::*;
use crate::policy::PolicySet;

verus! {

/// The interval of periodic sweeps when none is configured.
pub const DEFAULT_INTERVAL_SECS: u64 = 60;

#[derive(Clone, Copy, Debug, PartialEq, Eq, Structural)]
pub enum SchedulerMode {
    /// No periodic task is running.
    Idle,
    /// The periodic task of `generation` ticks every `interval_secs`.
    Running { generation: u64, policies: PolicySet, interval_secs: u64 },
}

/// What the caller must do after a scheduler decision.
#[derive(Clone, Copy, Debug, PartialEq, Eq, Structural)]
pub enum SchedulerAction {
    Nothing,
    /// Start a background task that reports a tick with `generation` every `interval_secs`.
    StartTimer { generation: u64, interval_secs: u64 },
    /// Cancel the background task of `generation`, ending any wait in progress.
    CancelTimer { generation: u64 },
    /// Run one sweep now and report its end with `sweep_finished`.
    RunSweep { policies: PolicySet },
    /// A sweep is already running; this request is dropped.
    Busy,
}

#[derive(Clone, Copy, Debug, PartialEq, Eq, Structural)]
pub enum SchedulerError {
    /// Periodic sweeps are already running.
    AlreadyRunning,
    /// An interval of zero seconds.
    ZeroInterval,
}

#[derive(Clone, Copy, Debug, PartialEq, Eq, Structural)]
pub struct Scheduler {
    pub mode: SchedulerMode,
    /// The generation the next periodic task is started with.
    pub next_generation: u64,
    /// Whether a sweep is running: at most one runs at a time.
    pub sweep_in_flight: bool,
}

pub open spec fn successor_generation(g: u64) -> u64 {
    if g == u64::MAX { 0 } else { (g + 1) as u64 }
}

pub open spec fn start_step(s: Scheduler, policies: PolicySet, interval_secs: u64) -> (Scheduler, Result<SchedulerAction, SchedulerError>) {
    if s.mode is Running {
        (s, Err(SchedulerError::AlreadyRunning))
    } else if interval_secs == 0 {
        (s, Err(SchedulerError::ZeroInterval))
    } else {
        let g = s.next_generation;
        (
            Scheduler {
                mode: SchedulerMode::Running { generation: g, policies, interval_secs },
                next_generation: successor_generation(g),
                ..s
            },
            Ok(SchedulerAction::StartTimer { generation: g, interval_secs }),
        )
    }
}

pub open spec fn stop_step(s: Scheduler) -> (Scheduler, SchedulerAction) {
    match s.mode {
        SchedulerMode::Running { generation, .. } => (
            Scheduler { mode: SchedulerMode::Idle, ..s },
            SchedulerAction::CancelTimer { generation },
        ),
        SchedulerMode::Idle => (s, SchedulerAction::Nothing),
    }
}

pub open spec fn tick_step(s: Scheduler, generation: u64) -> (Scheduler, SchedulerAction) {
    match s.mode {
        SchedulerMode::Running { generation: g, policies, .. } => if g != generation {
            (s, SchedulerAction::Nothing)
        } else if s.sweep_in_flight {
            (s, SchedulerAction::Busy)
        } else {
            (Scheduler { sweep_in_flight: true, ..s }, SchedulerAction::RunSweep { policies })
        },
        SchedulerMode::Idle => (s, SchedulerAction::Nothing),
    }
}

pub open spec fn run_once_step(s: Scheduler, policies: PolicySet) -> (Scheduler, SchedulerAction) {
    if s.sweep_in_flight {
        (s, SchedulerAction::Busy)
    } else {
        (Scheduler { sweep_in_flight: true, ..s }, SchedulerAction::RunSweep { policies })
    }
}

/// Stopping before the first tick cancels the very task that starting armed,
/// and no tick, of that task or any other, then runs a sweep.
pub proof fn stop_before_first_tick_runs_no_sweep(
    s: Scheduler,
    policies: PolicySet,
    interval_secs: u64,
    generation: u64,
)
    requires
        s.mode is Idle,
        interval_secs > 0,
    ensures
        start_step(s, policies, interval_secs).1 == Ok::<SchedulerAction, SchedulerError>(
            SchedulerAction::StartTimer { generation: s.next_generation, interval_secs },
        ),
        stop_step(start_step(s, policies, interval_secs).0).1 == (SchedulerAction::CancelTimer {
            generation: s.next_generation,
        }),
        stop_step(start_step(s, policies, interval_secs).0).0.mode is Idle,
        tick_step(stop_step(start_step(s, policies, interval_secs).0).0, generation) == (
            stop_step(start_step(s, policies, interval_secs).0).0,
            SchedulerAction::Nothing,
        ),
{
}

/// While a sweep runs, neither a tick nor an on-demand request starts another.
pub proof fn at_most_one_sweep_runs(s: Scheduler, policies: PolicySet, generation: u64)
    requires
        s.sweep_in_flight,
    ensures
        !(tick_step(s, generation).1 is RunSweep),
        !(run_once_step(s, policies).1 is RunSweep),
        tick_step(s, generation).0 == s,
        run_once_step(s, policies).0 == s,
{
}

impl Scheduler {
    /// An idle scheduler with no sweep running.
    pub fn new() -> (r: Scheduler)
        ensures
            r.mode is Idle,
            !r.sweep_in_flight,
            r.next_generation == 0,
    {
        Scheduler { mode: SchedulerMode::Idle, next_generation: 0, sweep_in_flight: false }
    }

    /// Idle to Running: asks for a timer task of a fresh generation.
    pub fn start_periodic(&mut self, policies: PolicySet, interval_secs: u64) -> (r: Result<SchedulerAction, SchedulerError>)
        ensures
            (*final(self), r) == start_step(*old(self), policies, interval_secs),
    {
        match self.mode {
            SchedulerMode::Running { .. } => return Err(SchedulerError::AlreadyRunning),
            SchedulerMode::Idle => {},
        }
        if interval_secs == 0 {
            return Err(SchedulerError::ZeroInterval);
        }
        let generation = self.next_generation;
        self.mode = SchedulerMode::Running { generation, policies, interval_secs };
        self.next_generation = if generation == u64::MAX { 0 } else { generation + 1 };
        Ok(SchedulerAction::StartTimer { generation, interval_secs })
    }

    /// Running to Idle: asks for the running timer task to be cancelled.
    pub fn stop_periodic(&mut self) -> (r: SchedulerAction)
        ensures
            (*final(self), r) == stop_step(*old(self)),
    {
        match self.mode {
            SchedulerMode::Running { generation, .. } => {
                self.mode = SchedulerMode::Idle;
                SchedulerAction::CancelTimer { generation }
            },
            SchedulerMode::Idle => SchedulerAction::Nothing,
        }
    }

    /// A tick of the timer task of `generation`: a sweep runs only for the
    /// running task, and only when no other sweep is running.
    pub fn on_tick(&mut self, generation: u64) -> (r: SchedulerAction)
        ensures
            (*final(self), r) == tick_step(*old(self), generation),
    {
        match self.mode {
            SchedulerMode::Running { generation: g, policies, .. } => {
                if g != generation {
                    SchedulerAction::Nothing
                } else if self.sweep_in_flight {
                    SchedulerAction::Busy
                } else {
                    self.sweep_in_flight = true;
                    SchedulerAction::RunSweep { policies }
                }
            },
            SchedulerMode::Idle => SchedulerAction::Nothing,
        }
    }

    /// A sweep asked for on demand: it runs unless another sweep is running.
    pub fn run_once(&mut self, policies: PolicySet) -> (r: SchedulerAction)
        ensures
            (*final(self), r) == run_once_step(*old(self), policies),
    {
        if self.sweep_in_flight {
            SchedulerAction::Busy
        } else {
            self.sweep_in_flight = true;
            SchedulerAction::RunSweep { policies }
        }
    }

    /// The running sweep has ended, whether or not its result reached the sink.
    pub fn sweep_finished(&mut self)
        ensures
            *final(self) == (Scheduler { sweep_in_flight: false, ..*old(self) }),
    {
        self.sweep_in_flight = false;
    }
}

} // verus!
