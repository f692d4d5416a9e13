//! Sequencing of what a chassis does around its devices: the retries of a
//! sensor calibration, the start of the odometry task afterwards, and the
//! control loop of one motion.
//!
//! The chassis itself performs the outside work (calibrating, reading the
//! pose, commanding motors, sleeping) and asks the functions here what comes
//! next. Times are microseconds on a monotonic clock.

use vstd::prelude::*;
use crate::motion_controller::{MotionError, MotionResult};
use crate::task_manager::TaskError;
use crate::task_system::{TaskConfig, TaskState, TaskView, TaskStats, configure_sensors, start_task};

verus! {

/// Calibration attempts made before giving up.
pub const MAX_CALIBRATION_ATTEMPTS: u8 = 5;

/// Milliseconds to wait between two calibration attempts.
pub const CALIBRATION_BACKOFF_MS: u64 = 100;

/// Milliseconds between two ticks of a motion's control loop.
pub const CONTROL_PERIOD_MS: u64 = 10;

/// What follows a failed calibration attempt.
#[derive(Debug, Clone, Copy, PartialEq, Eq, Structural)]
pub enum CalibrationStep {
    /// Wait, then try again; `attempts` failures have been counted.
    Retry { attempts: u8, backoff_ms: u64 },
    /// The attempts are used up: report the failure.
    GiveUp,
}

/// Decides what follows a failed attempt, given the failures counted before it.
pub fn after_failed_calibration(attempts: u8) -> (step: CalibrationStep)
    ensures
        step == if attempts + 1 >= MAX_CALIBRATION_ATTEMPTS {
            CalibrationStep::GiveUp
        } else {
            CalibrationStep::Retry {
                attempts: (attempts + 1) as u8,
                backoff_ms: CALIBRATION_BACKOFF_MS,
            }
        },
{
    if attempts >= MAX_CALIBRATION_ATTEMPTS - 1 {
        CalibrationStep::GiveUp
    } else {
        CalibrationStep::Retry { attempts: attempts + 1, backoff_ms: CALIBRATION_BACKOFF_MS }
    }
}

/// The number of failures counted after `failures` failed attempts in a row,
/// or `None` once calibration has given up.
pub open spec fn failures_counted(failures: nat) -> Option<u8>
    decreases failures,
{
    if failures == 0 {
        Some(0u8)
    } else {
        match failures_counted((failures - 1) as nat) {
            None => None,
            Some(attempts) => if attempts + 1 >= MAX_CALIBRATION_ATTEMPTS {
                None
            } else {
                Some((attempts + 1) as u8)
            },
        }
    }
}

/// Calibration is bounded: it goes on through four failures in a row and
/// gives up at the fifth.
pub proof fn lemma_calibration_gives_up_at_fifth_failure(failures: nat)
    ensures
        failures_counted(failures) is Some <==> failures < MAX_CALIBRATION_ATTEMPTS,
        failures < MAX_CALIBRATION_ATTEMPTS ==> failures_counted(failures) == Some(failures as u8),
    decreases failures,
{
    if failures > 0 {
        lemma_calibration_gives_up_at_fifth_failure((failures - 1) as nat);
    }
}

/// Ends a calibration that succeeded: records the sensors as configured and
/// starts the odometry task if the configuration asks for it.
pub fn finish_calibration(state: &mut TaskState, config: TaskConfig) -> (r: Result<(), TaskError>)
    ensures
        r is Ok,
        final(state)@ == (TaskView {
            sensors_configured: true,
            stats: TaskStats {
                is_running: config.auto_start || old(state)@.stats.is_running,
                ..old(state)@.stats
            },
        }),
        final(state)@.wf(),
{
    let configured = configure_sensors(state);
    if configured.is_err() {
        return configured;
    }
    if config.auto_start {
        return start_task(state);
    }
    Ok(())
}

/// Where a motion stands.
#[derive(Debug, Clone, Copy, PartialEq, Eq, Structural)]
pub enum MotionPhase {
    /// The control loop runs.
    Active,
    /// The motion is over, with this result.
    Finished(MotionResult),
}

/// What a motion's control loop does at the top of a tick.
#[derive(Debug, Clone, Copy, PartialEq, Eq, Structural)]
pub enum TickStep {
    /// Read the pose, update the controller, then call `after_control`.
    Control,
    /// Command zero voltage and return this result.
    Halt(MotionResult),
}

/// What a motion's control loop does once the controller is updated.
#[derive(Debug, Clone, Copy, PartialEq, Eq, Structural)]
pub enum DriveStep {
    /// Command the motors with the controller's output, then sleep.
    Drive { sleep_ms: u64 },
    /// Command zero voltage and return this result.
    Halt(MotionResult),
}

/// The control loop of one motion: when it began, its time budget and
/// where it stands.
#[derive(Debug, Clone, Copy, PartialEq, Eq, Structural)]
pub struct MotionRun {
    pub start_us: u64,
    pub timeout_ms: u32,
    pub phase: MotionPhase,
}

/// Whether the time budget is used up at `now`: strictly more than
/// `timeout_ms` milliseconds have passed since `start_us`.
pub open spec fn timed_out(start_us: u64, timeout_ms: u32, now: u64) -> bool {
    now > start_us && now - start_us > timeout_ms * 1000
}

impl MotionRun {
    /// The loop after the timeout check of a tick at `now`.
    pub open spec fn checked(self, now: u64) -> Self {
        if self.phase == MotionPhase::Active && timed_out(self.start_us, self.timeout_ms, now) {
            MotionRun { phase: MotionPhase::Finished(MotionResult::Timeout), ..self }
        } else {
            self
        }
    }

    /// The loop after the controller said whether it has finished.
    pub open spec fn controlled(self, finished: bool) -> Self {
        if self.phase == MotionPhase::Active && finished {
            MotionRun { phase: MotionPhase::Finished(MotionResult::Completed), ..self }
        } else {
            self
        }
    }

    /// One whole tick at `now`, in which the controller reports `finished`
    /// if it is asked at all.
    pub open spec fn ticked(self, now: u64, finished: bool) -> Self {
        self.checked(now).controlled(finished)
    }

    /// Begins a motion at `now`. A controller that is not ready is refused
    /// before anything else happens.
    pub fn begin(ready: bool, now: u64, timeout_ms: u32) -> (r: Result<MotionRun, MotionError>)
        ensures
            r is Ok <==> ready,
            r is Err ==> r == Err::<MotionRun, MotionError>(MotionError::InvalidParameters),
            r is Ok ==> r->Ok_0 == (MotionRun {
                start_us: now,
                timeout_ms,
                phase: MotionPhase::Active,
            }),
    {
        if !ready {
            return Err(MotionError::InvalidParameters);
        }
        Ok(MotionRun { start_us: now, timeout_ms, phase: MotionPhase::Active })
    }

    /// Top of a tick at `now`: ends the motion with `Timeout` if the budget
    /// is used up, whatever the controller would say; a motion that is over
    /// stays over.
    pub fn check_timeout(&mut self, now: u64) -> (step: TickStep)
        ensures
            *final(self) == old(self).checked(now),
            step == match final(self).phase {
                MotionPhase::Active => TickStep::Control,
                MotionPhase::Finished(result) => TickStep::Halt(result),
            },
    {
        match self.phase {
            MotionPhase::Finished(result) => TickStep::Halt(result),
            MotionPhase::Active => {
                let elapsed: u64 = if now > self.start_us {
                    now - self.start_us
                } else {
                    0
                };
                // elapsed > timeout_ms * 1000, with the product in 64 bits
                if elapsed > (self.timeout_ms as u64) * 1000 {
                    self.phase = MotionPhase::Finished(MotionResult::Timeout);
                    TickStep::Halt(MotionResult::Timeout)
                } else {
                    TickStep::Control
                }
            },
        }
    }

    /// After the controller was updated: ends the motion with `Completed`
    /// if it has finished, else lets the motors be driven for one period.
    pub fn after_control(&mut self, finished: bool) -> (step: DriveStep)
        ensures
            *final(self) == old(self).controlled(finished),
            step == match final(self).phase {
                MotionPhase::Active => DriveStep::Drive { sleep_ms: CONTROL_PERIOD_MS },
                MotionPhase::Finished(result) => DriveStep::Halt(result),
            },
    {
        match self.phase {
            MotionPhase::Finished(result) => DriveStep::Halt(result),
            MotionPhase::Active => {
                if finished {
                    self.phase = MotionPhase::Finished(MotionResult::Completed);
                    DriveStep::Halt(MotionResult::Completed)
                } else {
                    DriveStep::Drive { sleep_ms: CONTROL_PERIOD_MS }
                }
            },
        }
    }

    /// Whether the motion is over.
    pub fn is_finished(&self) -> (b: bool)
        ensures
            b == (self.phase != MotionPhase::Active),
    {
        match self.phase {
            MotionPhase::Active => false,
            MotionPhase::Finished(_) => true,
        }
    }
}

/// A motion ends in exactly one of two ways and then stays ended: a tick of
/// an active motion ends it with `Timeout` if the budget is used up, else
/// with `Completed` if the controller has finished, else not at all; a tick
/// of a finished motion changes nothing.
pub proof fn lemma_motion_ends_once(run: MotionRun, now: u64, finished: bool)
    ensures
        run.phase == MotionPhase::Active ==> run.ticked(now, finished).phase == if timed_out(
            run.start_us,
            run.timeout_ms,
            now,
        ) {
            MotionPhase::Finished(MotionResult::Timeout)
        } else if finished {
            MotionPhase::Finished(MotionResult::Completed)
        } else {
            MotionPhase::Active
        },
        run.phase != MotionPhase::Active ==> run.ticked(now, finished) == run,
        run.ticked(now, finished).start_us == run.start_us,
        run.ticked(now, finished).timeout_ms == run.timeout_ms,
{
}

/// The time budget is enforced: a motion begun at `start` is never active
/// after a tick later than `start` plus its timeout.
pub proof fn lemma_motion_respects_timeout(start: u64, timeout_ms: u32, now: u64, finished: bool)
    requires
        now > start + timeout_ms * 1000,
    ensures
        (MotionRun { start_us: start, timeout_ms, phase: MotionPhase::Active }).ticked(
            now,
            finished,
        ).phase == MotionPhase::Finished(MotionResult::Timeout),
{
}

} // verus!
