//! What every motion controller shares: the outcomes of a motion and the
//! bookkeeping of its progress.
//!
//! A controller measures distances and errors itself; it tells the progress
//! record only on which side of each radius or threshold they fall.

use vstd::prelude::*;
use crate::exit_conditions::{ExitConditions, ExitConditionsView, Readings};

verus! {

/// Why a motion could not run or ended badly.
#[derive(Debug, Clone, Copy, PartialEq, Eq, Structural)]
pub enum MotionError {
    /// The motion exceeded its time budget.
    Timeout,
    /// The motion was cancelled on request.
    Cancelled,
    /// Odometry sensors are not ready or not configured.
    SensorsNotReady,
    /// The parameters of the motion are invalid.
    InvalidParameters,
    /// A device failed during the motion.
    HardwareError,
}

impl MotionError {
    /// The text shown for each error.
    pub open spec fn spec_message(self) -> Seq<char> {
        match self {
            MotionError::Timeout => "Motion timed out"@,
            MotionError::Cancelled => "Motion was cancelled"@,
            MotionError::SensorsNotReady => "Odometry sensors not ready"@,
            MotionError::InvalidParameters => "Invalid motion parameters"@,
            MotionError::HardwareError => "Hardware error occurred"@,
        }
    }

    /// The text shown for this error.
    pub fn message(&self) -> (s: String)
        ensures
            s@ == self.spec_message(),
    {
        match self {
            MotionError::Timeout => "Motion timed out".to_owned(),
            MotionError::Cancelled => "Motion was cancelled".to_owned(),
            MotionError::SensorsNotReady => "Odometry sensors not ready".to_owned(),
            MotionError::InvalidParameters => "Invalid motion parameters".to_owned(),
            MotionError::HardwareError => "Hardware error occurred".to_owned(),
        }
    }
}

/// How a motion ended. `Completed` and `Timeout` are the two ordinary ends.
#[derive(Debug, Clone, Copy, PartialEq, Eq, Structural)]
pub enum MotionResult {
    /// The target was reached within tolerance.
    Completed,
    /// The motion was cancelled before it completed.
    Cancelled,
    /// The time budget ran out first.
    Timeout,
    /// The motion ended with an error.
    Error(MotionError),
}

/// The sign a lateral command is held to.
#[derive(Debug, Clone, Copy, PartialEq, Eq, Structural)]
pub enum LateralClamp {
    /// No restriction: the robot may settle in either direction.
    Free,
    /// Not below zero: a robot travelling forwards does not back up.
    ForwardOnly,
    /// Not above zero: a robot travelling backwards does not advance.
    BackwardOnly,
}

/// Progress of one motion: whether it has finished, whether the robot has
/// come close to the target, and whether the final turn has begun. The two
/// nearness flags latch; only `reset` clears them.
#[derive(Debug, Clone, Copy, PartialEq, Eq, Structural)]
pub struct MotionProgress {
    pub finished: bool,
    pub close_to_target: bool,
    pub final_turn_phase: bool,
}

impl MotionProgress {
    /// Progress of a motion that has not begun.
    pub open spec fn spec_new() -> Self {
        MotionProgress { finished: false, close_to_target: false, final_turn_phase: false }
    }

    /// Progress after the distance to the target was compared with the
    /// near-target radius and the final-turn radius.
    pub open spec fn approached(self, within_close_radius: bool, within_final_radius: bool) -> Self {
        MotionProgress {
            finished: self.finished,
            close_to_target: self.close_to_target || within_close_radius,
            final_turn_phase: self.final_turn_phase || within_final_radius,
        }
    }

    /// The restriction on the lateral command: none once close to the
    /// target, the travel direction's sign before.
    pub open spec fn spec_lateral_clamp(self, forwards: bool) -> LateralClamp {
        if self.close_to_target {
            LateralClamp::Free
        } else if forwards {
            LateralClamp::ForwardOnly
        } else {
            LateralClamp::BackwardOnly
        }
    }

    /// Progress of a motion that has not begun.
    pub fn new() -> (p: Self)
        ensures
            p == Self::spec_new(),
    {
        MotionProgress { finished: false, close_to_target: false, final_turn_phase: false }
    }

    /// Back to the beginning, for the next motion.
    pub fn reset(&mut self)
        ensures
            *final(self) == Self::spec_new(),
    {
        self.finished = false;
        self.close_to_target = false;
        self.final_turn_phase = false;
    }

    /// Notes on which side of the near-target radius and of the final-turn
    /// radius the robot is. A flag once set stays set.
    pub fn approach(&mut self, within_close_radius: bool, within_final_radius: bool)
        ensures
            *final(self) == old(self).approached(within_close_radius, within_final_radius),
    {
        if within_close_radius && !self.close_to_target {
            self.close_to_target = true;
        }
        if within_final_radius && !self.final_turn_phase {
            self.final_turn_phase = true;
        }
    }

    /// The restriction to put on this tick's lateral command.
    pub fn lateral_clamp(&self, forwards: bool) -> (clamp: LateralClamp)
        ensures
            clamp == self.spec_lateral_clamp(forwards),
    {
        if self.close_to_target {
            LateralClamp::Free
        } else if forwards {
            LateralClamp::ForwardOnly
        } else {
            LateralClamp::BackwardOnly
        }
    }

    /// Ends a control tick at time `now`: the motion has finished if an
    /// exit condition is met, or if the robot is within the early-exit
    /// range. The exit conditions take the tick's readings either way.
    pub fn conclude(
        &mut self,
        conditions: &mut ExitConditions,
        readings: Readings,
        now: u64,
        within_early_exit_range: bool,
    ) -> (finished: bool)
        ensures
            finished == (old(conditions)@.exits(readings, now) || within_early_exit_range),
            final(conditions)@ == old(conditions)@.observe(readings, now),
            *final(self) == (MotionProgress { finished, ..*old(self) }),
    {
        self.finished = conditions.should_exit(readings, now);
        if !self.finished && within_early_exit_range {
            self.finished = true;
        }
        self.finished
    }

    /// Whether the motion has finished.
    pub fn is_finished(&self) -> (b: bool)
        ensures
            b == self.finished,
    {
        self.finished
    }

    /// Whether the final turn has begun.
    pub fn is_final_turn_phase(&self) -> (b: bool)
        ensures
            b == self.final_turn_phase,
    {
        self.final_turn_phase
    }
}

/// The nearness flags only ever go up: after any comparison a flag that was
/// set is still set, and the lateral command, once free, stays free.
pub proof fn lemma_nearness_latches(
    p: MotionProgress,
    within_close_radius: bool,
    within_final_radius: bool,
    forwards: bool,
)
    ensures
        p.close_to_target ==> p.approached(within_close_radius, within_final_radius).close_to_target,
        p.final_turn_phase ==> p.approached(
            within_close_radius,
            within_final_radius,
        ).final_turn_phase,
        p.spec_lateral_clamp(forwards) == LateralClamp::Free ==> p.approached(
            within_close_radius,
            within_final_radius,
        ).spec_lateral_clamp(forwards) == LateralClamp::Free,
{
}

/// A robot that stands on its target ends its motion within one tick when
/// the small-error condition has a zero timeout: whatever the conditions
/// have seen before and whatever the clock shows, the tick that finds the
/// error inside the threshold finishes the motion.
pub proof fn lemma_settled_robot_finishes(
    conditions: ExitConditionsView,
    readings: Readings,
    now: u64,
)
    requires
        conditions.small_error.timeout_ms == 0,
        readings.small_within,
    ensures
        conditions.exits(readings, now),
{
}

} // verus!
