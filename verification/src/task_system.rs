//! The plain periodic task: run or stop, and a count of updates.
//!
//! As with the managed task, the state is one owned value and the driver
//! of the loop does the outside work.

use vstd::prelude::*;
use crate::task_manager::TaskError;

verus! {

/// Configuration of the plain odometry task.
#[derive(Debug, Clone, Copy, PartialEq, Eq, Structural)]
pub struct TaskConfig {
    /// Update frequency in Hz.
    pub frequency_hz: u32,
    /// Whether the task starts right after calibration.
    pub auto_start: bool,
}

impl Default for TaskConfig {
    fn default() -> (r: Self)
        ensures
            r == (TaskConfig { frequency_hz: 100, auto_start: true }),
    {
        TaskConfig { frequency_hz: 100, auto_start: true }
    }
}

/// Snapshot of the plain task: updates done and whether it runs.
#[derive(Debug, Clone, Copy, PartialEq, Eq, Structural)]
pub struct TaskStats {
    pub updates_completed: u32,
    pub is_running: bool,
}

impl Default for TaskStats {
    fn default() -> (r: Self)
        ensures
            r == (TaskStats { updates_completed: 0, is_running: false }),
    {
        TaskStats { updates_completed: 0, is_running: false }
    }
}

/// What a task state is, to its callers.
pub struct TaskView {
    pub sensors_configured: bool,
    pub stats: TaskStats,
}

impl TaskView {
    /// Only a task with sensors runs.
    pub open spec fn wf(self) -> bool {
        self.stats.is_running ==> self.sensors_configured
    }

    /// Nothing configured, nothing counted, not running.
    pub open spec fn initial() -> Self {
        TaskView {
            sensors_configured: false,
            stats: TaskStats { updates_completed: 0, is_running: false },
        }
    }

    /// After a start request: runs if sensors are configured, else unchanged.
    pub open spec fn started(self) -> Self {
        if self.sensors_configured {
            TaskView { stats: TaskStats { is_running: true, ..self.stats }, ..self }
        } else {
            self
        }
    }

    /// After a stop request.
    pub open spec fn stopped(self) -> Self {
        TaskView { stats: TaskStats { is_running: false, ..self.stats }, ..self }
    }

    /// After one more update was counted.
    pub open spec fn recorded(self) -> Self {
        TaskView {
            stats: TaskStats {
                updates_completed: (self.stats.updates_completed + 1) as u32,
                ..self.stats
            },
            ..self
        }
    }
}

/// State of the plain task. Every value has a well-formed view.
pub struct TaskState {
    running: bool,
    sensors_configured: bool,
    stats: TaskStats,
}

impl View for TaskState {
    type V = TaskView;

    closed spec fn view(&self) -> TaskView {
        TaskView { sensors_configured: self.sensors_configured, stats: self.stats }
    }
}

impl TaskState {
    #[verifier::type_invariant]
    spec fn inv(self) -> bool {
        &&& self.stats.is_running == self.running
        &&& self@.wf()
    }
}

/// Milliseconds between updates while the task runs.
pub const UPDATE_SLEEP_MS: u64 = 10;

/// Milliseconds between polls while the task is stopped.
pub const STOPPED_SLEEP_MS: u64 = 50;

/// What the driver of the plain task does in one pass of its loop.
#[derive(Debug, Clone, Copy, PartialEq, Eq, Structural)]
pub enum TickPlan {
    /// Update the pose, call `record_update`, then sleep.
    Update { sleep_ms: u64 },
    /// Only sleep.
    Idle { sleep_ms: u64 },
}

/// The state before anything happened: no sensors, stopped, zero updates.
pub fn init() -> (state: TaskState)
    ensures
        state@ == TaskView::initial(),
        state@.wf(),
{
    TaskState {
        running: false,
        sensors_configured: false,
        stats: TaskStats { updates_completed: 0, is_running: false },
    }
}

/// Notes that sensors are configured. Nothing else changes.
pub fn configure_sensors(state: &mut TaskState) -> (r: Result<(), TaskError>)
    ensures
        r is Ok,
        final(state)@ == (TaskView { sensors_configured: true, ..old(state)@ }),
        final(state)@.wf(),
{
    proof {
        use_type_invariant(&*state);
    }
    state.sensors_configured = true;
    Ok(())
}

/// Starts the task. Fails, changing nothing, until sensors are configured.
pub fn start_task(state: &mut TaskState) -> (r: Result<(), TaskError>)
    ensures
        r is Ok <==> old(state)@.sensors_configured,
        r is Err ==> r == Err::<(), TaskError>(TaskError::SensorsNotConfigured),
        final(state)@ == old(state)@.started(),
        final(state)@.wf(),
{
    proof {
        use_type_invariant(&*state);
    }
    if !state.sensors_configured {
        return Err(TaskError::SensorsNotConfigured);
    }
    *state = TaskState {
        running: true,
        sensors_configured: state.sensors_configured,
        stats: TaskStats { updates_completed: state.stats.updates_completed, is_running: true },
    };
    Ok(())
}

/// Stops the task. The count of updates is kept.
pub fn stop_task(state: &mut TaskState)
    ensures
        final(state)@ == old(state)@.stopped(),
        final(state)@.wf(),
{
    proof {
        use_type_invariant(&*state);
    }
    *state = TaskState {
        running: false,
        sensors_configured: state.sensors_configured,
        stats: TaskStats { updates_completed: state.stats.updates_completed, is_running: false },
    };
}

/// A copy of the counters.
pub fn get_stats(state: &TaskState) -> (stats: TaskStats)
    ensures
        stats == state@.stats,
        state@.wf(),
{
    proof {
        use_type_invariant(state);
    }
    state.stats
}

/// Whether a pose update is due.
pub fn should_run(state: &TaskState) -> (b: bool)
    ensures
        b == state@.stats.is_running,
{
    proof {
        use_type_invariant(state);
    }
    state.running
}

/// Counts one finished update.
pub fn record_update(state: &mut TaskState)
    requires
        old(state)@.stats.updates_completed < u32::MAX,
    ensures
        final(state)@ == old(state)@.recorded(),
        final(state)@.wf(),
{
    proof {
        use_type_invariant(&*state);
    }
    state.stats = TaskStats {
        updates_completed: state.stats.updates_completed + 1,
        is_running: state.stats.is_running,
    };
}

/// One pass of the task loop: update and sleep briefly while running,
/// sleep longer while stopped.
pub fn plan_tick(state: &TaskState) -> (plan: TickPlan)
    ensures
        plan == if state@.stats.is_running {
            TickPlan::Update { sleep_ms: UPDATE_SLEEP_MS }
        } else {
            TickPlan::Idle { sleep_ms: STOPPED_SLEEP_MS }
        },
{
    if should_run(state) {
        TickPlan::Update { sleep_ms: UPDATE_SLEEP_MS }
    } else {
        TickPlan::Idle { sleep_ms: STOPPED_SLEEP_MS }
    }
}

/// Starting is refused exactly while no sensors are configured, and once
/// they are, start then stop returns to a stopped task with the same count.
pub proof fn lemma_start_needs_sensors(v: TaskView)
    requires
        v.wf(),
    ensures
        !v.sensors_configured ==> v.started() == v,
        v.sensors_configured ==> v.started().stats.is_running,
        v.started().stopped() == v.stopped(),
        v.started().wf() && v.stopped().wf() && v.recorded().wf(),
{
}

} // verus!
