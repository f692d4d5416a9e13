//! Lifecycle, statistics and deadline discipline of the periodic odometry task.
//!
//! The manager is one owned value. Whoever drives the task performs the
//! outside work (pose update, clock reads, sleeping) and hands the readings
//! to the functions here, which decide what the state becomes and what the
//! driver does next. Times are microseconds on a monotonic clock.

use vstd::prelude::*;

verus! {

/// Configuration of the odometry background task.
#[derive(Debug, Clone, Copy, PartialEq, Eq, Structural)]
pub struct OdometryTaskConfig {
    /// Update frequency in Hz.
    pub frequency_hz: u32,
    /// Task priority, higher is more important.
    pub priority: u8,
    /// Whether the task starts right after calibration.
    pub auto_start: bool,
    /// Lateness, in microseconds, tolerated before a cycle counts as late.
    pub max_jitter_us: u32,
}

impl Default for OdometryTaskConfig {
    fn default() -> (r: Self)
        ensures
            r == (OdometryTaskConfig {
                frequency_hz: 100,
                priority: 200,
                auto_start: true,
                max_jitter_us: 500,
            }),
    {
        OdometryTaskConfig { frequency_hz: 100, priority: 200, auto_start: true, max_jitter_us: 500 }
    }
}

impl OdometryTaskConfig {
    /// Length of one cycle in microseconds: whole milliseconds per cycle,
    /// so the division truncates.
    pub open spec fn spec_interval_us(self) -> int
        recommends
            self.frequency_hz > 0,
    {
        (1000int / (self.frequency_hz as int)) * 1000
    }

    /// The deadline that follows `deadline` for a cycle that ended at `now`,
    /// under this configuration's interval and tolerance.
    pub open spec fn spec_next_deadline(self, deadline: u64, now: u64) -> int
        recommends
            self.frequency_hz > 0,
    {
        next_deadline(
            deadline as int,
            now as int,
            self.spec_interval_us(),
            self.max_jitter_us as int,
        )
    }

    /// Length of one cycle in microseconds.
    pub fn interval_us(&self) -> (r: u64)
        requires
            self.frequency_hz > 0,
        ensures
            r == self.spec_interval_us(),
            r <= 1_000_000,
    {
        let ms: u64 = 1000 / (self.frequency_hz as u64);
        ms * 1000
    }
}

/// Runtime control commands, consumed at most one per cycle.
#[derive(Debug, Clone, Copy, PartialEq, Eq, Structural)]
pub enum OdometryTaskCommand {
    Start,
    Stop,
    Pause,
    Resume,
    UpdateConfig(OdometryTaskConfig),
}

/// Snapshot of the task's performance counters and lifecycle flags.
#[derive(Debug, Clone, Copy, PartialEq, Eq, Structural)]
pub struct OdometryTaskStats {
    pub updates_completed: u32,
    pub total_update_time_us: u64,
    pub max_update_time_us: u32,
    pub min_update_time_us: u32,
    pub jitter_violations: u32,
    pub is_running: bool,
    pub is_paused: bool,
}

impl Default for OdometryTaskStats {
    fn default() -> (r: Self)
        ensures
            r == OdometryTaskStats::spec_zero(),
    {
        OdometryTaskStats {
            updates_completed: 0,
            total_update_time_us: 0,
            max_update_time_us: 0,
            min_update_time_us: 0,
            jitter_violations: 0,
            is_running: false,
            is_paused: false,
        }
    }
}

impl OdometryTaskStats {
    /// Counters before any update, task stopped.
    pub open spec fn spec_zero() -> Self {
        OdometryTaskStats {
            updates_completed: 0,
            total_update_time_us: 0,
            max_update_time_us: 0,
            min_update_time_us: 0,
            jitter_violations: 0,
            is_running: false,
            is_paused: false,
        }
    }

    /// What the counters can be after any run of recorded updates: late
    /// cycles are a part of all cycles, the extremes are ordered, and the
    /// total lies between the largest single duration and what that many
    /// 32-bit durations can add up to.
    pub open spec fn consistent(self) -> bool {
        &&& self.jitter_violations <= self.updates_completed
        &&& self.min_update_time_us <= self.max_update_time_us
        &&& self.max_update_time_us <= self.total_update_time_us
        &&& self.total_update_time_us <= self.updates_completed * 0xffff_ffff
    }

    /// The counters after one more update that took `update_time_us`: one
    /// more update, that much more time, the larger of the maxima, the
    /// smaller of the minima (the first update sets both), and one more
    /// late cycle if it was late.
    pub open spec fn recorded(self, update_time_us: u32, was_late: bool) -> Self {
        OdometryTaskStats {
            updates_completed: (self.updates_completed + 1) as u32,
            total_update_time_us: (self.total_update_time_us + update_time_us) as u64,
            max_update_time_us: if self.updates_completed == 0 || update_time_us
                > self.max_update_time_us {
                update_time_us
            } else {
                self.max_update_time_us
            },
            min_update_time_us: if self.updates_completed == 0 || update_time_us
                < self.min_update_time_us {
                update_time_us
            } else {
                self.min_update_time_us
            },
            jitter_violations: if was_late {
                (self.jitter_violations + 1) as u32
            } else {
                self.jitter_violations
            },
            ..self
        }
    }

    /// The counters after updates of the durations `times`, in order, the
    /// update at each index late or not as `late` says.
    pub open spec fn recorded_all(self, times: Seq<u32>, late: Seq<bool>) -> Self
        recommends
            times.len() == late.len(),
        decreases times.len(),
    {
        if times.len() == 0 {
            self
        } else {
            self.recorded_all(times.drop_last(), late.drop_last()).recorded(
                times.last(),
                late.last(),
            )
        }
    }
}

/// Sum of the durations.
pub open spec fn total_time(times: Seq<u32>) -> int
    decreases times.len(),
{
    if times.len() == 0 {
        0
    } else {
        total_time(times.drop_last()) + times.last()
    }
}

/// Number of late cycles.
pub open spec fn late_count(late: Seq<bool>) -> int
    decreases late.len(),
{
    if late.len() == 0 {
        0
    } else {
        late_count(late.drop_last()) + if late.last() {
            1int
        } else {
            0int
        }
    }
}

/// The counters are a summary of what was recorded. From zero counters,
/// after any run of updates short enough to be counted: the count is the
/// number of updates, the total is the sum of their durations, the late
/// count is the number of late ones, the minimum and the maximum are
/// durations that were recorded, and every recorded duration lies between
/// them.
pub proof fn lemma_counters_summarise_updates(times: Seq<u32>, late: Seq<bool>)
    requires
        times.len() == late.len(),
        0 < times.len() <= u32::MAX,
    ensures
        ({
            let s = OdometryTaskStats::spec_zero().recorded_all(times, late);
            &&& s.updates_completed == times.len()
            &&& s.total_update_time_us == total_time(times)
            &&& s.jitter_violations == late_count(late)
            &&& forall|i: int|
                0 <= i < times.len() ==> s.min_update_time_us <= #[trigger] times[i]
                    <= s.max_update_time_us
            &&& exists|i: int| 0 <= i < times.len() && #[trigger] times[i] == s.min_update_time_us
            &&& exists|i: int| 0 <= i < times.len() && #[trigger] times[i] == s.max_update_time_us
            &&& s.consistent()
        }),
    decreases times.len(),
{
    let zero = OdometryTaskStats::spec_zero();
    let init_t = times.drop_last();
    let init_l = late.drop_last();
    let before = zero.recorded_all(init_t, init_l);
    let s = zero.recorded_all(times, late);
    let n = init_t.len() as int;
    assert(times.last() == times[n]);
    if n == 0 {
        assert(before == zero);
        assert(total_time(init_t) == 0);
        assert(late_count(init_l) == 0);
        assert(s.min_update_time_us == times[0]);
        assert(s.max_update_time_us == times[0]);
    } else {
        lemma_counters_summarise_updates(init_t, init_l);
        assert(before.total_update_time_us + times.last() <= (before.updates_completed + 1)
            * 0xffff_ffff) by (nonlinear_arith)
            requires
                before.total_update_time_us <= before.updates_completed * 0xffff_ffff,
                times.last() <= 0xffff_ffff,
        ;
        let lo = choose|i: int| 0 <= i < init_t.len() && #[trigger] init_t[i]
            == before.min_update_time_us;
        let hi = choose|i: int| 0 <= i < init_t.len() && #[trigger] init_t[i]
            == before.max_update_time_us;
        assert(times[lo] == init_t[lo]);
        assert(times[hi] == init_t[hi]);
        assert forall|i: int| 0 <= i < times.len() implies s.min_update_time_us
            <= #[trigger] times[i] <= s.max_update_time_us by {
            if i < n {
                assert(times[i] == init_t[i]);
            }
        }
        if times[n] < before.min_update_time_us {
            assert(times[n] == s.min_update_time_us);
        } else {
            assert(times[lo] == s.min_update_time_us);
        }
        if times[n] > before.max_update_time_us {
            assert(times[n] == s.max_update_time_us);
        } else {
            assert(times[hi] == s.max_update_time_us);
        }
    }
}

/// Why a task operation was refused.
#[derive(Debug, Clone, Copy, PartialEq, Eq, Structural)]
pub enum TaskError {
    SensorsNotConfigured,
    InvalidConfiguration,
    TaskAlreadyRunning,
    TaskNotRunning,
}

impl TaskError {
    /// The text shown for each error.
    pub open spec fn spec_message(self) -> Seq<char> {
        match self {
            TaskError::SensorsNotConfigured => "Sensors must be configured before starting task"@,
            TaskError::InvalidConfiguration => "Invalid task configuration"@,
            TaskError::TaskAlreadyRunning => "Task is already running"@,
            TaskError::TaskNotRunning => "Task is not running"@,
        }
    }

    /// The text shown for this error.
    pub fn message(&self) -> (s: String)
        ensures
            s@ == self.spec_message(),
    {
        match self {
            TaskError::SensorsNotConfigured => "Sensors must be configured before starting task".to_owned(),
            TaskError::InvalidConfiguration => "Invalid task configuration".to_owned(),
            TaskError::TaskAlreadyRunning => "Task is already running".to_owned(),
            TaskError::TaskNotRunning => "Task is not running".to_owned(),
        }
    }
}

/// The three lifecycle states of the task.
#[derive(Debug, Clone, Copy, PartialEq, Eq, Structural)]
pub enum TaskMode {
    Stopped,
    Running,
    Paused,
}

/// What a manager is, to its callers: the configuration in force, whether
/// sensors are configured, and the counters with the lifecycle flags.
pub struct ManagerView {
    pub config: OdometryTaskConfig,
    pub sensors_configured: bool,
    pub stats: OdometryTaskStats,
}

impl ManagerView {
    /// The lifecycle state, read off the two flags.
    pub open spec fn mode(self) -> TaskMode {
        if !self.stats.is_running {
            TaskMode::Stopped
        } else if self.stats.is_paused {
            TaskMode::Paused
        } else {
            TaskMode::Running
        }
    }

    /// What holds of every manager: only a running task is paused, only a
    /// task with sensors runs, and the counters are consistent.
    pub open spec fn wf(self) -> bool {
        &&& self.stats.is_paused ==> self.stats.is_running
        &&& self.stats.is_running ==> self.sensors_configured
        &&& self.stats.consistent()
    }

    /// The initial view: default configuration, no sensors, zero counters.
    pub open spec fn initial() -> Self {
        ManagerView {
            config: OdometryTaskConfig {
                frequency_hz: 100,
                priority: 200,
                auto_start: true,
                max_jitter_us: 500,
            },
            sensors_configured: false,
            stats: OdometryTaskStats::spec_zero(),
        }
    }

    /// After sensors were configured.
    pub open spec fn with_sensors(self) -> Self {
        ManagerView { sensors_configured: true, ..self }
    }

    /// After a start request: a stopped task with sensors runs, anything
    /// else is unchanged.
    pub open spec fn started(self) -> Self {
        if self.sensors_configured && !self.stats.is_running {
            ManagerView {
                stats: OdometryTaskStats { is_running: true, is_paused: false, ..self.stats },
                ..self
            }
        } else {
            self
        }
    }

    /// After a stop request.
    pub open spec fn stopped(self) -> Self {
        ManagerView {
            stats: OdometryTaskStats { is_running: false, is_paused: false, ..self.stats },
            ..self
        }
    }

    /// After a pause request: only a running task notices.
    pub open spec fn paused(self) -> Self {
        if self.stats.is_running {
            ManagerView { stats: OdometryTaskStats { is_paused: true, ..self.stats }, ..self }
        } else {
            self
        }
    }

    /// After a resume request: only a running task notices.
    pub open spec fn resumed(self) -> Self {
        if self.stats.is_running {
            ManagerView { stats: OdometryTaskStats { is_paused: false, ..self.stats }, ..self }
        } else {
            self
        }
    }

    /// After the configuration was replaced.
    pub open spec fn with_config(self, config: OdometryTaskConfig) -> Self {
        ManagerView { config, ..self }
    }

    /// After one more update was counted.
    pub open spec fn recorded(self, update_time_us: u32, was_late: bool) -> Self {
        ManagerView { stats: self.stats.recorded(update_time_us, was_late), ..self }
    }

    /// Whether a cycle scheduled for `deadline` that ended at `now` can be
    /// closed: the frequency is above zero, the update counter has room,
    /// and the next deadline fits the 64-bit clock.
    pub open spec fn can_finish_cycle(self, deadline: u64, now: u64) -> bool {
        &&& self.config.frequency_hz > 0
        &&& self.stats.updates_completed < u32::MAX
        &&& self.config.spec_next_deadline(deadline, now) <= u64::MAX
    }

    /// After a command was consumed. A refused start changes nothing.
    pub open spec fn after(self, command: OdometryTaskCommand) -> Self {
        match command {
            OdometryTaskCommand::Start => self.started(),
            OdometryTaskCommand::Stop => self.stopped(),
            OdometryTaskCommand::Pause => self.paused(),
            OdometryTaskCommand::Resume => self.resumed(),
            OdometryTaskCommand::UpdateConfig(config) => self.with_config(config),
        }
    }

    /// After the command of one cycle, if there was one.
    pub open spec fn after_pending(self, command: Option<OdometryTaskCommand>) -> Self {
        match command {
            Some(c) => self.after(c),
            None => self,
        }
    }
}

/// State of the odometry background task: configuration, lifecycle and
/// counters. Every value of this type has a well-formed view.
pub struct OdometryTaskManager {
    config: OdometryTaskConfig,
    is_running: bool,
    is_paused: bool,
    sensors_configured: bool,
    stats: OdometryTaskStats,
}

impl View for OdometryTaskManager {
    type V = ManagerView;

    closed spec fn view(&self) -> ManagerView {
        ManagerView {
            config: self.config,
            sensors_configured: self.sensors_configured,
            stats: self.stats,
        }
    }
}

/// Milliseconds to sleep before polling again while the task does not run.
pub const IDLE_POLL_MS: u64 = 10;

/// What the driver of the task does in the cycle that begins.
#[derive(Debug, Clone, Copy, PartialEq, Eq, Structural)]
pub enum CyclePlan {
    /// Perform one pose update, time it, then call `finish_cycle`.
    Update,
    /// Do nothing but sleep this many milliseconds.
    Idle { sleep_ms: u64 },
}

/// How a cycle begins: what to do, and the error of a command that was
/// refused, if one was.
#[derive(Debug, Clone, Copy, PartialEq, Eq, Structural)]
pub struct CycleStart {
    pub plan: CyclePlan,
    pub refused: Option<TaskError>,
}

/// How the driver waits once an update is counted.
#[derive(Debug, Clone, Copy, PartialEq, Eq, Structural)]
pub enum CycleWait {
    /// Sleep until the next deadline.
    SleepUntilDeadline,
    /// Only yield: the cycle was late and the deadline was re-anchored.
    Yield,
}

/// Result of one counted update.
#[derive(Debug, Clone, Copy, PartialEq, Eq, Structural)]
pub struct CycleOutcome {
    pub was_late: bool,
    pub next_update: u64,
    pub wait: CycleWait,
}

/// A cycle is late when it ends after its deadline plus the tolerance.
pub open spec fn is_late(deadline: int, now: int, jitter_us: int) -> bool {
    now > deadline + jitter_us
}

/// The deadline that follows `deadline`: one interval later, whenever the
/// cycle ended; but one interval after `now` if the cycle was late.
pub open spec fn next_deadline(deadline: int, now: int, interval_us: int, jitter_us: int) -> int {
    if is_late(deadline, now, jitter_us) {
        now + interval_us
    } else {
        deadline + interval_us
    }
}

/// The deadline in force after cycles that ended at the times `ends`, in
/// order, starting from the deadline `start`.
pub open spec fn deadline_after(start: int, ends: Seq<int>, interval_us: int, jitter_us: int) -> int
    decreases ends.len(),
{
    if ends.len() == 0 {
        start
    } else {
        next_deadline(
            deadline_after(start, ends.drop_last(), interval_us, jitter_us),
            ends.last(),
            interval_us,
            jitter_us,
        )
    }
}

/// On-time cycles do not drift: while every cycle ends within the tolerance
/// of its deadline, the deadline after `n` cycles is the first one plus
/// exactly `n` intervals, whatever the cycles' actual end times were.
pub proof fn lemma_on_time_deadlines_do_not_drift(
    start: int,
    ends: Seq<int>,
    interval_us: int,
    jitter_us: int,
)
    requires
        forall|i: int|
            0 <= i < ends.len() ==> !is_late(start + i * interval_us, #[trigger] ends[i], jitter_us),
    ensures
        deadline_after(start, ends, interval_us, jitter_us) == start + ends.len() * interval_us,
    decreases ends.len(),
{
    if ends.len() > 0 {
        let init = ends.drop_last();
        assert forall|i: int| 0 <= i < init.len() implies !is_late(
            start + i * interval_us,
            #[trigger] init[i],
            jitter_us,
        ) by {
            assert(init[i] == ends[i]);
        }
        lemma_on_time_deadlines_do_not_drift(start, init, interval_us, jitter_us);
        let n = init.len() as int;
        assert(ends.last() == ends[n]);
        assert((n + 1) * interval_us == n * interval_us + interval_us) by (nonlinear_arith);
    }
}

/// On-time cycles step by the interval: while every cycle ends within the
/// tolerance of its deadline, the deadline in force after `k` of them is
/// the first plus `k` intervals, for every `k`, so each deadline is its
/// predecessor plus one interval and none is computed from the clock. If
/// the last deadline fits the 64-bit clock and the interval is not
/// negative, so does every one before it.
pub proof fn lemma_on_time_deadlines_step_by_interval(
    start: int,
    ends: Seq<int>,
    interval_us: int,
    jitter_us: int,
)
    requires
        forall|i: int|
            0 <= i < ends.len() ==> !is_late(start + i * interval_us, #[trigger] ends[i], jitter_us),
    ensures
        forall|k: int|
            0 <= k <= ends.len() ==> #[trigger] deadline_after(
                start,
                ends.take(k),
                interval_us,
                jitter_us,
            ) == start + k * interval_us,
        forall|k: int|
            0 <= k < ends.len() ==> deadline_after(start, ends.take(k + 1), interval_us, jitter_us)
                == #[trigger] deadline_after(start, ends.take(k), interval_us, jitter_us)
                + interval_us,
        interval_us >= 0 && start + ends.len() * interval_us <= u64::MAX ==> forall|k: int|
            0 <= k <= ends.len() ==> #[trigger] deadline_after(
                start,
                ends.take(k),
                interval_us,
                jitter_us,
            ) <= u64::MAX,
{
    assert forall|k: int| 0 <= k <= ends.len() implies #[trigger] deadline_after(
        start,
        ends.take(k),
        interval_us,
        jitter_us,
    ) == start + k * interval_us by {
        let prefix = ends.take(k);
        assert forall|i: int| 0 <= i < prefix.len() implies !is_late(
            start + i * interval_us,
            #[trigger] prefix[i],
            jitter_us,
        ) by {
            assert(prefix[i] == ends[i]);
        }
        lemma_on_time_deadlines_do_not_drift(start, prefix, interval_us, jitter_us);
    }
    assert forall|k: int| 0 <= k < ends.len() implies deadline_after(
        start,
        ends.take(k + 1),
        interval_us,
        jitter_us,
    ) == #[trigger] deadline_after(start, ends.take(k), interval_us, jitter_us) + interval_us by {
        assert(deadline_after(start, ends.take(k + 1), interval_us, jitter_us) == start + (k + 1)
            * interval_us);
        assert((k + 1) * interval_us == k * interval_us + interval_us) by (nonlinear_arith);
    }
    if interval_us >= 0 && start + ends.len() * interval_us <= u64::MAX {
        assert forall|k: int| 0 <= k <= ends.len() implies #[trigger] deadline_after(
            start,
            ends.take(k),
            interval_us,
            jitter_us,
        ) <= u64::MAX by {
            let n = ends.len() as int;
            assert(k * interval_us <= n * interval_us) by (nonlinear_arith)
                requires
                    0 <= k <= n,
                    interval_us >= 0,
            ;
        }
    }
}

/// A late cycle leaves no backlog: the re-anchored deadline lies a full
/// interval after the moment the cycle ended.
pub proof fn lemma_late_cycle_is_reanchored(
    deadline: int,
    now: int,
    interval_us: int,
    jitter_us: int,
)
    requires
        is_late(deadline, now, jitter_us),
    ensures
        next_deadline(deadline, now, interval_us, jitter_us) - now == interval_us,
{
}

/// Every transition keeps a well-formed view well formed.
pub proof fn lemma_transitions_keep_wf(
    v: ManagerView,
    command: OdometryTaskCommand,
    update_time_us: u32,
    was_late: bool,
)
    requires
        v.wf(),
    ensures
        ManagerView::initial().wf(),
        v.with_sensors().wf(),
        v.after(command).wf(),
        v.stats.updates_completed < u32::MAX ==> v.recorded(update_time_us, was_late).wf(),
{
    if v.stats.updates_completed < u32::MAX {
        assert(v.stats.total_update_time_us + update_time_us <= (v.stats.updates_completed + 1)
            * 0xffff_ffff) by (nonlinear_arith)
            requires
                v.stats.total_update_time_us <= v.stats.updates_completed * 0xffff_ffff,
                update_time_us <= 0xffff_ffff,
        ;
    }
}

/// The lifecycle is the machine Stopped, Running, Paused: start leads from
/// Stopped to Running once sensors are configured and is otherwise without
/// effect, pause and resume lead between Running and Paused and leave
/// Stopped alone, stop leads to Stopped from anywhere, and a new
/// configuration changes no state.
pub proof fn lemma_lifecycle(v: ManagerView, config: OdometryTaskConfig)
    requires
        v.wf(),
    ensures
        v.started().mode() == if v.mode() == TaskMode::Stopped && v.sensors_configured {
            TaskMode::Running
        } else {
            v.mode()
        },
        v.stopped().mode() == TaskMode::Stopped,
        v.paused().mode() == if v.mode() == TaskMode::Stopped {
            TaskMode::Stopped
        } else {
            TaskMode::Paused
        },
        v.resumed().mode() == if v.mode() == TaskMode::Stopped {
            TaskMode::Stopped
        } else {
            TaskMode::Running
        },
        v.with_config(config).mode() == v.mode(),
{
}

impl OdometryTaskManager {
    #[verifier::type_invariant]
    spec fn inv(self) -> bool {
        &&& self.stats.is_running == self.is_running
        &&& self.stats.is_paused == self.is_paused
        &&& self@.wf()
    }

    /// A stopped task with the default configuration, no sensors and zero counters.
    pub fn new() -> (m: Self)
        ensures
            m@ == ManagerView::initial(),
            m@.wf(),
    {
        OdometryTaskManager {
            config: OdometryTaskConfig::default(),
            is_running: false,
            is_paused: false,
            sensors_configured: false,
            stats: OdometryTaskStats::default(),
        }
    }

    /// Notes that sensors are configured. Nothing else changes.
    pub fn configure_sensors(&mut self) -> (r: Result<(), TaskError>)
        ensures
            r is Ok,
            final(self)@ == old(self)@.with_sensors(),
            final(self)@.wf(),
    {
        proof {
            use_type_invariant(&*self);
        }
        self.sensors_configured = true;
        Ok(())
    }

    /// Starts the task. Fails, changing nothing, until sensors are
    /// configured. A stopped task becomes running; a running or paused task
    /// stays as it is.
    pub fn start(&mut self) -> (r: Result<(), TaskError>)
        ensures
            r is Ok <==> old(self)@.sensors_configured,
            r is Err ==> r == Err::<(), TaskError>(TaskError::SensorsNotConfigured),
            final(self)@ == old(self)@.started(),
            final(self)@.wf(),
    {
        proof {
            use_type_invariant(&*self);
        }
        if !self.sensors_configured {
            return Err(TaskError::SensorsNotConfigured);
        }
        if !self.is_running {
            let stats = OdometryTaskStats { is_running: true, is_paused: false, ..self.stats };
            *self = OdometryTaskManager {
                config: self.config,
                is_running: true,
                is_paused: false,
                sensors_configured: self.sensors_configured,
                stats,
            };
        }
        Ok(())
    }

    /// Stops the task from any state. The counters are kept.
    pub fn stop(&mut self)
        ensures
            final(self)@ == old(self)@.stopped(),
            final(self)@.wf(),
    {
        proof {
            use_type_invariant(&*self);
        }
        let stats = OdometryTaskStats { is_running: false, is_paused: false, ..self.stats };
        *self = OdometryTaskManager {
            config: self.config,
            is_running: false,
            is_paused: false,
            sensors_configured: self.sensors_configured,
            stats,
        };
    }

    /// Pauses a running task. A stopped task is left alone.
    pub fn pause(&mut self)
        ensures
            final(self)@ == old(self)@.paused(),
            final(self)@.wf(),
    {
        proof {
            use_type_invariant(&*self);
        }
        if self.is_running {
            let stats = OdometryTaskStats { is_paused: true, ..self.stats };
            *self = OdometryTaskManager {
                config: self.config,
                is_running: self.is_running,
                is_paused: true,
                sensors_configured: self.sensors_configured,
                stats,
            };
        }
    }

    /// Resumes a paused task. A stopped task is left alone.
    pub fn resume(&mut self)
        ensures
            final(self)@ == old(self)@.resumed(),
            final(self)@.wf(),
    {
        proof {
            use_type_invariant(&*self);
        }
        if self.is_running {
            let stats = OdometryTaskStats { is_paused: false, ..self.stats };
            *self = OdometryTaskManager {
                config: self.config,
                is_running: self.is_running,
                is_paused: false,
                sensors_configured: self.sensors_configured,
                stats,
            };
        }
    }

    /// Replaces the configuration. Lifecycle and counters are untouched.
    pub fn update_config(&mut self, config: OdometryTaskConfig)
        ensures
            final(self)@ == old(self)@.with_config(config),
            final(self)@.wf(),
    {
        proof {
            use_type_invariant(&*self);
        }
        self.config = config;
    }

    /// A copy of the counters and lifecycle flags.
    pub fn get_stats(&self) -> (s: OdometryTaskStats)
        ensures
            s == self@.stats,
            self@.wf(),
    {
        proof {
            use_type_invariant(self);
        }
        self.stats
    }

    /// A copy of the configuration in force.
    pub fn get_config(&self) -> (c: OdometryTaskConfig)
        ensures
            c == self@.config,
    {
        self.config
    }

    /// Whether sensors have been configured.
    pub fn sensors_configured(&self) -> (b: bool)
        ensures
            b == self@.sensors_configured,
    {
        self.sensors_configured
    }

    /// Whether a pose update is due this cycle: running and not paused.
    pub fn should_run(&self) -> (b: bool)
        ensures
            b == (self@.mode() == TaskMode::Running),
    {
        proof {
            use_type_invariant(self);
        }
        self.is_running && !self.is_paused
    }

    /// Counts one finished update of `update_time_us` microseconds.
    pub fn record_update(&mut self, update_time_us: u32, was_late: bool)
        requires
            old(self)@.stats.updates_completed < u32::MAX,
        ensures
            final(self)@ == old(self)@.recorded(update_time_us, was_late),
            final(self)@.wf(),
    {
        proof {
            use_type_invariant(&*self);
        }
        let old_stats = self.stats;
        assert(old_stats.total_update_time_us + update_time_us <= (old_stats.updates_completed + 1)
            * 0xffff_ffff) by (nonlinear_arith)
            requires
                old_stats.total_update_time_us <= old_stats.updates_completed * 0xffff_ffff,
                update_time_us <= 0xffff_ffff,
        ;
        let first = old_stats.updates_completed == 0;
        let max_time: u32 = if first || update_time_us > old_stats.max_update_time_us {
            update_time_us
        } else {
            old_stats.max_update_time_us
        };
        let min_time: u32 = if first || update_time_us < old_stats.min_update_time_us {
            update_time_us
        } else {
            old_stats.min_update_time_us
        };
        let late: u32 = if was_late {
            old_stats.jitter_violations + 1
        } else {
            old_stats.jitter_violations
        };
        self.stats = OdometryTaskStats {
            updates_completed: old_stats.updates_completed + 1,
            total_update_time_us: old_stats.total_update_time_us + update_time_us as u64,
            max_update_time_us: max_time,
            min_update_time_us: min_time,
            jitter_violations: late,
            is_running: old_stats.is_running,
            is_paused: old_stats.is_paused,
        };
    }

    /// Consumes one command. Only a start can be refused, and is exactly
    /// while no sensors are configured; the state is then unchanged.
    pub fn handle_command(&mut self, command: OdometryTaskCommand) -> (r: Result<(), TaskError>)
        ensures
            r is Err <==> command == OdometryTaskCommand::Start && !old(self)@.sensors_configured,
            r is Err ==> r == Err::<(), TaskError>(TaskError::SensorsNotConfigured),
            final(self)@ == old(self)@.after(command),
            final(self)@.wf(),
    {
        match command {
            OdometryTaskCommand::Start => self.start(),
            OdometryTaskCommand::Stop => {
                self.stop();
                Ok(())
            },
            OdometryTaskCommand::Pause => {
                self.pause();
                Ok(())
            },
            OdometryTaskCommand::Resume => {
                self.resume();
                Ok(())
            },
            OdometryTaskCommand::UpdateConfig(config) => {
                self.update_config(config);
                Ok(())
            },
        }
    }

    /// Opens one cycle of the task loop: consumes the pending command, if
    /// any, and says whether a pose update is due or the loop idles. A
    /// refused command is reported and the cycle goes on.
    pub fn begin_cycle(&mut self, command: Option<OdometryTaskCommand>) -> (start: CycleStart)
        ensures
            final(self)@ == old(self)@.after_pending(command),
            final(self)@.wf(),
            start.plan == if final(self)@.mode() == TaskMode::Running {
                CyclePlan::Update
            } else {
                CyclePlan::Idle { sleep_ms: IDLE_POLL_MS }
            },
            start.refused == if command == Some(OdometryTaskCommand::Start)
                && !old(self)@.sensors_configured {
                Some(TaskError::SensorsNotConfigured)
            } else {
                None
            },
    {
        proof {
            use_type_invariant(&*self);
        }
        let refused = match command {
            Some(c) => match self.handle_command(c) {
                Ok(()) => None,
                Err(e) => Some(e),
            },
            None => None,
        };
        let plan = if self.should_run() {
            CyclePlan::Update
        } else {
            CyclePlan::Idle { sleep_ms: IDLE_POLL_MS }
        };
        CycleStart { plan, refused }
    }

    /// Closes a cycle in which a pose update ran. `deadline` is the deadline
    /// the cycle was scheduled for, `update_time_us` how long the update
    /// took and `now` the time after it. Classifies the cycle, counts it and
    /// gives the next deadline and how to wait for it. Asked of the caller:
    /// a frequency above zero, room in the update counter, and a next
    /// deadline that the 64-bit clock can hold.
    pub fn finish_cycle(&mut self, deadline: u64, update_time_us: u32, now: u64) -> (out:
        CycleOutcome)
        requires
            old(self)@.can_finish_cycle(deadline, now),
        ensures
            out.was_late == is_late(deadline as int, now as int, old(self)@.config.max_jitter_us as int),
            out.next_update == old(self)@.config.spec_next_deadline(deadline, now),
            out.wait == if out.was_late {
                CycleWait::Yield
            } else {
                CycleWait::SleepUntilDeadline
            },
            final(self)@ == old(self)@.recorded(update_time_us, out.was_late),
            final(self)@.wf(),
    {
        let interval: u64 = self.config.interval_us();
        let was_late = now > deadline && now - deadline > self.config.max_jitter_us as u64;
        self.record_update(update_time_us, was_late);
        if was_late {
            CycleOutcome { was_late, next_update: now + interval, wait: CycleWait::Yield }
        } else {
            CycleOutcome {
                was_late,
                next_update: deadline + interval,
                wait: CycleWait::SleepUntilDeadline,
            }
        }
    }

    /// As `finish_cycle`, for a caller that cannot vouch for the machine
    /// limits: where the cycle cannot be closed, nothing changes and the
    /// answer is `None`.
    pub fn try_finish_cycle(&mut self, deadline: u64, update_time_us: u32, now: u64) -> (r: Option<
        CycleOutcome,
    >)
        ensures
            r is Some <==> old(self)@.can_finish_cycle(deadline, now),
            r is None ==> final(self)@ == old(self)@,
            r is Some ==> {
                let out = r->0;
                &&& out.was_late == is_late(
                    deadline as int,
                    now as int,
                    old(self)@.config.max_jitter_us as int,
                )
                &&& out.next_update == old(self)@.config.spec_next_deadline(deadline, now)
                &&& out.wait == if out.was_late {
                    CycleWait::Yield
                } else {
                    CycleWait::SleepUntilDeadline
                }
                &&& final(self)@ == old(self)@.recorded(update_time_us, out.was_late)
            },
            final(self)@.wf(),
    {
        proof {
            use_type_invariant(&*self);
        }
        if self.config.frequency_hz == 0 || self.stats.updates_completed == u32::MAX {
            return None;
        }
        let interval: u64 = self.config.interval_us();
        let was_late = now > deadline && now - deadline > self.config.max_jitter_us as u64;
        let base: u64 = if was_late {
            now
        } else {
            deadline
        };
        if base > u64::MAX - interval {
            return None;
        }
        Some(self.finish_cycle(deadline, update_time_us, now))
    }
}

} // verus!
