use gravlib::task_manager::{
    CycleOutcome, CyclePlan, CycleStart, CycleWait, OdometryTaskCommand, OdometryTaskConfig,
    OdometryTaskManager, OdometryTaskStats, TaskError, IDLE_POLL_MS,
};

fn running_manager() -> OdometryTaskManager {
    let mut manager = OdometryTaskManager::new();
    manager.configure_sensors().unwrap();
    manager.start().unwrap();
    manager
}

#[test]
fn default_config_values() {
    let config = OdometryTaskConfig::default();
    assert_eq!(config.frequency_hz, 100);
    assert_eq!(config.priority, 200);
    assert!(config.auto_start);
    assert_eq!(config.max_jitter_us, 500);
}

#[test]
fn interval_is_whole_milliseconds() {
    let mut config = OdometryTaskConfig::default();
    assert_eq!(config.interval_us(), 10_000);
    config.frequency_hz = 300;
    assert_eq!(config.interval_us(), 3_000);
    config.frequency_hz = 1;
    assert_eq!(config.interval_us(), 1_000_000);
    config.frequency_hz = 1001;
    assert_eq!(config.interval_us(), 0);
}

#[test]
fn new_manager_is_stopped_and_empty() {
    let manager = OdometryTaskManager::new();
    assert!(!manager.should_run());
    assert!(!manager.sensors_configured());
    assert_eq!(manager.get_stats(), OdometryTaskStats::default());
    assert_eq!(manager.get_config(), OdometryTaskConfig::default());
}

#[test]
fn start_is_refused_without_sensors() {
    let mut manager = OdometryTaskManager::new();
    assert_eq!(manager.start(), Err(TaskError::SensorsNotConfigured));
    assert!(!manager.should_run());
    assert_eq!(manager.get_stats(), OdometryTaskStats::default());
}

#[test]
fn start_runs_once_sensors_are_configured() {
    let mut manager = OdometryTaskManager::new();
    assert_eq!(manager.configure_sensors(), Ok(()));
    assert!(manager.sensors_configured());
    assert_eq!(manager.start(), Ok(()));
    assert!(manager.should_run());
    let stats = manager.get_stats();
    assert!(stats.is_running);
    assert!(!stats.is_paused);
}

#[test]
fn pause_and_resume_move_between_running_and_paused() {
    let mut manager = running_manager();
    manager.pause();
    assert!(!manager.should_run());
    assert!(manager.get_stats().is_running);
    assert!(manager.get_stats().is_paused);
    manager.resume();
    assert!(manager.should_run());
    assert!(!manager.get_stats().is_paused);
}

#[test]
fn pause_and_resume_leave_a_stopped_task_alone() {
    let mut manager = OdometryTaskManager::new();
    manager.configure_sensors().unwrap();
    manager.pause();
    assert_eq!(manager.get_stats(), OdometryTaskStats::default());
    manager.resume();
    assert_eq!(manager.get_stats(), OdometryTaskStats::default());
}

#[test]
fn start_does_not_unpause() {
    let mut manager = running_manager();
    manager.pause();
    assert_eq!(manager.start(), Ok(()));
    assert!(manager.get_stats().is_paused);
    assert!(!manager.should_run());
}

#[test]
fn stop_clears_both_flags_and_keeps_counters() {
    let mut manager = running_manager();
    manager.record_update(700, true);
    manager.pause();
    manager.stop();
    let stats = manager.get_stats();
    assert!(!stats.is_running);
    assert!(!stats.is_paused);
    assert_eq!(stats.updates_completed, 1);
    assert_eq!(stats.jitter_violations, 1);
    assert!(!manager.should_run());
}

#[test]
fn record_update_accumulates() {
    let mut manager = running_manager();
    manager.record_update(1_200, false);
    manager.record_update(800, true);
    manager.record_update(2_500, false);
    let stats = manager.get_stats();
    assert_eq!(stats.updates_completed, 3);
    assert_eq!(stats.total_update_time_us, 4_500);
    assert_eq!(stats.max_update_time_us, 2_500);
    assert_eq!(stats.min_update_time_us, 800);
    assert_eq!(stats.jitter_violations, 1);
}

#[test]
fn zero_length_update_stays_the_minimum() {
    let mut manager = running_manager();
    manager.record_update(500, false);
    manager.record_update(0, false);
    assert_eq!(manager.get_stats().min_update_time_us, 0);
    assert_eq!(manager.get_stats().max_update_time_us, 500);
    manager.record_update(900, false);
    assert_eq!(manager.get_stats().min_update_time_us, 0);
    assert_eq!(manager.get_stats().max_update_time_us, 900);
    assert_eq!(manager.get_stats().total_update_time_us, 1_400);
}

#[test]
fn first_update_sets_both_extremes() {
    let mut manager = running_manager();
    manager.record_update(0, false);
    assert_eq!(manager.get_stats().min_update_time_us, 0);
    assert_eq!(manager.get_stats().max_update_time_us, 0);
    manager.record_update(5, false);
    assert_eq!(manager.get_stats().min_update_time_us, 0);
    assert_eq!(manager.get_stats().max_update_time_us, 5);
}

#[test]
fn record_update_takes_the_largest_duration() {
    let mut manager = running_manager();
    manager.record_update(u32::MAX, true);
    manager.record_update(u32::MAX, true);
    let stats = manager.get_stats();
    assert_eq!(stats.total_update_time_us, 2 * (u32::MAX as u64));
    assert_eq!(stats.max_update_time_us, u32::MAX);
    assert_eq!(stats.min_update_time_us, u32::MAX);
}

#[test]
fn update_config_replaces_only_the_config() {
    let mut manager = running_manager();
    let config = OdometryTaskConfig {
        frequency_hz: 50,
        priority: 1,
        auto_start: false,
        max_jitter_us: 2_000,
    };
    manager.update_config(config);
    assert_eq!(manager.get_config(), config);
    assert!(manager.should_run());
}

#[test]
fn commands_drive_the_lifecycle() {
    let mut manager = OdometryTaskManager::new();
    assert_eq!(
        manager.handle_command(OdometryTaskCommand::Start),
        Err(TaskError::SensorsNotConfigured)
    );
    assert!(!manager.should_run());
    manager.configure_sensors().unwrap();
    assert_eq!(manager.handle_command(OdometryTaskCommand::Start), Ok(()));
    assert!(manager.should_run());
    assert_eq!(manager.handle_command(OdometryTaskCommand::Pause), Ok(()));
    assert!(!manager.should_run());
    assert_eq!(manager.handle_command(OdometryTaskCommand::Resume), Ok(()));
    assert!(manager.should_run());
    let config = OdometryTaskConfig { frequency_hz: 200, ..OdometryTaskConfig::default() };
    assert_eq!(manager.handle_command(OdometryTaskCommand::UpdateConfig(config)), Ok(()));
    assert_eq!(manager.get_config().frequency_hz, 200);
    assert_eq!(manager.handle_command(OdometryTaskCommand::Stop), Ok(()));
    assert!(!manager.should_run());
}

#[test]
fn commands_to_a_stopped_task_are_accepted_without_effect() {
    let mut manager = OdometryTaskManager::new();
    assert_eq!(manager.handle_command(OdometryTaskCommand::Pause), Ok(()));
    assert_eq!(manager.handle_command(OdometryTaskCommand::Resume), Ok(()));
    assert_eq!(manager.handle_command(OdometryTaskCommand::Stop), Ok(()));
    assert_eq!(manager.get_stats(), OdometryTaskStats::default());
}

#[test]
fn begin_cycle_idles_while_not_running() {
    let mut manager = OdometryTaskManager::new();
    let idle = CyclePlan::Idle { sleep_ms: IDLE_POLL_MS };
    assert_eq!(IDLE_POLL_MS, 10);
    assert_eq!(manager.begin_cycle(None), CycleStart { plan: idle, refused: None });
    assert_eq!(
        manager.begin_cycle(Some(OdometryTaskCommand::Start)),
        CycleStart { plan: idle, refused: Some(TaskError::SensorsNotConfigured) }
    );
}

#[test]
fn begin_cycle_applies_the_command_first() {
    let mut manager = OdometryTaskManager::new();
    manager.configure_sensors().unwrap();
    let update = CycleStart { plan: CyclePlan::Update, refused: None };
    let idle = CycleStart { plan: CyclePlan::Idle { sleep_ms: 10 }, refused: None };
    assert_eq!(manager.begin_cycle(Some(OdometryTaskCommand::Start)), update);
    assert_eq!(manager.begin_cycle(None), update);
    assert_eq!(manager.begin_cycle(Some(OdometryTaskCommand::Pause)), idle);
    assert_eq!(manager.begin_cycle(None), idle);
    assert_eq!(manager.begin_cycle(Some(OdometryTaskCommand::Resume)), update);
    assert_eq!(manager.begin_cycle(Some(OdometryTaskCommand::Stop)), idle);
}

#[test]
fn on_time_cycle_keeps_the_deadline_grid() {
    let mut manager = running_manager();
    let out = manager.finish_cycle(10_000, 1_200, 10_400);
    assert_eq!(
        out,
        CycleOutcome { was_late: false, next_update: 20_000, wait: CycleWait::SleepUntilDeadline }
    );
    assert_eq!(manager.get_stats().updates_completed, 1);
    assert_eq!(manager.get_stats().jitter_violations, 0);
}

#[test]
fn cycle_at_the_edge_of_the_tolerance_is_on_time() {
    let mut manager = running_manager();
    let out = manager.finish_cycle(10_000, 100, 10_500);
    assert!(!out.was_late);
    assert_eq!(out.next_update, 20_000);
    let late = manager.finish_cycle(20_000, 100, 20_501);
    assert!(late.was_late);
}

#[test]
fn late_cycle_is_reanchored_to_now() {
    let mut manager = running_manager();
    let out = manager.finish_cycle(10_000, 9_000, 10_501);
    assert_eq!(out, CycleOutcome { was_late: true, next_update: 20_501, wait: CycleWait::Yield });
    assert_eq!(manager.get_stats().jitter_violations, 1);
    assert_eq!(manager.get_stats().total_update_time_us, 9_000);
}

#[test]
fn deadlines_do_not_drift_over_on_time_cycles() {
    let mut manager = running_manager();
    let first: u64 = 1_000_000;
    let interval = manager.get_config().interval_us();
    let mut deadline = first;
    let offsets: [u64; 6] = [0, 120, 499, 3, 500, 250];
    for (n, offset) in offsets.iter().enumerate() {
        let out = manager.finish_cycle(deadline, 300, deadline + offset);
        assert!(!out.was_late);
        deadline = out.next_update;
        assert_eq!(deadline - first, (n as u64 + 1) * interval);
    }
    assert_eq!(manager.get_stats().updates_completed, 6);
    assert_eq!(manager.get_stats().jitter_violations, 0);
}

#[test]
fn cycle_that_ends_before_its_deadline_is_on_time() {
    let mut manager = running_manager();
    let out = manager.finish_cycle(10_000, 50, 9_000);
    assert!(!out.was_late);
    assert_eq!(out.next_update, 20_000);
}

#[test]
fn late_cycle_near_the_end_of_the_clock_needs_only_its_own_deadline_to_fit() {
    let mut manager = running_manager();
    // deadline plus tolerance would not fit the clock; the cycle is on time all the same
    let deadline = u64::MAX - 10_000;
    let out = manager.finish_cycle(deadline, 100, deadline);
    assert!(!out.was_late);
    assert_eq!(out.next_update, u64::MAX);
}

#[test]
fn try_finish_cycle_closes_a_cycle_that_fits() {
    let mut manager = running_manager();
    let out = manager.try_finish_cycle(10_000, 1_200, 10_400).unwrap();
    assert_eq!(
        out,
        CycleOutcome { was_late: false, next_update: 20_000, wait: CycleWait::SleepUntilDeadline }
    );
    let late = manager.try_finish_cycle(20_000, 800, 20_501).unwrap();
    assert_eq!(late, CycleOutcome { was_late: true, next_update: 30_501, wait: CycleWait::Yield });
    assert_eq!(manager.get_stats().updates_completed, 2);
    assert_eq!(manager.get_stats().jitter_violations, 1);
}

#[test]
fn try_finish_cycle_refuses_a_frequency_of_zero() {
    let mut manager = running_manager();
    manager.update_config(OdometryTaskConfig { frequency_hz: 0, ..OdometryTaskConfig::default() });
    assert_eq!(manager.try_finish_cycle(10_000, 1_200, 10_400), None);
    assert_eq!(manager.get_stats().updates_completed, 0);
}

#[test]
fn try_finish_cycle_refuses_a_deadline_beyond_the_clock() {
    let mut manager = running_manager();
    assert_eq!(manager.try_finish_cycle(u64::MAX - 9_999, 100, 0), None);
    assert_eq!(manager.try_finish_cycle(0, 100, u64::MAX - 9_999), None);
    assert_eq!(manager.get_stats().updates_completed, 0);
    assert!(manager.try_finish_cycle(u64::MAX - 10_000, 100, 0).is_some());
    assert_eq!(manager.get_stats().updates_completed, 1);
}

#[test]
fn task_error_messages() {
    assert_eq!(
        TaskError::SensorsNotConfigured.message(),
        "Sensors must be configured before starting task"
    );
    assert_eq!(TaskError::InvalidConfiguration.message(), "Invalid task configuration");
    assert_eq!(TaskError::TaskAlreadyRunning.message(), "Task is already running");
    assert_eq!(TaskError::TaskNotRunning.message(), "Task is not running");
}
