use fuck_ace::policy::PolicySet;
use fuck_ace::scheduler::{Scheduler, SchedulerAction, SchedulerError, SchedulerMode, DEFAULT_INTERVAL_SECS};

fn policies() -> PolicySet {
    PolicySet { affinity: true, priority_class: true, power_throttling: false, io_priority: false, memory_priority: false }
}

#[test]
fn stop_before_first_tick_runs_no_sweep() {
    let mut s = Scheduler::new();
    let started = s.start_periodic(policies(), DEFAULT_INTERVAL_SECS);
    assert_eq!(started, Ok(SchedulerAction::StartTimer { generation: 0, interval_secs: 60 }));
    assert_eq!(s.stop_periodic(), SchedulerAction::CancelTimer { generation: 0 });
    assert_eq!(s.mode, SchedulerMode::Idle);
    assert_eq!(s.on_tick(0), SchedulerAction::Nothing);
    assert_eq!(s.on_tick(1), SchedulerAction::Nothing);
    assert!(!s.sweep_in_flight);
}

#[test]
fn tick_of_running_task_runs_a_sweep() {
    let mut s = Scheduler::new();
    s.start_periodic(policies(), 30).unwrap();
    assert_eq!(s.on_tick(0), SchedulerAction::RunSweep { policies: policies() });
    assert_eq!(s.on_tick(0), SchedulerAction::Busy);
    assert_eq!(s.run_once(policies()), SchedulerAction::Busy);
    s.sweep_finished();
    assert_eq!(s.on_tick(0), SchedulerAction::RunSweep { policies: policies() });
}

#[test]
fn tick_of_cancelled_task_is_ignored_after_restart() {
    let mut s = Scheduler::new();
    s.start_periodic(policies(), 30).unwrap();
    s.stop_periodic();
    assert_eq!(s.start_periodic(policies(), 30), Ok(SchedulerAction::StartTimer { generation: 1, interval_secs: 30 }));
    assert_eq!(s.on_tick(0), SchedulerAction::Nothing);
    assert_eq!(s.on_tick(1), SchedulerAction::RunSweep { policies: policies() });
}

#[test]
fn start_is_refused_when_running_or_zero() {
    let mut s = Scheduler::new();
    assert_eq!(s.start_periodic(policies(), 0), Err(SchedulerError::ZeroInterval));
    assert_eq!(s.mode, SchedulerMode::Idle);
    s.start_periodic(policies(), 5).unwrap();
    assert_eq!(s.start_periodic(policies(), 5), Err(SchedulerError::AlreadyRunning));
    assert_eq!(Scheduler::new().stop_periodic(), SchedulerAction::Nothing);
}

#[test]
fn run_once_works_while_idle() {
    let mut s = Scheduler::new();
    assert_eq!(s.run_once(policies()), SchedulerAction::RunSweep { policies: policies() });
    assert!(s.sweep_in_flight);
    s.sweep_finished();
    assert!(!s.sweep_in_flight);
    assert_eq!(s.mode, SchedulerMode::Idle);
}
