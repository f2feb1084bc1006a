use lib::task::{
    Task, TaskConfiguration, TaskControl, TaskCycleTime, TaskRole, TaskStatus, INITIAL_FRAME_WORDS,
    STACK_GUARD_WORDS,
};

#[test]
fn periods_are_the_cycle_time_in_microseconds() {
    assert_eq!(TaskCycleTime::NonCyclic.period_us(), None);
    assert_eq!(TaskCycleTime::Unknown.period_us(), None);
    assert_eq!(TaskCycleTime::_1MS.period_us(), Some(1_000));
    assert_eq!(TaskCycleTime::_5MS.period_us(), Some(5_000));
    assert_eq!(TaskCycleTime::_10MS.period_us(), Some(10_000));
    assert_eq!(TaskCycleTime::_20MS.period_us(), Some(20_000));
    assert_eq!(TaskCycleTime::_50MS.period_us(), Some(50_000));
    assert_eq!(TaskCycleTime::_100MS.period_us(), Some(100_000));
}

#[test]
fn only_supervised_cyclic_tasks_report_checkpoints() {
    assert!(TaskRole::Supervised.ReportsProgramFlowCheckpoints(TaskCycleTime::_10MS));
    assert!(!TaskRole::Supervised.ReportsProgramFlowCheckpoints(TaskCycleTime::NonCyclic));
    assert!(!TaskRole::Supervised.ReportsProgramFlowCheckpoints(TaskCycleTime::Unknown));
    assert!(!TaskRole::Unsupervised.ReportsProgramFlowCheckpoints(TaskCycleTime::_1MS));
    assert!(!TaskRole::Background.ReportsProgramFlowCheckpoints(TaskCycleTime::_100MS));
}

#[test]
fn unsupervised_role_is_recognised() {
    assert!(TaskRole::Unsupervised.IsUnsupervised());
    assert!(!TaskRole::Supervised.IsUnsupervised());
    assert!(!TaskRole::Background.IsUnsupervised());
}

#[test]
fn configuration_keeps_its_fields() {
    let c = TaskConfiguration::new(7, TaskCycleTime::_20MS, TaskRole::Unsupervised);
    assert_eq!(c.id, 7);
    assert_eq!(c.cycletime, TaskCycleTime::_20MS);
    assert_eq!(c.role, TaskRole::Unsupervised);
}

#[test]
fn fresh_control_block_is_unconfigured() {
    let c = TaskControl::new();
    assert_eq!(c.sp, 0);
    assert_eq!(c.status, TaskStatus::PreInit);
    assert_eq!(c.cycletime, TaskCycleTime::NonCyclic);
    assert_eq!(c.id, 0);
    assert_eq!(c.cyclic, None);
    assert_eq!(c.role, TaskRole::Supervised);
    assert_eq!(c.timestamp_us, 0);
    assert_eq!(c.next_release_us, 0);
    assert_eq!(c.missed_releases, 0);
}

#[test]
fn handle_places_control_block_after_stack() {
    let t: Task<64> = Task::new();
    let h = t.handle(0x2000_0100);
    assert_eq!(h.stack_ptr(), 0x2000_0100);
    assert_eq!(h.stack_size_words(), 64);
    assert_eq!(h.control_ptr(), 0x2000_0100 + 4 * 64);
}

#[test]
fn frame_constants() {
    assert_eq!(INITIAL_FRAME_WORDS, 16);
    assert_eq!(STACK_GUARD_WORDS, 4);
}
