use lib::application::{Application, SchedulerActions};
use lib::stack::{TaskStackStorage, INITIAL_XPSR, STACK_GUARD, STACK_PATTERN};
use lib::task::{TaskCycleTime, TaskRole, TaskStatus};

const BASE: u32 = 0x2000_0000;
const TRAP: u32 = 0x0000_1001;
const ENTRY: u32 = 0x0000_2000;

type App = Application<3, 32>;

fn frame_sp(t: u32) -> u32 {
    BASE + 128 * t + 4 * 16
}

fn configured() -> App {
    let storage: TaskStackStorage<3, 32> = TaskStackStorage::new(BASE, TRAP, ENTRY);
    let mut app = App::new(storage);
    app.SetTask(0, 0x100, TaskCycleTime::_5MS, TaskRole::Supervised);
    app.SetTask(1, 0x200, TaskCycleTime::_10MS, TaskRole::Unsupervised);
    app.SetTask(2, 0x300, TaskCycleTime::NonCyclic, TaskRole::Background);
    app
}

#[test]
fn new_application_selects_last_task() {
    let storage: TaskStackStorage<3, 32> = TaskStackStorage::new(BASE, TRAP, ENTRY);
    let app = App::new(storage);
    assert_eq!(app.current_task(), 2);
    for t in 0..3 {
        let c = app.task(t);
        assert_eq!(c.status, TaskStatus::PreInit);
        assert_eq!(c.role, TaskRole::Background);
        assert_eq!(c.sp, 0);
        assert!(app.stack(t).iter().all(|w| *w == 0));
    }
}

#[test]
fn set_task_prepares_stack_and_first_release() {
    let app = configured();
    let c0 = app.task(0);
    assert_eq!(c0.status, TaskStatus::Ready);
    assert_eq!(c0.id, 0);
    assert_eq!(c0.cyclic, Some(0x100));
    assert_eq!(c0.next_release_us, 5_000);
    assert_eq!(c0.missed_releases, 0);
    assert_eq!(c0.sp, frame_sp(0));
    assert_eq!(app.task(1).next_release_us, 10_000);
    assert_eq!(app.task(1).id, 1);
    assert_eq!(app.task(2).next_release_us, 0);

    let s = app.stack(1);
    assert_eq!(s.len(), 32);
    for i in 0..4 {
        assert_eq!(s[i], STACK_GUARD);
    }
    for i in 4..24 {
        assert_eq!(s[i], STACK_PATTERN);
    }
    assert_eq!(s[24], 1); // r0: task index
    assert_eq!(&s[25..29], &[0, 0, 0, 0]);
    assert_eq!(s[29], TRAP);
    assert_eq!(s[30], ENTRY | 1);
    assert_eq!(s[31], INITIAL_XPSR);
    assert_eq!(app.task(1).sp % 8, 0);
}

#[test]
fn background_task_becomes_running() {
    let mut app = configured();
    let sp = app.ActivateBackgroundTask();
    assert_eq!(sp, frame_sp(2));
    assert_eq!(app.current_task(), 2);
    assert_eq!(app.task(2).status, TaskStatus::Active);
}

#[test]
fn nothing_due_arms_timer_for_earliest_release() {
    let mut app = configured();
    app.ActivateBackgroundTask();
    let a = app.InvokeSchedule(4_999);
    assert_eq!(a, SchedulerActions { timer_deadline_us: Some(5_000), pend_sv: false });
    assert_eq!(app.task(0).status, TaskStatus::Ready);
}

#[test]
fn due_ready_task_becomes_pending() {
    let mut app = configured();
    app.ActivateBackgroundTask();
    let a = app.InvokeSchedule(5_000);
    assert_eq!(a, SchedulerActions { timer_deadline_us: Some(10_000), pend_sv: true });
    let c0 = app.task(0);
    assert_eq!(c0.status, TaskStatus::Pending);
    assert_eq!(c0.timestamp_us, 5_000);
    assert_eq!(c0.next_release_us, 10_000);
    assert_eq!(c0.missed_releases, 0);
    assert_eq!(c0.sp, frame_sp(0));
    // A second pass at the same time releases nothing more.
    let b = app.InvokeSchedule(5_000);
    assert_eq!(b, SchedulerActions { timer_deadline_us: Some(10_000), pend_sv: true });
    assert_eq!(app.task(0).next_release_us, 10_000);
    assert_eq!(app.task(0).missed_releases, 0);
}

#[test]
fn late_release_counts_missed_periods() {
    let mut app = configured();
    app.ActivateBackgroundTask();
    let a = app.InvokeSchedule(17_500);
    // task 0: releases at 5000, 10000, 15000 are due; the first one runs.
    let c0 = app.task(0);
    assert_eq!(c0.status, TaskStatus::Pending);
    assert_eq!(c0.timestamp_us, 5_000);
    assert_eq!(c0.next_release_us, 20_000);
    assert_eq!(c0.missed_releases, 2);
    // task 1: the release at 10000 is due.
    let c1 = app.task(1);
    assert_eq!(c1.status, TaskStatus::Pending);
    assert_eq!(c1.next_release_us, 20_000);
    assert_eq!(c1.missed_releases, 0);
    assert_eq!(a, SchedulerActions { timer_deadline_us: Some(20_000), pend_sv: true });
}

#[test]
fn busy_task_misses_every_due_release() {
    let mut app = configured();
    app.ActivateBackgroundTask();
    app.InvokeSchedule(5_000);
    app.PendSVSelectNext(0x2000_0200);
    assert_eq!(app.task(0).status, TaskStatus::Active);
    app.InvokeSchedule(22_000);
    let c0 = app.task(0);
    assert_eq!(c0.status, TaskStatus::Active);
    assert_eq!(c0.next_release_us, 25_000);
    assert_eq!(c0.missed_releases, 3);
}

#[test]
fn context_switch_runs_pending_before_suspended() {
    let mut app = configured();
    app.ActivateBackgroundTask();
    app.InvokeSchedule(10_000);
    // Both cyclic tasks are pending now; the first one runs.
    let sp = app.PendSVSelectNext(0x2000_0150);
    assert_eq!(app.current_task(), 0);
    assert_eq!(sp, frame_sp(0));
    assert_eq!(app.task(0).status, TaskStatus::Active);
    assert_eq!(app.task(2).status, TaskStatus::Suspended);
    assert_eq!(app.task(2).sp, 0x2000_0150);
    // Task 0 finishes; the next switch makes it ready on a fresh stack and
    // runs the other pending task.
    app.MarkFinished(0);
    let a = app.InvokeSchedule(10_500);
    assert!(a.pend_sv);
    let sp = app.PendSVSelectNext(0x2000_0040);
    assert_eq!(app.current_task(), 1);
    assert_eq!(sp, frame_sp(1));
    assert_eq!(app.task(0).status, TaskStatus::Ready);
    assert_eq!(app.task(0).sp, frame_sp(0));
    // Task 1 finishes; with nothing pending the suspended background resumes.
    app.MarkFinished(1);
    let sp = app.PendSVSelectNext(0x2000_00c0);
    assert_eq!(app.current_task(), 2);
    assert_eq!(sp, 0x2000_0150);
    assert_eq!(app.task(2).status, TaskStatus::Active);
    assert_eq!(app.task(1).status, TaskStatus::Ready);
}

#[test]
fn no_runnable_task_falls_back_to_background() {
    let mut app = configured();
    let sp = app.PendSVSelectNext(0x1234);
    assert_eq!(app.current_task(), 2);
    assert_eq!(app.task(2).status, TaskStatus::Active);
    // The background task was ready, so its saved pointer was overwritten.
    assert_eq!(sp, 0x1234);
}

#[test]
fn release_base_restarts_cyclic_schedules() {
    let mut app = configured();
    app.ActivateBackgroundTask();
    app.InvokeSchedule(17_500);
    app.SetCyclicReleaseBase(1_000_000);
    let c0 = app.task(0);
    assert_eq!(c0.timestamp_us, 1_000_000);
    assert_eq!(c0.next_release_us, 1_005_000);
    assert_eq!(c0.missed_releases, 0);
    assert_eq!(app.task(1).next_release_us, 1_010_000);
    assert_eq!(app.task(2).next_release_us, 0);
    app.SetCyclicReleaseBase(u64::MAX - 1);
    assert_eq!(app.task(0).next_release_us, u64::MAX);
}

#[test]
fn saturated_release_time_disarms_timer() {
    let mut app = configured();
    app.ActivateBackgroundTask();
    app.SetCyclicReleaseBase(u64::MAX - 1);
    let a = app.InvokeSchedule(0);
    assert_eq!(a, SchedulerActions { timer_deadline_us: None, pend_sv: false });
}

#[test]
fn finished_running_task_requests_switch() {
    let mut app = configured();
    app.ActivateBackgroundTask();
    app.MarkFinished(2);
    let a = app.InvokeSchedule(0);
    assert!(a.pend_sv);
}

#[test]
fn storage_addresses() {
    let storage: TaskStackStorage<3, 32> = TaskStackStorage::new(BASE, TRAP, ENTRY);
    assert_eq!(storage.stack_ptr(0), BASE);
    assert_eq!(storage.stack_ptr(2), BASE + 256);
}

#[test]
fn tick_is_pended_only_when_a_deadline_could_not_be_armed() {
    let with_deadline = SchedulerActions { timer_deadline_us: Some(5_000), pend_sv: false };
    let without = SchedulerActions { timer_deadline_us: None, pend_sv: true };
    assert!(with_deadline.PendTickAfterArming(false));
    assert!(!with_deadline.PendTickAfterArming(true));
    assert!(!without.PendTickAfterArming(false));
    assert!(!without.PendTickAfterArming(true));
}

#[test]
fn preparing_a_stack_touches_only_its_pointer_and_words() {
    let mut app = configured();
    app.ActivateBackgroundTask();
    app.InvokeSchedule(5_000);
    let before0 = app.task(0);
    let other = app.stack(1);
    app.PrepareTaskStack(0);
    let after0 = app.task(0);
    assert_eq!(after0.sp, frame_sp(0));
    assert_eq!(after0.sp % 8, 0);
    assert_eq!(after0.status, before0.status);
    assert_eq!(after0.next_release_us, before0.next_release_us);
    assert_eq!(after0.timestamp_us, before0.timestamp_us);
    assert_eq!(app.stack(1), other);
    assert_eq!(app.current_task(), 2);
    assert_eq!(app.stack(0)[24], 0);
}
