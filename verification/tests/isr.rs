use lib::application::Application;
use lib::isr::{PendSVSelectNext, SVCall, SysTick_Isr};
use lib::stack::TaskStackStorage;
use lib::task::{TaskCycleTime, TaskRole, TaskStatus};

type App = Application<2, 20>;

fn app() -> App {
    let storage: TaskStackStorage<2, 20> = TaskStackStorage::new(0x2000_0000, 0x11, 0x21);
    let mut app = App::new(storage);
    app.SetTask(0, 0x100, TaskCycleTime::_1MS, TaskRole::Supervised);
    app.SetTask(1, 0x200, TaskCycleTime::NonCyclic, TaskRole::Background);
    app.ActivateBackgroundTask();
    app
}

#[test]
fn handlers_without_scheduler_do_nothing() {
    let mut none: Option<App> = None;
    assert_eq!(SysTick_Isr(&mut none, 1_000), None);
    assert_eq!(SVCall(&mut none, 1_000), None);
    assert_eq!(PendSVSelectNext(&mut none, 0xABCD), 0xABCD);
    assert!(none.is_none());
}

#[test]
fn handlers_drive_the_scheduler() {
    let mut os = Some(app());
    let a = SysTick_Isr(&mut os, 1_000).unwrap();
    assert!(a.pend_sv);
    assert_eq!(a.timer_deadline_us, Some(2_000));
    let sp = PendSVSelectNext(&mut os, 0x2000_0090);
    let app = os.as_ref().unwrap();
    assert_eq!(app.current_task(), 0);
    assert_eq!(sp, 0x2000_0000 + 4 * 4);
    assert_eq!(app.task(1).status, TaskStatus::Suspended);
    let b = SVCall(&mut os, 1_500).unwrap();
    assert!(!b.pend_sv);
}
