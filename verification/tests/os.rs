use lib::os::task::TaskStatus;
use lib::os::{OperatingSystem, OsMutex, OsSection, OsStatus, INITIAL_XPSR, STACK_SIZE, START_TASK};

const BASE: u32 = 0x2000_0000;
const TRAMPOLINE: u32 = 0x0000_4001;
const IDLE: u32 = 0x0000_5001;

fn task_address(t: u32) -> u32 {
    BASE + 1036 * t
}

fn stack_word_address(t: u32, i: u32) -> u32 {
    task_address(t) + 12 + 4 * i
}

#[test]
fn new_refuses_a_second_instance() {
    assert!(OperatingSystem::new(false, BASE, TRAMPOLINE, IDLE).is_none());
    let os = OperatingSystem::new(true, BASE, TRAMPOLINE, IDLE).unwrap();
    assert_eq!(os.taskIdx as usize, START_TASK);
    assert_eq!(os.tasks.len(), 2);
    for t in &os.tasks {
        assert_eq!(t.sp, 0);
        assert_eq!(t.status, TaskStatus::PreInit);
        assert_eq!(t.cyclic, IDLE);
        assert_eq!(t.stack.len(), STACK_SIZE);
        assert!(t.stack.iter().all(|w| *w == 0));
    }
}

#[test]
fn set_task_builds_the_initial_frame() {
    let mut os = OperatingSystem::new(true, BASE, TRAMPOLINE, IDLE).unwrap();
    os.SetTask(1, 0x0000_6001);
    let t = &os.tasks[1];
    assert_eq!(t.status, TaskStatus::Ready);
    assert_eq!(t.cyclic, 0x0000_6001);
    assert_eq!(t.sp, stack_word_address(1, 240));
    assert_eq!(t.stack[255], INITIAL_XPSR);
    assert_eq!(t.stack[254], TRAMPOLINE);
    assert_eq!(t.stack[248], task_address(1));
    assert_eq!(os.tasks[0].status, TaskStatus::PreInit);
}

#[test]
fn reset_after_set_keeps_the_frame() {
    let mut os = OperatingSystem::new(true, BASE, TRAMPOLINE, IDLE).unwrap();
    os.SetTask(0, 0x0000_6001);
    let before = os.tasks[0].stack.clone();
    os.ResetTask(0);
    assert_eq!(os.tasks[0].stack, before);
}

#[test]
fn reset_rearms_a_frame_lower_in_the_stack() {
    let mut os = OperatingSystem::new(true, BASE, TRAMPOLINE, IDLE).unwrap();
    os.SetTask(0, 0x0000_6001);
    // The task ran and was switched out with 32 more words on its stack.
    os.tasks[0].sp = stack_word_address(0, 208);
    for i in 200..256 {
        os.tasks[0].stack[i] = 0xAAAA_0000 + i as u32;
    }
    os.ResetTask(0);
    let s = &os.tasks[0].stack;
    assert_eq!(s[222], TRAMPOLINE);
    assert_eq!(&s[217..222], &[0, 0, 0, 0, 0]);
    assert_eq!(s[216], task_address(0));
    assert_eq!(s[223], 0xAAAA_0000 + 223);
    assert_eq!(s[215], 0xAAAA_0000 + 215);
    assert_eq!(os.tasks[0].sp, stack_word_address(0, 208));
}

#[test]
fn start_stack_pointer_is_the_frame_of_the_running_task() {
    let mut os = OperatingSystem::new(true, BASE, TRAMPOLINE, IDLE).unwrap();
    os.SetTask(0, 0x0000_6001);
    assert_eq!(os.StartStackPointer(), os.tasks[0].sp);
}

#[test]
fn selection_switches_to_first_runnable_task() {
    let mut os = OperatingSystem::new(true, BASE, TRAMPOLINE, IDLE).unwrap();
    os.SetTask(0, 0x0000_6001);
    os.SetTask(1, 0x0000_7001);
    // The running task 0 is ready: it becomes active, no switch.
    assert_eq!(os.SelectNextTask(), None);
    assert_eq!(os.tasks[0].status, TaskStatus::Active);
    // An active first task keeps the processor.
    assert_eq!(os.SelectNextTask(), None);
    // Task 0 finishes: the next runnable task takes over.
    os.tasks[0].status = TaskStatus::Finished;
    assert_eq!(os.SelectNextTask(), Some((0, 1)));
    assert_eq!(os.taskIdx, 1);
    assert_eq!(os.tasks[1].status, TaskStatus::Active);
    assert_eq!(os.tasks[0].status, TaskStatus::Finished);
}

#[test]
fn selection_suspends_an_active_running_task() {
    let mut os = OperatingSystem::new(true, BASE, TRAMPOLINE, IDLE).unwrap();
    os.SetTask(0, 0x0000_6001);
    os.SetTask(1, 0x0000_7001);
    os.taskIdx = 1;
    os.tasks[1].status = TaskStatus::Active;
    assert_eq!(os.SelectNextTask(), Some((1, 0)));
    assert_eq!(os.tasks[1].status, TaskStatus::Suspended);
    assert_eq!(os.tasks[0].status, TaskStatus::Active);
    assert_eq!(os.taskIdx, 0);
}

#[test]
fn nothing_runnable_means_no_switch() {
    let mut os = OperatingSystem::new(true, BASE, TRAMPOLINE, IDLE).unwrap();
    assert_eq!(os.SelectNextTask(), None);
    assert_eq!(os.tasks[0].status, TaskStatus::PreInit);
}

#[test]
fn finished_tasks_are_rearmed_on_their_cycle() {
    let mut os = OperatingSystem::new(true, BASE, TRAMPOLINE, IDLE).unwrap();
    os.SetTask(0, 0x0000_6001);
    os.SetTask(1, 0x0000_7001);
    os.tasks[0].status = TaskStatus::Finished;
    os.taskIdx = 1;
    let cycles = vec![5u64, 10];
    os.elapsedMillis = 12;
    os.ReleaseFinishedTasks(&cycles);
    assert_eq!(os.tasks[0].status, TaskStatus::Finished);
    os.elapsedMillis = 15;
    os.ReleaseFinishedTasks(&cycles);
    assert_eq!(os.tasks[0].status, TaskStatus::Ready);
    assert_eq!(os.tasks[1].status, TaskStatus::Ready);
}

#[test]
fn running_task_is_not_rearmed() {
    let mut os = OperatingSystem::new(true, BASE, TRAMPOLINE, IDLE).unwrap();
    os.SetTask(0, 0x0000_6001);
    os.tasks[0].status = TaskStatus::Finished;
    os.elapsedMillis = 10;
    os.ReleaseFinishedTasks(&vec![5, 5]);
    assert_eq!(os.tasks[0].status, TaskStatus::Finished);
}

#[test]
fn os_section_returns_the_closure_result() {
    let r = OsSection(|| 40 + 2);
    assert_eq!(r, 42);
}

#[test]
fn os_mutex_hands_out_its_value() {
    let m = OsMutex::new(17u32);
    assert_eq!(*m.borrow(), 17);
    let c = lib::cortex::Mutex::new(5u8);
    assert_eq!(*c.borrow(), 5);
}

#[test]
fn frame_check_accepts_only_saved_frames() {
    let mut os = OperatingSystem::new(true, BASE, TRAMPOLINE, IDLE).unwrap();
    os.SetTask(1, 0x0000_7001);
    assert!(os.HoldsFrame(1));
    os.tasks[1].sp = stack_word_address(1, 241);
    assert!(os.HoldsFrame(1));
    os.tasks[1].sp = stack_word_address(1, 242);
    assert!(!os.HoldsFrame(1));
    os.tasks[1].sp = stack_word_address(1, 0);
    assert!(os.HoldsFrame(1));
    os.tasks[1].sp = stack_word_address(1, 256);
    assert!(!os.HoldsFrame(1));
    os.tasks[1].sp = 0;
    assert!(!os.HoldsFrame(1));
}

#[test]
fn milliseconds_are_counted_and_gate_the_handler() {
    let mut os = OperatingSystem::new(true, BASE, TRAMPOLINE, IDLE).unwrap();
    assert_eq!(os.elapsedMillis, 0);
    assert_eq!(os.osStatus, OsStatus::Stopped);
    assert!(!os.CountMillisecond());
    assert_eq!(os.elapsedMillis, 1);
    os.SetTask(0, 0x0000_6001);
    let sp = os.Launch();
    assert_eq!(sp, stack_word_address(0, 240));
    assert_eq!(os.osStatus, OsStatus::Running);
    assert!(os.CountMillisecond());
    assert_eq!(os.elapsedMillis, 2);
}
