use vstd::prelude::*;

use crate::application::{Application, SchedulerActions};

verus! {

/// Tick handler: when the scheduler exists, runs a scheduling pass at
/// `elapsed_us` and returns what it asks of the hardware.
pub fn SysTick_Isr<const TASK_COUNT: usize, const STACK_SIZE: usize>(
    os: &mut Option<Application<TASK_COUNT, STACK_SIZE>>,
    elapsed_us: u64,
) -> (actions: Option<SchedulerActions>)
    requires
        *old(os) matches Some(app) ==> app.wf(),
    ensures
        match (*old(os), *final(os), actions) {
            (None, None, None) => true,
            (Some(before), Some(after), Some(a)) => after.wf() && Application::scheduled(before, after, elapsed_us, a),
            _ => false,
        },
{
    match os {
        Some(app) => Some(app.InvokeSchedule(elapsed_us)),
        None => None,
    }
}

/// Supervisor-call handler, raised by a task that has finished its run: runs
/// a scheduling pass at `elapsed_us` like the tick handler.
pub fn SVCall<const TASK_COUNT: usize, const STACK_SIZE: usize>(
    os: &mut Option<Application<TASK_COUNT, STACK_SIZE>>,
    elapsed_us: u64,
) -> (actions: Option<SchedulerActions>)
    requires
        *old(os) matches Some(app) ==> app.wf(),
    ensures
        match (*old(os), *final(os), actions) {
            (None, None, None) => true,
            (Some(before), Some(after), Some(a)) => after.wf() && Application::scheduled(before, after, elapsed_us, a),
            _ => false,
        },
{
    SysTick_Isr(os, elapsed_us)
}

/// Stack selection of the context-switch handler: returns the saved stack
/// pointer of the task to resume, or `current_sp` itself when there is no
/// scheduler, so that the interrupted context simply continues.
pub fn PendSVSelectNext<const TASK_COUNT: usize, const STACK_SIZE: usize>(
    os: &mut Option<Application<TASK_COUNT, STACK_SIZE>>,
    current_sp: u32,
) -> (next_sp: u32)
    requires
        *old(os) matches Some(app) ==> app.wf(),
    ensures
        match (*old(os), *final(os)) {
            (None, None) => next_sp == current_sp,
            (Some(before), Some(after)) => after.wf() && Application::switched(before, after, current_sp, next_sp),
            _ => false,
        },
{
    match os {
        Some(app) => app.PendSVSelectNext(current_sp),
        None => current_sp,
    }
}

} // verus!
