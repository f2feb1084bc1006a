use vstd::prelude::*;

use super::STACK_SIZE;

verus! {

/// Scheduling state of a task of the single-stack executive.
#[derive(Copy, Clone, Debug, PartialEq, Eq, Structural)]
pub enum TaskStatus {
    PreInit,
    Suspended,
    Ready,
    Active,
    Finished,
    Unknown,
}

/// A task of the single-stack executive: saved stack pointer, status, entry
/// address of its body, and its stack of `STACK_SIZE` words.
#[derive(Clone, Debug)]
pub struct Task {
    pub sp: u32,
    pub status: TaskStatus,
    pub cyclic: u32,
    pub stack: Vec<u32>,
}

/// Whether `t` has a stack of the configured size.
pub open spec fn task_wf(t: Task) -> bool {
    t.stack@.len() == STACK_SIZE
}

} // verus!
