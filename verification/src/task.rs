use vstd::prelude::*;

verus! {

/// Words of the initial exception frame that a prepared stack holds at its top.
pub const INITIAL_FRAME_WORDS: usize = 16;

/// Words at the bottom of a stack that hold the overflow guard.
pub const STACK_GUARD_WORDS: usize = 4;

/// Entry address of a task body on the 32-bit target.
pub type TaskFunction = u32;

/// Whether `words` is a stack size that a task can be given: room for the
/// guard and the initial frame, and an even number of words so that the
/// frame stays 8-byte aligned.
pub open spec fn valid_stack_size(words: usize) -> bool {
    words >= INITIAL_FRAME_WORDS + STACK_GUARD_WORDS && words % 2 == 0
}

/// Scheduling state of a task.
#[derive(Copy, Clone, Debug, PartialEq, Eq, Structural)]
pub enum TaskStatus {
    PreInit,
    Suspended,
    Pending,
    Ready,
    Active,
    Finished,
    Unknown,
}

/// How a task is watched by the program-flow supervisor.
#[derive(Copy, Clone, Debug, PartialEq, Eq, Structural)]
pub enum TaskRole {
    Supervised,
    Unsupervised,
    Background,
}

/// Release period of a task, in milliseconds.
#[derive(Copy, Clone, Debug, PartialEq, Eq, Structural)]
pub enum TaskCycleTime {
    NonCyclic,
    _1MS,
    _5MS,
    _10MS,
    _20MS,
    _50MS,
    _100MS,
    Unknown,
}

/// Period in microseconds of a cycle time, `None` for tasks that are not cyclic.
pub open spec fn period_of(c: TaskCycleTime) -> Option<u64> {
    match c {
        TaskCycleTime::NonCyclic | TaskCycleTime::Unknown => None,
        TaskCycleTime::_1MS => Some(1000),
        TaskCycleTime::_5MS => Some(5000),
        TaskCycleTime::_10MS => Some(10000),
        TaskCycleTime::_20MS => Some(20000),
        TaskCycleTime::_50MS => Some(50000),
        TaskCycleTime::_100MS => Some(100000),
    }
}

impl TaskCycleTime {
    /// Release period in microseconds; `None` for `NonCyclic` and `Unknown`.
    pub fn period_us(self) -> (r: Option<u64>)
        ensures
            r == period_of(self),
    {
        match self {
            TaskCycleTime::NonCyclic | TaskCycleTime::Unknown => None,
            TaskCycleTime::_1MS => Some(1 * 1000),
            TaskCycleTime::_5MS => Some(5 * 1000),
            TaskCycleTime::_10MS => Some(10 * 1000),
            TaskCycleTime::_20MS => Some(20 * 1000),
            TaskCycleTime::_50MS => Some(50 * 1000),
            TaskCycleTime::_100MS => Some(100 * 1000),
        }
    }
}

/// A cycle time of `n` milliseconds is a period of `1000 * n` microseconds:
/// 1, 5, 10, 20, 50 and 100 ms; `NonCyclic` and `Unknown` have none.
pub proof fn lemma_cycle_periods()
    ensures
        period_of(TaskCycleTime::_1MS) == Some(1000u64),
        period_of(TaskCycleTime::_5MS) == Some(5000u64),
        period_of(TaskCycleTime::_10MS) == Some(10000u64),
        period_of(TaskCycleTime::_20MS) == Some(20000u64),
        period_of(TaskCycleTime::_50MS) == Some(50000u64),
        period_of(TaskCycleTime::_100MS) == Some(100000u64),
        period_of(TaskCycleTime::NonCyclic) is None,
        period_of(TaskCycleTime::Unknown) is None,
{
}

/// Only supervised tasks with a period report program-flow checkpoints.
pub proof fn lemma_checkpoint_reporters(role: TaskRole, cycletime: TaskCycleTime)
    ensures
        reports_checkpoints(role, cycletime) <==> (role == TaskRole::Supervised && cycletime
            != TaskCycleTime::NonCyclic && cycletime != TaskCycleTime::Unknown),
{
}

/// Whether a task of this role and cycle time reports start and end of each
/// run to the program-flow supervisor.
pub open spec fn reports_checkpoints(role: TaskRole, cycletime: TaskCycleTime) -> bool {
    role == TaskRole::Supervised && period_of(cycletime) is Some
}

impl TaskRole {
    /// Supervised cyclic tasks report program-flow checkpoints; no other task does.
    pub fn ReportsProgramFlowCheckpoints(self, cycletime: TaskCycleTime) -> (r: bool)
        ensures
            r == reports_checkpoints(self, cycletime),
    {
        matches!(self, TaskRole::Supervised) && !matches!(
            cycletime,
            TaskCycleTime::NonCyclic | TaskCycleTime::Unknown
        )
    }

    pub fn IsUnsupervised(self) -> (r: bool)
        ensures
            r == (self == TaskRole::Unsupervised),
    {
        matches!(self, TaskRole::Unsupervised)
    }
}

/// Immutable task metadata.
#[derive(Copy, Clone, Debug)]
pub struct TaskConfiguration {
    pub id: u32,
    pub cycletime: TaskCycleTime,
    pub role: TaskRole,
}

impl TaskConfiguration {
    pub fn new(id: u32, cycletime: TaskCycleTime, role: TaskRole) -> (c: Self)
        ensures
            c.id == id,
            c.cycletime == cycletime,
            c.role == role,
    {
        Self { id, cycletime, role }
    }
}

/// Control block of a task: everything the scheduler keeps about it besides
/// its stack.
#[derive(Copy, Clone, Debug)]
pub struct TaskControl {
    /// Saved process stack pointer (an address on the target).
    pub sp: u32,
    pub status: TaskStatus,
    pub cycletime: TaskCycleTime,
    pub id: u32,
    pub cyclic: Option<TaskFunction>,
    pub role: TaskRole,
    /// Release time handed to the task body on its current run.
    pub timestamp_us: u64,
    /// Time of the next release of a cyclic task.
    pub next_release_us: u64,
    /// Releases that found the task still busy, saturating.
    pub missed_releases: u32,
}

/// The control block of a task that has not been configured.
pub open spec fn initial_control() -> TaskControl {
    TaskControl {
        sp: 0,
        status: TaskStatus::PreInit,
        cycletime: TaskCycleTime::NonCyclic,
        id: 0,
        cyclic: None,
        role: TaskRole::Supervised,
        timestamp_us: 0,
        next_release_us: 0,
        missed_releases: 0,
    }
}

impl TaskControl {
    pub fn new() -> (c: Self)
        ensures
            c == initial_control(),
    {
        Self {
            sp: 0,
            status: TaskStatus::PreInit,
            cycletime: TaskCycleTime::NonCyclic,
            id: 0,
            cyclic: None,
            role: TaskRole::Supervised,
            timestamp_us: 0,
            next_release_us: 0,
            missed_releases: 0,
        }
    }
}

/// A task that owns its stack and control block. On the target the stack
/// comes first, so that the task's address is also its 8-byte aligned stack
/// base.
pub struct Task<const STACK_SIZE: usize> {
    stack: Vec<u32>,
    control: TaskControl,
}

impl<const STACK_SIZE: usize> Task<STACK_SIZE> {
    pub closed spec fn stack_words(&self) -> Seq<u32> {
        self.stack@
    }

    pub closed spec fn control_block(&self) -> TaskControl {
        self.control
    }

    /// A task with a zeroed stack and an unconfigured control block.
    pub fn new() -> (t: Self)
        requires
            valid_stack_size(STACK_SIZE),
        ensures
            t.stack_words() == Seq::new(STACK_SIZE as nat, |i: int| 0u32),
            t.control_block() == initial_control(),
    {
        let mut stack: Vec<u32> = Vec::new();
        let mut i: usize = 0;
        while i < STACK_SIZE
            invariant
                i <= STACK_SIZE,
                stack@ == Seq::new(i as nat, |k: int| 0u32),
            decreases STACK_SIZE - i,
        {
            stack.push(0);
            i = i + 1;
            assert(stack@ =~= Seq::new(i as nat, |k: int| 0u32));
        }
        Task { stack, control: TaskControl::new() }
    }

    /// Locations of the stack and control block for a task placed at
    /// `address`: the stack first, the control block right after it.
    pub fn handle(&self, address: u32) -> (h: TaskHandle)
        requires
            address % 8 == 0,
            address + 4 * STACK_SIZE <= u32::MAX,
        ensures
            h.stack_ptr_spec() == address,
            h.stack_size_words_spec() == STACK_SIZE,
            h.control_ptr_spec() == address + 4 * STACK_SIZE,
    {
        TaskHandle {
            stack: address,
            stack_size_words: STACK_SIZE,
            control: address + 4 * (STACK_SIZE as u32),
        }
    }
}

/// Handle of a task whose stack size is not part of its type: where its stack
/// and control block lie on the target, and how many words the stack has.
#[derive(Copy, Clone)]
pub struct TaskHandle {
    stack: u32,
    stack_size_words: usize,
    control: u32,
}

impl TaskHandle {
    pub closed spec fn stack_ptr_spec(&self) -> u32 {
        self.stack
    }

    pub closed spec fn stack_size_words_spec(&self) -> usize {
        self.stack_size_words
    }

    pub closed spec fn control_ptr_spec(&self) -> u32 {
        self.control
    }

    pub fn stack_ptr(&self) -> (p: u32)
        ensures
            p == self.stack_ptr_spec(),
    {
        self.stack
    }

    pub fn stack_size_words(&self) -> (n: usize)
        ensures
            n == self.stack_size_words_spec(),
    {
        self.stack_size_words
    }

    pub fn control_ptr(&self) -> (p: u32)
        ensures
            p == self.control_ptr_spec(),
    {
        self.control
    }
}

} // verus!
