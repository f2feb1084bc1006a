use vstd::prelude::*;

pub mod task;

use task::{task_wf, Task, TaskStatus};

verus! {

/// Index of the task that runs first.
pub const START_TASK: usize = 0;

/// Number of tasks.
pub const TASK_COUNT: usize = 2;

/// Words per task stack.
pub const STACK_SIZE: usize = 256;

/// Bytes of a task record on the target: saved stack pointer, status and
/// entry address (12 bytes with padding), then the stack.
pub const TASK_BYTES: u32 = 1036;

/// Byte offset of the stack inside a task record.
pub const STACK_OFFSET: u32 = 12;

/// Program status word of a fresh exception frame: only the Thumb bit set.
pub const INITIAL_XPSR: u32 = 0x0100_0000;

/// Address of the record of task `t` when the task table starts at `base`.
pub open spec fn task_address(base: u32, t: int) -> int {
    base + TASK_BYTES * t
}

/// Address of word `i` of the stack of task `t`.
pub open spec fn stack_word_address(base: u32, t: int, i: int) -> int {
    task_address(base, t) + STACK_OFFSET + 4 * i
}

/// Index of the stack word that the saved stack pointer `sp` of task `t`
/// points at, as computed from the address of the last stack word.
pub open spec fn saved_frame_index(base: u32, t: int, sp: u32) -> int {
    (STACK_SIZE - 1) - (stack_word_address(base, t, STACK_SIZE - 1) - sp) / 4
}

/// Whether `sp` of task `t` points into its stack so low that a full frame
/// of sixteen words lies above it, as a saved frame does.
pub open spec fn holds_frame(base: u32, t: int, sp: u32) -> bool {
    &&& sp <= stack_word_address(base, t, STACK_SIZE - 1)
    &&& 0 <= saved_frame_index(base, t, sp)
    &&& saved_frame_index(base, t, sp) + 14 < STACK_SIZE
}

/// The single-stack executive: a fixed table of tasks, each with its own
/// stack, and the index of the running task. The table lives at the address
/// `base` on the target; tasks start through the trampoline at `trampoline`.
pub struct OperatingSystem {
    pub tasks: Vec<Task>,
    pub taskIdx: u32,
    pub base: u32,
    pub trampoline: u32,
    /// Milliseconds counted by the context-switch handler.
    pub elapsedMillis: u64,
    /// Whether the executive has been started.
    pub osStatus: OsStatus,
}

/// Whether the executive schedules tasks yet.
#[derive(Copy, Clone, Debug, PartialEq, Eq, Structural)]
pub enum OsStatus {
    Stopped,
    Running,
}

impl OperatingSystem {
    pub open spec fn base(&self) -> u32 {
        self.base
    }

    pub open spec fn trampoline(&self) -> u32 {
        self.trampoline
    }

    pub open spec fn wf(&self) -> bool {
        &&& self.tasks@.len() == TASK_COUNT
        &&& forall|t: int| 0 <= t < TASK_COUNT ==> #[trigger] task_wf(self.tasks@[t])
        &&& self.taskIdx < TASK_COUNT
        &&& task_address(self.base(), TASK_COUNT as int) <= u32::MAX
    }

    /// A fresh executive with every task unconfigured and parked on the
    /// idle body at `idle`, or `None` when one exists already (`slot_free` is
    /// false).
    pub fn new(slot_free: bool, base: u32, trampoline: u32, idle: u32) -> (os: Option<Self>)
        requires
            task_address(base, TASK_COUNT as int) <= u32::MAX,
        ensures
            os is Some <==> slot_free,
            os matches Some(os) ==> {
                &&& os.wf()
                &&& os.taskIdx == START_TASK
                &&& os.elapsedMillis == 0
                &&& os.osStatus == OsStatus::Stopped
                &&& os.base() == base
                &&& os.trampoline() == trampoline
                &&& forall|t: int| 0 <= t < TASK_COUNT ==> {
                    &&& (#[trigger] os.tasks@[t]).sp == 0
                    &&& os.tasks@[t].status == TaskStatus::PreInit
                    &&& os.tasks@[t].cyclic == idle
                    &&& os.tasks@[t].stack@ == Seq::new(STACK_SIZE as nat, |i: int| 0u32)
                }
            },
    {
        if slot_free {
            let mut tasks: Vec<Task> = Vec::new();
            let mut t: usize = 0;
            while t < TASK_COUNT
                invariant
                    t <= TASK_COUNT,
                    tasks@.len() == t,
                    forall|k: int| 0 <= k < t ==> {
                        &&& (#[trigger] tasks@[k]).sp == 0
                        &&& tasks@[k].status == TaskStatus::PreInit
                        &&& tasks@[k].cyclic == idle
                        &&& tasks@[k].stack@ == Seq::new(STACK_SIZE as nat, |i: int| 0u32)
                    },
                decreases TASK_COUNT - t,
            {
                let mut stack: Vec<u32> = Vec::new();
                let mut i: usize = 0;
                while i < STACK_SIZE
                    invariant
                        i <= STACK_SIZE,
                        stack@ == Seq::new(i as nat, |k: int| 0u32),
                    decreases STACK_SIZE - i,
                {
                    stack.push(0);
                    i = i + 1;
                    assert(stack@ =~= Seq::new(i as nat, |k: int| 0u32));
                }
                tasks.push(Task { sp: 0, status: TaskStatus::PreInit, cyclic: idle, stack });
                t = t + 1;
            }
            Some(
                OperatingSystem {
                    taskIdx: START_TASK as u32,
                    tasks,
                    base,
                    trampoline,
                    elapsedMillis: 0,
                    osStatus: OsStatus::Stopped,
                },
            )
        } else {
            None
        }
    }
}

/// Stack of task `t` after `SetTask`: the hardware frame at the top holds
/// xPSR, the trampoline as return address, and the task record's address as
/// the first argument.
pub open spec fn configured_stack(stack: Seq<u32>, base: u32, t: int, trampoline: u32) -> Seq<u32> {
    stack.update(STACK_SIZE - 1, INITIAL_XPSR).update(STACK_SIZE - 2, trampoline).update(
        STACK_SIZE - 8,
        task_address(base, t) as u32,
    )
}

/// Stack of task `t` after `ResetTask`, with `k` the index of its saved frame:
/// the frame's return address is the trampoline again, the next five words
/// are cleared, and the first argument is the task record's address.
pub open spec fn reset_stack(stack: Seq<u32>, base: u32, t: int, k: int, trampoline: u32) -> Seq<u32> {
    stack.update(k + 14, trampoline).update(k + 13, 0).update(k + 12, 0).update(k + 11, 0).update(
        k + 10,
        0,
    ).update(k + 9, 0).update(k + 8, task_address(base, t) as u32)
}

impl OperatingSystem {
    /// Address of the record of task `t`.
    fn task_ptr(&self, t: usize) -> (a: u32)
        requires
            self.wf(),
            t < TASK_COUNT,
        ensures
            a == task_address(self.base, t as int),
            a + TASK_BYTES <= u32::MAX,
    {
        self.base + TASK_BYTES * (t as u32)
    }

    /// Configures task `tIdx` to run `func`: its stack gets a fresh hardware
    /// frame that enters the trampoline, its saved stack pointer points at the
    /// frame's software part, and the task becomes ready.
    pub fn SetTask(&mut self, tIdx: usize, func: u32)
        requires
            old(self).wf(),
            tIdx < TASK_COUNT,
        ensures
            final(self).wf(),
            final(self).taskIdx == old(self).taskIdx,
            final(self).base == old(self).base,
            final(self).trampoline == old(self).trampoline,
            final(self).elapsedMillis == old(self).elapsedMillis,
            final(self).osStatus == old(self).osStatus,
            final(self).tasks@.len() == TASK_COUNT,
            forall|k: int| 0 <= k < TASK_COUNT && k != tIdx ==> #[trigger] final(self).tasks@[k] == old(self).tasks@[k],
            final(self).tasks@[tIdx as int].cyclic == func,
            final(self).tasks@[tIdx as int].status == TaskStatus::Ready,
            final(self).tasks@[tIdx as int].sp == stack_word_address(old(self).base, tIdx as int, STACK_SIZE - 16),
            final(self).tasks@[tIdx as int].stack@ == configured_stack(
                old(self).tasks@[tIdx as int].stack@,
                old(self).base,
                tIdx as int,
                old(self).trampoline,
            ),
    {
        let task_addr = self.task_ptr(tIdx);
        let mut task = self.tasks.remove(tIdx);
        assert(task_wf(task));
        task.cyclic = func;
        task.sp = task_addr + STACK_OFFSET + 4 * ((STACK_SIZE - 16) as u32);
        task.stack.set(STACK_SIZE - 1, INITIAL_XPSR);
        task.stack.set(STACK_SIZE - 2, self.trampoline);
        task.stack.set(STACK_SIZE - 8, task_addr);
        task.status = TaskStatus::Ready;
        self.tasks.insert(tIdx, task);
        assert forall|k: int| 0 <= k < TASK_COUNT implies #[trigger] task_wf(self.tasks@[k]) by {
            if k != tIdx {
                assert(self.tasks@[k] == old(self).tasks@[k]);
            }
        }
    }

    /// Re-arms the saved frame of task `tIdx` so that resuming it enters the
    /// trampoline afresh: the frame is found from the saved stack pointer, its
    /// return address is set to the trampoline, the five words below are
    /// cleared and the first argument is the task record's address.
    pub fn ResetTask(&mut self, tIdx: usize)
        requires
            old(self).wf(),
            tIdx < TASK_COUNT,
            holds_frame(old(self).base, tIdx as int, old(self).tasks@[tIdx as int].sp),
        ensures
            final(self).wf(),
            final(self).taskIdx == old(self).taskIdx,
            final(self).base == old(self).base,
            final(self).trampoline == old(self).trampoline,
            final(self).elapsedMillis == old(self).elapsedMillis,
            final(self).osStatus == old(self).osStatus,
            final(self).tasks@.len() == TASK_COUNT,
            forall|k: int| 0 <= k < TASK_COUNT && k != tIdx ==> #[trigger] final(self).tasks@[k] == old(self).tasks@[k],
            final(self).tasks@[tIdx as int].sp == old(self).tasks@[tIdx as int].sp,
            final(self).tasks@[tIdx as int].status == old(self).tasks@[tIdx as int].status,
            final(self).tasks@[tIdx as int].cyclic == old(self).tasks@[tIdx as int].cyclic,
            final(self).tasks@[tIdx as int].stack@ == reset_stack(
                old(self).tasks@[tIdx as int].stack@,
                old(self).base,
                tIdx as int,
                saved_frame_index(old(self).base, tIdx as int, old(self).tasks@[tIdx as int].sp),
                old(self).trampoline,
            ),
    {
        let task_addr = self.task_ptr(tIdx);
        let mut task = self.tasks.remove(tIdx);
        assert(task_wf(task));
        assert(task == old(self).tasks@[tIdx as int]);
        let last_word = task_addr + STACK_OFFSET + 4 * ((STACK_SIZE - 1) as u32);
        let stackIdx = (STACK_SIZE as u32 - 1) - (last_word - task.sp) / 4;
        let k = stackIdx as usize;
        let ghost s0 = task.stack@;

        task.stack.set(k + 14, self.trampoline);
        let mut stackOffset: usize = 1;
        while stackOffset < 6
            invariant
                1 <= stackOffset <= 6,
                k + 14 < STACK_SIZE,
                s0.len() == STACK_SIZE,
                task.sp == old(self).tasks@[tIdx as int].sp,
                task.status == old(self).tasks@[tIdx as int].status,
                task.cyclic == old(self).tasks@[tIdx as int].cyclic,
                task.stack@.len() == STACK_SIZE,
                task.stack@ == ({
                    let s1 = s0.update(k + 14, self.trampoline);
                    Seq::new(
                        STACK_SIZE as nat,
                        |i: int| if k + 14 - stackOffset < i < k + 14 { 0u32 } else { s1[i] },
                    )
                }),
            decreases 6 - stackOffset,
        {
            task.stack.set(k + 14 - stackOffset, 0);
            stackOffset = stackOffset + 1;
            assert(task.stack@ =~= ({
                let s1 = s0.update(k + 14, self.trampoline);
                Seq::new(
                    STACK_SIZE as nat,
                    |i: int| if k + 14 - stackOffset < i < k + 14 { 0u32 } else { s1[i] },
                )
            }));
        }
        task.stack.set(k + 14 - 6, task_addr);
        assert(task.stack@ =~= reset_stack(s0, self.base, tIdx as int, k as int, self.trampoline));
        self.tasks.insert(tIdx, task);
        assert forall|j: int| 0 <= j < TASK_COUNT implies #[trigger] task_wf(self.tasks@[j]) by {
            if j != tIdx {
                assert(self.tasks@[j] == old(self).tasks@[j]);
            }
        }
    }

    /// Marks the executive as running and returns the process stack pointer
    /// at which the running task starts.
    pub fn Launch(&mut self) -> (sp: u32)
        requires
            old(self).wf(),
        ensures
            *final(self) == (OperatingSystem { osStatus: OsStatus::Running, ..*old(self) }),
            sp == stack_word_address(old(self).base, old(self).taskIdx as int, STACK_SIZE - 16),
    {
        self.osStatus = OsStatus::Running;
        self.StartStackPointer()
    }

    /// Counting step of the context-switch handler: one more millisecond has
    /// passed; the result tells whether the executive runs, and so whether
    /// the handler goes on to select and re-arm tasks.
    pub fn CountMillisecond(&mut self) -> (running: bool)
        requires
            old(self).elapsedMillis < u64::MAX,
        ensures
            *final(self) == (OperatingSystem { elapsedMillis: (old(self).elapsedMillis + 1) as u64, ..*old(self) }),
            running == (old(self).osStatus == OsStatus::Running),
    {
        self.elapsedMillis = self.elapsedMillis + 1;
        matches!(self.osStatus, OsStatus::Running)
    }

    /// Whether the saved stack pointer of task `t` lies in its stack with a
    /// full frame above it, which `ResetTask` needs.
    pub fn HoldsFrame(&self, t: usize) -> (b: bool)
        requires
            self.wf(),
            t < TASK_COUNT,
        ensures
            b == holds_frame(self.base, t as int, self.tasks@[t as int].sp),
    {
        let last_word = self.task_ptr(t) + STACK_OFFSET + 4 * ((STACK_SIZE - 1) as u32);
        let sp = self.tasks[t].sp;
        if sp > last_word {
            return false;
        }
        let below = (last_word - sp) / 4;
        if below > (STACK_SIZE - 1) as u32 {
            return false;
        }
        let index = (STACK_SIZE - 1) as u32 - below;
        index + 14 < STACK_SIZE as u32
    }

    /// The process stack pointer at which the running task starts: the
    /// software part of the frame prepared by `SetTask`.
    pub fn StartStackPointer(&self) -> (sp: u32)
        requires
            self.wf(),
        ensures
            sp == stack_word_address(self.base, self.taskIdx as int, STACK_SIZE - 16),
    {
        self.task_ptr(self.taskIdx as usize) + STACK_OFFSET + 4 * ((STACK_SIZE - 16) as u32)
    }
}

/// Runs `f` as one section of scheduler work and returns its result.
/// Keeping interrupts away from that section is up to the caller: the
/// firmware runs it inside a critical section.
pub fn OsSection<F, R>(f: F) -> (r: R)
    where
        F: FnOnce() -> R,
    requires
        f.requires(()),
    ensures
        f.ensures((), r),
{
    f()
}

/// Container for the scheduler's shared state.
pub struct OsMutex<T> {
    inner: T,
}

impl<T> OsMutex<T> {
    pub closed spec fn value(&self) -> T {
        self.inner
    }

    pub fn new(value: T) -> (m: Self)
        ensures
            m.value() == value,
    {
        OsMutex { inner: value }
    }

    pub fn borrow(&self) -> (r: &T)
        ensures
            *r == self.value(),
    {
        &self.inner
    }
}

} // verus!

verus! {

/// Task records are 1036 bytes apart from `base` and each stack starts 12
/// bytes into its record, so that word `i` of the stack of task `t` lies at
/// `base + 1036 * t + 12 + 4 * i`; a stack pointer at such a word saves a
/// frame at index `i`, and it holds a full frame exactly when `i + 14` is
/// still inside the 256-word stack.
pub proof fn lemma_stack_word_layout(base: u32, t: int, i: int)
    requires
        0 <= t < TASK_COUNT,
        0 <= i < STACK_SIZE,
        task_address(base, TASK_COUNT as int) <= u32::MAX,
    ensures
        stack_word_address(base, t, i) == base + 1036 * t + 12 + 4 * i,
        stack_word_address(base, t, i) <= u32::MAX,
        saved_frame_index(base, t, stack_word_address(base, t, i) as u32) == i,
        holds_frame(base, t, stack_word_address(base, t, i) as u32) <==> i + 14 < 256,
{
    let last = stack_word_address(base, t, STACK_SIZE - 1);
    let sp = stack_word_address(base, t, i);
    assert(last - sp == 4 * (255 - i));
    assert((4 * (255 - i)) / 4 == 255 - i);
}

/// The frame that `SetTask` writes: the top word (255) holds the program
/// status word `0x0100_0000`, the word below it (254, the return address)
/// the trampoline, word 248 (the first argument) the address of the task's
/// record; every other word of the stack is left as it was.
pub proof fn lemma_configured_frame(stack: Seq<u32>, base: u32, t: int, trampoline: u32)
    requires
        stack.len() == STACK_SIZE,
        0 <= t < TASK_COUNT,
        task_address(base, TASK_COUNT as int) <= u32::MAX,
    ensures
        configured_stack(stack, base, t, trampoline).len() == 256,
        configured_stack(stack, base, t, trampoline)[255] == 0x0100_0000,
        configured_stack(stack, base, t, trampoline)[254] == trampoline,
        configured_stack(stack, base, t, trampoline)[248] == base + 1036 * t,
        forall|i: int|
            0 <= i < 256 && i != 255 && i != 254 && i != 248 ==> #[trigger] configured_stack(
                stack,
                base,
                t,
                trampoline,
            )[i] == stack[i],
{
}

/// The words that `ResetTask` writes into the saved frame at index `k`: the
/// return address (`k + 14`) is the trampoline again, `k + 9` to `k + 13`
/// (r1 to r3, r12 and lr) are cleared, and the first argument (`k + 8`) is the
/// address of the task's record; every other word is left as it was.
pub proof fn lemma_reset_frame(stack: Seq<u32>, base: u32, t: int, k: int, trampoline: u32)
    requires
        stack.len() == STACK_SIZE,
        0 <= t < TASK_COUNT,
        task_address(base, TASK_COUNT as int) <= u32::MAX,
        0 <= k,
        k + 14 < STACK_SIZE,
    ensures
        reset_stack(stack, base, t, k, trampoline).len() == 256,
        reset_stack(stack, base, t, k, trampoline)[k + 14] == trampoline,
        forall|i: int| k + 9 <= i <= k + 13 ==> #[trigger] reset_stack(stack, base, t, k, trampoline)[i] == 0,
        reset_stack(stack, base, t, k, trampoline)[k + 8] == base + 1036 * t,
        forall|i: int|
            0 <= i < 256 && (i < k + 8 || i > k + 14) ==> #[trigger] reset_stack(stack, base, t, k, trampoline)[i]
                == stack[i],
{
}

/// The frame that `SetTask` prepares is the one `ResetTask` finds again from
/// the saved stack pointer, and re-arming it right away changes nothing as
/// long as the words that `ResetTask` clears are still clear, as they are on
/// a fresh stack.
pub proof fn lemma_reset_finds_set_frame(base: u32, t: int, trampoline: u32, stack: Seq<u32>)
    requires
        0 <= t < TASK_COUNT,
        task_address(base, TASK_COUNT as int) <= u32::MAX,
        stack.len() == STACK_SIZE,
        forall|i: int| STACK_SIZE - 7 <= i <= STACK_SIZE - 3 ==> #[trigger] stack[i] == 0,
    ensures
        ({
            let sp = stack_word_address(base, t, STACK_SIZE - 16) as u32;
            &&& holds_frame(base, t, sp)
            &&& saved_frame_index(base, t, sp) == STACK_SIZE - 16
            &&& reset_stack(
                configured_stack(stack, base, t, trampoline),
                base,
                t,
                STACK_SIZE - 16,
                trampoline,
            ) == configured_stack(stack, base, t, trampoline)
        }),
{
    let sp = stack_word_address(base, t, STACK_SIZE - 16);
    assert(sp <= u32::MAX);
    assert(stack_word_address(base, t, STACK_SIZE - 1) - sp == 60);
    assert(reset_stack(configured_stack(stack, base, t, trampoline), base, t, STACK_SIZE - 16, trampoline)
        =~= configured_stack(stack, base, t, trampoline));
}

} // verus!

verus! {

/// Whether a task with status `s` can be given the processor.
pub open spec fn runnable(s: TaskStatus) -> bool {
    s == TaskStatus::Active || s == TaskStatus::Ready || s == TaskStatus::Suspended
}

/// Whether `k` is the first runnable task of `ts`.
pub open spec fn first_runnable(ts: Seq<Task>, k: int) -> bool {
    &&& 0 <= k < ts.len()
    &&& runnable(ts[k].status)
    &&& forall|j: int| 0 <= j < k ==> !runnable(#[trigger] ts[j].status)
}

/// Whether finished task `t` is due to be re-armed: it is not the running
/// task and its cycle (in milliseconds) divides the elapsed milliseconds.
pub open spec fn rearm_due(os: &OperatingSystem, t: int, cycle_ms: Seq<u64>) -> bool {
    &&& os.tasks@[t].status == TaskStatus::Finished
    &&& t != os.taskIdx
    &&& os.elapsedMillis % cycle_ms[t] == 0
}

impl OperatingSystem {
    /// Whether `after` and `switch` are the outcome of the selection step
    /// over `before`: see [`OperatingSystem::SelectNextTask`].
    pub open spec fn selection(before: Self, after: Self, switch: Option<(usize, usize)>) -> bool {
        let ts = before.tasks@;
        let cur = before.taskIdx as int;
        if exists|k: int| first_runnable(ts, k) {
            let k = choose|k: int| first_runnable(ts, k);
            if ts[k].status == TaskStatus::Active {
                &&& switch is None
                &&& after.tasks@ == ts
                &&& after.taskIdx == before.taskIdx
            } else if k == cur {
                &&& switch is None
                &&& after.tasks@ == ts.update(k, Task { status: TaskStatus::Active, ..ts[k] })
                &&& after.taskIdx == before.taskIdx
            } else {
                let parked = if ts[cur].status == TaskStatus::Active {
                    ts.update(cur, Task { status: TaskStatus::Suspended, ..ts[cur] })
                } else {
                    ts
                };
                &&& switch == Some((cur as usize, k as usize))
                &&& after.tasks@ == parked.update(k, Task { status: TaskStatus::Active, ..parked[k] })
                &&& after.taskIdx == k
            }
        } else {
            &&& switch is None
            &&& after.tasks@ == ts
            &&& after.taskIdx == before.taskIdx
        }
    }

    /// Selection step of the context-switch handler. The first runnable task
    /// gets the processor: if it is active already nothing changes; if it is
    /// the running task it becomes active; otherwise the running task (if
    /// active) is suspended, the selected one becomes active and running, and
    /// the result asks for a switch of stacks from the old running task to
    /// the new one.
    pub fn SelectNextTask(&mut self) -> (switch: Option<(usize, usize)>)
        requires
            old(self).wf(),
        ensures
            final(self).wf(),
            final(self).base == old(self).base,
            final(self).trampoline == old(self).trampoline,
            final(self).elapsedMillis == old(self).elapsedMillis,
            final(self).osStatus == old(self).osStatus,
            Self::selection(*old(self), *final(self), switch),
    {
        let ghost ts = self.tasks@;
        let mut tIdx: usize = 0;
        while tIdx < self.tasks.len()
            invariant
                self.wf(),
                *self == *old(self),
                ts == old(self).tasks@,
                tIdx <= TASK_COUNT,
                forall|j: int| 0 <= j < tIdx ==> !runnable(#[trigger] ts[j].status),
            decreases TASK_COUNT - tIdx,
        {
            match self.tasks[tIdx].status {
                TaskStatus::Active => {
                    assert(first_runnable(ts, tIdx as int));
                    return None;
                },
                TaskStatus::Ready | TaskStatus::Suspended => {
                    assert(first_runnable(ts, tIdx as int));
                    let cur = self.taskIdx as usize;
                    if tIdx == cur {
                        self.set_status(tIdx, TaskStatus::Active);
                        return None;
                    } else {
                        if matches!(self.tasks[cur].status, TaskStatus::Active) {
                            self.set_status(cur, TaskStatus::Suspended);
                        }
                        self.set_status(tIdx, TaskStatus::Active);
                        self.taskIdx = tIdx as u32;
                        return Some((cur, tIdx));
                    }
                },
                _ => {},
            }
            tIdx = tIdx + 1;
        }
        None
    }

    /// Re-arming step of the context-switch handler, after the switch: every
    /// finished task other than the running one whose cycle `cycle_ms[t]`
    /// divides the elapsed milliseconds gets its frame re-armed and becomes
    /// ready.
    pub fn ReleaseFinishedTasks(&mut self, cycle_ms: &Vec<u64>)
        requires
            old(self).wf(),
            cycle_ms@.len() == TASK_COUNT,
            forall|t: int| 0 <= t < TASK_COUNT && #[trigger] old(self).tasks@[t].status == TaskStatus::Finished && t
                != old(self).taskIdx ==> cycle_ms@[t] != 0 && (old(self).elapsedMillis % cycle_ms@[t] == 0 ==> holds_frame(
                    old(self).base,
                    t,
                    old(self).tasks@[t].sp,
                )),
        ensures
            final(self).wf(),
            final(self).taskIdx == old(self).taskIdx,
            final(self).base == old(self).base,
            final(self).trampoline == old(self).trampoline,
            final(self).elapsedMillis == old(self).elapsedMillis,
            final(self).osStatus == old(self).osStatus,
            forall|t: int| 0 <= t < TASK_COUNT ==> #[trigger] final(self).tasks@[t] == (if rearm_due(old(self), t, cycle_ms@) {
                Task {
                    status: TaskStatus::Ready,
                    stack: final(self).tasks@[t].stack,
                    ..old(self).tasks@[t]
                }
            } else {
                old(self).tasks@[t]
            }),
            forall|t: int| 0 <= t < TASK_COUNT && rearm_due(old(self), t, cycle_ms@) ==> #[trigger] final(self).tasks@[t].stack@ == reset_stack(
                old(self).tasks@[t].stack@,
                old(self).base,
                t,
                saved_frame_index(old(self).base, t, old(self).tasks@[t].sp),
                old(self).trampoline,
            ),
            final(self).tasks@[old(self).taskIdx as int] == old(self).tasks@[old(self).taskIdx as int],
            forall|t: int|
                0 <= t < TASK_COUNT && #[trigger] old(self).tasks@[t].status == TaskStatus::Finished && t
                    != old(self).taskIdx && old(self).elapsedMillis % cycle_ms@[t] == 0
                    ==> final(self).tasks@[t].status == TaskStatus::Ready,
            forall|t: int|
                0 <= t < TASK_COUNT && #[trigger] old(self).tasks@[t].status != TaskStatus::Finished
                    ==> final(self).tasks@[t] == old(self).tasks@[t],
    {
        let mut tIdx: usize = 0;
        while tIdx < self.tasks.len()
            invariant
                self.wf(),
                tIdx <= TASK_COUNT,
                cycle_ms@.len() == TASK_COUNT,
                self.taskIdx == old(self).taskIdx,
                self.base == old(self).base,
                self.trampoline == old(self).trampoline,
                self.elapsedMillis == old(self).elapsedMillis,
                self.osStatus == old(self).osStatus,
                forall|t: int| 0 <= t < TASK_COUNT && #[trigger] old(self).tasks@[t].status == TaskStatus::Finished && t
                    != old(self).taskIdx ==> cycle_ms@[t] != 0 && (old(self).elapsedMillis % cycle_ms@[t] == 0 ==> holds_frame(
                    old(self).base,
                    t,
                    old(self).tasks@[t].sp,
                )),
                forall|t: int| tIdx <= t < TASK_COUNT ==> #[trigger] self.tasks@[t] == old(self).tasks@[t],
                forall|t: int| 0 <= t < tIdx ==> #[trigger] self.tasks@[t] == (if rearm_due(old(self), t, cycle_ms@) {
                    Task {
                        status: TaskStatus::Ready,
                        stack: self.tasks@[t].stack,
                        ..old(self).tasks@[t]
                    }
                } else {
                    old(self).tasks@[t]
                }),
                forall|t: int| 0 <= t < tIdx && rearm_due(old(self), t, cycle_ms@) ==> #[trigger] self.tasks@[t].stack@ == reset_stack(
                    old(self).tasks@[t].stack@,
                    old(self).base,
                    t,
                    saved_frame_index(old(self).base, t, old(self).tasks@[t].sp),
                    old(self).trampoline,
                ),
            decreases TASK_COUNT - tIdx,
        {
            match self.tasks[tIdx].status {
                TaskStatus::Finished => {
                    if tIdx != self.taskIdx as usize {
                        if self.elapsedMillis % cycle_ms[tIdx] == 0 {
                            self.ResetTask(tIdx);
                            self.set_status(tIdx, TaskStatus::Ready);
                        }
                    }
                },
                _ => {},
            }
            tIdx = tIdx + 1;
        }
    }

    /// Sets the status of task `t`, leaving everything else as it is.
    fn set_status(&mut self, t: usize, status: TaskStatus)
        requires
            old(self).wf(),
            t < TASK_COUNT,
        ensures
            final(self).wf(),
            final(self).taskIdx == old(self).taskIdx,
            final(self).base == old(self).base,
            final(self).trampoline == old(self).trampoline,
            final(self).elapsedMillis == old(self).elapsedMillis,
            final(self).osStatus == old(self).osStatus,
            final(self).tasks@ == old(self).tasks@.update(t as int, Task { status, ..old(self).tasks@[t as int] }),
    {
        assert(task_wf(old(self).tasks@[t as int]));
        let mut task = self.tasks.remove(t);
        task.status = status;
        self.tasks.insert(t, task);
        assert(self.tasks@ =~= old(self).tasks@.update(t as int, Task { status, ..old(self).tasks@[t as int] }));
        assert forall|k: int| 0 <= k < TASK_COUNT implies #[trigger] task_wf(self.tasks@[k]) by {
            if k != t {
                assert(self.tasks@[k] == old(self).tasks@[k]);
            }
        }
    }
}

/// The first task that is ready or suspended, when no task before it is
/// active, ready or suspended, gets the processor whether it was never run or
/// was preempted: it becomes active and running; if it was not the running
/// task already, the result asks for a switch of stacks from the running task
/// to it, and the running task, if active, is suspended.
pub proof fn lemma_selection_runs_first_waiting(
    before: OperatingSystem,
    after: OperatingSystem,
    switch: Option<(usize, usize)>,
    k: int,
)
    requires
        before.wf(),
        OperatingSystem::selection(before, after, switch),
        0 <= k < TASK_COUNT,
        before.tasks@[k].status == TaskStatus::Ready || before.tasks@[k].status == TaskStatus::Suspended,
        forall|j: int|
            0 <= j < k ==> {
                let s = #[trigger] before.tasks@[j].status;
                s != TaskStatus::Active && s != TaskStatus::Ready && s != TaskStatus::Suspended
            },
    ensures
        after.taskIdx == k,
        after.tasks@[k].status == TaskStatus::Active,
        k == before.taskIdx ==> switch is None,
        k != before.taskIdx ==> switch == Some((before.taskIdx as usize, k as usize)),
        k != before.taskIdx && before.tasks@[before.taskIdx as int].status == TaskStatus::Active
            ==> after.tasks@[before.taskIdx as int].status == TaskStatus::Suspended,
{
    let ts = before.tasks@;
    assert(first_runnable(ts, k));
    let k2 = choose|k2: int| first_runnable(ts, k2);
    if k2 < k {
        assert(!runnable(ts[k2].status));
    } else if k < k2 {
        assert(!runnable(ts[k].status));
    }
    assert(k2 == k);
}

} // verus!
