use vstd::prelude::*;

use crate::stack::{frame_address, initial_stack, TaskStackStorage};
use crate::task::{period_of, reports_checkpoints, TaskControl, TaskCycleTime, TaskFunction, TaskRole, TaskStatus};

verus! {

/// `a + b`, clamped to `u64::MAX`.
pub open spec fn sat_add_u64(a: u64, b: u64) -> u64 {
    if a + b > u64::MAX {
        u64::MAX
    } else {
        (a + b) as u64
    }
}

/// `a * b`, clamped to `u64::MAX`.
pub open spec fn sat_mul_u64(a: u64, b: u64) -> u64 {
    if a * b > u64::MAX {
        u64::MAX
    } else {
        (a * b) as u64
    }
}

/// `a + b`, clamped to `u32::MAX`.
pub open spec fn sat_add_u32(a: u32, b: u32) -> u32 {
    if a + b > u32::MAX {
        u32::MAX
    } else {
        (a + b) as u32
    }
}

/// Number of releases of a task with release time `release` and period
/// `period` that are due at `now`: the one at `release` and every later one
/// up to and including `now`.
pub open spec fn due_count(release: u64, period: u64, now: u64) -> u64 {
    ((now - release) / (period as int) + 1) as u64
}

/// Whether the scheduler releases a task at `now`: the task is cyclic and its
/// release time has come.
pub open spec fn is_due(c: TaskControl, now: u64) -> bool {
    period_of(c.cycletime) is Some && now >= c.next_release_us
}

/// Whether a release at `now` starts a new run of the task, which happens
/// when the task is due and ready.
pub open spec fn starts_run(c: TaskControl, now: u64) -> bool {
    is_due(c, now) && c.status == TaskStatus::Ready
}

/// The control block of a task after the scheduler has looked at it at time
/// `now`; `frame_sp` is the stack pointer of a freshly prepared stack.
///
/// A due task gets its next release time moved past `now` by whole periods.
/// A ready task is made pending with the first due release time as its
/// timestamp; the releases beyond the first are counted as missed. A task
/// that is still busy (pending, active, suspended or finished) misses every
/// due release. Other tasks are left alone.
pub open spec fn released_control(c: TaskControl, now: u64, frame_sp: u32) -> TaskControl {
    if !is_due(c, now) {
        c
    } else {
        let period = period_of(c.cycletime)->Some_0;
        let release = c.next_release_us;
        let due = due_count(release, period, now);
        let moved = TaskControl { next_release_us: sat_add_u64(release, sat_mul_u64(due, period)), ..c };
        match c.status {
            TaskStatus::Ready => TaskControl {
                sp: frame_sp,
                status: TaskStatus::Pending,
                timestamp_us: release,
                missed_releases: if due > 1 {
                    sat_add_u32(c.missed_releases, (due - 1) as u32)
                } else {
                    c.missed_releases
                },
                ..moved
            },
            TaskStatus::Pending | TaskStatus::Active | TaskStatus::Suspended | TaskStatus::Finished => {
                TaskControl { missed_releases: sat_add_u32(c.missed_releases, due as u32), ..moved }
            },
            _ => moved,
        }
    }
}

/// Earliest next release time among the cyclic tasks among the first `n`
/// entries of `ts`, or `u64::MAX` when there is none.
pub open spec fn earliest_release(ts: Seq<TaskControl>, n: int) -> u64
    decreases n,
{
    if n <= 0 {
        u64::MAX
    } else {
        let rest = earliest_release(ts, n - 1);
        let c = ts[n - 1];
        if period_of(c.cycletime) is Some && c.next_release_us < rest {
            c.next_release_us
        } else {
            rest
        }
    }
}

/// Whether a cyclic task among the first `n` entries of `ts` is pending.
pub open spec fn cyclic_pending(ts: Seq<TaskControl>, n: int) -> bool {
    exists|i: int| 0 <= i < n && period_of(ts[i].cycletime) is Some && #[trigger] ts[i].status == TaskStatus::Pending
}

/// Whether `i` is the index of the first task in `ts` with status `st`.
pub open spec fn first_with_status(ts: Seq<TaskControl>, st: TaskStatus, i: int) -> bool {
    &&& 0 <= i < ts.len()
    &&& ts[i].status == st
    &&& forall|j: int| 0 <= j < i ==> #[trigger] ts[j].status != st
}

/// Whether some task in `ts` has status `st`.
pub open spec fn has_status(ts: Seq<TaskControl>, st: TaskStatus) -> bool {
    exists|j: int| 0 <= j < ts.len() && #[trigger] ts[j].status == st
}

/// Whether `i` is the task to run next: the first pending task; if there is
/// none, the first suspended one; if there is none either, the last task,
/// which is the background task.
pub open spec fn is_next_task(ts: Seq<TaskControl>, i: int) -> bool {
    if has_status(ts, TaskStatus::Pending) {
        first_with_status(ts, TaskStatus::Pending, i)
    } else if has_status(ts, TaskStatus::Suspended) {
        first_with_status(ts, TaskStatus::Suspended, i)
    } else {
        i == ts.len() - 1
    }
}

/// What the scheduler asks of the hardware after a scheduling pass.
#[derive(Copy, Clone, Debug, PartialEq, Eq, Structural)]
pub struct SchedulerActions {
    /// When set, the tick timer is to fire at this time in microseconds; if
    /// the deadline is too close to arm, a tick is to be pended instead.
    pub timer_deadline_us: Option<u64>,
    /// Whether a context switch is to be requested.
    pub pend_sv: bool,
}

impl SchedulerActions {
    /// Whether a tick is to be pended after the tick timer was asked to fire
    /// at the requested deadline and reported `armed`: exactly when a deadline
    /// was requested and it was too close to arm, so that a fresh scheduling
    /// pass comes at once instead of after the safety interval.
    pub fn PendTickAfterArming(&self, armed: bool) -> (pend: bool)
        ensures
            pend == (self.timer_deadline_us is Some && !armed),
    {
        self.timer_deadline_us.is_some() && !armed
    }
}

/// The scheduler: one control block per task, the index of the running task,
/// and the task stacks.
pub struct Application<const TASK_COUNT: usize, const STACK_SIZE: usize> {
    tasks: Vec<TaskControl>,
    taskIdx: u32,
    stacks: TaskStackStorage<TASK_COUNT, STACK_SIZE>,
}

impl<const TASK_COUNT: usize, const STACK_SIZE: usize> Application<TASK_COUNT, STACK_SIZE> {
    /// The control blocks of all tasks.
    pub closed spec fn tasks_view(&self) -> Seq<TaskControl> {
        self.tasks@
    }

    /// Index of the running task.
    pub closed spec fn current(&self) -> int {
        self.taskIdx as int
    }

    /// The task stacks.
    pub closed spec fn storage(&self) -> TaskStackStorage<TASK_COUNT, STACK_SIZE> {
        self.stacks
    }

    /// Stack pointer of a freshly prepared frame of task `t`.
    pub open spec fn frame_sp(&self, t: int) -> u32 {
        frame_address(self.storage().base(), STACK_SIZE, t) as u32
    }

    /// Fresh stack contents of task `t`.
    pub open spec fn fresh_stack(&self, t: int) -> Seq<u32> {
        initial_stack(t, STACK_SIZE as int, self.storage().return_trap(), self.storage().entry())
    }

    /// The scheduler holds one control block and one stack per task, and the
    /// running task is one of them.
    pub open spec fn wf(&self) -> bool {
        &&& self.storage().wf()
        &&& TASK_COUNT <= u32::MAX
        &&& self.tasks_view().len() == TASK_COUNT
        &&& 0 <= self.current() < TASK_COUNT
    }

    /// Whether only the running task may be active.
    pub open spec fn single_active(&self) -> bool {
        forall|i: int|
            0 <= i < TASK_COUNT && i != self.current() ==> #[trigger] self.tasks_view()[i].status
                != TaskStatus::Active
    }

    /// Whether `new` and `actions` are the outcome of a scheduling pass over
    /// `old` at time `now_us`.
    pub open spec fn scheduled(old: Self, new: Self, now_us: u64, actions: SchedulerActions) -> bool {
        let ts = new.tasks_view();
        let earliest = earliest_release(ts, TASK_COUNT as int);
        &&& new.current() == old.current()
        &&& forall|t: int|
            0 <= t < TASK_COUNT ==> #[trigger] ts[t] == released_control(
                old.tasks_view()[t],
                now_us,
                old.frame_sp(t),
            )
        &&& new.storage().base() == old.storage().base()
        &&& new.storage().return_trap() == old.storage().return_trap()
        &&& new.storage().entry() == old.storage().entry()
        &&& forall|t: int|
            0 <= t < TASK_COUNT ==> #[trigger] new.storage().stack(t) == if starts_run(
                old.tasks_view()[t],
                now_us,
            ) {
                old.fresh_stack(t)
            } else {
                old.storage().stack(t)
            }
        &&& actions.timer_deadline_us == if earliest == u64::MAX {
            None
        } else {
            Some(earliest)
        }
        &&& actions.pend_sv == (cyclic_pending(ts, TASK_COUNT as int) || ts[new.current()].status
            == TaskStatus::Finished)
        &&& old.single_active() ==> new.single_active()
    }

    /// Whether `new` and `next_sp` are the outcome of a context switch out of
    /// `old` whose running task was interrupted with stack pointer `current_sp`.
    pub open spec fn switched(old: Self, new: Self, current_sp: u32, next_sp: u32) -> bool {
        let cur = old.current();
        let old_c = old.tasks_view()[cur];
        let mid = old.tasks_view().update(cur, switched_out_control(old_c, current_sp, old.frame_sp(cur)));
        let next = new.current();
        &&& is_next_task(mid, next)
        &&& new.tasks_view() == mid.update(next, TaskControl { status: TaskStatus::Active, ..mid[next] })
        &&& next_sp == mid[next].sp
        &&& new.storage().base() == old.storage().base()
        &&& new.storage().return_trap() == old.storage().return_trap()
        &&& new.storage().entry() == old.storage().entry()
        &&& forall|k: int|
            0 <= k < TASK_COUNT ==> #[trigger] new.storage().stack(k) == if k == cur && old_c.status
                == TaskStatus::Finished {
                old.fresh_stack(k)
            } else {
                old.storage().stack(k)
            }
        &&& old.single_active() ==> new.single_active()
    }

    /// Scheduler state over `stacks`: every task unconfigured and in the
    /// background role, the last task selected as the running one.
    pub fn new(stacks: TaskStackStorage<TASK_COUNT, STACK_SIZE>) -> (app: Self)
        requires
            stacks.wf(),
            TASK_COUNT <= u32::MAX,
        ensures
            app.wf(),
            app.current() == TASK_COUNT - 1,
            app.storage() == stacks,
            forall|t: int| 0 <= t < TASK_COUNT ==> #[trigger] app.tasks_view()[t] == (TaskControl {
                role: TaskRole::Background,
                ..crate::task::initial_control()
            }),
            forall|t: int|
                0 <= t < TASK_COUNT ==> {
                    &&& (#[trigger] app.tasks_view()[t]).status == TaskStatus::PreInit
                    &&& app.tasks_view()[t].role == TaskRole::Background
                    &&& app.tasks_view()[t].cyclic is None
                    &&& app.tasks_view()[t].cycletime == TaskCycleTime::NonCyclic
                    &&& app.tasks_view()[t].missed_releases == 0
                },
    {
        let mut tasks: Vec<TaskControl> = Vec::new();
        let mut t: usize = 0;
        while t < TASK_COUNT
            invariant
                t <= TASK_COUNT,
                tasks@.len() == t,
                forall|k: int| 0 <= k < t ==> #[trigger] tasks@[k] == (TaskControl {
                    role: TaskRole::Background,
                    ..crate::task::initial_control()
                }),
            decreases TASK_COUNT - t,
        {
            tasks.push(
                TaskControl {
                    sp: 0,
                    status: TaskStatus::PreInit,
                    cycletime: TaskCycleTime::NonCyclic,
                    cyclic: None,
                    role: TaskRole::Background,
                    id: 0,
                    timestamp_us: 0,
                    next_release_us: 0,
                    missed_releases: 0,
                },
            );
            t = t + 1;
        }
        proof {
            crate::stack::lemma_storage_wf(&stacks);
        }
        Application { taskIdx: (TASK_COUNT - 1) as u32, tasks, stacks }
    }
}

impl<const TASK_COUNT: usize, const STACK_SIZE: usize> Application<TASK_COUNT, STACK_SIZE> {
    /// Rebuilds the stack of task `tIdx` as a fresh initial frame and points
    /// the task's saved stack pointer at it; nothing else changes. Only a
    /// task that is not running (unconfigured, ready or finished) is to be
    /// prepared.
    pub fn PrepareTaskStack(&mut self, tIdx: usize)
        requires
            old(self).wf(),
            tIdx < TASK_COUNT,
        ensures
            final(self).wf(),
            final(self).current() == old(self).current(),
            final(self).tasks_view() == old(self).tasks_view().update(
                tIdx as int,
                TaskControl { sp: old(self).frame_sp(tIdx as int), ..old(self).tasks_view()[tIdx as int] },
            ),
            final(self).storage().base() == old(self).storage().base(),
            final(self).storage().return_trap() == old(self).storage().return_trap(),
            final(self).storage().entry() == old(self).storage().entry(),
            final(self).storage().stack(tIdx as int) == old(self).fresh_stack(tIdx as int),
            forall|k: int| 0 <= k < TASK_COUNT && k != tIdx ==> #[trigger] final(self).storage().stack(k)
                == old(self).storage().stack(k),
            final(self).tasks_view()[tIdx as int].sp % 8 == 0,
    {
        let sp = self.stacks.prepare(tIdx);
        let mut c = self.tasks[tIdx];
        c.sp = sp;
        self.tasks.set(tIdx, c);
    }

    /// Scheduling pass at time `now_us` (microseconds since start).
    ///
    /// Every cyclic task whose release time has come is released: its next
    /// release moves past `now_us` by whole periods; a ready task gets a fresh
    /// stack and becomes pending, a busy one counts the releases it missed.
    /// The result asks for the tick timer to be armed at the earliest next
    /// release of a cyclic task, and for a context switch when a cyclic task
    /// is pending or the running task has finished.
    pub fn InvokeSchedule(&mut self, now_us: u64) -> (actions: SchedulerActions)
        requires
            old(self).wf(),
        ensures
            final(self).wf(),
            Self::scheduled(*old(self), *final(self), now_us, actions),
    {
        let ghost old_app = *self;
        let ghost target = Seq::new(
            TASK_COUNT as nat,
            |j: int| released_control(old_app.tasks@[j], now_us, old_app.frame_sp(j)),
        );
        let mut need_switch = false;
        let mut next_wakeup_us = u64::MAX;
        let mut tIdx: usize = 0;
        while tIdx < self.tasks.len()
            invariant
                self.wf(),
                tIdx <= TASK_COUNT,
                target.len() == TASK_COUNT,
                forall|j: int| 0 <= j < TASK_COUNT ==> #[trigger] target[j] == released_control(
                    old_app.tasks@[j],
                    now_us,
                    old_app.frame_sp(j),
                ),
                self.taskIdx == old_app.taskIdx,
                forall|j: int| 0 <= j < tIdx ==> #[trigger] self.tasks@[j] == target[j],
                forall|j: int| tIdx <= j < TASK_COUNT ==> #[trigger] self.tasks@[j] == old_app.tasks@[j],
                self.storage().base() == old_app.storage().base(),
                self.storage().return_trap() == old_app.storage().return_trap(),
                self.storage().entry() == old_app.storage().entry(),
                forall|j: int| 0 <= j < tIdx ==> #[trigger] self.storage().stack(j) == (if starts_run(
                    old_app.tasks@[j],
                    now_us,
                ) {
                    old_app.fresh_stack(j)
                } else {
                    old_app.storage().stack(j)
                }),
                forall|j: int| tIdx <= j < TASK_COUNT ==> #[trigger] self.storage().stack(j)
                    == old_app.storage().stack(j),
                need_switch == cyclic_pending(target, tIdx as int),
                next_wakeup_us == earliest_release(target, tIdx as int),
            decreases TASK_COUNT - tIdx,
        {
            let c = self.tasks[tIdx];
            assert(c == old_app.tasks@[tIdx as int]);
            let (mut c1, starts) = release_task(c, now_us);
            if starts {
                let sp = self.stacks.prepare(tIdx);
                assert(sp == old_app.frame_sp(tIdx as int));
                c1.sp = sp;
                assert(c1 == released_control(c, now_us, sp));
            } else {
                assert(c1 == released_control(c, now_us, old_app.frame_sp(tIdx as int)));
            }
            self.tasks.set(tIdx, c1);
            assert(self.tasks@[tIdx as int] == target[tIdx as int]);
            if c.cycletime.period_us().is_some() {
                if matches!(c1.status, TaskStatus::Pending) {
                    need_switch = true;
                }
                if c1.next_release_us < next_wakeup_us {
                    next_wakeup_us = c1.next_release_us;
                }
            }
            proof {
                let n = tIdx as int + 1;
                assert(c1.cycletime == c.cycletime);
                if need_switch && !cyclic_pending(target, tIdx as int) {
                    assert(period_of(target[tIdx as int].cycletime) is Some && target[tIdx as int].status
                        == TaskStatus::Pending);
                }
                if cyclic_pending(target, n) && !(period_of(target[tIdx as int].cycletime) is Some
                    && target[tIdx as int].status == TaskStatus::Pending) {
                    let w = choose|i: int| 0 <= i < n && period_of(target[i].cycletime) is Some && #[trigger] target[i].status == TaskStatus::Pending;
                    assert(w < tIdx);
                }
            }
            tIdx = tIdx + 1;
        }
        assert(self.tasks@ =~= target);

        let timer_deadline_us = if next_wakeup_us != u64::MAX {
            Some(next_wakeup_us)
        } else {
            None
        };
        let current = self.taskIdx as usize;
        let pend_sv = need_switch || matches!(self.tasks[current].status, TaskStatus::Finished);
        SchedulerActions { timer_deadline_us, pend_sv }
    }
}

/// The control block of task `t` as configured by `SetTask`, with `sp` the
/// stack pointer of its freshly prepared stack.
pub open spec fn configured_control(
    c: TaskControl,
    t: int,
    func: TaskFunction,
    cycletime: TaskCycleTime,
    role: TaskRole,
    sp: u32,
) -> TaskControl {
    TaskControl {
        sp,
        status: TaskStatus::Ready,
        cycletime,
        id: t as u32,
        cyclic: Some(func),
        role,
        timestamp_us: 0,
        next_release_us: match period_of(cycletime) {
            Some(p) => p,
            None => 0,
        },
        missed_releases: 0,
    }
}

/// The control block `c` after `SetCyclicReleaseBase(base_us)`.
pub open spec fn rebased_control(c: TaskControl, base_us: u64) -> TaskControl {
    match period_of(c.cycletime) {
        None => c,
        Some(p) => TaskControl {
            timestamp_us: base_us,
            next_release_us: sat_add_u64(base_us, p),
            missed_releases: 0,
            ..c
        },
    }
}

/// The control block of the running task after a context-switch request:
/// its stack pointer is saved; an active task is suspended, a finished one is
/// made ready again on a fresh stack whose pointer is `fresh_sp`.
pub open spec fn switched_out_control(c: TaskControl, current_sp: u32, fresh_sp: u32) -> TaskControl {
    match c.status {
        TaskStatus::Active => TaskControl { sp: current_sp, status: TaskStatus::Suspended, ..c },
        TaskStatus::Finished => TaskControl { sp: fresh_sp, status: TaskStatus::Ready, ..c },
        _ => TaskControl { sp: current_sp, ..c },
    }
}

impl<const TASK_COUNT: usize, const STACK_SIZE: usize> Application<TASK_COUNT, STACK_SIZE> {
    /// Configures task `tIdx` to run `func` with the given cycle time and
    /// role: its first release is one period after time zero, its stack is
    /// prepared and it becomes ready. The task must not have been configured.
    pub fn SetTask(&mut self, tIdx: usize, func: TaskFunction, cycletime: TaskCycleTime, role: TaskRole)
        requires
            old(self).wf(),
            tIdx < TASK_COUNT,
            old(self).tasks_view()[tIdx as int].status == TaskStatus::PreInit,
        ensures
            final(self).wf(),
            final(self).current() == old(self).current(),
            final(self).tasks_view() == old(self).tasks_view().update(
                tIdx as int,
                configured_control(
                    old(self).tasks_view()[tIdx as int],
                    tIdx as int,
                    func,
                    cycletime,
                    role,
                    old(self).frame_sp(tIdx as int),
                ),
            ),
            final(self).storage().base() == old(self).storage().base(),
            final(self).storage().return_trap() == old(self).storage().return_trap(),
            final(self).storage().entry() == old(self).storage().entry(),
            final(self).storage().stack(tIdx as int) == old(self).fresh_stack(tIdx as int),
            forall|k: int| 0 <= k < TASK_COUNT && k != tIdx ==> #[trigger] final(self).storage().stack(k)
                == old(self).storage().stack(k),
            old(self).single_active() ==> final(self).single_active(),
            final(self).tasks_view()[tIdx as int].role == role,
            final(self).tasks_view()[tIdx as int].cycletime == cycletime,
            final(self).tasks_view()[tIdx as int].cyclic == Some(func),
            final(self).tasks_view()[tIdx as int].id == tIdx,
            final(self).tasks_view()[tIdx as int].status == TaskStatus::Ready,
            final(self).tasks_view()[tIdx as int].sp == old(self).frame_sp(tIdx as int),
    {
        let mut c = self.tasks[tIdx];
        c.id = tIdx as u32;
        c.cyclic = Some(func);
        c.cycletime = cycletime;
        c.role = role;
        c.timestamp_us = 0;
        c.next_release_us = match cycletime.period_us() {
            Some(p) => p,
            None => 0,
        };
        c.missed_releases = 0;
        self.tasks.set(tIdx, c);
        self.PrepareTaskStack(tIdx);
        let mut c = self.tasks[tIdx];
        c.status = TaskStatus::Ready;
        self.tasks.set(tIdx, c);
        assert(self.tasks@ =~= old(self).tasks@.update(
            tIdx as int,
            configured_control(old(self).tasks@[tIdx as int], tIdx as int, func, cycletime, role, old(self).frame_sp(tIdx as int)),
        ));
    }

    /// Makes the last task, which must be a ready background task, the
    /// running one and returns its saved stack pointer.
    pub fn ActivateBackgroundTask(&mut self) -> (sp: u32)
        requires
            old(self).wf(),
            old(self).tasks_view()[TASK_COUNT - 1].role == TaskRole::Background,
            old(self).tasks_view()[TASK_COUNT - 1].status == TaskStatus::Ready,
        ensures
            final(self).wf(),
            final(self).current() == TASK_COUNT - 1,
            final(self).tasks_view() == old(self).tasks_view().update(
                TASK_COUNT - 1,
                TaskControl { status: TaskStatus::Active, ..old(self).tasks_view()[TASK_COUNT - 1] },
            ),
            final(self).storage() == old(self).storage(),
            sp == old(self).tasks_view()[TASK_COUNT - 1].sp,
            (forall|i: int| 0 <= i < TASK_COUNT ==> #[trigger] old(self).tasks_view()[i].status
                != TaskStatus::Active) ==> final(self).single_active(),
    {
        let background = self.tasks.len() - 1;
        let mut c = self.tasks[background];
        c.status = TaskStatus::Active;
        self.tasks.set(background, c);
        self.taskIdx = background as u32;
        self.tasks[background].sp
    }

    /// Restarts the release schedule of every cyclic task at `base_us`: its
    /// next release is one period later and its missed releases are cleared.
    pub fn SetCyclicReleaseBase(&mut self, base_us: u64)
        requires
            old(self).wf(),
        ensures
            final(self).wf(),
            final(self).current() == old(self).current(),
            final(self).storage() == old(self).storage(),
            final(self).tasks_view().len() == TASK_COUNT,
            forall|t: int| 0 <= t < TASK_COUNT ==> #[trigger] final(self).tasks_view()[t] == rebased_control(
                old(self).tasks_view()[t],
                base_us,
            ),
    {
        let mut t: usize = 0;
        while t < self.tasks.len()
            invariant
                self.wf(),
                t <= TASK_COUNT,
                self.taskIdx == old(self).taskIdx,
                self.stacks == old(self).stacks,
                forall|j: int| 0 <= j < t ==> #[trigger] self.tasks@[j] == rebased_control(old(self).tasks@[j], base_us),
                forall|j: int| t <= j < TASK_COUNT ==> #[trigger] self.tasks@[j] == old(self).tasks@[j],
            decreases TASK_COUNT - t,
        {
            let mut task = self.tasks[t];
            match task.cycletime.period_us() {
                Some(period_us) => {
                    task.timestamp_us = base_us;
                    task.next_release_us = base_us.saturating_add(period_us);
                    task.missed_releases = 0;
                    self.tasks.set(t, task);
                },
                None => {},
            }
            t = t + 1;
        }
    }

    /// Rebuilds the stack of task `tIdx` so that its next run starts afresh.
    fn ResetTask(&mut self, tIdx: usize)
        requires
            old(self).wf(),
            tIdx < TASK_COUNT,
        ensures
            final(self).wf(),
            final(self).current() == old(self).current(),
            final(self).tasks_view() == old(self).tasks_view().update(
                tIdx as int,
                TaskControl { sp: old(self).frame_sp(tIdx as int), ..old(self).tasks_view()[tIdx as int] },
            ),
            final(self).storage().base() == old(self).storage().base(),
            final(self).storage().return_trap() == old(self).storage().return_trap(),
            final(self).storage().entry() == old(self).storage().entry(),
            final(self).storage().stack(tIdx as int) == old(self).fresh_stack(tIdx as int),
            forall|k: int| 0 <= k < TASK_COUNT && k != tIdx ==> #[trigger] final(self).storage().stack(k)
                == old(self).storage().stack(k),
    {
        self.PrepareTaskStack(tIdx);
    }

    /// Index of the task to run next: the first pending task, else the first
    /// suspended one, else the last task, which is the background task.
    fn GetNextTask(&self) -> (next: u32)
        requires
            self.wf(),
        ensures
            next < TASK_COUNT,
            is_next_task(self.tasks_view(), next as int),
    {
        let mut tIdx: usize = 0;
        while tIdx < self.tasks.len()
            invariant
                self.wf(),
                tIdx <= TASK_COUNT,
                forall|j: int| 0 <= j < tIdx ==> #[trigger] self.tasks@[j].status != TaskStatus::Pending,
            decreases TASK_COUNT - tIdx,
        {
            if matches!(self.tasks[tIdx].status, TaskStatus::Pending) {
                return tIdx as u32;
            }
            tIdx = tIdx + 1;
        }
        let mut tIdx: usize = 0;
        while tIdx < self.tasks.len()
            invariant
                self.wf(),
                tIdx <= TASK_COUNT,
                !has_status(self.tasks@, TaskStatus::Pending),
                forall|j: int| 0 <= j < tIdx ==> #[trigger] self.tasks@[j].status != TaskStatus::Suspended,
            decreases TASK_COUNT - tIdx,
        {
            if matches!(self.tasks[tIdx].status, TaskStatus::Suspended) {
                return tIdx as u32;
            }
            tIdx = tIdx + 1;
        }
        (self.tasks.len() - 1) as u32
    }

    /// Context switch on behalf of the switch handler: saves `current_sp`
    /// for the running task, suspends it if active or makes it ready on a
    /// fresh stack if finished, then activates the task chosen by
    /// [`is_next_task`] and returns its saved stack pointer.
    pub fn PendSVSelectNext(&mut self, current_sp: u32) -> (next_sp: u32)
        requires
            old(self).wf(),
        ensures
            final(self).wf(),
            Self::switched(*old(self), *final(self), current_sp, next_sp),
    {
        let current = self.taskIdx as usize;

        let mut c = self.tasks[current];
        c.sp = current_sp;
        self.tasks.set(current, c);

        match self.tasks[current].status {
            TaskStatus::Active => {
                let mut c = self.tasks[current];
                c.status = TaskStatus::Suspended;
                self.tasks.set(current, c);
            },
            TaskStatus::Finished => {
                self.ResetTask(current);
                let mut c = self.tasks[current];
                c.status = TaskStatus::Ready;
                self.tasks.set(current, c);
            },
            _ => {},
        }
        let ghost mid = self.tasks@;
        assert(mid =~= old(self).tasks@.update(
            current as int,
            switched_out_control(old(self).tasks@[current as int], current_sp, old(self).frame_sp(current as int)),
        ));

        let next = self.GetNextTask() as usize;

        let mut c = self.tasks[next];
        c.status = TaskStatus::Active;
        self.tasks.set(next, c);
        self.taskIdx = next as u32;
        self.tasks[next].sp
    }

    /// Records that the body of task `taskId` has returned: the task is
    /// finished until the next context switch makes it ready again.
    pub fn MarkFinished(&mut self, taskId: usize)
        requires
            old(self).wf(),
            taskId < TASK_COUNT,
        ensures
            final(self).wf(),
            final(self).current() == old(self).current(),
            final(self).storage() == old(self).storage(),
            final(self).tasks_view() == old(self).tasks_view().update(
                taskId as int,
                TaskControl { status: TaskStatus::Finished, ..old(self).tasks_view()[taskId as int] },
            ),
    {
        let mut c = self.tasks[taskId];
        c.status = TaskStatus::Finished;
        self.tasks.set(taskId, c);
    }

    /// Index of the running task.
    pub fn current_task(&self) -> (t: u32)
        requires
            self.wf(),
        ensures
            t == self.current(),
    {
        self.taskIdx
    }

    /// Control block of task `t`.
    pub fn task(&self, t: usize) -> (c: TaskControl)
        requires
            self.wf(),
            t < TASK_COUNT,
        ensures
            c == self.tasks_view()[t as int],
    {
        self.tasks[t]
    }

    /// Words of the stack of task `t`.
    pub fn stack(&self, t: usize) -> (w: Vec<u32>)
        requires
            self.wf(),
            t < TASK_COUNT,
        ensures
            w@ == self.storage().stack(t as int),
    {
        self.stacks.stack_copy(t)
    }
}

/// The control block `c` after a scheduling pass at `now`, and whether the
/// pass starts a new run of the task. A task whose run starts keeps its saved
/// stack pointer here; the caller prepares its stack and stores the new one.
fn release_task(c: TaskControl, now_us: u64) -> (r: (TaskControl, bool))
    ensures
        r.1 == starts_run(c, now_us),
        r.0 == released_control(c, now_us, c.sp),
{
    let period_us = match c.cycletime.period_us() {
        Some(p) => p,
        None => {
            return (c, false);
        },
    };
    if now_us < c.next_release_us {
        return (c, false);
    }
    let release_us = c.next_release_us;
    proof {
        assert((now_us - release_us) / (period_us as int) < u64::MAX) by (nonlinear_arith)
            requires
                period_us >= 1000,
                0 <= now_us - release_us <= u64::MAX,
        ;
    }
    let due_count = ((now_us - release_us) / period_us) + 1;
    let advance = match due_count.checked_mul(period_us) {
        Some(x) => x,
        None => u64::MAX,
    };
    let mut t = c;
    t.next_release_us = release_us.saturating_add(advance);
    match c.status {
        TaskStatus::Ready => {
            t.timestamp_us = release_us;
            t.status = TaskStatus::Pending;
            if due_count > 1 {
                t.missed_releases = t.missed_releases.saturating_add((due_count - 1) as u32);
            }
            (t, true)
        },
        TaskStatus::Pending | TaskStatus::Active | TaskStatus::Suspended | TaskStatus::Finished => {
            t.missed_releases = t.missed_releases.saturating_add(due_count as u32);
            (t, false)
        },
        _ => (t, false),
    }
}

} // verus!

verus! {

/// When a due task is released and its next release time does not saturate,
/// that time lies after `now`, at most one period after it, and a whole
/// number of periods after the previous release time.
pub proof fn lemma_release_moves_past_now(c: TaskControl, now: u64, frame_sp: u32)
    requires
        is_due(c, now),
        c.next_release_us + due_count(c.next_release_us, period_of(c.cycletime)->Some_0, now)
            * period_of(c.cycletime)->Some_0 <= u64::MAX,
    ensures
        ({
            let p = period_of(c.cycletime)->Some_0;
            let next = released_control(c, now, frame_sp).next_release_us;
            &&& now < next
            &&& next <= now + p
            &&& (next - c.next_release_us) % (p as int) == 0
            &&& next - c.next_release_us == due_count(c.next_release_us, p, now) * p
        }),
{
    let p = period_of(c.cycletime)->Some_0;
    let r = c.next_release_us;
    let x = now - r;
    let q = x / (p as int);
    vstd::arithmetic::div_mod::lemma_fundamental_div_mod(x, p as int);
    let d = due_count(r, p, now);
    assert(d == q + 1) by {
        assert(0 <= q) by (nonlinear_arith)
            requires
                x >= 0,
                p > 0,
                q == x / (p as int),
        ;
        assert(q < u64::MAX) by (nonlinear_arith)
            requires
                0 <= x <= u64::MAX,
                p >= 1000,
                q == x / (p as int),
        ;
    }
    assert(d * p == q * p + p) by (nonlinear_arith)
        requires
            d == q + 1,
    ;
    assert(q * p == p * q) by (nonlinear_arith);
    vstd::arithmetic::div_mod::lemma_mod_multiples_basic(d as int, p as int);
    assert((d * p) % (p as int) == 0) by (nonlinear_arith)
        requires
            (d * p) == p * d,
            (p * d) % (p as int) == 0,
    ;
}

/// A second scheduling pass at the same time releases nothing more: once a
/// task has been released at `now` (without saturating its next release
/// time), looking at it again at `now` leaves it unchanged.
pub proof fn lemma_release_settles(c: TaskControl, now: u64, frame_sp: u32)
    requires
        is_due(c, now),
        c.next_release_us + due_count(c.next_release_us, period_of(c.cycletime)->Some_0, now)
            * period_of(c.cycletime)->Some_0 <= u64::MAX,
    ensures
        released_control(released_control(c, now, frame_sp), now, frame_sp) == released_control(
            c,
            now,
            frame_sp,
        ),
{
    lemma_release_moves_past_now(c, now, frame_sp);
}

/// A task that is due while still busy misses every due release: its count
/// of missed releases grows by the number of due releases (saturating), and
/// neither its status nor its stack pointer changes.
pub proof fn lemma_busy_task_misses_releases(c: TaskControl, now: u64, frame_sp: u32)
    requires
        is_due(c, now),
        c.status == TaskStatus::Pending || c.status == TaskStatus::Active || c.status
            == TaskStatus::Suspended || c.status == TaskStatus::Finished,
    ensures
        released_control(c, now, frame_sp).missed_releases == sat_add_u32(
            c.missed_releases,
            due_count(c.next_release_us, period_of(c.cycletime)->Some_0, now) as u32,
        ),
        released_control(c, now, frame_sp).status == c.status,
        released_control(c, now, frame_sp).sp == c.sp,
{
}

/// A ready task that is due starts a run: it becomes pending on a fresh
/// stack, with the first due release time as its timestamp, and all due
/// releases but that one count as missed.
pub proof fn lemma_ready_task_starts_run(c: TaskControl, now: u64, frame_sp: u32)
    requires
        starts_run(c, now),
    ensures
        released_control(c, now, frame_sp).status == TaskStatus::Pending,
        released_control(c, now, frame_sp).sp == frame_sp,
        released_control(c, now, frame_sp).timestamp_us == c.next_release_us,
        released_control(c, now, frame_sp).missed_releases == (if due_count(
            c.next_release_us,
            period_of(c.cycletime)->Some_0,
            now,
        ) > 1 {
            sat_add_u32(
                c.missed_releases,
                (due_count(c.next_release_us, period_of(c.cycletime)->Some_0, now) - 1) as u32,
            )
        } else {
            c.missed_releases
        }),
{
}

/// A scheduling pass leaves tasks that are not cyclic, or not yet due, as
/// they are.
pub proof fn lemma_release_leaves_idle_tasks(c: TaskControl, now: u64, frame_sp: u32)
    requires
        !is_due(c, now),
    ensures
        released_control(c, now, frame_sp) == c,
{
}

/// A ready cyclic task whose release time has just come is released at that
/// time: it becomes pending on a fresh stack with the release time as its
/// timestamp, its next release is one period later, and no release counts as
/// missed. The same holds a little later, as long as less than a period has
/// passed since the release time.
pub proof fn lemma_release_on_time(c: TaskControl, now: u64, frame_sp: u32)
    requires
        period_of(c.cycletime) is Some,
        c.status == TaskStatus::Ready,
        c.next_release_us <= now < c.next_release_us + period_of(c.cycletime)->Some_0,
        c.next_release_us + period_of(c.cycletime)->Some_0 <= u64::MAX,
    ensures
        released_control(c, now, frame_sp).status == TaskStatus::Pending,
        released_control(c, now, frame_sp).sp == frame_sp,
        released_control(c, now, frame_sp).timestamp_us == c.next_release_us,
        released_control(c, now, frame_sp).next_release_us == c.next_release_us + period_of(
            c.cycletime,
        )->Some_0,
        released_control(c, now, frame_sp).missed_releases == c.missed_releases,
        released_control(c, now, frame_sp).cycletime == c.cycletime,
        released_control(c, now, frame_sp).role == c.role,
        released_control(c, now, frame_sp).cyclic == c.cyclic,
{
    let p = period_of(c.cycletime)->Some_0;
    let x = now - c.next_release_us;
    assert(x / (p as int) == 0) by (nonlinear_arith)
        requires
            0 <= x < p,
    ;
}

/// A busy task (pending, active, suspended or finished) whose release time
/// has come within the last period misses exactly that one release: its
/// count of missed releases grows by one (unless it is saturated), its next
/// release is one period later, and its status and stack pointer stay.
pub proof fn lemma_busy_task_misses_one_release(c: TaskControl, now: u64, frame_sp: u32)
    requires
        period_of(c.cycletime) is Some,
        c.status == TaskStatus::Pending || c.status == TaskStatus::Active || c.status
            == TaskStatus::Suspended || c.status == TaskStatus::Finished,
        c.next_release_us <= now < c.next_release_us + period_of(c.cycletime)->Some_0,
        c.next_release_us + period_of(c.cycletime)->Some_0 <= u64::MAX,
        c.missed_releases < u32::MAX,
    ensures
        released_control(c, now, frame_sp).missed_releases == c.missed_releases + 1,
        released_control(c, now, frame_sp).next_release_us == c.next_release_us + period_of(
            c.cycletime,
        )->Some_0,
        released_control(c, now, frame_sp).status == c.status,
        released_control(c, now, frame_sp).sp == c.sp,
        released_control(c, now, frame_sp).timestamp_us == c.timestamp_us,
{
    let p = period_of(c.cycletime)->Some_0;
    let x = now - c.next_release_us;
    assert(x / (p as int) == 0) by (nonlinear_arith)
        requires
            0 <= x < p,
    ;
}

/// A task is left as it is by a scheduling pass that comes before its next
/// release time, and a task that is not cyclic is never released.
pub proof fn lemma_release_waits(c: TaskControl, now: u64, frame_sp: u32)
    requires
        now < c.next_release_us || c.cycletime == TaskCycleTime::NonCyclic || c.cycletime
            == TaskCycleTime::Unknown,
    ensures
        released_control(c, now, frame_sp) == c,
{
}

} // verus!

verus! {

/// A scheduling pass asks for a context switch when it releases a ready task
/// that is due, and when the running task has finished; when it leaves no
/// task pending and the running task has not finished, it asks for none.
pub proof fn lemma_schedule_requests_switch<const TASK_COUNT: usize, const STACK_SIZE: usize>(
    before: Application<TASK_COUNT, STACK_SIZE>,
    after: Application<TASK_COUNT, STACK_SIZE>,
    now: u64,
    actions: SchedulerActions,
)
    requires
        before.wf(),
        Application::scheduled(before, after, now, actions),
    ensures
        forall|t: int|
            0 <= t < TASK_COUNT && period_of(#[trigger] before.tasks_view()[t].cycletime) is Some
                && before.tasks_view()[t].status == TaskStatus::Ready && before.tasks_view()[t].next_release_us
                <= now ==> {
                &&& actions.pend_sv
                &&& after.tasks_view()[t].status == TaskStatus::Pending
                &&& after.tasks_view()[t].sp == before.frame_sp(t)
                &&& after.storage().stack(t) == before.fresh_stack(t)
            },
        after.tasks_view()[after.current()].status == TaskStatus::Finished ==> actions.pend_sv,
        (forall|t: int| 0 <= t < TASK_COUNT ==> #[trigger] after.tasks_view()[t].status != TaskStatus::Pending)
            && after.tasks_view()[after.current()].status != TaskStatus::Finished ==> !actions.pend_sv,
{
    assert forall|t: int|
        0 <= t < TASK_COUNT && period_of(#[trigger] before.tasks_view()[t].cycletime) is Some
            && before.tasks_view()[t].status == TaskStatus::Ready && before.tasks_view()[t].next_release_us
            <= now implies {
            &&& actions.pend_sv
            &&& after.tasks_view()[t].status == TaskStatus::Pending
            &&& after.tasks_view()[t].sp == before.frame_sp(t)
            &&& after.storage().stack(t) == before.fresh_stack(t)
        } by {
        assert(after.tasks_view()[t] == released_control(before.tasks_view()[t], now, before.frame_sp(t)));
        assert(cyclic_pending(after.tasks_view(), TASK_COUNT as int));
    }
}

/// The tick timer is asked for the earliest next release among the cyclic
/// tasks after a scheduling pass: the deadline is no later than the next
/// release of any cyclic task and equals that of one of them; no deadline is
/// asked for only when no cyclic task has a next release before `u64::MAX`.
pub proof fn lemma_schedule_deadline<const TASK_COUNT: usize, const STACK_SIZE: usize>(
    before: Application<TASK_COUNT, STACK_SIZE>,
    after: Application<TASK_COUNT, STACK_SIZE>,
    now: u64,
    actions: SchedulerActions,
)
    requires
        before.wf(),
        after.wf(),
        Application::scheduled(before, after, now, actions),
    ensures
        actions.timer_deadline_us matches Some(d) ==> {
            &&& forall|t: int|
                0 <= t < TASK_COUNT && period_of(#[trigger] after.tasks_view()[t].cycletime) is Some ==> d
                    <= after.tasks_view()[t].next_release_us
            &&& exists|t: int|
                0 <= t < TASK_COUNT && period_of(#[trigger] after.tasks_view()[t].cycletime) is Some
                    && after.tasks_view()[t].next_release_us == d
        },
        actions.timer_deadline_us is None ==> forall|t: int|
            0 <= t < TASK_COUNT && period_of(#[trigger] after.tasks_view()[t].cycletime) is Some
                ==> after.tasks_view()[t].next_release_us == u64::MAX,
{
    let ts = after.tasks_view();
    lemma_earliest_release_is_minimum(ts, TASK_COUNT as int);
    if actions.timer_deadline_us is Some {
        let d = actions.timer_deadline_us->Some_0;
        let w = choose|i: int|
            0 <= i < TASK_COUNT && period_of(ts[i].cycletime) is Some && #[trigger] ts[i].next_release_us
                == earliest_release(ts, TASK_COUNT as int);
        assert(period_of(ts[w].cycletime) is Some && ts[w].next_release_us == d);
    }
}

/// A context switch to another task parks the interrupted one: an active task
/// is suspended and keeps the stack pointer it was interrupted at; a finished
/// task is made ready on a freshly prepared stack, its saved stack pointer
/// the prepared frame. Every task but these two is left as it is.
pub proof fn lemma_switch_parks_interrupted_task<const TASK_COUNT: usize, const STACK_SIZE: usize>(
    before: Application<TASK_COUNT, STACK_SIZE>,
    after: Application<TASK_COUNT, STACK_SIZE>,
    current_sp: u32,
    next_sp: u32,
)
    requires
        before.wf(),
        Application::switched(before, after, current_sp, next_sp),
        after.current() != before.current(),
    ensures
        before.tasks_view()[before.current()].status == TaskStatus::Active ==> {
            &&& after.tasks_view()[before.current()].status == TaskStatus::Suspended
            &&& after.tasks_view()[before.current()].sp == current_sp
            &&& after.storage().stack(before.current()) == before.storage().stack(before.current())
        },
        before.tasks_view()[before.current()].status == TaskStatus::Finished ==> {
            &&& after.tasks_view()[before.current()].status == TaskStatus::Ready
            &&& after.tasks_view()[before.current()].sp == before.frame_sp(before.current())
            &&& after.storage().stack(before.current()) == before.fresh_stack(before.current())
        },
        forall|j: int|
            0 <= j < TASK_COUNT && j != before.current() && j != after.current() ==> #[trigger] after.tasks_view()[j]
                == before.tasks_view()[j],
{
}

/// Restarting the release schedule at `base_us` puts the next release of a
/// cyclic task one period after the base (`1000 * n` microseconds for a cycle
/// of `n` milliseconds, where that fits in 64 bits) with the base as its
/// timestamp and no missed releases, and leaves a task that is not cyclic as
/// it is.
pub proof fn lemma_rebase_restarts_cycles(c: TaskControl, base_us: u64)
    ensures
        period_of(c.cycletime) is Some && base_us + period_of(c.cycletime)->Some_0 <= u64::MAX ==> {
            &&& rebased_control(c, base_us).next_release_us == base_us + period_of(c.cycletime)->Some_0
            &&& rebased_control(c, base_us).timestamp_us == base_us
            &&& rebased_control(c, base_us).missed_releases == 0
            &&& rebased_control(c, base_us).status == c.status
            &&& rebased_control(c, base_us).sp == c.sp
        },
        period_of(c.cycletime) is Some && base_us + period_of(c.cycletime)->Some_0 > u64::MAX
            ==> rebased_control(c, base_us).next_release_us == u64::MAX,
        c.cycletime == TaskCycleTime::NonCyclic || c.cycletime == TaskCycleTime::Unknown ==> rebased_control(
            c,
            base_us,
        ) == c,
{
}

} // verus!

verus! {

/// The task to run next is determined uniquely.
pub proof fn lemma_next_task_unique(ts: Seq<TaskControl>, i: int, j: int)
    requires
        is_next_task(ts, i),
        is_next_task(ts, j),
    ensures
        i == j,
{
    if has_status(ts, TaskStatus::Pending) {
        if i < j {
            assert(ts[i].status != TaskStatus::Pending);
        } else if j < i {
            assert(ts[j].status != TaskStatus::Pending);
        }
    } else if has_status(ts, TaskStatus::Suspended) {
        if i < j {
            assert(ts[i].status != TaskStatus::Suspended);
        } else if j < i {
            assert(ts[j].status != TaskStatus::Suspended);
        }
    }
}

/// A pending task always takes precedence: the next task is pending whenever
/// some task is pending, and it is never a pending or suspended task that
/// comes after another one of the same status.
pub proof fn lemma_pending_first(ts: Seq<TaskControl>, i: int, k: int)
    requires
        is_next_task(ts, i),
        0 <= k < ts.len(),
        ts[k].status == TaskStatus::Pending,
    ensures
        ts[i].status == TaskStatus::Pending,
        i <= k,
{
}

/// When no task is pending but some task is suspended, the task to run next
/// is a suspended one and no task before it is suspended: of the preempted
/// tasks, the one with the lowest index resumes.
pub proof fn lemma_resume_first_suspended(ts: Seq<TaskControl>, i: int, k: int)
    requires
        is_next_task(ts, i),
        forall|j: int| 0 <= j < ts.len() ==> #[trigger] ts[j].status != TaskStatus::Pending,
        0 <= k < ts.len(),
        ts[k].status == TaskStatus::Suspended,
    ensures
        0 <= i <= k,
        ts[i].status == TaskStatus::Suspended,
        forall|j: int| 0 <= j < i ==> #[trigger] ts[j].status != TaskStatus::Suspended,
{
    assert(!has_status(ts, TaskStatus::Pending));
    assert(has_status(ts, TaskStatus::Suspended));
}

/// When no task is pending or suspended, the last task, the background task,
/// runs next.
pub proof fn lemma_idle_runs_background(ts: Seq<TaskControl>, i: int)
    requires
        is_next_task(ts, i),
        forall|j: int|
            0 <= j < ts.len() ==> #[trigger] ts[j].status != TaskStatus::Pending && ts[j].status
                != TaskStatus::Suspended,
    ensures
        i == ts.len() - 1,
{
    assert(!has_status(ts, TaskStatus::Pending));
    assert(!has_status(ts, TaskStatus::Suspended));
}

/// A context switch while no task is pending resumes the preempted task with
/// the lowest index: when task `k`, which is not the running task, is
/// suspended and no task before it is suspended or active, `k` becomes the
/// running task, it is active, and the stack pointer handed back is the one
/// that was saved when it was preempted.
pub proof fn lemma_switch_resumes_first_suspended<const TASK_COUNT: usize, const STACK_SIZE: usize>(
    before: Application<TASK_COUNT, STACK_SIZE>,
    after: Application<TASK_COUNT, STACK_SIZE>,
    current_sp: u32,
    next_sp: u32,
    k: int,
)
    requires
        before.wf(),
        Application::switched(before, after, current_sp, next_sp),
        forall|j: int| 0 <= j < TASK_COUNT ==> #[trigger] before.tasks_view()[j].status != TaskStatus::Pending,
        0 <= k < TASK_COUNT,
        k != before.current(),
        before.tasks_view()[k].status == TaskStatus::Suspended,
        forall|j: int|
            0 <= j < k ==> #[trigger] before.tasks_view()[j].status != TaskStatus::Suspended
                && before.tasks_view()[j].status != TaskStatus::Active,
    ensures
        after.current() == k,
        after.tasks_view()[k].status == TaskStatus::Active,
        next_sp == before.tasks_view()[k].sp,
{
    let cur = before.current();
    let old_c = before.tasks_view()[cur];
    let mid = before.tasks_view().update(cur, switched_out_control(old_c, current_sp, before.frame_sp(cur)));
    assert forall|j: int| 0 <= j < mid.len() implies #[trigger] mid[j].status != TaskStatus::Pending by {
        if j != cur {
            assert(mid[j] == before.tasks_view()[j]);
        }
    }
    assert(mid[k] == before.tasks_view()[k]);
    lemma_resume_first_suspended(mid, after.current(), k);
    if after.current() < k {
        let n = after.current();
        if n != cur {
            assert(mid[n] == before.tasks_view()[n]);
        }
        assert(mid[n].status != TaskStatus::Suspended);
    }
}

/// A task configured with entry `func`, cycle time `cycletime` and role
/// `role` holds exactly these: it is ready, runs `func` with its own index as
/// id on the stack pointer `sp`, keeps the given role and cycle time, has no
/// release recorded yet, and is first released one period after time zero (a
/// cycle of `n` milliseconds puts it at `1000 * n` microseconds), at zero if
/// it is not cyclic. It reports program-flow checkpoints exactly when the
/// role is `Supervised` and the cycle time names a period.
pub proof fn lemma_configured_control_fields(
    c: TaskControl,
    t: int,
    func: TaskFunction,
    cycletime: TaskCycleTime,
    role: TaskRole,
    sp: u32,
)
    requires
        0 <= t <= u32::MAX,
    ensures
        configured_control(c, t, func, cycletime, role, sp).role == role,
        configured_control(c, t, func, cycletime, role, sp).cycletime == cycletime,
        configured_control(c, t, func, cycletime, role, sp).cyclic == Some(func),
        configured_control(c, t, func, cycletime, role, sp).id == t,
        configured_control(c, t, func, cycletime, role, sp).status == TaskStatus::Ready,
        configured_control(c, t, func, cycletime, role, sp).sp == sp,
        configured_control(c, t, func, cycletime, role, sp).timestamp_us == 0,
        configured_control(c, t, func, cycletime, role, sp).missed_releases == 0,
        cycletime == TaskCycleTime::_1MS ==> configured_control(c, t, func, cycletime, role, sp).next_release_us == 1000,
        cycletime == TaskCycleTime::_5MS ==> configured_control(c, t, func, cycletime, role, sp).next_release_us == 5000,
        cycletime == TaskCycleTime::_10MS ==> configured_control(c, t, func, cycletime, role, sp).next_release_us == 10000,
        cycletime == TaskCycleTime::_20MS ==> configured_control(c, t, func, cycletime, role, sp).next_release_us == 20000,
        cycletime == TaskCycleTime::_50MS ==> configured_control(c, t, func, cycletime, role, sp).next_release_us == 50000,
        cycletime == TaskCycleTime::_100MS ==> configured_control(c, t, func, cycletime, role, sp).next_release_us
            == 100000,
        cycletime == TaskCycleTime::NonCyclic || cycletime == TaskCycleTime::Unknown ==> configured_control(
            c,
            t,
            func,
            cycletime,
            role,
            sp,
        ).next_release_us == 0,
        reports_checkpoints(
            configured_control(c, t, func, cycletime, role, sp).role,
            configured_control(c, t, func, cycletime, role, sp).cycletime,
        ) <==> (role == TaskRole::Supervised && cycletime != TaskCycleTime::NonCyclic && cycletime
            != TaskCycleTime::Unknown),
{
}

} // verus!

verus! {

/// The deadline a scheduling pass asks for is the minimum of the next release
/// times of the cyclic tasks: no cyclic task is released before it, and
/// unless it is `u64::MAX` some cyclic task is released exactly then.
pub proof fn lemma_earliest_release_is_minimum(ts: Seq<TaskControl>, n: int)
    requires
        0 <= n <= ts.len(),
    ensures
        forall|i: int|
            0 <= i < n && period_of(ts[i].cycletime) is Some ==> earliest_release(ts, n)
                <= #[trigger] ts[i].next_release_us,
        earliest_release(ts, n) != u64::MAX ==> exists|i: int|
            0 <= i < n && period_of(ts[i].cycletime) is Some && #[trigger] ts[i].next_release_us
                == earliest_release(ts, n),
    decreases n,
{
    if n > 0 {
        lemma_earliest_release_is_minimum(ts, n - 1);
        let rest = earliest_release(ts, n - 1);
        if earliest_release(ts, n) != u64::MAX && earliest_release(ts, n) == rest {
            let w = choose|i: int|
                0 <= i < n - 1 && period_of(ts[i].cycletime) is Some && #[trigger] ts[i].next_release_us
                    == rest;
            assert(0 <= w < n && period_of(ts[w].cycletime) is Some && ts[w].next_release_us
                == earliest_release(ts, n));
        }
    }
}

} // verus!

verus! {

/// The stack pointer of every freshly prepared frame is 8-byte aligned, as
/// the exception return requires, and lies sixteen words below the top of
/// the task's stack.
pub proof fn lemma_frame_sp_aligned<const TASK_COUNT: usize, const STACK_SIZE: usize>(
    app: Application<TASK_COUNT, STACK_SIZE>,
    t: int,
)
    requires
        app.wf(),
        0 <= t < TASK_COUNT,
    ensures
        app.frame_sp(t) % 8 == 0,
        app.frame_sp(t) == crate::stack::stack_address(app.storage().base(), STACK_SIZE, t) + 4 * (STACK_SIZE - 16),
{
    crate::stack::lemma_fresh_stack_layout(
        app.storage().base(),
        STACK_SIZE,
        TASK_COUNT,
        t,
        app.storage().return_trap(),
        app.storage().entry(),
    );
}

/// After a context switch out of a state where only the running task was
/// active, exactly one task is active: the new running task, whose index is
/// in range and whose saved stack pointer is the one handed back.
pub proof fn lemma_switch_leaves_one_active<const TASK_COUNT: usize, const STACK_SIZE: usize>(
    old: Application<TASK_COUNT, STACK_SIZE>,
    new: Application<TASK_COUNT, STACK_SIZE>,
    current_sp: u32,
    next_sp: u32,
)
    requires
        old.wf(),
        new.wf(),
        old.single_active(),
        Application::switched(old, new, current_sp, next_sp),
    ensures
        0 <= new.current() < TASK_COUNT,
        new.tasks_view()[new.current()].status == TaskStatus::Active,
        forall|i: int| 0 <= i < TASK_COUNT && #[trigger] new.tasks_view()[i].status == TaskStatus::Active ==> i == new.current(),
        next_sp == new.tasks_view()[new.current()].sp,
{
}

} // verus!
