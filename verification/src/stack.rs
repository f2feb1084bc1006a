use vstd::prelude::*;

use crate::task::{valid_stack_size, INITIAL_FRAME_WORDS, STACK_GUARD_WORDS};

verus! {

/// Program status word of a fresh exception frame: only the Thumb bit set.
pub const INITIAL_XPSR: u32 = 0x0100_0000;

/// Fill pattern of unused stack words, for high-water-mark inspection.
pub const STACK_PATTERN: u32 = 0xE25A_2EA5;

/// Value of the guard words at the bottom of every stack.
pub const STACK_GUARD: u32 = 0xDEAD_BEEF;

/// Word `i` of a freshly prepared stack of `size` words for task `t`: guard
/// words at the bottom, the fill pattern above them, and at the top a
/// software-saved frame (r8-r11, r4-r7, all pattern) followed by the
/// hardware exception frame (r0 = task index, r1-r3 and r12 cleared, lr =
/// `trap`, pc = `entry` with the Thumb bit, xPSR).
pub open spec fn initial_stack_word(t: int, i: int, size: int, trap: u32, entry: u32) -> u32 {
    if i < STACK_GUARD_WORDS {
        STACK_GUARD
    } else if i == size - 8 {
        t as u32
    } else if size - 7 <= i <= size - 4 {
        0
    } else if i == size - 3 {
        trap
    } else if i == size - 2 {
        entry | 1
    } else if i == size - 1 {
        INITIAL_XPSR
    } else {
        STACK_PATTERN
    }
}

/// The whole freshly prepared stack of task `t`.
pub open spec fn initial_stack(t: int, size: int, trap: u32, entry: u32) -> Seq<u32> {
    Seq::new(size as nat, |i: int| initial_stack_word(t, i, size, trap, entry))
}

/// Address of the stack of task `t` when the stacks lie back to back from `base`.
pub open spec fn stack_address(base: u32, size: usize, t: int) -> int {
    base + 4 * size * t
}

/// Address of the prepared frame of task `t`: sixteen words below the top of its stack.
pub open spec fn frame_address(base: u32, size: usize, t: int) -> int {
    stack_address(base, size, t) + 4 * (size - 16)
}

/// The stacks of all tasks, back to back in memory from `base`, together
/// with the two code addresses that a prepared frame refers to.
pub struct TaskStackStorage<const TASK_COUNT: usize, const STACK_SIZE: usize> {
    base: u32,
    return_trap: u32,
    entry: u32,
    words: Vec<Vec<u32>>,
}

impl<const TASK_COUNT: usize, const STACK_SIZE: usize> TaskStackStorage<TASK_COUNT, STACK_SIZE> {
    /// Address of the first stack on the target.
    pub closed spec fn base(&self) -> u32 {
        self.base
    }

    /// Address to which a task body returns (the return trap).
    pub closed spec fn return_trap(&self) -> u32 {
        self.return_trap
    }

    /// Address at which every task starts (the task trampoline).
    pub closed spec fn entry(&self) -> u32 {
        self.entry
    }

    /// Words of the stack of task `t`.
    pub closed spec fn stack(&self, t: int) -> Seq<u32> {
        self.words@[t]@
    }

    /// Number of stacks held.
    pub closed spec fn stack_count(&self) -> nat {
        self.words@.len()
    }

    pub open spec fn wf(&self) -> bool {
        &&& TASK_COUNT > 0
        &&& valid_stack_size(STACK_SIZE)
        &&& self.base() % 8 == 0
        &&& stack_address(self.base(), STACK_SIZE, TASK_COUNT as int) <= u32::MAX
        &&& self.stack_count() == TASK_COUNT
        &&& forall|t: int| 0 <= t < TASK_COUNT ==> (#[trigger] self.stack(t)).len() == STACK_SIZE
    }

    /// Zeroed storage for `TASK_COUNT` stacks of `STACK_SIZE` words starting at
    /// the 8-byte aligned address `base`.
    pub fn new(base: u32, return_trap: u32, entry: u32) -> (s: Self)
        requires
            TASK_COUNT > 0,
            valid_stack_size(STACK_SIZE),
            base % 8 == 0,
            stack_address(base, STACK_SIZE, TASK_COUNT as int) <= u32::MAX,
        ensures
            s.wf(),
            s.base() == base,
            s.return_trap() == return_trap,
            s.entry() == entry,
            forall|t: int, i: int| 0 <= t < TASK_COUNT && 0 <= i < STACK_SIZE ==> #[trigger] s.stack(t)[i] == 0,
    {
        let mut words: Vec<Vec<u32>> = Vec::new();
        let mut t: usize = 0;
        while t < TASK_COUNT
            invariant
                t <= TASK_COUNT,
                words@.len() == t,
                forall|k: int| 0 <= k < t ==> (#[trigger] words@[k]@) == Seq::new(STACK_SIZE as nat, |i: int| 0u32),
            decreases TASK_COUNT - t,
        {
            let mut stack: Vec<u32> = Vec::new();
            let mut i: usize = 0;
            while i < STACK_SIZE
                invariant
                    i <= STACK_SIZE,
                    stack@ == Seq::new(i as nat, |k: int| 0u32),
                decreases STACK_SIZE - i,
            {
                stack.push(0);
                i = i + 1;
                assert(stack@ =~= Seq::new(i as nat, |k: int| 0u32));
            }
            words.push(stack);
            t = t + 1;
        }
        TaskStackStorage { base, return_trap, entry, words }
    }

    /// Address of the stack of task `t`.
    pub fn stack_ptr(&self, t: usize) -> (a: u32)
        requires
            self.wf(),
            t < TASK_COUNT,
        ensures
            a == stack_address(self.base(), STACK_SIZE, t as int),
    {
        proof {
            lemma_stack_address_bounds(self.base, STACK_SIZE, TASK_COUNT, t as int);
        }
        self.base + 4 * (STACK_SIZE as u32) * (t as u32)
    }

    /// A copy of the words of the stack of task `t`.
    pub fn stack_copy(&self, t: usize) -> (w: Vec<u32>)
        requires
            self.wf(),
            t < TASK_COUNT,
        ensures
            w@ == self.stack(t as int),
    {
        self.words[t].clone()
    }

    /// Rebuilds the stack of task `t` as a fresh initial frame and returns
    /// the address of that frame, the task's saved stack pointer.
    pub fn prepare(&mut self, t: usize) -> (sp: u32)
        requires
            old(self).wf(),
            t < TASK_COUNT,
            TASK_COUNT <= u32::MAX,
        ensures
            final(self).wf(),
            final(self).base() == old(self).base(),
            final(self).return_trap() == old(self).return_trap(),
            final(self).entry() == old(self).entry(),
            final(self).stack(t as int) == initial_stack(t as int, STACK_SIZE as int, old(self).return_trap(), old(self).entry()),
            forall|k: int| 0 <= k < TASK_COUNT && k != t ==> #[trigger] final(self).stack(k) == old(self).stack(k),
            sp == frame_address(old(self).base(), STACK_SIZE, t as int),
            sp % 8 == 0,
    {
        let stack = self.stack_ptr(t);
        let mut frame: Vec<u32> = Vec::new();
        let mut idx: usize = 0;
        while idx < STACK_SIZE
            invariant
                idx <= STACK_SIZE,
                frame@ == Seq::new(idx as nat, |k: int| STACK_PATTERN),
            decreases STACK_SIZE - idx,
        {
            frame.push(STACK_PATTERN);
            idx = idx + 1;
            assert(frame@ =~= Seq::new(idx as nat, |k: int| STACK_PATTERN));
        }
        let mut idx: usize = 0;
        while idx < STACK_GUARD_WORDS
            invariant
                idx <= STACK_GUARD_WORDS,
                valid_stack_size(STACK_SIZE),
                frame@.len() == STACK_SIZE,
                forall|k: int| 0 <= k < idx ==> frame@[k] == STACK_GUARD,
                forall|k: int| idx <= k < STACK_SIZE ==> frame@[k] == STACK_PATTERN,
            decreases STACK_GUARD_WORDS - idx,
        {
            frame.set(idx, STACK_GUARD);
            idx = idx + 1;
        }

        let frame_base = STACK_SIZE - INITIAL_FRAME_WORDS;
        proof {
            lemma_stack_address_bounds(self.base, STACK_SIZE, TASK_COUNT, t as int);
        }
        let sp = stack + 4 * (frame_base as u32);

        // Software-saved frame, restored as r8-r11 first, then r4-r7.
        frame.set(STACK_SIZE - 16, STACK_PATTERN);
        frame.set(STACK_SIZE - 15, STACK_PATTERN);
        frame.set(STACK_SIZE - 14, STACK_PATTERN);
        frame.set(STACK_SIZE - 13, STACK_PATTERN);
        frame.set(STACK_SIZE - 12, STACK_PATTERN);
        frame.set(STACK_SIZE - 11, STACK_PATTERN);
        frame.set(STACK_SIZE - 10, STACK_PATTERN);
        frame.set(STACK_SIZE - 9, STACK_PATTERN);

        // Hardware exception frame consumed by the exception return.
        frame.set(STACK_SIZE - 8, t as u32);
        frame.set(STACK_SIZE - 7, 0);
        frame.set(STACK_SIZE - 6, 0);
        frame.set(STACK_SIZE - 5, 0);
        frame.set(STACK_SIZE - 4, 0);
        frame.set(STACK_SIZE - 3, self.return_trap);
        frame.set(STACK_SIZE - 2, self.entry | 1);
        frame.set(STACK_SIZE - 1, INITIAL_XPSR);

        assert(frame@ =~= initial_stack(t as int, STACK_SIZE as int, self.return_trap, self.entry));
        let ghost old_words = self.words@;
        self.words.set(t, frame);
        assert forall|k: int| 0 <= k < TASK_COUNT implies (#[trigger] self.stack(k)).len() == STACK_SIZE by {
            if k != t {
                assert(self.words@[k] == old_words[k]);
                assert(old(self).stack(k).len() == STACK_SIZE);
            }
        }
        sp
    }
}

/// What a well-formed storage guarantees about its layout.
pub proof fn lemma_storage_wf<const TASK_COUNT: usize, const STACK_SIZE: usize>(
    s: &TaskStackStorage<TASK_COUNT, STACK_SIZE>,
)
    requires
        s.wf(),
    ensures
        TASK_COUNT > 0,
        valid_stack_size(STACK_SIZE),
        s.base() % 8 == 0,
        stack_address(s.base(), STACK_SIZE, TASK_COUNT as int) <= u32::MAX,
        forall|t: int| 0 <= t < TASK_COUNT ==> (#[trigger] s.stack(t)).len() == STACK_SIZE,
{
}

/// Stack addresses stay inside the 32-bit address space and keep the 8-byte
/// alignment of the base.
proof fn lemma_stack_address_bounds(base: u32, size: usize, count: usize, t: int)
    requires
        0 <= t < count,
        valid_stack_size(size),
        base % 8 == 0,
        stack_address(base, size, count as int) <= u32::MAX,
    ensures
        stack_address(base, size, t) + 4 * size <= u32::MAX,
        4 * size * t <= u32::MAX,
        t <= u32::MAX,
        frame_address(base, size, t) % 8 == 0,
        frame_address(base, size, t) <= u32::MAX,
{
    assert(4 * size * t + 4 * size <= 4 * size * count) by (nonlinear_arith)
        requires
            0 <= t < count,
            size >= 0,
    ;
    assert(4 * size * t >= 0) by (nonlinear_arith)
        requires
            0 <= t,
            size >= 0,
    ;
    let h = size as int / 2;
    assert(4 * size * t == 8 * (h * t)) by (nonlinear_arith)
        requires
            size == 2 * h,
    ;
    vstd::arithmetic::div_mod::lemma_mod_multiples_basic(h * t, 8);
    assert(4 * (size - 16) == 8 * (h - 8));
    vstd::arithmetic::div_mod::lemma_mod_multiples_basic(h - 8, 8);
    assert(t <= 4 * size * t) by (nonlinear_arith)
        requires
            size >= 1,
            t >= 0,
    ;
}

} // verus!

verus! {

/// Layout of a freshly prepared stack of task `t`: the guard fills the
/// bottom words, every word above them up to the exception frame (the saved
/// registers included) holds the fill pattern, the exception frame hands the
/// task index over in r0, clears r1-r3 and r12, returns into the trap, enters
/// `entry` in Thumb state (its lowest bit set, the others those of `entry`)
/// with the Thumb bit of xPSR set, and the frame's address is 8-byte aligned.
pub proof fn lemma_fresh_stack_layout(base: u32, size: usize, count: usize, t: int, trap: u32, entry: u32)
    requires
        0 <= t < count,
        valid_stack_size(size),
        base % 8 == 0,
        stack_address(base, size, count as int) <= u32::MAX,
    ensures
        ({
            let s = initial_stack(t, size as int, trap, entry);
            &&& s.len() == size
            &&& forall|i: int| 0 <= i < STACK_GUARD_WORDS ==> #[trigger] s[i] == STACK_GUARD
            &&& forall|i: int| STACK_GUARD_WORDS <= i < size - 8 ==> #[trigger] s[i] == STACK_PATTERN
            &&& s[size - 8] == t as u32
            &&& forall|i: int| size - 7 <= i <= size - 4 ==> #[trigger] s[i] == 0
            &&& s[size - 3] == trap
            &&& s[size - 2] & 1 == 1
            &&& s[size - 2] & 0xFFFF_FFFE == entry & 0xFFFF_FFFE
            &&& s[size - 1] == INITIAL_XPSR
            &&& frame_address(base, size, t) % 8 == 0
            &&& frame_address(base, size, t) <= u32::MAX
            &&& frame_address(base, size, t) + 4 * INITIAL_FRAME_WORDS == stack_address(base, size, t) + 4 * size
        }),
{
    lemma_stack_address_bounds(base, size, count, t);
    let pc = entry | 1;
    assert(pc & 1 == 1 && pc & 0xFFFF_FFFE == entry & 0xFFFF_FFFE) by (bit_vector)
        requires
            pc == entry | 1,
    ;
}

} // verus!
