use vstd::prelude::*;

verus! {

/// Number of distinct `usize` values; free-running indices wrap modulo this number.
pub open spec fn usize_modulus() -> int {
    usize::MAX as int + 1
}

/// A capacity the queue accepts: a non-zero power of two.
pub open spec fn valid_capacity(cap: usize) -> bool {
    cap != 0 && cap & ((cap - 1) as usize) == 0
}

/// Distance from `read` to `write` on the wrapping `usize` circle.
pub open spec fn wrapping_distance(read: usize, write: usize) -> int {
    if write >= read {
        write - read
    } else {
        write + usize_modulus() - read
    }
}

/// A power-of-two capacity leaves remainder `cap - 1` on an all-ones word.
proof fn lemma_pow2_all_ones(x: usize, cap: usize)
    by (bit_vector)
    requires
        cap != 0,
        cap & ((cap - 1) as usize) == 0,
        cap <= x,
        x as u64 == 0xffff_ffff_ffff_ffffu64 || x as u64 == 0xffff_ffffu64,
    ensures
        x % cap == (cap - 1) as usize,
{
}

/// The capacity divides the number of `usize` values.
proof fn lemma_cap_divides_modulus(cap: usize)
    requires
        valid_capacity(cap),
    ensures
        usize_modulus() % (cap as int) == 0,
{
    lemma_pow2_all_ones(usize::MAX, cap);
    let q = usize::MAX as int / cap as int;
    vstd::arithmetic::div_mod::lemma_fundamental_div_mod(usize::MAX as int, cap as int);
    assert(usize_modulus() == cap as int * (q + 1)) by (nonlinear_arith)
        requires
            usize::MAX as int == cap as int * q + (cap as int - 1),
            usize_modulus() == usize::MAX as int + 1,
    ;
    vstd::arithmetic::div_mod::lemma_mod_multiples_basic(q + 1, cap as int);
    vstd::arithmetic::mul::lemma_mul_is_commutative(cap as int, q + 1);
}

/// Subtracting the `usize` modulus does not change a remainder by the capacity.
proof fn lemma_unwrap_mod(x: int, cap: usize)
    requires
        valid_capacity(cap),
    ensures
        (x - usize_modulus()) % (cap as int) == x % (cap as int),
{
    lemma_cap_divides_modulus(cap);
    let k = usize_modulus() / (cap as int);
    vstd::arithmetic::div_mod::lemma_fundamental_div_mod(usize_modulus(), cap as int);
    assert(cap as int * (-k) + x == x - usize_modulus()) by (nonlinear_arith)
        requires
            usize_modulus() == cap as int * k,
    ;
    vstd::arithmetic::div_mod::lemma_mod_multiples_vanish(-k, x, cap as int);
}

/// Two offsets less than the capacity apart land in different slots.
proof fn lemma_slots_distinct(r: int, i: int, j: int, cap: int)
    requires
        0 < cap,
        0 <= i < j < i + cap,
    ensures
        (r + i) % cap != (r + j) % cap,
{
    vstd::arithmetic::div_mod::lemma_fundamental_div_mod(r + i, cap);
    vstd::arithmetic::div_mod::lemma_fundamental_div_mod(r + j, cap);
    let qi = (r + i) / cap;
    let qj = (r + j) / cap;
    if (r + i) % cap == (r + j) % cap {
        assert(cap * (qj - qi) == j - i) by (nonlinear_arith)
            requires
                r + i == cap * qi + (r + i) % cap,
                r + j == cap * qj + (r + j) % cap,
                (r + i) % cap == (r + j) % cap,
        ;
        assert(false) by (nonlinear_arith)
            requires
                cap * (qj - qi) == j - i,
                0 < j - i < cap,
        ;
    }
}

/// Contents of a queue of capacity `cap` holding `s` after `msg` is pushed:
/// the oldest message is dropped first when the queue is full.
pub open spec fn pushed<T>(s: Seq<T>, cap: int, msg: T) -> Seq<T> {
    if s.len() == cap {
        s.drop_first().push(msg)
    } else {
        s.push(msg)
    }
}

/// Contents of an initially empty queue of capacity `cap` after `msgs` were
/// pushed in order, with no message popped.
pub open spec fn push_all<T>(msgs: Seq<T>, cap: int) -> Seq<T>
    decreases msgs.len(),
{
    if msgs.len() == 0 {
        Seq::empty()
    } else {
        pushed(push_all(msgs.drop_last(), cap), cap, msgs.last())
    }
}

/// Number of pushes that dropped a message while `msgs` were pushed into an
/// initially empty queue of capacity `cap`.
pub open spec fn overwrites<T>(msgs: Seq<T>, cap: int) -> int
    decreases msgs.len(),
{
    if msgs.len() == 0 {
        0
    } else {
        overwrites(msgs.drop_last(), cap) + if push_all(msgs.drop_last(), cap).len() == cap {
            1int
        } else {
            0
        }
    }
}

/// A queue never holds more than its capacity, and after a series of pushes
/// into an empty queue it holds exactly the last `cap` messages pushed (all of
/// them if there were fewer), oldest first; every message before those was
/// dropped by exactly one push.
pub proof fn lemma_queue_keeps_latest<T>(msgs: Seq<T>, cap: int)
    requires
        cap > 0,
    ensures
        push_all(msgs, cap) == msgs.subrange(
            if msgs.len() > cap {
                msgs.len() - cap
            } else {
                0
            },
            msgs.len() as int,
        ),
        push_all(msgs, cap).len() <= cap,
        overwrites(msgs, cap) == (if msgs.len() > cap {
            msgs.len() - cap
        } else {
            0
        }),
    decreases msgs.len(),
{
    if msgs.len() > 0 {
        let init = msgs.drop_last();
        lemma_queue_keeps_latest(init, cap);
        let start = if init.len() > cap {
            init.len() - cap
        } else {
            0
        };
        if init.len() >= cap {
            assert(push_all(msgs, cap) =~= msgs.subrange(msgs.len() - cap, msgs.len() as int));
        } else {
            assert(push_all(msgs, cap) =~= msgs.subrange(0, msgs.len() as int));
        }
    } else {
        assert(push_all(msgs, cap) =~= msgs.subrange(0, 0));
    }
}

/// Fixed-capacity single-producer/single-consumer message queue whose
/// producer never blocks: when the queue is full, the oldest message is
/// dropped to make room and counted as lost.
pub struct Queue<T: Copy, const CAP: usize> {
    buf: Vec<Option<T>>,
    read: usize,
    write: usize,
    lost: usize,
}

impl<T: Copy, const CAP: usize> Queue<T, CAP> {
    /// Number of messages held.
    pub closed spec fn occupancy(&self) -> int {
        wrapping_distance(self.read, self.write)
    }

    /// Slot of the buffer that holds the `i`-th oldest message.
    pub closed spec fn slot(&self, i: int) -> int {
        (self.read + i) % (CAP as int)
    }

    /// The messages held, oldest first.
    pub closed spec fn messages(&self) -> Seq<T> {
        Seq::new(self.occupancy() as nat, |i: int| self.buf@[self.slot(i)]->Some_0)
    }

    /// Number of messages dropped since the counter was last taken.
    pub closed spec fn lost_count(&self) -> usize {
        self.lost
    }

    pub closed spec fn wf(&self) -> bool {
        &&& valid_capacity(CAP)
        &&& self.buf@.len() == CAP
        &&& self.occupancy() <= CAP
        &&& forall|i: int| 0 <= i < self.occupancy() ==> (#[trigger] self.buf@[self.slot(i)]) is Some
    }

    /// An empty queue.
    pub fn new() -> (q: Self)
        requires
            valid_capacity(CAP),
        ensures
            q.wf(),
            q@ == Seq::<T>::empty(),
            q.lost_count() == 0,
    {
        let mut buf: Vec<Option<T>> = Vec::new();
        let mut i: usize = 0;
        while i < CAP
            invariant
                i <= CAP,
                buf@.len() == i,
            decreases CAP - i,
        {
            buf.push(None);
            i = i + 1;
        }
        let q = Queue { buf, read: 0, write: 0, lost: 0 };
        assert(q@ =~= Seq::<T>::empty());
        q
    }

    /// Appends `msg`. When the queue is full the oldest message is dropped
    /// first and counted as lost; the result tells whether that happened.
    pub fn push_overwrite_oldest(&mut self, msg: T) -> (overwrote: bool)
        requires
            old(self).wf(),
        ensures
            final(self).wf(),
            overwrote == (old(self)@.len() == CAP),
            final(self)@ == pushed(old(self)@, CAP as int, msg),
            final(self).lost_count() == (if overwrote {
                vstd::wrapping::usize_specs::wrapping_add(old(self).lost_count(), 1)
            } else {
                old(self).lost_count()
            }),
    {
        let ghost old_q = *self;
        let full = self.write.wrapping_sub(self.read) == CAP;

        if full {
            self.read = self.read.wrapping_add(1);
            self.lost = self.lost.wrapping_add(1);
        }

        let index = self.write % CAP;
        proof {
            if old_q.write < old_q.read {
                lemma_unwrap_mod(old_q.read + old_q.occupancy(), CAP);
            }
            assert(index == (old_q.read + old_q.occupancy()) % (CAP as int));
        }

        self.buf.set(index, Some(msg));
        self.write = self.write.wrapping_add(1);

        proof {
            let n = old_q.occupancy();
            let cap = CAP as int;
            if full {
                // The new read index is one past the old one, modulo the capacity.
                assert forall|i: int| #![trigger self.slot(i)] 0 <= i <= n implies self.slot(i)
                    == old_q.slot(i + 1) by {
                    if old_q.read == usize::MAX {
                        lemma_unwrap_mod(old_q.read + 1 + i, CAP);
                    }
                }
                assert(self.occupancy() == n);
                assert forall|i: int| 1 <= i < n implies #[trigger] old_q.slot(i) != index by {
                    lemma_slots_distinct(old_q.read as int, i, n, cap);
                }
                assert forall|i: int| 0 <= i < self.occupancy() implies (#[trigger] self.buf@[self.slot(i)]) is Some by {
                    if i < n - 1 {
                        assert(self.buf@[self.slot(i)] == old_q.buf@[old_q.slot(i + 1)]);
                    }
                }
                assert(self@ =~= old_q@.drop_first().push(msg));
            } else {
                assert(self.occupancy() == n + 1);
                assert forall|i: int| 0 <= i < n implies #[trigger] old_q.slot(i) != index by {
                    lemma_slots_distinct(old_q.read as int, i, n, cap);
                }
                assert forall|i: int| 0 <= i < self.occupancy() implies (#[trigger] self.buf@[self.slot(i)]) is Some by {
                    assert(self.slot(i) == old_q.slot(i));
                }
                assert(self@ =~= old_q@.push(msg));
            }
        }
        full
    }

    /// Removes and returns the oldest message, or `None` when the queue is empty.
    pub fn pop(&mut self) -> (r: Option<T>)
        requires
            old(self).wf(),
        ensures
            final(self).wf(),
            final(self).lost_count() == old(self).lost_count(),
            old(self)@.len() == 0 ==> r is None && final(self)@ == old(self)@,
            old(self)@.len() > 0 ==> r == Some(old(self)@[0]) && final(self)@ == old(self)@.drop_first(),
    {
        let ghost old_q = *self;
        if self.read == self.write {
            return None;
        }
        let index = self.read % CAP;
        assert(index == old_q.slot(0));
        assert(self.buf@[old_q.slot(0)] is Some);
        let msg = self.buf[index].unwrap();
        self.read = self.read.wrapping_add(1);
        proof {
            let n = old_q.occupancy();
            assert forall|i: int| #![trigger self.slot(i)] 0 <= i < n implies self.slot(i)
                == old_q.slot(i + 1) by {
                if old_q.read == usize::MAX {
                    lemma_unwrap_mod(old_q.read + 1 + i, CAP);
                }
            }
            assert(self.occupancy() == n - 1);
            assert forall|i: int| 0 <= i < self.occupancy() implies (#[trigger] self.buf@[self.slot(i)]) is Some by {
                assert(self.buf@[self.slot(i)] == old_q.buf@[old_q.slot(i + 1)]);
            }
            assert(self@ =~= old_q@.drop_first());
        }
        Some(msg)
    }

    /// Returns the number of dropped messages and resets the counter.
    pub fn take_lost(&mut self) -> (lost: usize)
        requires
            old(self).wf(),
        ensures
            final(self).wf(),
            lost == old(self).lost_count(),
            final(self).lost_count() == 0,
            final(self)@ == old(self)@,
    {
        let ghost old_q = *self;
        let lost = self.lost;
        self.lost = 0;
        assert forall|i: int| 0 <= i < self.occupancy() implies (#[trigger] self.buf@[self.slot(i)]) is Some by {
            assert(self.slot(i) == old_q.slot(i));
        }
        assert(self@ =~= old_q@);
        lost
    }

    /// Number of messages held.
    pub fn len(&self) -> (n: usize)
        requires
            self.wf(),
        ensures
            n == self@.len(),
            n <= CAP,
    {
        self.write.wrapping_sub(self.read)
    }

    /// Whether the queue holds no message.
    pub fn is_empty(&self) -> (b: bool)
        requires
            self.wf(),
        ensures
            b == (self@.len() == 0),
    {
        self.read == self.write
    }

    /// Whether the queue holds `CAP` messages, so that the next push drops one.
    pub fn is_full(&self) -> (b: bool)
        requires
            self.wf(),
        ensures
            b == (self@.len() == CAP),
    {
        self.len() == CAP
    }
}

impl<T: Copy, const CAP: usize> View for Queue<T, CAP> {
    type V = Seq<T>;

    closed spec fn view(&self) -> Seq<T> {
        self.messages()
    }
}

} // verus!
