//! Fixed-capacity tick ring buffer.
//!
//! A `CircularBuffer` maps an unsigned sequence number `s` to a stored value
//! through the slot index `s mod capacity`. Writes overwrite the slot
//! unconditionally, and reads return whatever occupies the slot without
//! checking which sequence wrote it: a writer that falls more than one
//! capacity behind aliases an older, unrelated sequence. That overwrite
//! semantics is deliberate and kept as stated. Every slot is initialized to
//! one supplied value, so reads before any write are well defined.
//!
//! The capacity is the same for every buffer, pinned by `BUFFER_CAPACITY`, so
//! sequence arithmetic is comparable across all interoperating instances.

use vstd::prelude::*;

verus! {

/// Capacity shared by every ring buffer instance.
pub const BUFFER_CAPACITY: usize = 64;

/// The slot a sequence number is stored in.
pub open spec fn slot_of(seq_num: u16) -> int {
    seq_num as int % (BUFFER_CAPACITY as int)
}

/// Fixed-capacity history of values indexed by sequence number modulo
/// `BUFFER_CAPACITY`.
pub struct CircularBuffer<T> {
    slots: Vec<T>,
}

impl<T> View for CircularBuffer<T> {
    type V = Seq<T>;

    closed spec fn view(&self) -> Seq<T> {
        self.slots@
    }
}

impl<T> CircularBuffer<T> {
    /// Every interoperating buffer has exactly `BUFFER_CAPACITY` slots.
    pub open spec fn wf(&self) -> bool {
        self@.len() == BUFFER_CAPACITY
    }
}

impl<T: Copy> CircularBuffer<T> {
    /// Builds a buffer with every slot holding `value`, so a read of any
    /// sequence number before the first write returns `value`.
    pub fn new_from(value: T) -> (b: Self)
        ensures
            b.wf(),
            b@ =~= Seq::new(BUFFER_CAPACITY as nat, |i: int| value),
    {
        let mut slots: Vec<T> = Vec::new();
        let mut i: usize = 0;
        while i < BUFFER_CAPACITY
            invariant
                i <= BUFFER_CAPACITY,
                slots@.len() == i,
                forall|j: int| 0 <= j < i ==> slots@[j] == value,
            decreases BUFFER_CAPACITY - i,
        {
            slots.push(value);
            i = i + 1;
        }
        CircularBuffer { slots }
    }

    /// Overwrites slot `seq_num mod capacity` with `value`, whatever sequence
    /// produced the value previously occupying it.
    pub fn set(&mut self, seq_num: u16, value: T)
        requires
            old(self).wf(),
        ensures
            final(self).wf(),
            final(self)@ == old(self)@.update(slot_of(seq_num), value),
    {
        let idx = (seq_num as usize) % self.slots.len();
        self.slots[idx] = value;
    }

    /// Returns the value occupying slot `seq_num mod capacity`. No check is
    /// made that the occupant was written for `seq_num` itself: a stale or
    /// never-written slot yields the construction value or an aliased older
    /// write.
    pub fn get(&self, seq_num: u16) -> (r: T)
        requires
            self.wf(),
        ensures
            r == self@[slot_of(seq_num)],
    {
        let idx = (seq_num as usize) % self.slots.len();
        self.slots[idx]
    }
}

/// Slot aliasing law: distinct sequence numbers congruent modulo the capacity
/// share one slot, so after `set(a, x)` then `set(b, y)`, `get(a)` returns
/// `y`.
pub proof fn lemma_slot_aliasing<T>(s0: Seq<T>, a: u16, b: u16, x: T, y: T)
    requires
        s0.len() == BUFFER_CAPACITY,
        a != b,
        slot_of(a) == slot_of(b),
    ensures
        s0.update(slot_of(a), x).update(slot_of(b), y)[slot_of(a)] == y,
{
}

/// Cold-read law: on a freshly constructed buffer every slot holds the
/// construction value, so `get` returns it for every sequence number.
pub proof fn lemma_cold_read<T>(value: T, s: u16)
    ensures
        Seq::new(BUFFER_CAPACITY as nat, |i: int| value)[slot_of(s)] == value,
{
}

} // verus!
