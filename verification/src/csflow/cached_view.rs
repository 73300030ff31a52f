use vstd::prelude::*;
use std::sync::Arc;
use std::sync::atomic::{AtomicI32, AtomicU8};
use crate::csflow::slot_math::{count_stamp, lemma_next_count_stamp_differs, next_count};

verus! {

/// Slots marked with this flag are valid for one batch of memory operations.
pub const INVALIDATE_ALWAYS: u8 = 0b00000001;
/// Slots marked with this flag are valid until the game's tick count changes.
pub const INVALIDATE_TICK: u8 = 0b00000010;

/// The flags and tick count that the radar sets for memflow's cache validators, shared
/// with every validator made from it. The values live in shared atomics; the controller
/// also keeps, as ghost state, the values it last stored there.
pub struct ExternallyControlledValidator {
    validator_next_flags: Arc<AtomicU8>,
    validator_tick_count: Arc<AtomicI32>,
    stored_flags: Ghost<u8>,
    stored_tick_count: Ghost<i32>,
}

impl ExternallyControlledValidator {
    /// The flags this controller last stored for its validators.
    pub closed spec fn next_flags(&self) -> u8 {
        self.stored_flags@
    }

    /// The tick count this controller last stored for its validators.
    pub closed spec fn tick_count(&self) -> i32 {
        self.stored_tick_count@
    }

    /// Flags `INVALIDATE_ALWAYS` and tick count 0.
    pub fn new() -> (r: Self)
        ensures
            r.next_flags() == INVALIDATE_ALWAYS,
            r.tick_count() == 0,
    {
        ExternallyControlledValidator {
            validator_next_flags: Arc::new(AtomicU8::new(INVALIDATE_ALWAYS)),
            validator_tick_count: Arc::new(AtomicI32::new(0)),
            stored_flags: Ghost(INVALIDATE_ALWAYS),
            stored_tick_count: Ghost(0),
        }
    }

    /// Stores the flags that validators give the slots they validate from their next batch
    /// on.
    pub fn set_next_flags(&mut self, flags: u8)
        ensures
            final(self).next_flags() == flags,
            final(self).tick_count() == old(self).tick_count(),
    {
        self.validator_next_flags.store(flags, std::sync::atomic::Ordering::SeqCst);
        self.stored_flags = Ghost(flags);
    }

    /// Stores the tick count that slots validated under `INVALIDATE_TICK` are tied to.
    pub fn set_tick_count(&mut self, tick_count: i32)
        ensures
            final(self).tick_count() == tick_count,
            final(self).next_flags() == old(self).next_flags(),
    {
        self.validator_tick_count.store(tick_count, std::sync::atomic::Ordering::SeqCst);
        self.stored_tick_count = Ghost(tick_count);
    }

    /// A validator that follows this controller's flags and tick count.
    pub fn validator(&self) -> (r: CustomValidator)
        ensures
            r.slots@.len() == 0,
            r.next_flags_local == INVALIDATE_ALWAYS,
            r.last_count == 0,
            r.tick_count_local == -1,
    {
        CustomValidator::new(self.validator_next_flags.clone(), self.validator_tick_count.clone())
    }
}

/// The validity record of one cache slot: the batch count or tick count it was validated
/// at, and the flags it was validated under.
#[derive(Clone, Copy)]
pub struct ValidatorSlot {
    pub value: i32,
    pub flags: u8,
}

/// A cache validator for memflow's cached views: each slot is valid for the batch it was
/// validated in, or, under `INVALIDATE_TICK`, until the tick count changes.
#[derive(Clone)]
pub struct CustomValidator {
    pub slots: Vec<ValidatorSlot>,
    /// The invalidation flags for the next read or write, set from outside.
    pub next_flags: Arc<AtomicU8>,
    pub next_flags_local: u8,
    /// The number of batches so far, so that slots need not be invalidated one by one.
    pub last_count: usize,
    /// The tick count, set from outside.
    pub tick_count: Arc<AtomicI32>,
    pub tick_count_local: i32,
}

/// Whether a slot record is valid at batch count `last_count` and tick count `tick_count`.
pub open spec fn slot_valid(slot: ValidatorSlot, last_count: usize, tick_count: i32) -> bool {
    if slot.flags == INVALIDATE_ALWAYS {
        slot.value == last_count as i32
    } else if slot.flags == INVALIDATE_TICK {
        slot.value == tick_count
    } else {
        false
    }
}

/// A slot record once validated under `flags` at batch count `last_count` and tick count
/// `tick_count`: under `INVALIDATE_TICK` it takes the tick count; under any other flags it
/// is taken as `INVALIDATE_ALWAYS` and takes the batch count.
pub open spec fn validated_slot(flags: u8, last_count: usize, tick_count: i32) -> ValidatorSlot {
    if flags == INVALIDATE_TICK {
        ValidatorSlot { value: tick_count, flags: INVALIDATE_TICK }
    } else {
        ValidatorSlot { value: last_count as i32, flags: INVALIDATE_ALWAYS }
    }
}

/// The record of a slot that was invalidated or never validated.
pub open spec fn invalid_slot() -> ValidatorSlot {
    ValidatorSlot { value: -1i32, flags: INVALIDATE_ALWAYS }
}

/// A slot is valid right after it is validated, whatever the flags it was validated under.
pub proof fn validated_slot_is_valid(flags: u8, last_count: usize, tick_count: i32)
    ensures
        slot_valid(validated_slot(flags, last_count, tick_count), last_count, tick_count),
{
}

/// An invalidated slot is not valid, unless the low 32 bits of the batch count happen to
/// read -1.
pub proof fn invalid_slot_is_not_valid(last_count: usize, tick_count: i32)
    ensures
        slot_valid(invalid_slot(), last_count, tick_count) <==> last_count as i32 == -1,
{
}

/// A new batch ends the validity of every slot validated under `INVALIDATE_ALWAYS`.
pub proof fn new_batch_invalidates_always_slots(slot: ValidatorSlot, last_count: usize, tick_count: i32, next_tick_count: i32)
    requires
        slot.flags == INVALIDATE_ALWAYS,
        slot_valid(slot, last_count, tick_count),
    ensures
        !slot_valid(slot, next_count(last_count), next_tick_count),
{
    lemma_next_count_stamp_differs(last_count);
}

/// A slot validated under `INVALIDATE_TICK` stays valid across batches for as long as the
/// tick count stays, and no longer.
pub proof fn tick_slots_follow_the_tick(slot: ValidatorSlot, last_count: usize, tick_count: i32, later_count: usize, later_tick_count: i32)
    requires
        slot.flags == INVALIDATE_TICK,
        slot_valid(slot, last_count, tick_count),
    ensures
        slot_valid(slot, later_count, later_tick_count) <==> later_tick_count == tick_count,
{
}

impl CustomValidator {
    /// A validator with no slots, flags `INVALIDATE_ALWAYS`, batch count 0 and tick count -1.
    pub fn new(next_flags: Arc<AtomicU8>, tick_count: Arc<AtomicI32>) -> (r: Self)
        ensures
            r.slots@.len() == 0,
            r.next_flags_local == INVALIDATE_ALWAYS,
            r.last_count == 0,
            r.tick_count_local == -1,
    {
        CustomValidator {
            slots: Vec::new(),
            next_flags,
            next_flags_local: INVALIDATE_ALWAYS,
            last_count: 0,
            tick_count,
            tick_count_local: -1,
        }
    }

    /// Makes `slot_count` slots, every one of them in the invalid state (value -1 under
    /// `INVALIDATE_ALWAYS`).
    pub fn allocate_slots(&mut self, slot_count: usize)
        ensures
            final(self).slots@.len() == slot_count,
            forall|i: int| 0 <= i < slot_count ==> #[trigger] final(self).slots@[i] == invalid_slot(),
            final(self).next_flags_local == old(self).next_flags_local,
            final(self).last_count == old(self).last_count,
            final(self).tick_count_local == old(self).tick_count_local,
    {
        self.slots.clear();
        self.slots.resize(slot_count, ValidatorSlot { value: -1, flags: INVALIDATE_ALWAYS });
    }

    /// Starts a batch of memory operations: counts it, and takes the flags and tick count
    /// set from outside.
    pub fn update_validity(&mut self)
        ensures
            final(self).last_count == next_count(old(self).last_count),
            final(self).slots@ == old(self).slots@,
    {
        self.last_count = self.last_count.wrapping_add(1);
        self.next_flags_local = self.next_flags.load(std::sync::atomic::Ordering::SeqCst);
        self.tick_count_local = self.tick_count.load(std::sync::atomic::Ordering::SeqCst);
    }

    /// Whether the slot is valid: validated in this batch under `INVALIDATE_ALWAYS`, or at
    /// this tick count under `INVALIDATE_TICK`.
    pub fn is_slot_valid(&self, slot_id: usize) -> (r: bool)
        requires
            slot_id < self.slots@.len(),
        ensures
            r == slot_valid(self.slots@[slot_id as int], self.last_count, self.tick_count_local),
    {
        let slot = self.slots[slot_id];
        if slot.flags == INVALIDATE_ALWAYS {
            slot.value == count_stamp(self.last_count)
        } else if slot.flags == INVALIDATE_TICK {
            slot.value == self.tick_count_local
        } else {
            false
        }
    }

    /// Marks the slot valid under the current flags: under `INVALIDATE_TICK` it takes the tick
    /// count; under `INVALIDATE_ALWAYS`, or any flags other than the two, it takes the batch
    /// count under `INVALIDATE_ALWAYS`. Either way the slot is valid afterwards.
    pub fn validate_slot(&mut self, slot_id: usize)
        requires
            slot_id < old(self).slots@.len(),
        ensures
            final(self).slots@ == old(self).slots@.update(slot_id as int, validated_slot(
                old(self).next_flags_local, old(self).last_count, old(self).tick_count_local)),
            slot_valid(final(self).slots@[slot_id as int], final(self).last_count, final(self).tick_count_local),
            final(self).next_flags_local == old(self).next_flags_local,
            final(self).last_count == old(self).last_count,
            final(self).tick_count_local == old(self).tick_count_local,
    {
        let slot = if self.next_flags_local == INVALIDATE_TICK {
            ValidatorSlot { value: self.tick_count_local, flags: INVALIDATE_TICK }
        } else {
            ValidatorSlot { value: count_stamp(self.last_count), flags: INVALIDATE_ALWAYS }
        };
        self.slots.set(slot_id, slot);
    }

    /// Resets the slot to invalid: value -1 under `INVALIDATE_ALWAYS`.
    pub fn invalidate_slot(&mut self, slot_id: usize)
        requires
            slot_id < old(self).slots@.len(),
        ensures
            final(self).slots@ == old(self).slots@.update(slot_id as int, invalid_slot()),
            final(self).next_flags_local == old(self).next_flags_local,
            final(self).last_count == old(self).last_count,
            final(self).tick_count_local == old(self).tick_count_local,
    {
        self.slots.set(slot_id, ValidatorSlot { value: -1, flags: INVALIDATE_ALWAYS });
    }
}

} // verus!
