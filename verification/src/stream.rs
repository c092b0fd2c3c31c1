//! Stream Lifecycle Manager: streams live in a handle table inside the
//! driver context. Opening a stream appends a slot owning a fresh Ring
//! Transport and returns an opaque handle packing the slot index and the
//! slot's generation; write, play, render and close validate index and
//! generation before touching anything, so a stale or forged handle is
//! rejected instead of reaching freed state.

use vstd::prelude::*;
use crate::codec::{
    Decoded, UnderrunPolicy, consumed_bytes, fallback_at, full_slots, decoded_of, policy_after,
    sample_width, spec_sample_width,
};
use crate::ring::{
    ByteRing, push_accepted, ring_after_push, ring_bytes, ring_capacity,
};
use crate::value::CallError;

verus! {

/// One stream: its ring transport, the negotiated output configuration,
/// the underrun policy, and whether playback was started. `live` is
/// cleared and the generation bumped when the stream is closed.
pub struct StreamSlot {
    pub generation: u32,
    pub live: bool,
    pub sample_format: u8,
    pub channels: u16,
    pub sample_rate: u32,
    pub buffer_frames: u32,
    pub playing: bool,
    pub policy: UnderrunPolicy,
    pub ring: ByteRing,
}

/// The handle table. Slots are only appended; closing a slot clears
/// `live` and bumps its generation, so no handle ever points at freed or
/// recycled state it did not create.
pub struct StreamTable {
    slots: Vec<StreamSlot>,
}

/// The slot index packed into handle `h`.
pub open spec fn handle_index(h: u64) -> int {
    h as int % 0x1_0000_0000
}

/// The generation packed into handle `h`.
pub open spec fn handle_generation(h: u64) -> int {
    h as int / 0x1_0000_0000
}

impl StreamTable {
    /// The slots, in order of creation.
    pub closed spec fn spec_slots(&self) -> Seq<StreamSlot> {
        self.slots@
    }

    /// Well-formedness: a live slot's generation can still be bumped and
    /// its sample format is a published code whose width drives the ring.
    pub open spec fn wf(&self) -> bool {
        forall|j: int|
            0 <= j < self.spec_slots().len() && (#[trigger] self.spec_slots()[j]).live ==> {
                &&& self.spec_slots()[j].generation < u32::MAX
                &&& self.spec_slots()[j].sample_format <= 10
            }
    }

    /// Handle `h` names a live slot of matching generation.
    pub open spec fn valid_handle(&self, h: u64) -> bool {
        &&& handle_index(h) < self.spec_slots().len()
        &&& self.spec_slots()[handle_index(h)].live
        &&& self.spec_slots()[handle_index(h)].generation == handle_generation(h)
    }

    /// An empty table.
    pub fn new() -> (t: StreamTable)
        ensures
            t.spec_slots() =~= Seq::<StreamSlot>::empty(),
            t.wf(),
    {
        StreamTable { slots: Vec::new() }
    }

    /// How many slots exist (live or closed).
    pub fn len(&self) -> (n: usize)
        ensures
            n == self.spec_slots().len(),
    {
        self.slots.len()
    }

    /// Opens a stream: appends a fresh live slot owning an empty ring of
    /// `ring_capacity_bytes` and returns its handle. Existing slots are
    /// untouched, so the new stream is independent of every other one.
    pub fn open(
        &mut self,
        sample_format: u8,
        channels: u16,
        sample_rate: u32,
        buffer_frames: u32,
        ring_capacity_bytes: usize,
        policy: UnderrunPolicy,
    ) -> (r: Result<u64, CallError>)
        requires
            old(self).wf(),
            ring_capacity_bytes >= 1,
            sample_format <= 10,
        ensures
            final(self).wf(),
            match r {
                Ok(h) => ({
                    &&& old(self).spec_slots().len() < 0xFFFF_FFFF
                    &&& final(self).spec_slots().len() == old(self).spec_slots().len() + 1
                    &&& forall|j: int|
                        0 <= j < old(self).spec_slots().len() ==> final(self).spec_slots()[j]
                            == old(self).spec_slots()[j]
                    &&& handle_index(h) == old(self).spec_slots().len()
                    &&& handle_generation(h) == 1
                    &&& final(self).valid_handle(h)
                    &&& ({
                        let s = final(self).spec_slots().last();
                        &&& s.generation == 1
                        &&& s.live
                        &&& s.sample_format == sample_format
                        &&& s.channels == channels
                        &&& s.sample_rate == sample_rate
                        &&& s.buffer_frames == buffer_frames
                        &&& !s.playing
                        &&& s.policy == policy
                        &&& ring_bytes(s.ring) == Seq::<u8>::empty()
                        &&& ring_capacity(s.ring) == ring_capacity_bytes
                    })
                }),
                Err(e) => ({
                    &&& e == CallError::TooManyStreams
                    &&& old(self).spec_slots().len() >= 0xFFFF_FFFF
                    &&& *final(self) == *old(self)
                }),
            },
    {
        if self.slots.len() >= 0xFFFF_FFFF {
            return Err(CallError::TooManyStreams);
        }
        let index = self.slots.len();
        let slot = StreamSlot {
            generation: 1,
            live: true,
            sample_format,
            channels,
            sample_rate,
            buffer_frames,
            playing: false,
            policy,
            ring: ByteRing::new(ring_capacity_bytes),
        };
        self.slots.push(slot);
        let h: u64 = 0x1_0000_0000u64 + index as u64;
        proof {
            vstd::arithmetic::div_mod::lemma_fundamental_div_mod_converse(
                h as int,
                0x1_0000_0000,
                1,
                index as int,
            );
        }
        Ok(h)
    }

    /// Resolves a handle to its slot index, or rejects it.
    fn resolve(&self, h: u64) -> (r: Option<usize>)
        ensures
            match r {
                Some(i) => self.valid_handle(h) && i == handle_index(h),
                None => !self.valid_handle(h),
            },
    {
        let idx64: u64 = h % 0x1_0000_0000u64;
        let gen64: u64 = h / 0x1_0000_0000u64;
        if idx64 >= self.slots.len() as u64 {
            return None;
        }
        let i = idx64 as usize;
        let slot = &self.slots[i];
        if slot.live && slot.generation as u64 == gen64 {
            Some(i)
        } else {
            None
        }
    }

    /// Pushes sample bytes into the stream's ring transport: as many as
    /// fit, without blocking; the excess is dropped. Returns how many
    /// bytes were accepted. Every other slot is untouched.
    pub fn write(&mut self, h: u64, data: &[u8]) -> (r: Result<usize, CallError>)
        requires
            old(self).wf(),
        ensures
            final(self).wf(),
            match r {
                Ok(n) => ({
                    let i = handle_index(h);
                    let s0 = old(self).spec_slots()[i];
                    let s1 = final(self).spec_slots()[i];
                    &&& old(self).valid_handle(h)
                    &&& final(self).valid_handle(h)
                    &&& final(self).spec_slots().len() == old(self).spec_slots().len()
                    &&& forall|j: int|
                        0 <= j < old(self).spec_slots().len() && j != i ==> final(self).spec_slots()[j] == old(self).spec_slots()[j]
                    &&& n == push_accepted(ring_bytes(s0.ring), ring_capacity(s0.ring), data@)
                    &&& ring_bytes(s1.ring) == ring_after_push(
                        ring_bytes(s0.ring),
                        ring_capacity(s0.ring),
                        data@,
                    )
                    &&& ring_capacity(s1.ring) == ring_capacity(s0.ring)
                    &&& s1 == (StreamSlot { ring: s1.ring, ..s0 })
                }),
                Err(e) => ({
                    &&& e == CallError::BadHandle
                    &&& !old(self).valid_handle(h)
                    &&& *final(self) == *old(self)
                }),
            },
    {
        match self.resolve(h) {
            Some(i) => {
                let slot = &mut self.slots[i];
                let n = slot.ring.push(data);
                Ok(n)
            },
            None => Err(CallError::BadHandle),
        }
    }

    /// Starts playback on the stream. Everything else is untouched.
    pub fn play(&mut self, h: u64) -> (r: Result<(), CallError>)
        requires
            old(self).wf(),
        ensures
            final(self).wf(),
            match r {
                Ok(_) => ({
                    let i = handle_index(h);
                    &&& old(self).valid_handle(h)
                    &&& final(self).valid_handle(h)
                    &&& final(self).spec_slots().len() == old(self).spec_slots().len()
                    &&& forall|j: int|
                        0 <= j < old(self).spec_slots().len() && j != i ==> final(self).spec_slots()[j] == old(self).spec_slots()[j]
                    &&& final(self).spec_slots()[i] == (StreamSlot {
                        playing: true,
                        ..old(self).spec_slots()[i]
                    })
                }),
                Err(e) => ({
                    &&& e == CallError::BadHandle
                    &&& !old(self).valid_handle(h)
                    &&& *final(self) == *old(self)
                }),
            },
    {
        match self.resolve(h) {
            Some(i) => {
                let slot = &mut self.slots[i];
                slot.playing = true;
                Ok(())
            },
            None => Err(CallError::BadHandle),
        }
    }

    /// Closes the stream: clears `live` and bumps the generation, so the
    /// handle (and any copy of it) is rejected from now on.
    pub fn close(&mut self, h: u64) -> (r: Result<(), CallError>)
        requires
            old(self).wf(),
        ensures
            final(self).wf(),
            match r {
                Ok(_) => ({
                    let i = handle_index(h);
                    &&& old(self).valid_handle(h)
                    &&& !final(self).valid_handle(h)
                    &&& final(self).spec_slots().len() == old(self).spec_slots().len()
                    &&& forall|j: int|
                        0 <= j < old(self).spec_slots().len() && j != i ==> final(self).spec_slots()[j] == old(self).spec_slots()[j]
                    &&& !final(self).spec_slots()[i].live
                    &&& final(self).spec_slots()[i].generation == old(self).spec_slots()[i].generation
                        + 1
                }),
                Err(e) => ({
                    &&& e == CallError::BadHandle
                    &&& !old(self).valid_handle(h)
                    &&& *final(self) == *old(self)
                }),
            },
    {
        match self.resolve(h) {
            Some(i) => {
                let slot = &mut self.slots[i];
                slot.live = false;
                slot.generation = slot.generation + 1;
                Ok(())
            },
            None => Err(CallError::BadHandle),
        }
    }

    /// Renders `count` output sample slots from the stream's ring through
    /// the Sample Codec, filling underruns by the stream's policy.
    pub fn render(&mut self, h: u64, count: usize) -> (r: Result<Vec<Decoded>, CallError>)
        requires
            old(self).wf(),
        ensures
            final(self).wf(),
            match r {
                Ok(out) => ({
                    let i = handle_index(h);
                    let s0 = old(self).spec_slots()[i];
                    let s1 = final(self).spec_slots()[i];
                    let w = spec_sample_width(s0.sample_format);
                    let q = ring_bytes(s0.ring);
                    let full = full_slots(q.len() as int, w, count as int);
                    &&& old(self).valid_handle(h)
                    &&& final(self).valid_handle(h)
                    &&& final(self).spec_slots().len() == old(self).spec_slots().len()
                    &&& forall|j: int|
                        0 <= j < old(self).spec_slots().len() && j != i ==> final(self).spec_slots()[j] == old(self).spec_slots()[j]
                    &&& out@.len() == count
                    &&& forall|k: int|
                        0 <= k < full ==> out@[k] == decoded_of(
                            #[trigger] q.subrange(k * w, k * w + w),
                        )
                    &&& forall|k: int| full <= k < count ==> out@[k] == fallback_at(s0.policy, k - full)
                    &&& s1.policy == policy_after(s0.policy, count - full)
                    &&& ring_bytes(s1.ring) == q.skip(consumed_bytes(q.len() as int, w, count as int))
                    &&& ring_capacity(s1.ring) == ring_capacity(s0.ring)
                    &&& s1 == (StreamSlot { ring: s1.ring, policy: s1.policy, ..s0 })
                }),
                Err(e) => ({
                    &&& e == CallError::BadHandle
                    &&& !old(self).valid_handle(h)
                    &&& *final(self) == *old(self)
                }),
            },
    {
        match self.resolve(h) {
            Some(i) => {
                let fmt = self.slots[i].sample_format;
                match sample_width(fmt) {
                    Some(w) => {
                        let slot = &mut self.slots[i];
                        let out = crate::codec::render_block(
                            &mut slot.ring,
                            w as usize,
                            count,
                            &mut slot.policy,
                        );
                        Ok(out)
                    },
                    None => {
                        proof {
                            assert(false);
                        }
                        Err(CallError::BadHandle)
                    },
                }
            },
            None => Err(CallError::BadHandle),
        }
    }
}

/// Distinct valid handles name distinct slots: writes through one can
/// never reach the other's ring.
pub proof fn lemma_distinct_handles_distinct_slots(t: &StreamTable, h1: u64, h2: u64)
    requires
        t.valid_handle(h1),
        t.valid_handle(h2),
        h1 != h2,
    ensures
        handle_index(h1) != handle_index(h2),
{
    if handle_index(h1) == handle_index(h2) {
        vstd::arithmetic::div_mod::lemma_fundamental_div_mod(h1 as int, 0x1_0000_0000);
        vstd::arithmetic::div_mod::lemma_fundamental_div_mod(h2 as int, 0x1_0000_0000);
    }
}

} // verus!
