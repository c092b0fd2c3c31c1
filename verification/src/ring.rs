//! Ring Transport: the bounded byte queue that carries raw sample bytes
//! from the writing side to the render side.
//!
//! The queue itself is `ringbuf`'s heap-allocated ring buffer, held whole
//! behind a trusted boundary; its contents and capacity are modelled by
//! the uninterpreted functions below, and every operation's contract is
//! stated over the pure models `ring_after_push` and friends, so that the
//! transport's laws can be proved once about the models.

use vstd::prelude::*;
use ringbuf::traits::Consumer;
use ringbuf::traits::Observer;
use ringbuf::traits::Producer;

verus! {

/// A bounded single-producer/single-consumer byte queue of fixed
/// capacity, chosen at construction.
#[verifier::external_body]
pub struct ByteRing {
    inner: ringbuf::HeapRb<u8>,
}

/// The bytes currently queued, oldest first.
pub uninterp spec fn ring_bytes(r: ByteRing) -> Seq<u8>;

/// The fixed capacity the ring was constructed with.
pub uninterp spec fn ring_capacity(r: ByteRing) -> int;

/// How many of `data`'s bytes a push accepts into a ring holding `queued`
/// bytes out of `cap`: as many as fit, the rest is dropped.
pub open spec fn push_accepted(queued: Seq<u8>, cap: int, data: Seq<u8>) -> int {
    if data.len() <= cap - queued.len() {
        data.len() as int
    } else {
        cap - queued.len()
    }
}

/// The queue after pushing `data`: the accepted prefix of `data` is
/// appended, earliest bytes first; the excess is discarded.
pub open spec fn ring_after_push(queued: Seq<u8>, cap: int, data: Seq<u8>) -> Seq<u8> {
    queued + data.take(push_accepted(queued, cap, data))
}

/// How many bytes a pop of `want` bytes yields from a queue of `queued`
/// bytes: fewer than `want` exactly on underrun.
pub open spec fn pop_yield(queued: Seq<u8>, want: int) -> int {
    if want <= queued.len() {
        want
    } else {
        queued.len() as int
    }
}

impl ByteRing {
    /// Relies on `ringbuf::HeapRb::new`: allocates an empty ring buffer of
    /// exactly the given capacity (it panics on zero, hence the bound).
    #[verifier::external_body]
    pub fn new(capacity: usize) -> (r: ByteRing)
        requires
            capacity >= 1,
        ensures
            ring_bytes(r) == Seq::<u8>::empty(),
            ring_capacity(r) == capacity,
    {
        ByteRing { inner: ringbuf::HeapRb::new(capacity) }
    }

    /// Relies on `ringbuf`'s `Observer::capacity`.
    #[verifier::external_body]
    pub fn capacity(&self) -> (c: usize)
        ensures
            c == ring_capacity(*self),
    {
        self.inner.capacity().get()
    }

    /// Relies on `ringbuf`'s `Observer::occupied_len`: the number of bytes
    /// currently queued.
    #[verifier::external_body]
    pub fn len(&self) -> (n: usize)
        ensures
            n == ring_bytes(*self).len(),
    {
        self.inner.occupied_len()
    }

    /// Relies on `ringbuf`'s `Producer::push_slice`: appends as many bytes
    /// of `data` as fit and returns how many were accepted; the excess is
    /// dropped without blocking.
    #[verifier::external_body]
    pub fn push(&mut self, data: &[u8]) -> (n: usize)
        ensures
            n == push_accepted(ring_bytes(*old(self)), ring_capacity(*old(self)), data@),
            ring_bytes(*final(self)) == ring_after_push(
                ring_bytes(*old(self)),
                ring_capacity(*old(self)),
                data@,
            ),
            ring_capacity(*final(self)) == ring_capacity(*old(self)),
    {
        self.inner.push_slice(data)
    }

    /// Relies on `ringbuf`'s `Consumer::pop_slice`: removes up to `want`
    /// bytes from the front of the queue, oldest first, and returns them;
    /// on underrun, fewer than `want` come back.
    #[verifier::external_body]
    pub fn pop(&mut self, want: usize) -> (out: Vec<u8>)
        ensures
            out@.len() == pop_yield(ring_bytes(*old(self)), want as int),
            out@ == ring_bytes(*old(self)).take(out@.len() as int),
            ring_bytes(*final(self)) == ring_bytes(*old(self)).skip(out@.len() as int),
            ring_capacity(*final(self)) == ring_capacity(*old(self)),
    {
        let mut buf = vec![0u8; want];
        let got = self.inner.pop_slice(&mut buf);
        buf.truncate(got);
        buf
    }
}

/// Round trip without loss: pushing `data` into an empty ring whose
/// capacity can hold it and then popping the same number of bytes yields
/// exactly `data`, in order, and leaves the ring empty.
pub proof fn lemma_ring_round_trip(cap: int, data: Seq<u8>)
    requires
        data.len() <= cap,
    ensures
        ring_after_push(Seq::<u8>::empty(), cap, data) =~= data,
        pop_yield(data, data.len() as int) == data.len(),
        data.take(data.len() as int) =~= data,
        data.skip(data.len() as int) =~= Seq::<u8>::empty(),
{
}

/// Overfill: pushing more than the capacity of an empty ring in one call
/// retains exactly `cap` bytes, the earliest ones, and discards the rest.
pub proof fn lemma_ring_overfill(cap: int, data: Seq<u8>)
    requires
        0 <= cap < data.len(),
    ensures
        push_accepted(Seq::<u8>::empty(), cap, data) == cap,
        ring_after_push(Seq::<u8>::empty(), cap, data) =~= data.take(cap),
{
}

/// Underrun: popping from a ring holding fewer bytes than requested
/// yields exactly what is queued, which is fewer than requested.
pub proof fn lemma_ring_underrun(queued: Seq<u8>, want: int)
    requires
        queued.len() < want,
    ensures
        pop_yield(queued, want) == queued.len(),
        pop_yield(queued, want) < want,
        queued.take(pop_yield(queued, want)) =~= queued,
{
}

} // verus!
