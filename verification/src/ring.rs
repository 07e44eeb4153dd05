use vstd::prelude::*;

verus! {

/// Fixed-capacity first-in first-out store of interleaved samples, carried as
/// the raw bit words of 32-bit float samples. It is the hand-off between the
/// decode side, which appends, and the output callback, which drains; both
/// operations copy up to their slice's length and never block.
///
/// Backed by ringbuf's heap ring. The producer and consumer endpoints are
/// held together in one value here, so every push and pop goes through a
/// single owner and the stored sequence below is exact. The running engine
/// moves the two endpoints to their threads; teardown and rebuild on stop and
/// seek keep that split one-producer one-consumer.
#[verifier::external_body]
pub struct SampleRing {
    prod: ringbuf::HeapProd<u32>,
    cons: ringbuf::HeapCons<u32>,
}

/// The samples currently stored, oldest first.
pub uninterp spec fn ring_contents(rb: &SampleRing) -> Seq<u32>;

/// The fixed capacity the ring was created with.
pub uninterp spec fn ring_capacity(rb: &SampleRing) -> int;

impl SampleRing {
    /// Relies on ringbuf's `HeapRb::new` and `Split::split`: a heap ring of
    /// exactly `capacity` slots, empty at first, split into its two
    /// endpoints.
    #[verifier::external_body]
    pub fn new(capacity: usize) -> (r: SampleRing)
        requires
            1 <= capacity,
        ensures
            ring_contents(&r) == Seq::<u32>::empty(),
            ring_capacity(&r) == capacity,
    {
        let (prod, cons) = ringbuf::traits::Split::split(ringbuf::HeapRb::<u32>::new(capacity));
        SampleRing { prod, cons }
    }

    /// Relies on ringbuf's `Observer::capacity`.
    #[verifier::external_body]
    pub fn capacity(&self) -> (r: usize)
        ensures
            r == ring_capacity(self),
    {
        ringbuf::traits::Observer::capacity(&self.prod).get()
    }

    /// Relies on ringbuf's `Observer::occupied_len`: the stored count, exact
    /// here because both endpoints are held by the caller.
    #[verifier::external_body]
    pub fn len(&self) -> (r: usize)
        ensures
            r == ring_contents(self).len(),
    {
        ringbuf::traits::Observer::occupied_len(&self.cons)
    }

    /// Relies on ringbuf's `Producer::push_slice`: appends items from the
    /// front of `src` until the ring is full, returning the count appended;
    /// it never blocks and may append nothing.
    #[verifier::external_body]
    pub fn push_slice(&mut self, src: &[u32]) -> (n: usize)
        ensures
            ring_contents(old(self)).len() <= ring_capacity(old(self)),
            n == vstd::math::min(
                src@.len() as int,
                ring_capacity(old(self)) - ring_contents(old(self)).len(),
            ),
            ring_contents(final(self)) == ring_contents(old(self)) + src@.take(n as int),
            ring_capacity(final(self)) == ring_capacity(old(self)),
    {
        ringbuf::traits::Producer::push_slice(&mut self.prod, src)
    }

    /// Relies on ringbuf's `Consumer::pop_slice`: removes up to `max` items,
    /// oldest first, returning them; it never blocks and may remove nothing.
    #[verifier::external_body]
    pub fn pop_up_to(&mut self, max: usize) -> (r: Vec<u32>)
        ensures
            ring_contents(old(self)).len() <= ring_capacity(old(self)),
            r@ == ring_contents(old(self)).take(
                vstd::math::min(max as int, ring_contents(old(self)).len() as int),
            ),
            ring_contents(final(self)) == ring_contents(old(self)).skip(r@.len() as int),
            ring_capacity(final(self)) == ring_capacity(old(self)),
    {
        let mut buf = vec![0u32; max];
        let n = ringbuf::traits::Consumer::pop_slice(&mut self.cons, &mut buf);
        buf.truncate(n);
        buf
    }
}

} // verus!
