//! The sample ring: a bounded first-in first-out buffer of PCM samples.
//!
//! A sample stands as the bit pattern of its 32-bit float, so silence is zero.

use ringbuf::traits::{Consumer, Observer, Producer};
use ringbuf::HeapRb;
use vstd::prelude::*;

verus! {

/// A `ringbuf::HeapRb` of samples that one owner reads and writes.
#[verifier::external_body]
pub struct SampleRing {
    buffer: HeapRb<u32>,
}

/// What the ring holds, oldest sample first.
pub uninterp spec fn ring_samples(ring: SampleRing) -> Seq<u32>;

/// The number of samples that the ring was made for.
pub uninterp spec fn ring_capacity(ring: SampleRing) -> nat;

/// `HeapRb::new` makes an empty ring of exactly the given capacity. It panics on a
/// capacity of zero and on one whose bytes exceed the address space.
#[verifier::external_body]
pub(crate) fn new_ring(capacity: usize) -> (ring: SampleRing)
    requires
        0 < capacity,
        4 * capacity <= isize::MAX,
    ensures
        ring_samples(ring) == Seq::<u32>::empty(),
        ring_capacity(ring) == capacity,
{
    SampleRing { buffer: HeapRb::new(capacity) }
}

/// `Observer::occupied_len` counts the samples in the ring, which never exceed its
/// capacity.
#[verifier::external_body]
pub(crate) fn ring_len(ring: &SampleRing) -> (n: usize)
    ensures
        n == ring_samples(*ring).len(),
        n <= ring_capacity(*ring),
{
    ring.buffer.occupied_len()
}

/// `Observer::vacant_len` counts the samples that still fit.
#[verifier::external_body]
pub(crate) fn ring_vacant(ring: &SampleRing) -> (n: usize)
    ensures
        n == ring_capacity(*ring) - ring_samples(*ring).len(),
{
    ring.buffer.vacant_len()
}

/// `Producer::push_slice` appends the longest prefix of `samples` that fits and
/// returns its length.
#[verifier::external_body]
pub(crate) fn ring_push(ring: &mut SampleRing, samples: &[u32]) -> (n: usize)
    ensures
        n == vstd::math::min(
            samples@.len() as int,
            ring_capacity(*old(ring)) - ring_samples(*old(ring)).len(),
        ),
        ring_samples(*final(ring)) == ring_samples(*old(ring)) + samples@.take(n as int),
        ring_capacity(*final(ring)) == ring_capacity(*old(ring)),
{
    ring.buffer.push_slice(samples)
}

/// `Producer::push_iter` over `count` zeros appends as many of them as fit and
/// returns how many.
#[verifier::external_body]
pub(crate) fn ring_push_silence(ring: &mut SampleRing, count: usize) -> (n: usize)
    ensures
        n == vstd::math::min(
            count as int,
            ring_capacity(*old(ring)) - ring_samples(*old(ring)).len(),
        ),
        ring_samples(*final(ring)) == ring_samples(*old(ring)) + Seq::new(n as nat, |i: int| 0u32),
        ring_capacity(*final(ring)) == ring_capacity(*old(ring)),
{
    ring.buffer.push_iter(std::iter::repeat_n(0u32, count))
}

/// `Consumer::pop_slice` on `out[start..end]` moves the oldest samples there, as many
/// as the range and the ring allow, and returns how many.
#[verifier::external_body]
pub(crate) fn ring_pop(ring: &mut SampleRing, out: &mut [u32], start: usize, end: usize) -> (n: usize)
    requires
        start <= end <= old(out)@.len(),
    ensures
        n == vstd::math::min(end - start, ring_samples(*old(ring)).len() as int),
        ring_samples(*final(ring)) == ring_samples(*old(ring)).skip(n as int),
        ring_capacity(*final(ring)) == ring_capacity(*old(ring)),
        final(out)@ == old(out)@.take(start as int) + ring_samples(*old(ring)).take(n as int)
            + old(out)@.skip(start + n),
{
    ring.buffer.pop_slice(&mut out[start..end])
}

/// `Consumer::skip` drops the oldest samples, `count` of them or all that there are,
/// and returns how many.
#[verifier::external_body]
pub(crate) fn ring_skip(ring: &mut SampleRing, count: usize) -> (n: usize)
    ensures
        n == vstd::math::min(count as int, ring_samples(*old(ring)).len() as int),
        ring_samples(*final(ring)) == ring_samples(*old(ring)).skip(n as int),
        ring_capacity(*final(ring)) == ring_capacity(*old(ring)),
{
    ring.buffer.skip(count)
}

} // verus!
