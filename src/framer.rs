use vstd::prelude::*;
use ringbuf::{Consumer, Producer, RingBuffer};

verus! {

// Samples travel through the ring as the bit patterns of their
// single-precision values, so that the ring and the frames hold plain integers.

/// Frames are shorter than this, so that the ring's storage can be allocated.
pub const MAX_FRAME_LEN: usize = 0x1fff_ffff;

#[verifier::external_type_specification]
#[verifier::external_body]
#[verifier::reject_recursive_types(T)]
pub struct ExProducer<T>(Producer<T>);

#[verifier::external_type_specification]
#[verifier::external_body]
#[verifier::reject_recursive_types(T)]
pub struct ExConsumer<T>(Consumer<T>);

/// The number of samples the ring behind a consumer was made to hold.
pub uninterp spec fn ring_capacity(c: Consumer<u32>) -> nat;

/// Relies on ringbuf's RingBuffer::new and RingBuffer::split: a ring of
/// `capacity` slots, split into its producer and consumer ends. The ring
/// allocates `capacity + 1` four-byte slots, which must not overflow.
#[verifier::external_body]
fn split_ring(capacity: usize) -> (r: (Producer<u32>, Consumer<u32>))
    requires
        capacity < MAX_FRAME_LEN,
    ensures
        ring_capacity(r.1) == capacity,
{
    RingBuffer::<u32>::new(capacity).split()
}

/// Relies on ringbuf's Consumer::is_full: whether the ring holds as many
/// samples as it was made to hold.
#[verifier::external_body]
fn ring_is_full(c: &Consumer<u32>) -> (r: bool) {
    c.is_full()
}

/// Relies on ringbuf's Consumer::pop_slice: it removes the oldest samples, at
/// most as many as `buf` holds, writes them to the front of `buf`, and returns
/// how many it removed. The ring keeps its capacity.
#[verifier::external_body]
fn ring_pop_slice(c: &mut Consumer<u32>, buf: &mut Vec<u32>) -> (r: usize)
    ensures
        r <= old(buf)@.len(),
        final(buf)@.len() == old(buf)@.len(),
        forall|i: int| r <= i < old(buf)@.len() ==> final(buf)@[i] == old(buf)@[i],
        ring_capacity(*final(c)) == ring_capacity(*old(c)),
{
    c.pop_slice(buf.as_mut_slice())
}

/// The ring between the framer and the analyzer: it holds one frame of
/// `frame_len` samples; a sample offered while it is full is dropped.
pub fn frame_ring(frame_len: usize) -> (r: (Producer<u32>, Consumer<u32>))
    requires
        frame_len < MAX_FRAME_LEN,
    ensures
        ring_capacity(r.1) == frame_len,
{
    split_ring(frame_len)
}

/// Moves one whole frame out of the ring into `frame` when the ring is full.
/// The frame buffer keeps its length, one frame, whatever happens; `true`
/// means that the ring handed over as many samples as the frame holds.
pub fn take_frame(c: &mut Consumer<u32>, frame: &mut Vec<u32>) -> (r: bool)
    requires
        old(frame)@.len() == ring_capacity(*old(c)),
    ensures
        final(frame)@.len() == old(frame)@.len(),
        final(frame)@.len() == ring_capacity(*final(c)),
        ring_capacity(*final(c)) == ring_capacity(*old(c)),
{
    if !ring_is_full(c) {
        return false;
    }
    let taken = ring_pop_slice(c, frame);
    taken == frame.len()
}

} // verus!
