//! Lock-free sample rings between the audio callbacks and the workers.
//!
//! A sample is the bit pattern of a 32-bit float. Each end of a ring belongs to one thread, and
//! what the other end does in the meantime is open; so what is stated of an end is what went
//! through it, and, for the producer, how many slots it knows to be free.

use rtrb::{Consumer, Producer, RingBuffer};
use vstd::prelude::*;

verus! {

/// The writing end of a ring.
#[verifier::external_type_specification]
#[verifier::external_body]
#[verifier::reject_recursive_types(T)]
pub struct ExProducer<T>(Producer<T>);

/// The reading end of a ring.
#[verifier::external_type_specification]
#[verifier::external_body]
#[verifier::reject_recursive_types(T)]
pub struct ExConsumer<T>(Consumer<T>);

/// All samples that went into a ring so far.
pub uninterp spec fn pushed(p: Producer<u32>) -> Seq<u32>;

/// How many samples a ring can hold.
pub uninterp spec fn ring_capacity(p: Producer<u32>) -> nat;

/// The slots that a producer knows to be free (`rtrb::Producer::cached_slots`). The consumer can
/// only add to them.
pub uninterp spec fn known_free(p: Producer<u32>) -> nat;

/// All samples that came out of a ring so far.
pub uninterp spec fn popped(c: Consumer<u32>) -> Seq<u32>;

/// The samples that a consumer knows to be ready (`rtrb::Consumer::cached_slots`). The producer
/// can only add to them.
pub uninterp spec fn known_ready(c: Consumer<u32>) -> nat;

/// The largest ring that can be made on every machine.
pub const MAX_RING: usize = 0x1000_0000;

/// `rtrb::RingBuffer::new`: an empty ring of the given capacity. It panics on a capacity whose
/// storage cannot be addressed, which is left out.
#[verifier::external_body]
fn make_ring(capacity: usize) -> (r: (Producer<u32>, Consumer<u32>))
    requires
        capacity <= MAX_RING,
    ensures
        pushed(r.0) == Seq::<u32>::empty(),
        ring_capacity(r.0) == capacity,
        known_free(r.0) == capacity,
        popped(r.1) == Seq::<u32>::empty(),
        known_ready(r.1) == 0,
{
    RingBuffer::new(capacity)
}

/// `rtrb::Producer::slots`: the number of free slots, as far as the consumer has come. It takes
/// note of them, so they are known to be free until they are filled.
#[verifier::external_body]
fn producer_slots(p: &mut Producer<u32>) -> (n: usize)
    ensures
        n >= known_free(*old(p)),
        n <= ring_capacity(*old(p)),
        known_free(*final(p)) == n,
        pushed(*final(p)) == pushed(*old(p)),
        ring_capacity(*final(p)) == ring_capacity(*old(p)),
{
    p.slots()
}

/// `rtrb::Producer::push`: puts one sample in, unless the ring is full, which it is not while
/// slots are known to be free; one fewer is known then.
#[verifier::external_body]
fn producer_push(p: &mut Producer<u32>, sample: u32) -> (ok: bool)
    ensures
        known_free(*old(p)) > 0 ==> ok && known_free(*final(p)) == known_free(*old(p)) - 1,
        pushed(*final(p)) == if ok {
            pushed(*old(p)).push(sample)
        } else {
            pushed(*old(p))
        },
        ring_capacity(*final(p)) == ring_capacity(*old(p)),
{
    p.push(sample).is_ok()
}

/// `rtrb::Producer::push_entire_slice`: puts all samples in, in order, or none where there are
/// not enough slots. There are enough while so many are known to be free, and they are known to be
/// filled afterwards.
#[verifier::external_body]
fn producer_push_all(p: &mut Producer<u32>, samples: &[u32]) -> (ok: bool)
    ensures
        samples@.len() <= known_free(*old(p)) ==> ok && known_free(*final(p)) == known_free(
            *old(p),
        ) - samples@.len(),
        pushed(*final(p)) == if ok {
            pushed(*old(p)) + samples@
        } else {
            pushed(*old(p))
        },
        ring_capacity(*final(p)) == ring_capacity(*old(p)),
{
    p.push_entire_slice(samples).is_ok()
}

/// `rtrb::Consumer::pop`: takes the oldest sample out, if there is one, and there is one while
/// some are known to be ready. Which sample that is, and whether there are more, rests with the
/// other end.
#[verifier::external_body]
fn consumer_pop(c: &mut Consumer<u32>) -> (r: Option<u32>)
    ensures
        popped(*final(c)) == match r {
            Some(v) => popped(*old(c)).push(v),
            None => popped(*old(c)),
        },
        known_ready(*old(c)) > 0 ==> r is Some && known_ready(*final(c)) == known_ready(*old(c))
            - 1,
        r is None ==> known_ready(*final(c)) == 0,
{
    c.pop().ok()
}

/// An empty ring.
pub fn new_ring(capacity: usize) -> (r: (Producer<u32>, Consumer<u32>))
    requires
        capacity <= MAX_RING,
    ensures
        pushed(r.0) == Seq::<u32>::empty(),
        ring_capacity(r.0) == capacity,
        known_free(r.0) == capacity,
        popped(r.1) == Seq::<u32>::empty(),
        known_ready(r.1) == 0,
{
    make_ring(capacity)
}

/// The number of free slots.
pub fn free_slots(p: &mut Producer<u32>) -> (n: usize)
    ensures
        known_free(*old(p)) <= n <= ring_capacity(*old(p)),
        known_free(*final(p)) == n,
        pushed(*final(p)) == pushed(*old(p)),
        ring_capacity(*final(p)) == ring_capacity(*old(p)),
{
    producer_slots(p)
}

/// Puts a captured sample in; a sample that finds the ring full is lost.
pub fn enqueue(p: &mut Producer<u32>, sample: u32) -> (ok: bool)
    ensures
        known_free(*old(p)) > 0 ==> ok && known_free(*final(p)) == known_free(*old(p)) - 1,
        pushed(*final(p)) == if ok {
            pushed(*old(p)).push(sample)
        } else {
            pushed(*old(p))
        },
        ring_capacity(*final(p)) == ring_capacity(*old(p)),
{
    producer_push(p, sample)
}

/// Puts all samples in, or none.
pub fn enqueue_all(p: &mut Producer<u32>, samples: &[u32]) -> (ok: bool)
    ensures
        samples@.len() <= known_free(*old(p)) ==> ok && known_free(*final(p)) == known_free(
            *old(p),
        ) - samples@.len(),
        pushed(*final(p)) == if ok {
            pushed(*old(p)) + samples@
        } else {
            pushed(*old(p))
        },
        ring_capacity(*final(p)) == ring_capacity(*old(p)),
{
    producer_push_all(p, samples)
}

/// Takes the oldest sample out, if there is one.
pub fn dequeue(c: &mut Consumer<u32>) -> (r: Option<u32>)
    ensures
        popped(*final(c)) == match r {
            Some(v) => popped(*old(c)).push(v),
            None => popped(*old(c)),
        },
        known_ready(*old(c)) > 0 ==> r is Some && known_ready(*final(c)) == known_ready(*old(c))
            - 1,
        r is None ==> known_ready(*final(c)) == 0,
{
    consumer_pop(c)
}

} // verus!
