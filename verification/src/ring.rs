//! The sample ring between the capture callback and the processing loop.
//!
//! Samples travel through the ring as the bit patterns of their `f32` values
//! (`f32::to_bits`), so the ring holds `u32` items. When the ring is full the
//! oldest sample is dropped to make room for the newest one.

use vstd::prelude::*;

use ringbuf::HeapRb;
use ringbuf::traits::{Consumer, Producer};

use crate::vad::TARGET_SAMPLE_RATE;

verus! {

/// Capacity of the sample ring: ten seconds of audio at the target rate.
pub const RING_BUFFER_CAPACITY: usize = TARGET_SAMPLE_RATE * 10;

/// A ring of the `ringbuf` crate holding sample bit patterns. The ring is
/// kept in a private field and reached only through the functions of this
/// module, which state what each `ringbuf` call does to its contents.
#[verifier::external_body]
pub struct SampleRing {
    rb: HeapRb<u32>,
}

/// The items held by a ring, oldest first.
pub uninterp spec fn ring_items(rb: SampleRing) -> Seq<u32>;

/// The capacity a ring was made with.
pub uninterp spec fn ring_capacity(rb: SampleRing) -> nat;

/// Whether a ring holds no more items than its capacity, which its own
/// indices guarantee for every ring of the crate.
pub open spec fn ring_ok(rb: SampleRing) -> bool {
    &&& ring_capacity(rb) > 0
    &&& ring_items(rb).len() <= ring_capacity(rb)
}

/// Calls `HeapRb::<u32>::new`: an empty ring of the given capacity. The crate
/// panics on a zero capacity, which `requires` leaves out; it also panics when
/// the allocation fails, which no clause here can rule out.
#[verifier::external_body]
fn ring_new(capacity: usize) -> (rb: SampleRing)
    requires
        capacity > 0,
    ensures
        ring_items(rb) == Seq::<u32>::empty(),
        ring_capacity(rb) == capacity,
{
    SampleRing { rb: HeapRb::<u32>::new(capacity) }
}

/// Calls `Producer::try_push` on the ring: the item is appended when the
/// ring is not full, and handed back unchanged when it is.
#[verifier::external_body]
fn ring_try_push(rb: &mut SampleRing, item: u32) -> (r: Result<(), u32>)
    ensures
        ring_capacity(*final(rb)) == ring_capacity(*old(rb)),
        ring_items(*old(rb)).len() < ring_capacity(*old(rb)) ==> r is Ok && ring_items(*final(rb))
            == ring_items(*old(rb)).push(item),
        ring_items(*old(rb)).len() >= ring_capacity(*old(rb)) ==> (r matches Err(back) && back == item) && ring_items(*final(rb)) == ring_items(*old(rb)),
{
    rb.rb.try_push(item)
}

/// Calls `Consumer::try_pop` on the ring: the oldest item is removed and
/// returned, or `None` comes back from an empty ring.
#[verifier::external_body]
fn ring_try_pop(rb: &mut SampleRing) -> (r: Option<u32>)
    ensures
        ring_capacity(*final(rb)) == ring_capacity(*old(rb)),
        ring_items(*old(rb)).len() == 0 ==> r is None && ring_items(*final(rb)) == ring_items(*old(rb)),
        ring_items(*old(rb)).len() > 0 ==> r == Some(ring_items(*old(rb))[0]) && ring_items(*final(rb)) == ring_items(*old(rb)).drop_first(),
{
    rb.rb.try_pop()
}

/// The ring after pushing `item` into `items` with room for `capacity`
/// items: appended when there is room, otherwise the oldest item is dropped.
pub open spec fn pushed_dropping_oldest(items: Seq<u32>, capacity: nat, item: u32) -> Seq<u32> {
    if items.len() < capacity {
        items.push(item)
    } else {
        items.drop_first().push(item)
    }
}

/// The ring after pushing each of `samples` in order with
/// [`pushed_dropping_oldest`].
pub open spec fn pushed_all(items: Seq<u32>, capacity: nat, samples: Seq<u32>) -> Seq<u32>
    decreases samples.len(),
{
    if samples.len() == 0 {
        items
    } else {
        pushed_dropping_oldest(pushed_all(items, capacity, samples.drop_last()), capacity, samples.last())
    }
}

/// However many samples are pushed, the ring holds exactly the newest
/// `capacity` of everything it has seen (or all of it, when that is less),
/// in arrival order.
pub proof fn lemma_ring_keeps_newest(items: Seq<u32>, capacity: nat, samples: Seq<u32>)
    requires
        capacity > 0,
        items.len() <= capacity,
    ensures
        ({
            let all = items + samples;
            let n = all.len() as int;
            let from = if n > capacity { n - capacity } else { 0 };
            pushed_all(items, capacity, samples) == all.subrange(from, n)
        }),
    decreases samples.len(),
{
    let all = items + samples;
    let n = all.len() as int;
    if samples.len() == 0 {
        assert(all == items);
        assert(all.subrange(0, n) == all);
    } else {
        let prev = samples.drop_last();
        let x = samples.last();
        lemma_ring_keeps_newest(items, capacity, prev);
        let prev_all = items + prev;
        let m = prev_all.len() as int;
        let prev_from = if m > capacity { m - capacity } else { 0 };
        let r = pushed_all(items, capacity, prev);
        assert(r == prev_all.subrange(prev_from, m));
        assert(all == prev_all.push(x));
        if r.len() < capacity {
            assert(r.push(x) == all.subrange(0, n));
        } else {
            assert(r.drop_first().push(x) == all.subrange(n - capacity, n));
        }
    }
}

/// An empty sample ring of [`RING_BUFFER_CAPACITY`] samples.
pub fn new_sample_ring() -> (rb: SampleRing)
    ensures
        ring_items(rb) == Seq::<u32>::empty(),
        ring_capacity(rb) == RING_BUFFER_CAPACITY,
        ring_ok(rb),
{
    ring_new(RING_BUFFER_CAPACITY)
}

/// Pushes one captured sample; when the ring is full the oldest sample is
/// dropped first.
pub fn push_sample(rb: &mut SampleRing, sample: u32)
    requires
        ring_ok(*old(rb)),
    ensures
        ring_capacity(*final(rb)) == ring_capacity(*old(rb)),
        ring_items(*final(rb)) == pushed_dropping_oldest(
            ring_items(*old(rb)),
            ring_capacity(*old(rb)),
            sample,
        ),
        ring_ok(*final(rb)),
{
    if ring_try_push(rb, sample).is_err() {
        let _ = ring_try_pop(rb);
        let _ = ring_try_push(rb, sample);
    }
}

/// Moves samples from the ring into `batch`, oldest first, until the batch
/// holds `target` samples or the ring is empty; returns whether the batch is
/// full.
pub fn fill_batch(rb: &mut SampleRing, batch: &mut Vec<u32>, target: usize) -> (full: bool)
    requires
        ring_ok(*old(rb)),
        old(batch)@.len() < target,
    ensures
        ({
            let old_items = ring_items(*old(rb));
            let want = target - old(batch)@.len();
            let k = if old_items.len() < want { old_items.len() as int } else { want };
            &&& final(batch)@ == old(batch)@ + old_items.subrange(0, k)
            &&& ring_items(*final(rb)) == old_items.subrange(k, old_items.len() as int)
        }),
        ring_capacity(*final(rb)) == ring_capacity(*old(rb)),
        ring_ok(*final(rb)),
        full == (final(batch)@.len() >= target),
{
    let ghost old_items = ring_items(*rb);
    let ghost start = batch@;
    let ghost cap = ring_capacity(*rb);
    let ghost mut taken: int = 0;
    while batch.len() < target
        invariant
            batch@.len() <= target,
            0 <= taken <= old_items.len(),
            batch@ == start + old_items.subrange(0, taken),
            ring_items(*rb) == old_items.subrange(taken, old_items.len() as int),
            ring_capacity(*rb) == cap,
            cap > 0,
            old_items.len() <= cap,
            start.len() < target,
            old_items == ring_items(*old(rb)),
            cap == ring_capacity(*old(rb)),
            start == old(batch)@,
        decreases target - batch@.len(),
    {
        match ring_try_pop(rb) {
            Some(sample) => {
                batch.push(sample);
                proof {
                    assert(old_items.subrange(0, taken + 1) == old_items.subrange(0, taken).push(
                        sample,
                    ));
                    taken = taken + 1;
                    assert(ring_items(*rb) == old_items.subrange(taken, old_items.len() as int));
                }
            },
            None => {
                proof {
                    assert(taken == old_items.len());
                }
                return false;
            },
        }
    }
    true
}

} // verus!
