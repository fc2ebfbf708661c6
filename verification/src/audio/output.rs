//! The output side: samples into the playback ring, and out of it to the device.

use rtrb::{Consumer, Producer};
use vstd::prelude::*;
use vstd::slice::*;

use crate::audio::ring;

verus! {

/// Capacity of the playback ring, in samples.
pub const OUTPUT_RING_SAMPLES: usize = 32 * 1024;

/// A playback ring that holds more than this many milliseconds takes nothing in.
pub const MAX_OCCUPANCY_MS: u64 = 280;

/// Bit pattern of the loudest sample that counts as silence, 0.0001.
pub const SILENCE_BITS: u32 = 0x38D1_B717;

/// Bit pattern of infinity; larger patterns are not numbers.
pub const INFINITY_BITS: u32 = 0x7F80_0000;

/// Whether a sample is louder than 0.0001 in either direction. The magnitudes of floats are
/// ordered as their bit patterns without the sign are.
pub open spec fn is_audible(bits: u32) -> bool {
    SILENCE_BITS < bits % 0x8000_0000 <= INFINITY_BITS
}

/// What a frame of the output is to hold, on every channel.
#[derive(Debug, Clone, Copy, PartialEq, Eq, Structural)]
pub enum OutFrame {
    /// A sample.
    Sample(u32),
    /// The last sample, faded to `left` parts in `len`.
    Fade { last: u32, left: usize, len: usize },
    /// Nothing.
    Silence,
}

/// What the output remembers to end without a click when the ring runs empty: it fades the last
/// sample out, over five milliseconds.
#[derive(Debug, Clone, Copy, PartialEq, Eq, Structural)]
pub struct Underrun {
    pub last_out: u32,
    pub ramp_left: usize,
    pub ramp_pending: bool,
    pub ramp_len: usize,
}

/// The length of a fade: the configured one, but one frame at least.
pub open spec fn fade_len(ramp_len: usize) -> usize {
    if ramp_len < 1 {
        1
    } else {
        ramp_len
    }
}

impl Underrun {
    /// Nothing played yet.
    pub fn new(ramp_len: usize) -> (u: Self)
        ensures
            u == (Underrun { last_out: 0, ramp_left: 0, ramp_pending: true, ramp_len }),
    {
        Underrun { last_out: 0, ramp_left: 0, ramp_pending: true, ramp_len }
    }

    /// What the fade has left at a frame for which there is no sample: it starts at the first
    /// such frame after an audible sample.
    pub open spec fn fade_left(self) -> usize {
        if self.ramp_pending && is_audible(self.last_out) {
            (fade_len(self.ramp_len) - 1) as usize
        } else {
            self.ramp_left
        }
    }

    /// The state after a frame, for which there was a sample or not.
    pub open spec fn after(self, popped: Option<u32>) -> Underrun {
        match popped {
            Some(v) => Underrun { last_out: v, ramp_pending: true, ..self },
            None => Underrun {
                ramp_pending: false,
                ramp_left: if self.fade_left() > 0 {
                    (self.fade_left() - 1) as usize
                } else {
                    0
                },
                ..self
            },
        }
    }

    /// The frame, for which there was a sample or not.
    pub open spec fn frame(self, popped: Option<u32>) -> OutFrame {
        match popped {
            Some(v) => OutFrame::Sample(v),
            None => if self.fade_left() > 0 {
                OutFrame::Fade {
                    last: self.last_out,
                    left: (self.fade_left() - 1) as usize,
                    len: fade_len(self.ramp_len),
                }
            } else {
                OutFrame::Silence
            },
        }
    }

    /// Takes a sample, or the lack of one, and says what the frame is to hold.
    pub fn step(&mut self, popped: Option<u32>) -> (f: OutFrame)
        ensures
            *final(self) == old(self).after(popped),
            f == old(self).frame(popped),
    {
        match popped {
            Some(v) => {
                self.last_out = v;
                self.ramp_pending = true;
                OutFrame::Sample(v)
            },
            None => {
                let len: usize = if self.ramp_len < 1 {
                    1
                } else {
                    self.ramp_len
                };
                if self.ramp_pending {
                    self.ramp_pending = false;
                    let magnitude: u32 = self.last_out % 0x8000_0000;
                    if SILENCE_BITS < magnitude && magnitude <= INFINITY_BITS {
                        self.ramp_left = len - 1;
                    }
                }
                if self.ramp_left > 0 {
                    self.ramp_left = self.ramp_left - 1;
                    OutFrame::Fade { last: self.last_out, left: self.ramp_left, len }
                } else {
                    OutFrame::Silence
                }
            },
        }
    }
}

/// The state after some frames.
pub open spec fn after_frames(u: Underrun, pops: Seq<Option<u32>>) -> Underrun
    decreases pops.len(),
{
    if pops.len() == 0 {
        u
    } else {
        after_frames(u, pops.drop_last()).after(pops.last())
    }
}

/// The samples among what a ring gave.
pub open spec fn given(pops: Seq<Option<u32>>) -> Seq<u32>
    decreases pops.len(),
{
    if pops.len() == 0 {
        Seq::empty()
    } else {
        match pops.last() {
            Some(v) => given(pops.drop_last()).push(v),
            None => given(pops.drop_last()),
        }
    }
}

/// The frame at `i`, after what the ring gave before it.
pub open spec fn frame_at(u: Underrun, pops: Seq<Option<u32>>, i: int) -> OutFrame {
    after_frames(u, pops.take(i)).frame(pops[i])
}

/// Whether a buffer holds, on each of `channels` channels, the frames that come of what the ring
/// gave.
pub open spec fn holds_frames(
    data: Seq<OutFrame>,
    channels: int,
    u: Underrun,
    pops: Seq<Option<u32>>,
    frames: int,
) -> bool {
    forall|i: int, c: int|
        0 <= i < frames && 0 <= c < channels ==> #[trigger] data[i * channels + c] == frame_at(
            u,
            pops,
            i,
        )
}

/// Where the output stands in the ring: how many samples it has taken, and the mark up to which
/// they are not to be played.
#[derive(Debug, Clone, Copy, PartialEq, Eq, Structural)]
pub struct Playhead {
    pub taken: u64,
    pub mark: u64,
}

impl Playhead {
    /// Nothing taken, and nothing to pass over.
    pub fn new() -> (h: Self)
        ensures
            h == (Playhead { taken: 0, mark: 0 }),
    {
        Playhead { taken: 0, mark: 0 }
    }

    /// Whether it stands where the ring does.
    pub open spec fn at(self, consumer: Consumer<u32>) -> bool {
        self.taken == ring::popped(consumer).len()
    }

    /// Drops what was queued up to a mark; an earlier mark changes nothing.
    pub fn flush_to(&mut self, mark: u64)
        ensures
            *final(self) == (Playhead {
                mark: if mark > old(self).mark {
                    mark
                } else {
                    old(self).mark
                },
                ..*old(self)
            }),
    {
        if mark > self.mark {
            self.mark = mark;
        }
    }

    /// Whether the count can take `n` more samples, beyond the mark.
    pub open spec fn room(self, n: int) -> bool {
        self.taken + n <= u64::MAX && self.mark + n <= u64::MAX
    }

    /// Whether the count can take `n` more samples, beyond the mark.
    pub fn has_room(&self, n: usize) -> (r: bool)
        ensures
            r == self.room(n as int),
    {
        self.taken <= u64::MAX - n as u64 && self.mark <= u64::MAX - n as u64
    }
}

/// The first sample to be played of those that came out of a ring, which were `was` before and are
/// `is` now: none before the mark.
pub open spec fn played_from(was: int, is: int, mark: int) -> int {
    if mark <= was {
        was
    } else if mark < is {
        mark
    } else {
        is
    }
}

/// The next sample to be played, if there is one: the oldest in the ring, after those up to the
/// mark, which are dropped.
pub fn next_sample(consumer: &mut Consumer<u32>, head: &mut Playhead) -> (r: Option<u32>)
    requires
        old(head).at(*old(consumer)),
        old(head).room(1),
    ensures
        final(head).at(*final(consumer)),
        final(head).mark == old(head).mark,
        ({
            let was = ring::popped(*old(consumer));
            let is = ring::popped(*final(consumer));
            let from = if old(head).mark > was.len() {
                old(head).mark as int
            } else {
                was.len() as int
            };
            &&& was.is_prefix_of(is)
            &&& match r {
                Some(v) => is.len() == from + 1 && v == is.last(),
                None => is.len() <= from && ring::known_ready(*final(consumer)) == 0,
            }
            &&& is.len() + ring::known_ready(*final(consumer)) >= was.len() + ring::known_ready(
                *old(consumer),
            )
        }),
{
    let ghost was = ring::popped(*consumer);
    let ghost ready = ring::known_ready(*consumer);
    while head.taken < head.mark
        invariant
            head.at(*consumer),
            head.mark == old(head).mark,
            head.room(1),
            was == ring::popped(*old(consumer)),
            ready == ring::known_ready(*old(consumer)),
            was.is_prefix_of(ring::popped(*consumer)),
            ring::popped(*consumer).len() == was.len() || head.taken <= head.mark,
            ring::popped(*consumer).len() + ring::known_ready(*consumer) >= was.len() + ready,
        decreases head.mark - head.taken,
    {
        match ring::dequeue(consumer) {
            Some(_) => {
                head.taken = head.taken + 1;
            },
            None => {
                return None;
            },
        }
    }
    let r = ring::dequeue(consumer);
    if r.is_some() {
        head.taken = head.taken + 1;
    }
    r
}

/// Whether a call that filled a buffer did so with what the ring gave: one sample per frame, none
/// from before the mark, the same frame on every channel, and nothing beyond the last whole frame.
pub open spec fn filled(
    before: Seq<OutFrame>,
    after: Seq<OutFrame>,
    channels: int,
    u: Underrun,
    v: Underrun,
    was: Seq<u32>,
    is: Seq<u32>,
    mark: int,
    consumed: int,
    pops: Seq<Option<u32>>,
) -> bool {
    let frames = before.len() as int / channels;
    &&& pops.len() == frames
    &&& after.len() == before.len()
    &&& holds_frames(after, channels, u, pops, frames)
    &&& forall|k: int| frames * channels <= k < before.len() ==> #[trigger] after[k] == before[k]
    &&& v == after_frames(u, pops)
    &&& was.is_prefix_of(is)
    &&& given(pops) == is.skip(played_from(was.len() as int, is.len() as int, mark))
    &&& consumed == given(pops).len()
}

/// Fills a buffer of the device: takes a sample per frame out of the ring, puts it on every
/// channel, and fades out where the ring runs empty. Samples up to the mark are dropped. Returns
/// how many samples are played.
pub fn fill_output(
    data: &mut Vec<OutFrame>,
    channels: usize,
    consumer: &mut Consumer<u32>,
    head: &mut Playhead,
    u: &mut Underrun,
) -> (consumed: usize)
    requires
        channels > 0,
        old(head).at(*old(consumer)),
        old(head).room(old(data)@.len() as int),
    ensures
        exists|pops: Seq<Option<u32>>| #[trigger]
            filled(
                old(data)@,
                final(data)@,
                channels as int,
                *old(u),
                *final(u),
                ring::popped(*old(consumer)),
                ring::popped(*final(consumer)),
                old(head).mark as int,
                consumed as int,
                pops,
            ),
        final(head).at(*final(consumer)),
        final(head).mark == old(head).mark,
        ring::popped(*final(consumer)).len() >= ring::popped(*old(consumer)).len()
            + ring::known_ready(*old(consumer)) || consumed == old(data)@.len() as int
            / channels as int,
{
    let n: usize = data.len();
    let frames: usize = n / channels;
    let ghost before = data@;
    let ghost u0 = *u;
    let ghost was = ring::popped(*consumer);
    let ghost ready = ring::known_ready(*consumer);
    let ghost mark = head.mark as int;
    let ghost mut pops: Seq<Option<u32>> = Seq::empty();
    let mut consumed: usize = 0;
    let mut i: usize = 0;
    assert(frames * channels <= n) by (nonlinear_arith)
        requires
            frames == n as int / channels as int,
            channels > 0,
    ;
    assert(frames <= n) by (nonlinear_arith)
        requires
            frames == n as int / channels as int,
            channels > 0,
    ;
    assert(given(pops) =~= was.skip(played_from(was.len() as int, was.len() as int, mark)));
    while i < frames
        invariant
            i <= frames <= n,
            channels > 0,
            frames == before.len() as int / channels as int,
            frames * channels <= n == before.len() == data@.len(),
            n <= usize::MAX,
            pops.len() == i,
            consumed <= i,
            head.at(*consumer),
            head.mark == old(head).mark == mark,
            old(head).room(n as int),
            old(head).taken == was.len(),
            head.taken <= old(head).taken + i || head.taken <= mark + i,
            was.is_prefix_of(ring::popped(*consumer)),
            ring::popped(*consumer).len() >= was.len() + ready || (consumed == i
                && ring::popped(*consumer).len() + ring::known_ready(*consumer) >= was.len()
                + ready),
            consumed == given(pops).len(),
            given(pops) == ring::popped(*consumer).skip(
                played_from(was.len() as int, ring::popped(*consumer).len() as int, mark),
            ),
            *u == after_frames(u0, pops),
            holds_frames(data@, channels as int, u0, pops, i as int),
            forall|k: int| i * channels <= k < n ==> #[trigger] data@[k] == before[k],
        decreases frames - i,
    {
        let ghost held = ring::popped(*consumer);
        let popped = next_sample(consumer, head);
        let frame = u.step(popped);
        if popped.is_some() {
            consumed = consumed + 1;
        }
        let ghost earlier = pops;
        proof {
            pops = pops.push(popped);
            assert(pops.drop_last() =~= earlier);
            assert(pops.take(i as int) =~= earlier);
            assert(frame == frame_at(u0, pops, i as int));
            let is = ring::popped(*consumer);
            let from = played_from(was.len() as int, is.len() as int, mark);
            assert(held =~= is.take(held.len() as int));
            assert(was =~= held.take(was.len() as int));
            assert(was.is_prefix_of(is)) by {
                assert(was =~= is.take(was.len() as int));
            }
            assert(given(pops) =~= is.skip(from));
            assert forall|j: int, c: int| 0 <= j < i && 0 <= c < channels implies
                #[trigger] data@[j * channels + c] == frame_at(u0, pops, j) by {
                assert(pops.take(j) =~= earlier.take(j));
                assert(pops[j] == earlier[j]);
                assert(data@[j * channels + c] == frame_at(u0, earlier, j));
            }
            assert(i * channels + channels <= n) by (nonlinear_arith)
                requires
                    i < frames,
                    frames * channels <= n,
            ;
        }
        let base: usize = i * channels;
        let mut c: usize = 0;
        while c < channels
            invariant
                c <= channels,
                channels > 0,
                i < frames,
                base == i * channels,
                base + channels <= n == data@.len() == before.len(),
                n <= usize::MAX,
                frame == frame_at(u0, pops, i as int),
                forall|j: int, d: int|
                    0 <= j < i && 0 <= d < channels ==> #[trigger] data@[j * channels + d]
                        == frame_at(u0, pops, j),
                forall|d: int| 0 <= d < c ==> #[trigger] data@[base + d] == frame,
                forall|k: int| base + c <= k < n ==> #[trigger] data@[k] == before[k],
            decreases channels - c,
        {
            let ghost prior = data@;
            data.set(base + c, frame);
            proof {
                assert forall|j: int, d: int| 0 <= j < i && 0 <= d < channels implies
                    #[trigger] data@[j * channels + d] == frame_at(u0, pops, j) by {
                    assert(j * channels + d < base) by (nonlinear_arith)
                        requires
                            0 <= j < i,
                            0 <= d < channels,
                            base == i * channels,
                    ;
                    assert(0 <= j * channels + d) by (nonlinear_arith)
                        requires
                            0 <= j,
                            0 <= d,
                            channels > 0,
                    ;
                    assert(prior[j * channels + d] == frame_at(u0, pops, j));
                }
            }
            c = c + 1;
        }
        proof {
            assert((i + 1) * channels == base + channels) by (nonlinear_arith)
                requires
                    base == i * channels,
            ;
            assert forall|j: int, d: int| 0 <= j < i + 1 && 0 <= d < channels implies
                #[trigger] data@[j * channels + d] == frame_at(u0, pops, j) by {
                if j == i {
                    assert(data@[base + d] == frame);
                }
            }
        }
        i = i + 1;
    }
    proof {
        assert(filled(
            before,
            data@,
            channels as int,
            u0,
            *u,
            was,
            ring::popped(*consumer),
            mark,
            consumed as int,
            pops,
        ));
    }
    consumed
}

/// How many of `len` samples are written to a ring with `free` slots: none where it holds more
/// than 280 ms, and no more than there are slots otherwise. What is left over is dropped, which
/// keeps the delay bounded.
pub open spec fn write_count(free: int, len: int, output_rate: u32, capacity: int) -> int {
    if (capacity - free) * 1000 > MAX_OCCUPANCY_MS * output_rate {
        0
    } else if len < free {
        len
    } else {
        free
    }
}

/// Writes samples to the playback ring. Returns the slots that were free and how many samples
/// were written.
pub fn write_samples(
    out: &mut Producer<u32>,
    samples: &[u32],
    output_rate: u32,
    capacity: usize,
) -> (r: (usize, usize))
    requires
        ring::ring_capacity(*old(out)) <= capacity,
    ensures
        ring::known_free(*old(out)) <= r.0 <= ring::ring_capacity(*old(out)),
        r.1 == write_count(r.0 as int, samples@.len() as int, output_rate, capacity as int),
        ring::pushed(*final(out)) == ring::pushed(*old(out)) + samples@.take(r.1 as int),
        ring::known_free(*final(out)) == r.0 - r.1,
        ring::ring_capacity(*final(out)) == ring::ring_capacity(*old(out)),
{
    let free: usize = ring::free_slots(out);
    let ghost before = ring::pushed(*out);
    let held: u128 = (capacity - free) as u128 * 1000;
    if held > MAX_OCCUPANCY_MS as u128 * output_rate as u128 {
        assert(before + samples@.take(0) =~= before);
        return (free, 0);
    }
    let n: usize = if samples.len() < free {
        samples.len()
    } else {
        free
    };
    let part = slice_subrange(samples, 0, n);
    let ok = ring::enqueue_all(out, part);
    assert(part@ =~= samples@.take(n as int));
    (free, n)
}

/// The frame after an audible sample starts a fade, and the fade ends in silence: as long as
/// nothing comes, frame `k` of an interruption holds the last sample at `len - 2 - k` parts in
/// `len`, and from there on nothing.
pub proof fn law_interruption_fades_out(u: Underrun, k: nat)
    requires
        u.ramp_pending,
        is_audible(u.last_out),
    ensures
        ({
            let gap = Seq::new(k + 1, |i: int| None::<u32>);
            let len = fade_len(u.ramp_len);
            frame_at(u, gap, k as int) == if k + 1 < len {
                OutFrame::Fade { last: u.last_out, left: (len - 2 - k) as usize, len }
            } else {
                OutFrame::Silence
            }
        }),
{
    let gap = Seq::new(k + 1, |i: int| None::<u32>);
    lemma_gap(u, gap, k);
}

/// What is left of a fade after `k` frames of an interruption.
proof fn lemma_gap(u: Underrun, gap: Seq<Option<u32>>, k: nat)
    requires
        u.ramp_pending,
        is_audible(u.last_out),
        k <= gap.len(),
        forall|i: int| 0 <= i < gap.len() ==> #[trigger] gap[i] is None,
    ensures
        ({
            let v = after_frames(u, gap.take(k as int));
            &&& v.last_out == u.last_out
            &&& v.ramp_len == u.ramp_len
            &&& v.fade_left() == if k + 1 < fade_len(u.ramp_len) {
                fade_len(u.ramp_len) - 1 - k
            } else {
                0
            }
        }),
    decreases k,
{
    if k > 0 {
        lemma_gap(u, gap, (k - 1) as nat);
        assert(gap.take(k as int).drop_last() =~= gap.take(k - 1));
        assert(gap[k - 1] is None);
    } else {
        assert(gap.take(0).len() == 0);
    }
}

/// Samples that come are played as they are, whatever came before.
pub proof fn law_samples_are_played(u: Underrun, pops: Seq<Option<u32>>, i: int)
    requires
        0 <= i < pops.len(),
    ensures
        pops[i] matches Some(v) ==> frame_at(u, pops, i) == OutFrame::Sample(v),
        pops[i] is None ==> !(frame_at(u, pops, i) is Sample),
{
}

/// What is queued at a flush is never played. Of a ring that took `queued` before the flush and
/// `later` after it, and gives in order what it took, the output plays samples of `later` only,
/// in order and without a gap.
pub proof fn law_flush_drops_what_is_queued(
    queued: Seq<u32>,
    later: Seq<u32>,
    before: Seq<OutFrame>,
    after: Seq<OutFrame>,
    channels: int,
    u: Underrun,
    v: Underrun,
    was: Seq<u32>,
    is: Seq<u32>,
    mark: int,
    consumed: int,
    pops: Seq<Option<u32>>,
)
    requires
        mark >= queued.len(),
        is.is_prefix_of(queued + later),
        filled(before, after, channels, u, v, was, is, mark, consumed, pops),
    ensures
        given(pops).len() > 0 ==> exists|from: int|
            0 <= from && from + given(pops).len() <= later.len() && given(pops)
                == #[trigger] later.subrange(from, from + given(pops).len()),
{
    let start = played_from(was.len() as int, is.len() as int, mark);
    if given(pops).len() > 0 {
        let from = start - queued.len();
        let n = given(pops).len() as int;
        assert(is.len() <= (queued + later).len());
        assert forall|j: int| 0 <= j < n implies given(pops)[j] == later[from + j] by {
            assert(is[start + j] == (queued + later)[start + j]);
        }
        assert(given(pops) =~= later.subrange(from, from + n));
    }
}

/// The playback ring never holds more than 280 ms and what was written last: a ring beyond 280 ms
/// takes nothing, and no write takes more than the free slots.
pub proof fn law_delay_is_bounded(free: int, len: int, output_rate: u32, capacity: int)
    requires
        0 <= free <= capacity,
        0 <= len,
    ensures
        0 <= write_count(free, len, output_rate, capacity) <= free,
        write_count(free, len, output_rate, capacity) <= len,
        write_count(free, len, output_rate, capacity) > 0 ==> (capacity - free) * 1000
            <= MAX_OCCUPANCY_MS * output_rate,
{
}

/// A sample that comes is played as it is and remembered; where none comes, the last one is faded
/// out if it is audible, in equal steps, and silence follows.
pub proof fn law_frames_of_the_output(u: &mut Underrun, popped: Option<u32>, f: OutFrame)
    requires
        call_ensures(Underrun::step, (u, popped), f),
    ensures
        popped matches Some(v) ==> f == OutFrame::Sample(v) && final(u).last_out == v
            && final(u).ramp_pending && final(u).ramp_left == old(u).ramp_left,
        popped is None ==> {
            let bits = old(u).last_out as int % 0x8000_0000;
            let loud = 0x38D1_B717 < bits && bits <= 0x7F80_0000;
            let len: int = if old(u).ramp_len == 0 {
                1
            } else {
                old(u).ramp_len as int
            };
            let left: int = if old(u).ramp_pending && loud {
                len - 1
            } else {
                old(u).ramp_left as int
            };
            &&& left > 0 ==> (f matches OutFrame::Fade { last, left: l, len: n } && last == old(
                u,
            ).last_out && l == left - 1 && n == len)
            &&& left <= 0 ==> f == OutFrame::Silence
            &&& final(u).ramp_left == (if left > 0 {
                left - 1
            } else {
                0
            })
            &&& !final(u).ramp_pending
            &&& final(u).last_out == old(u).last_out
        },
        final(u).ramp_len == old(u).ramp_len,
{
}

/// A fade falls by one part from frame to frame.
pub proof fn law_fades_fall(
    u: &mut Underrun,
    f: OutFrame,
    v: &mut Underrun,
    g: OutFrame,
)
    requires
        call_ensures(Underrun::step, (u, None), f),
        *old(v) == *final(u),
        call_ensures(Underrun::step, (v, None), g),
        f is Fade,
    ensures
        f matches OutFrame::Fade { last, left, len } && if left > 0 {
            g == (OutFrame::Fade { last, left: (left - 1) as usize, len })
        } else {
            g == OutFrame::Silence
        },
{
}

/// The samples that are to be heard in a buffer of the device, frame by frame.
pub open spec fn heard_samples(data: Seq<OutFrame>, channels: int, frames: int) -> Seq<u32>
    decreases frames,
{
    if frames <= 0 {
        Seq::empty()
    } else {
        match data[(frames - 1) * channels] {
            OutFrame::Sample(v) => heard_samples(data, channels, frames - 1).push(v),
            _ => heard_samples(data, channels, frames - 1),
        }
    }
}

/// What is heard is what came out of the ring behind the mark, all of it and in order; every
/// channel gets the same, and what is beyond the last whole frame stays.
pub proof fn law_output_plays_the_ring(
    data: &mut Vec<OutFrame>,
    channels: usize,
    consumer: &mut Consumer<u32>,
    head: &mut Playhead,
    u: &mut Underrun,
    consumed: usize,
    i: int,
    c: int,
)
    requires
        call_ensures(fill_output, (data, channels, consumer, head, u), consumed),
        channels > 0,
        0 <= i < old(data)@.len() as int / channels as int,
        0 <= c < channels,
    ensures
        ({
            let frames = old(data)@.len() as int / channels as int;
            let was = ring::popped(*old(consumer));
            let is = ring::popped(*final(consumer));
            let heard = heard_samples(final(data)@, channels as int, frames);
            &&& final(data)@.len() == old(data)@.len()
            &&& final(data)@[i * channels + c] == final(data)@[i * channels]
            &&& consumed == heard.len()
            &&& was.is_prefix_of(is)
            &&& old(head).mark <= was.len() ==> was + heard == is
            &&& old(head).mark > was.len() && is.len() > old(head).mark ==> is.take(
                old(head).mark as int,
            ) + heard == is
            &&& old(head).mark > was.len() && is.len() <= old(head).mark ==> heard.len() == 0
            &&& final(head).taken == is.len()
            &&& final(head).mark == old(head).mark
        }),
        forall|k: int|
            old(data)@.len() as int / channels as int * channels <= k < old(data)@.len()
                ==> #[trigger] final(data)@[k] == old(data)@[k],
{
    let was = ring::popped(*old(consumer));
    let is = ring::popped(*final(consumer));
    let frames = old(data)@.len() as int / channels as int;
    let mark = old(head).mark as int;
    let pops = choose|pops: Seq<Option<u32>>| #[trigger]
        filled(
            old(data)@,
            final(data)@,
            channels as int,
            *old(u),
            *final(u),
            was,
            is,
            mark,
            consumed as int,
            pops,
        );
    let ch = channels as int;
    lemma_heard(final(data)@, ch, *old(u), pops, frames);
    assert(pops.take(frames) =~= pops);
    assert(final(data)@[i * ch + c] == frame_at(*old(u), pops, i));
    assert(final(data)@[i * ch + 0] == frame_at(*old(u), pops, i));
    assert(was =~= is.take(was.len() as int));
    let heard = heard_samples(final(data)@, ch, frames);
    if mark <= was.len() {
        assert(was + heard =~= is);
    } else if is.len() > mark {
        assert(is.take(mark) + heard =~= is);
    } else {
        assert(heard =~= Seq::<u32>::empty());
    }
}

/// The samples that are heard are those that the ring gave.
proof fn lemma_heard(
    data: Seq<OutFrame>,
    channels: int,
    u: Underrun,
    pops: Seq<Option<u32>>,
    frames: int,
)
    requires
        channels > 0,
        0 <= frames <= pops.len(),
        holds_frames(data, channels, u, pops, frames),
    ensures
        heard_samples(data, channels, frames) == given(pops.take(frames)),
    decreases frames,
{
    if frames > 0 {
        let i = frames - 1;
        assert(holds_frames(data, channels, u, pops, i));
        lemma_heard(data, channels, u, pops, i);
        assert(pops.take(frames).drop_last() =~= pops.take(i));
        assert(pops.take(frames).last() == pops[i]);
        assert(data[i * channels + 0] == frame_at(u, pops, i));
        law_samples_are_played(u, pops, i);
    }
}

/// A mark never goes back: the later of two marks counts, whatever their order.
pub proof fn law_marks_do_not_go_back(
    a: &mut Playhead,
    x: u64,
    b: &mut Playhead,
    y: u64,
)
    requires
        call_ensures(Playhead::flush_to, (a, x), ()),
        *old(b) == *final(a),
        call_ensures(Playhead::flush_to, (b, y), ()),
    ensures
        final(b).mark >= x,
        final(b).mark >= y,
        final(b).mark >= old(a).mark,
        final(b).mark == x || final(b).mark == y || final(b).mark == old(a).mark,
        final(b).taken == old(a).taken,
{
}

/// What is written to the ring: nothing where it holds more than 280 ms, otherwise as many of the
/// samples as there are slots for, from the first on.
pub proof fn law_writes_are_bounded(
    out: &mut Producer<u32>,
    samples: &[u32],
    rate: u32,
    capacity: usize,
    r: (usize, usize),
)
    requires
        call_ensures(write_samples, (out, samples, rate, capacity), r),
    ensures
        (capacity - r.0) * 1000 > 280 * rate ==> r.1 == 0,
        (capacity - r.0) * 1000 <= 280 * rate ==> r.1 == if samples@.len() < r.0 {
            samples@.len() as int
        } else {
            r.0 as int
        },
        ring::pushed(*final(out)) == ring::pushed(*old(out)) + samples@.take(r.1 as int),
{
}

} // verus!
