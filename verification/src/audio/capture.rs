//! The capture side: samples out of the input ring, framed for the encoder, and only speech sent.

use rtrb::Consumer;
use std::collections::VecDeque;
use vstd::prelude::*;

use crate::audio::opus::ENCODER_FRAME_SIZE;
use crate::audio::ring;
use crate::clock;

verus! {

/// Capacity of the input ring, in samples.
pub const INPUT_RING_SAMPLES: usize = 12 * 1024;

/// The most samples that one batch takes out of the input ring.
pub const CAPTURE_BATCH: usize = 4096;

/// How often the clock drift is corrected.
pub const DRIFT_PERIOD: u64 = 500_000_000;

/// How often the capture reports.
pub const CAPTURE_REPORT_INTERVAL: u64 = 2_000_000_000;

/// Quiet frames that still count as speech after it: 1.2 s, so that no word is cut off.
pub const HANGOVER_FRAMES: u32 = 20;

/// Samples that wait to be taken in blocks.
pub struct SampleQueue {
    pub samples: VecDeque<u32>,
}

impl SampleQueue {
    /// An empty queue.
    pub fn new() -> (q: Self)
        ensures
            q.samples@ == Seq::<u32>::empty(),
    {
        SampleQueue { samples: VecDeque::new() }
    }

    /// Appends samples.
    pub fn extend(&mut self, more: &[u32])
        ensures
            final(self).samples@ == old(self).samples@ + more@,
    {
        let ghost before = self.samples@;
        let mut i: usize = 0;
        while i < more.len()
            invariant
                i <= more@.len(),
                self.samples@ == before + more@.take(i as int),
            decreases more@.len() - i,
        {
            self.samples.push_back(more[i]);
            i = i + 1;
            assert(before + more@.take(i as int) =~= (before + more@.take(i - 1)).push(
                more@[i - 1],
            ));
        }
        assert(more@.take(i as int) =~= more@);
    }

    /// Takes the first `n` samples, once there are so many.
    pub fn take(&mut self, n: usize) -> (r: Option<Vec<u32>>)
        ensures
            match r {
                Some(block) => {
                    &&& old(self).samples@.len() >= n
                    &&& block@ == old(self).samples@.take(n as int)
                    &&& final(self).samples@ == old(self).samples@.skip(n as int)
                },
                None => old(self).samples@.len() < n && final(self).samples@ == old(self).samples@,
            },
    {
        if self.samples.len() < n {
            return None;
        }
        let ghost before = self.samples@;
        let mut block: Vec<u32> = Vec::new();
        let mut i: usize = 0;
        assert(before.skip(0) =~= before);
        while i < n
            invariant
                i <= n <= before.len(),
                block@ == before.take(i as int),
                self.samples@ == before.skip(i as int),
            decreases n - i,
        {
            match self.samples.pop_front() {
                Some(s) => {
                    block.push(s);
                    assert(before.take(i + 1) =~= before.take(i as int).push(before[i as int]));
                    assert(before.skip(i as int).skip(1) =~= before.skip(i + 1));
                },
                None => {},
            }
            i = i + 1;
            assert(self.samples@ =~= before.skip(i as int));
        }
        Some(block)
    }
}

/// Whether somebody speaks. The levels are compared by the caller, against a noise floor that it
/// follows in silence.
#[derive(Debug, Clone, Copy, PartialEq, Eq, Structural)]
pub struct Vad {
    pub speech: bool,
    pub hangover: u32,
}

impl Vad {
    /// The quiet frames in a row are fewer than what ends a speech.
    pub open spec fn wf(self) -> bool {
        self.hangover < HANGOVER_FRAMES
    }

    /// Silence.
    pub fn new() -> (v: Self)
        ensures
            v.wf(),
            v == (Vad { speech: false, hangover: 0 }),
    {
        Vad { speech: false, hangover: 0 }
    }

    /// The state after a frame, of which is known whether it lies below the level that releases
    /// and whether it reaches the level that triggers.
    pub open spec fn after(self, below_release: bool, reaches_trigger: bool) -> Vad {
        if self.speech {
            if !below_release {
                Vad { speech: true, hangover: 0 }
            } else if self.hangover + 1 >= HANGOVER_FRAMES {
                Vad { speech: false, hangover: 0 }
            } else {
                Vad { speech: true, hangover: (self.hangover + 1) as u32 }
            }
        } else if reaches_trigger {
            Vad { speech: true, hangover: 0 }
        } else {
            self
        }
    }

    /// Takes a frame. Says whether it is to be sent, and whether the noise floor is to follow it,
    /// which it does in silence only.
    pub fn decide(&mut self, below_release: bool, reaches_trigger: bool) -> (r: (bool, bool))
        requires
            old(self).wf(),
        ensures
            final(self).wf(),
            *final(self) == old(self).after(below_release, reaches_trigger),
            r.0 == final(self).speech,
            r.1 == (!old(self).speech && !reaches_trigger),
    {
        if self.speech {
            if below_release {
                self.hangover = self.hangover + 1;
                if self.hangover >= HANGOVER_FRAMES {
                    self.speech = false;
                    self.hangover = 0;
                }
            } else {
                self.hangover = 0;
            }
            (self.speech, false)
        } else if reaches_trigger {
            self.speech = true;
            self.hangover = 0;
            (true, false)
        } else {
            (false, true)
        }
    }
}

/// What the capture has done since its last report.
#[derive(Debug, Clone, Copy, PartialEq, Eq, Structural)]
pub struct CaptureStats {
    pub flush_at: u64,
    pub samples: u64,
    pub frames: u64,
    pub speech_frames: u64,
    pub silence_frames: u64,
}

impl CaptureStats {
    /// Nothing done since `now`.
    pub open spec fn none(now: u64) -> CaptureStats {
        CaptureStats { flush_at: now, samples: 0, frames: 0, speech_frames: 0, silence_frames: 0 }
    }

    /// Nothing done since `now`.
    pub fn new(now: u64) -> (s: Self)
        ensures
            s == Self::none(now),
    {
        CaptureStats { flush_at: now, samples: 0, frames: 0, speech_frames: 0, silence_frames: 0 }
    }
}

/// What the capture worker keeps track of.
pub struct CaptureControl {
    pub pending: SampleQueue,
    pub vad: Vad,
    pub window_count: u64,
    pub window_start: u64,
    pub stats: CaptureStats,
}

/// Whether a batch is what came out of a ring, and all that came: the ring is empty or the batch
/// full.
pub open spec fn drained(before: Consumer<u32>, after: Consumer<u32>, chunk: Seq<u32>) -> bool {
    &&& ring::popped(after) == ring::popped(before) + chunk
    &&& chunk.len() <= CAPTURE_BATCH
    &&& chunk.len() < CAPTURE_BATCH ==> ring::known_ready(after) == 0
    &&& chunk.len() >= ring::known_ready(before) || chunk.len() == CAPTURE_BATCH
}

/// Takes samples out of the input ring until it is empty or the batch is full. Says whether there
/// were any.
pub fn drain_ring(chunk: &mut Vec<u32>, input: &mut Consumer<u32>) -> (any: bool)
    ensures
        drained(*old(input), *final(input), final(chunk)@),
        any == (final(chunk)@.len() > 0),
{
    chunk.clear();
    let ghost was = ring::popped(*input);
    let ghost ready = ring::known_ready(*input);
    assert(was + chunk@ =~= was);
    let mut more = true;
    while more
        invariant
            ring::popped(*input) == was + chunk@,
            chunk@.len() <= CAPTURE_BATCH,
            more ==> chunk@.len() < CAPTURE_BATCH,
            more ==> chunk@.len() + ring::known_ready(*input) >= ready,
            !more ==> chunk@.len() == CAPTURE_BATCH || (ring::known_ready(*input) == 0
                && chunk@.len() >= ready),
        decreases
            CAPTURE_BATCH - chunk@.len(),
            if more {
                1int
            } else {
                0
            },
    {
        match ring::dequeue(input) {
            Some(s) => {
                let ghost before = chunk@;
                chunk.push(s);
                assert(was + chunk@ =~= (was + before).push(s));
                if chunk.len() >= CAPTURE_BATCH {
                    more = false;
                }
            },
            None => {
                more = false;
            },
        }
    }
    chunk.len() > 0
}

impl CaptureControl {
    /// The voice detection is in order.
    pub open spec fn wf(self) -> bool {
        self.vad.wf()
    }

    /// Whether the counters can take one more batch and frame.
    pub open spec fn room(self) -> bool {
        &&& self.window_count <= u64::MAX - CAPTURE_BATCH
        &&& self.stats.samples <= u64::MAX - CAPTURE_BATCH
        &&& self.stats.frames < u64::MAX
        &&& self.stats.speech_frames < u64::MAX
        &&& self.stats.silence_frames < u64::MAX
    }

    /// Whether the counters can take one more batch and frame.
    pub fn has_room(&self) -> (r: bool)
        ensures
            r == self.room(),
    {
        self.window_count <= u64::MAX - CAPTURE_BATCH as u64 && self.stats.samples <= u64::MAX
            - CAPTURE_BATCH as u64 && self.stats.frames < u64::MAX && self.stats.speech_frames
            < u64::MAX && self.stats.silence_frames < u64::MAX
    }

    /// Nothing captured yet.
    pub fn new(now: u64) -> (c: Self)
        ensures
            c.wf(),
            c.pending.samples@ == Seq::<u32>::empty(),
            c.vad == (Vad { speech: false, hangover: 0 }),
            c.window_count == 0,
            c.window_start == now,
            c.stats == CaptureStats::none(now),
    {
        CaptureControl {
            pending: SampleQueue::new(),
            vad: Vad::new(),
            window_count: 0,
            window_start: now,
            stats: CaptureStats::new(now),
        }
    }

    /// Takes a batch out of the input ring. Says whether there was anything.
    pub fn drain_input(&mut self, chunk: &mut Vec<u32>, input: &mut Consumer<u32>) -> (any: bool)
        requires
            old(self).room(),
        ensures
            drained(*old(input), *final(input), final(chunk)@),
            any == (final(chunk)@.len() > 0),
            final(self).window_count == old(self).window_count + final(chunk)@.len(),
            final(self).stats == (CaptureStats {
                samples: (old(self).stats.samples + final(chunk)@.len()) as u64,
                ..old(self).stats
            }),
            final(self).pending == old(self).pending,
            final(self).vad == old(self).vad,
            final(self).window_start == old(self).window_start,
    {
        let any = drain_ring(chunk, input);
        self.window_count = self.window_count + chunk.len() as u64;
        self.stats.samples = self.stats.samples + chunk.len() as u64;
        any
    }

    /// Takes samples at the rate of the encoder.
    pub fn accept(&mut self, resampled: &[u32])
        ensures
            final(self).pending.samples@ == old(self).pending.samples@ + resampled@,
            final(self).vad == old(self).vad,
            final(self).window_count == old(self).window_count,
            final(self).window_start == old(self).window_start,
            final(self).stats == old(self).stats,
    {
        self.pending.extend(resampled);
    }

    /// The samples counted since the last correction of the drift and how long that lies back, in
    /// nanoseconds, once a correction is due; the count starts over.
    pub fn update_drift(&mut self, now: u64) -> (r: Option<(u64, u64)>)
        ensures
            final(self).pending == old(self).pending,
            final(self).vad == old(self).vad,
            final(self).stats == old(self).stats,
            if clock::span(now, old(self).window_start) >= DRIFT_PERIOD {
                &&& r == Some(
                    (old(self).window_count, clock::span(now, old(self).window_start) as u64),
                )
                &&& final(self).window_count == 0
                &&& final(self).window_start == now
            } else {
                &&& r is None
                &&& final(self).window_count == old(self).window_count
                &&& final(self).window_start == old(self).window_start
            },
    {
        let passed: u64 = clock::elapsed(now, self.window_start);
        if passed >= DRIFT_PERIOD {
            let count: u64 = self.window_count;
            self.window_count = 0;
            self.window_start = now;
            Some((count, passed))
        } else {
            None
        }
    }

    /// The next frame for the encoder, once there are enough samples.
    pub fn next_frame(&mut self) -> (r: Option<Vec<u32>>)
        ensures
            final(self).vad == old(self).vad,
            final(self).window_count == old(self).window_count,
            final(self).window_start == old(self).window_start,
            final(self).stats == old(self).stats,
            match r {
                Some(frame) => {
                    &&& old(self).pending.samples@.len() >= ENCODER_FRAME_SIZE
                    &&& frame@ == old(self).pending.samples@.take(ENCODER_FRAME_SIZE as int)
                    &&& final(self).pending.samples@ == old(self).pending.samples@.skip(
                        ENCODER_FRAME_SIZE as int,
                    )
                },
                None => {
                    &&& old(self).pending.samples@.len() < ENCODER_FRAME_SIZE
                    &&& final(self).pending.samples@ == old(self).pending.samples@
                },
            },
    {
        self.pending.take(ENCODER_FRAME_SIZE)
    }

    /// Judges a frame by its level. Says whether it is to be encoded, and whether the noise floor
    /// is to follow it.
    pub fn judge(&mut self, below_release: bool, reaches_trigger: bool) -> (r: (bool, bool))
        requires
            old(self).wf(),
            old(self).room(),
        ensures
            final(self).wf(),
            final(self).vad == old(self).vad.after(below_release, reaches_trigger),
            r.0 == final(self).vad.speech,
            r.1 == (!old(self).vad.speech && !reaches_trigger),
            final(self).stats == if r.0 {
                CaptureStats {
                    speech_frames: (old(self).stats.speech_frames + 1) as u64,
                    ..old(self).stats
                }
            } else {
                CaptureStats {
                    silence_frames: (old(self).stats.silence_frames + 1) as u64,
                    ..old(self).stats
                }
            },
            final(self).pending == old(self).pending,
            final(self).window_count == old(self).window_count,
            final(self).window_start == old(self).window_start,
    {
        let r = self.vad.decide(below_release, reaches_trigger);
        if r.0 {
            self.stats.speech_frames = self.stats.speech_frames + 1;
        } else {
            self.stats.silence_frames = self.stats.silence_frames + 1;
        }
        r
    }

    /// Takes note of a frame that was encoded.
    pub fn encoded(&mut self)
        requires
            old(self).room(),
        ensures
            final(self).stats == (CaptureStats {
                frames: (old(self).stats.frames + 1) as u64,
                ..old(self).stats
            }),
            final(self).pending == old(self).pending,
            final(self).vad == old(self).vad,
            final(self).window_count == old(self).window_count,
            final(self).window_start == old(self).window_start,
    {
        self.stats.frames = self.stats.frames + 1;
    }

    /// Reports what was done, once every two seconds.
    pub fn flush_stats(&mut self, now: u64) -> (r: Option<CaptureStats>)
        ensures
            final(self).pending == old(self).pending,
            final(self).vad == old(self).vad,
            final(self).window_count == old(self).window_count,
            final(self).window_start == old(self).window_start,
            if clock::span(now, old(self).stats.flush_at) >= CAPTURE_REPORT_INTERVAL {
                r == Some(old(self).stats) && final(self).stats == CaptureStats::none(now)
            } else {
                r is None && final(self).stats == old(self).stats
            },
    {
        if clock::elapsed(now, self.stats.flush_at) >= CAPTURE_REPORT_INTERVAL {
            let r = self.stats;
            self.stats = CaptureStats::new(now);
            Some(r)
        } else {
            None
        }
    }
}

/// The frames that come of a queue of samples, one after another.
pub open spec fn frames_of(samples: Seq<u32>, size: int) -> Seq<Seq<u32>>
    decreases samples.len(),
{
    if size <= 0 || samples.len() < size {
        Seq::empty()
    } else {
        seq![samples.take(size)] + frames_of(samples.skip(size), size)
    }
}

/// Frames put together.
pub open spec fn joined(frames: Seq<Seq<u32>>) -> Seq<u32>
    decreases frames.len(),
{
    if frames.len() == 0 {
        Seq::empty()
    } else {
        frames[0] + joined(frames.skip(1))
    }
}

/// Framing loses, repeats and reorders nothing: the frames put together are the samples up to the
/// last whole frame, every frame has the full size, and less than a frame is left.
pub proof fn law_framing_is_lossless(samples: Seq<u32>, size: int)
    requires
        size > 0,
    ensures
        joined(frames_of(samples, size)) == samples.take(samples.len() - samples.len() as int
            % size),
        forall|i: int|
            0 <= i < frames_of(samples, size).len() ==> (#[trigger] frames_of(
                samples,
                size,
            )[i]).len() == size,
        frames_of(samples, size).len() == samples.len() as int / size,
    decreases samples.len(),
{
    let n = samples.len() as int;
    let frames = frames_of(samples, size);
    if n < size {
        vstd::arithmetic::div_mod::lemma_small_mod(n as nat, size as nat);
        vstd::arithmetic::div_mod::lemma_basic_div(n, size);
        assert(samples.take(0) =~= Seq::<u32>::empty());
    } else {
        let rest = samples.skip(size);
        law_framing_is_lossless(rest, size);
        assert(n % size == (n - size) % size) by {
            vstd::arithmetic::div_mod::lemma_mod_sub_multiples_vanish(n, size);
        }
        assert(n / size == (n - size) / size + 1) by {
            vstd::arithmetic::div_mod::lemma_div_plus_one(n - size, size);
        }
        assert(frames.skip(1) =~= frames_of(rest, size));
        assert(frames[0] == samples.take(size));
        let kept = n - n % size;
        vstd::arithmetic::div_mod::lemma_mod_bound(n - size, size);
        vstd::arithmetic::div_mod::lemma_fundamental_div_mod(n - size, size);
        assert(0 <= (n - size) / size * size <= n - size) by {
            vstd::arithmetic::div_mod::lemma_div_pos_is_pos(n - size, size);
            assert((n - size) / size * size >= 0) by (nonlinear_arith)
                requires
                    (n - size) / size >= 0,
                    size > 0,
            ;
            assert(size * ((n - size) / size) == (n - size) / size * size) by (nonlinear_arith);
        }
        assert(joined(frames) =~= samples.take(kept));
        assert forall|i: int| 0 <= i < frames.len() implies (#[trigger] frames[i]).len() == size by {
            if i > 0 {
                assert(frames[i] == frames_of(rest, size)[i - 1]);
            }
        }
    }
}

/// The state after `k` frames below the level that releases.
pub open spec fn after_quiet(v: Vad, k: nat) -> Vad
    decreases k,
{
    if k == 0 {
        v
    } else {
        after_quiet(v, (k - 1) as nat).after(true, false)
    }
}

/// Speech outlasts its last loud frame by nineteen quiet ones and ends with the twentieth.
pub proof fn law_speech_hangs_over(v: Vad, k: nat)
    requires
        v.speech,
        v.hangover == 0,
        k <= HANGOVER_FRAMES,
    ensures
        k < HANGOVER_FRAMES ==> after_quiet(v, k) == (Vad { speech: true, hangover: k as u32 }),
        k == HANGOVER_FRAMES ==> after_quiet(v, k) == (Vad { speech: false, hangover: 0 }),
    decreases k,
{
    if k > 0 {
        law_speech_hangs_over(v, (k - 1) as nat);
    }
}

/// A frame that reaches the trigger is sent, unless it lies below the release as well: no word is
/// swallowed at its beginning, and none is cut off while it is loud.
pub proof fn law_loud_frames_are_sent(v: Vad, below_release: bool)
    requires
        !v.speech || !below_release,
    ensures
        v.after(below_release, true).speech,
{
}

/// A loud frame during speech starts the count of quiet frames over, and is sent.
pub proof fn law_loud_frames_restart_the_count(v: &mut Vad, reaches_trigger: bool, r: (bool, bool))
    requires
        call_ensures(Vad::decide, (v, false, reaches_trigger), r),
        old(v).speech,
    ensures
        final(v).speech,
        final(v).hangover == 0,
        r.0,
        !r.1,
{
}

/// A quiet frame during speech is counted; the twentieth in a row ends the speech, and until then
/// the frames are sent.
pub proof fn law_quiet_frames_are_counted(v: &mut Vad, reaches_trigger: bool, r: (bool, bool))
    requires
        call_ensures(Vad::decide, (v, true, reaches_trigger), r),
        old(v).speech,
        old(v).hangover < 20,
    ensures
        old(v).hangover < 19 ==> final(v).speech && final(v).hangover == old(v).hangover + 1 && r.0,
        old(v).hangover == 19 ==> !final(v).speech && final(v).hangover == 0 && !r.0,
        !r.1,
{
}

/// In silence a frame is sent exactly where it reaches the trigger, which begins a speech with
/// nothing counted; otherwise the silence goes on and the noise floor follows the frame.
pub proof fn law_speech_begins_at_the_trigger(
    v: &mut Vad,
    below_release: bool,
    reaches_trigger: bool,
    r: (bool, bool),
)
    requires
        call_ensures(Vad::decide, (v, below_release, reaches_trigger), r),
        !old(v).speech,
    ensures
        r.0 <==> reaches_trigger,
        r.1 <==> !reaches_trigger,
        final(v).speech <==> reaches_trigger,
        reaches_trigger ==> final(v).hangover == 0,
        !reaches_trigger ==> *final(v) == *old(v),
{
}

/// The state after frames, of each of which is known whether it lies below the release and whether
/// it reaches the trigger.
pub open spec fn after_levels(v: Vad, levels: Seq<(bool, bool)>) -> Vad
    decreases levels.len(),
{
    if levels.len() == 0 {
        v
    } else {
        after_levels(v, levels.drop_last()).after(levels.last().0, levels.last().1)
    }
}

/// Speech outlasts every pause of less than twenty quiet frames, whatever came before: from any
/// state in speech, a loud frame and fewer than twenty quiet ones leave it in speech, and twenty
/// end it.
pub proof fn law_pauses_are_outlasted(v: Vad, reaches_trigger: bool, quiet: Seq<(bool, bool)>)
    requires
        v.speech,
        quiet.len() <= 20,
        forall|i: int| 0 <= i < quiet.len() ==> (#[trigger] quiet[i]).0,
    ensures
        ({
            let end = after_levels(v.after(false, reaches_trigger), quiet);
            &&& end.speech <==> quiet.len() < 20
            &&& quiet.len() < 20 ==> end.hangover == quiet.len()
        }),
    decreases quiet.len(),
{
    if quiet.len() > 0 {
        law_pauses_are_outlasted(v, reaches_trigger, quiet.drop_last());
        assert(quiet[quiet.len() - 1].0);
    }
}

/// Every frame that is judged is counted once, as speech exactly where it is to be sent, and the
/// samples that wait stay.
pub proof fn law_judged_frames_are_counted(
    c: &mut CaptureControl,
    below_release: bool,
    reaches_trigger: bool,
    r: (bool, bool),
)
    requires
        call_ensures(CaptureControl::judge, (c, below_release, reaches_trigger), r),
        old(c).stats.speech_frames < u64::MAX,
        old(c).stats.silence_frames < u64::MAX,
    ensures
        final(c).stats.speech_frames == old(c).stats.speech_frames + (if r.0 {
            1int
        } else {
            0
        }),
        final(c).stats.silence_frames == old(c).stats.silence_frames + (if r.0 {
            0int
        } else {
            1
        }),
        final(c).stats.samples == old(c).stats.samples,
        final(c).stats.frames == old(c).stats.frames,
        r.1 <==> !old(c).vad.speech && !reaches_trigger,
        !old(c).vad.speech ==> (final(c).vad.speech <==> reaches_trigger),
        old(c).vad.speech && !below_release ==> final(c).vad.speech && final(c).vad.hangover == 0,
        old(c).vad.speech && below_release ==> (final(c).vad.speech <==> old(c).vad.hangover < 19),
        final(c).window_count == old(c).window_count,
        final(c).window_start == old(c).window_start,
        r.0 == final(c).vad.speech,
        final(c).pending == old(c).pending,
{
}

/// What is captured is framed in order and without loss: a frame is the 960 oldest samples, there
/// is one as soon as there are so many, and what comes is appended.
pub proof fn law_capture_frames_in_order(
    a: &mut CaptureControl,
    more: &[u32],
    b: &mut CaptureControl,
    r: Option<Vec<u32>>,
)
    requires
        call_ensures(CaptureControl::accept, (a, more), ()),
        *old(b) == *final(a),
        call_ensures(CaptureControl::next_frame, (b,), r),
    ensures
        ({
            let all = old(a).pending.samples@ + more@;
            &&& r is Some <==> all.len() >= 960
            &&& r matches Some(f) ==> f@.len() == 960 && f@ + final(b).pending.samples@ == all
            &&& r is None ==> final(b).pending.samples@ == all
        }),
        final(b).vad == old(a).vad,
        final(b).stats == old(a).stats,
{
    let all = old(a).pending.samples@ + more@;
    if let Some(f) = r {
        assert(f@ + final(b).pending.samples@ =~= all);
    }
}

/// A batch is at most 4096 samples, in the order of the ring; all of them are counted.
pub proof fn law_batches_are_counted(
    c: &mut CaptureControl,
    chunk: &mut Vec<u32>,
    input: &mut Consumer<u32>,
    any: bool,
)
    requires
        call_ensures(CaptureControl::drain_input, (c, chunk, input), any),
        old(c).window_count <= u64::MAX - 4096,
        old(c).stats.samples <= u64::MAX - 4096,
    ensures
        ring::popped(*final(input)) == ring::popped(*old(input)) + final(chunk)@,
        final(chunk)@.len() <= 4096,
        any <==> final(chunk)@.len() > 0,
        final(c).window_count == old(c).window_count + final(chunk)@.len(),
        final(c).stats.samples == old(c).stats.samples + final(chunk)@.len(),
        final(c).pending == old(c).pending,
        final(c).vad == old(c).vad,
        final(c).window_start == old(c).window_start,
        final(chunk)@.len() < 4096 ==> ring::known_ready(*final(input)) == 0,
        ring::known_ready(*old(input)) <= 4096 ==> final(chunk)@.len() >= ring::known_ready(
            *old(input),
        ),
{
}

/// The drift is measured over half a second at least: what was counted and how long it took, and
/// then the count starts over.
pub proof fn law_drift_is_measured(c: &mut CaptureControl, now: u64, r: Option<(u64, u64)>)
    requires
        call_ensures(CaptureControl::update_drift, (c, now), r),
        old(c).window_start <= now,
    ensures
        r is Some <==> now - old(c).window_start >= 500_000_000,
        r matches Some(m) ==> m.0 == old(c).window_count && m.1 == now - old(c).window_start
            && final(c).window_count == 0 && final(c).window_start == now,
        r is None ==> final(c).window_count == old(c).window_count && final(c).window_start == old(
            c,
        ).window_start,
        final(c).pending == old(c).pending,
{
}

/// The capture reports once every two seconds what it counted, and counts anew from there.
pub proof fn law_capture_reports(c: &mut CaptureControl, now: u64, r: Option<CaptureStats>)
    requires
        call_ensures(CaptureControl::flush_stats, (c, now), r),
        old(c).stats.flush_at <= now,
    ensures
        r is Some <==> now - old(c).stats.flush_at >= 2_000_000_000,
        r matches Some(s) ==> s == old(c).stats && final(c).stats.flush_at == now
            && final(c).stats.samples == 0 && final(c).stats.frames == 0
            && final(c).stats.speech_frames == 0 && final(c).stats.silence_frames == 0,
        r is None ==> final(c).stats == old(c).stats,
{
}

/// A queue of samples gives first what came first, a whole block or none.
pub proof fn law_samples_first_in_first_out(
    a: &mut SampleQueue,
    more: &[u32],
    b: &mut SampleQueue,
    n: usize,
    r: Option<Vec<u32>>,
)
    requires
        call_ensures(SampleQueue::extend, (a, more), ()),
        *old(b) == *final(a),
        call_ensures(SampleQueue::take, (b, n), r),
    ensures
        r is Some <==> old(a).samples@.len() + more@.len() >= n,
        r matches Some(block) ==> block@.len() == n && block@ + final(b).samples@ == old(a).samples@
            + more@,
        r is None ==> final(b).samples@ == old(a).samples@ + more@,
{
    if let Some(block) = r {
        assert(block@ + final(b).samples@ =~= old(a).samples@ + more@);
    }
}

/// A report tells every frame that was encoded since the last one, and the reports change nothing
/// of what is captured.
pub proof fn law_encoded_frames_are_reported(
    a: &mut CaptureControl,
    b: &mut CaptureControl,
    now: u64,
    r: Option<CaptureStats>,
)
    requires
        old(a).stats.frames < u64::MAX,
        call_ensures(CaptureControl::encoded, (a,), ()),
        *old(b) == *final(a),
        call_ensures(CaptureControl::flush_stats, (b, now), r),
    ensures
        r matches Some(s) ==> s.frames == old(a).stats.frames + 1 && s.samples
            == old(a).stats.samples,
        r is None ==> final(b).stats.frames == old(a).stats.frames + 1,
        final(b).pending == old(a).pending,
        final(b).vad == old(a).vad,
        final(b).window_count == old(a).window_count,
        final(b).window_start == old(a).window_start,
{
}

} // verus!
