//! Frame queues and the output buffer of the classic client.
//!
//! A sample is the bit pattern of a 32-bit float.

use std::collections::VecDeque;
use vstd::prelude::*;
use vstd::string::*;

use crate::audio::capture::SampleQueue;
use crate::audio::output::{OutFrame, INFINITY_BITS, SILENCE_BITS};
use crate::audio::pipeline::{InputFormat, OutputFormat, SampleKind};
use crate::audio::{capture, output, pipeline};
use crate::text;

verus! {

/// Sample rate of the codec.
pub const SAMPLE_RATE: u32 = 16000;

/// Length of a frame, in milliseconds.
pub const FRAME_DURATION_MS: u32 = 20;

/// Samples in a frame.
pub const FRAME_SIZE: usize = 320;

/// Frames that may wait in a queue: half a second.
pub const FRAME_QUEUE_CAP: usize = 25;

/// Depth of the output buffer, in frames.
pub const TARGET_FRAMES: usize = 4;

/// How far the output buffer is read before what was read is dropped.
pub const COMPACT_THRESHOLD: usize = 8192;

/// Every so many dropped frames there is a warning.
pub const WARN_EVERY: u64 = 50;

/// A queue that drops its oldest frame where it is full, which keeps the delay bounded.
pub struct FrameQueue<T> {
    pub frames: VecDeque<T>,
    pub dropped: u64,
}

/// The queue after one more frame.
pub open spec fn with_frame<T>(frames: Seq<T>, frame: T) -> Seq<T> {
    if frames.len() >= FRAME_QUEUE_CAP {
        frames.skip(1).push(frame)
    } else {
        frames.push(frame)
    }
}

/// The queue after more frames, one after another.
pub open spec fn with_frames<T>(frames: Seq<T>, more: Seq<T>) -> Seq<T>
    decreases more.len(),
{
    if more.len() == 0 {
        frames
    } else {
        with_frame(with_frames(frames, more.drop_last()), more.last())
    }
}

impl<T> FrameQueue<T> {
    /// No more frames than may wait.
    pub open spec fn wf(self) -> bool {
        self.frames@.len() <= FRAME_QUEUE_CAP
    }

    /// An empty queue.
    pub fn new() -> (q: Self)
        ensures
            q.wf(),
            q.frames@ == Seq::<T>::empty(),
            q.dropped == 0,
    {
        FrameQueue { frames: VecDeque::new(), dropped: 0 }
    }

    /// Puts a frame in, in place of the oldest one where the queue is full. Returns the number of
    /// frames dropped so far where a warning is due: at the first one, and every fifty from there.
    pub fn push_frame(&mut self, frame: T) -> (warn: Option<u64>)
        requires
            old(self).wf(),
            old(self).dropped < u64::MAX,
        ensures
            final(self).wf(),
            final(self).frames@ == with_frame(old(self).frames@, frame),
            final(self).dropped == if old(self).frames@.len() >= FRAME_QUEUE_CAP {
                old(self).dropped + 1
            } else {
                old(self).dropped as int
            },
            warn == if old(self).frames@.len() >= FRAME_QUEUE_CAP && final(self).dropped
                % WARN_EVERY == 1 {
                Some(final(self).dropped)
            } else {
                None
            },
    {
        let mut warn: Option<u64> = None;
        if self.frames.len() >= FRAME_QUEUE_CAP {
            let ghost before = self.frames@;
            let _oldest = self.frames.pop_front();
            assert(self.frames@ =~= before.skip(1));
            self.dropped = self.dropped + 1;
            if self.dropped % WARN_EVERY == 1 {
                warn = Some(self.dropped);
            }
        }
        self.frames.push_back(frame);
        warn
    }

    /// Takes the oldest frame out.
    pub fn pop_frame(&mut self) -> (r: Option<T>)
        requires
            old(self).wf(),
        ensures
            final(self).wf(),
            final(self).dropped == old(self).dropped,
            match r {
                Some(f) => {
                    &&& old(self).frames@.len() > 0
                    &&& f == old(self).frames@[0]
                    &&& final(self).frames@ == old(self).frames@.skip(1)
                },
                None => old(self).frames@.len() == 0 && final(self).frames@ == old(self).frames@,
            },
    {
        let ghost before = self.frames@;
        let r = self.frames.pop_front();
        proof {
            if before.len() > 0 {
                assert(self.frames@ =~= before.skip(1));
            }
        }
        r
    }

    /// Empties the queue.
    pub fn clear(&mut self)
        ensures
            final(self).wf(),
            final(self).frames@ == Seq::<T>::empty(),
            final(self).dropped == old(self).dropped,
    {
        self.frames.clear();
    }
}

/// A queue keeps the newest frames: however many come, what is left are the last ones of what was
/// there and what came.
pub proof fn law_queue_keeps_the_newest<T>(frames: Seq<T>, more: Seq<T>)
    requires
        frames.len() <= FRAME_QUEUE_CAP,
    ensures
        with_frames(frames, more).len() <= FRAME_QUEUE_CAP,
        ({
            let all = frames + more;
            with_frames(frames, more) == if all.len() <= FRAME_QUEUE_CAP {
                all
            } else {
                all.skip(all.len() - FRAME_QUEUE_CAP)
            }
        }),
    decreases more.len(),
{
    let all = frames + more;
    if more.len() == 0 {
        assert(all =~= frames);
    } else {
        law_queue_keeps_the_newest(frames, more.drop_last());
        let before = frames + more.drop_last();
        assert(all =~= before.push(more.last()));
        if all.len() <= FRAME_QUEUE_CAP {
        } else if before.len() <= FRAME_QUEUE_CAP {
            assert(with_frames(frames, more) =~= all.skip(1));
        } else {
            assert(with_frames(frames, more) =~= all.skip(all.len() - FRAME_QUEUE_CAP));
        }
    }
}

/// The format to capture in.
pub fn capture_format(kind: &SampleKind, name: &str) -> (r: Result<InputFormat, String>)
    ensures
        match r {
            Ok(f) => pipeline::input_format_of(*kind) == Some(f),
            Err(why) => pipeline::input_format_of(*kind) is None && why@ == "不支持的采样格式: "@
                + name@,
        },
{
    match kind {
        SampleKind::I16 => Ok(InputFormat::I16),
        SampleKind::F32 => Ok(InputFormat::F32),
        _ => Err(text::join("不支持的采样格式: ", name)),
    }
}

/// The format to play in.
pub fn playback_format(kind: &SampleKind, name: &str) -> (r: Result<OutputFormat, String>)
    ensures
        match r {
            Ok(f) => pipeline::output_format_of(*kind) == Some(f),
            Err(why) => pipeline::output_format_of(*kind) is None && why@ == "不支持的采样格式: "@
                + name@,
        },
{
    match kind {
        SampleKind::I16 => Ok(OutputFormat::I16),
        SampleKind::F32 => Ok(OutputFormat::F32),
        SampleKind::U16 => Ok(OutputFormat::U16),
        SampleKind::Other(_) => Err(text::join("不支持的采样格式: ", name)),
    }
}

/// What the input side keeps.
pub struct InputState {
    pub buffer: SampleQueue,
    pub queue: FrameQueue<Vec<u32>>,
}

/// The contents of frames.
pub open spec fn contents(frames: Seq<Vec<u32>>) -> Seq<Seq<u32>> {
    frames.map_values(|f: Vec<u32>| f@)
}

/// The counts to warn of while the dropped frames grow from one count to another: the first of
/// every fifty.
pub open spec fn warnings(from: int, to: int) -> Seq<u64>
    decreases to - from,
{
    if to <= from {
        Seq::empty()
    } else if to % WARN_EVERY as int == 1 {
        warnings(from, to - 1).push(to as u64)
    } else {
        warnings(from, to - 1)
    }
}

impl InputState {
    /// No more frames than may wait.
    pub open spec fn wf(self) -> bool {
        self.queue.wf()
    }

    /// Nothing captured yet.
    pub fn new() -> (s: Self)
        ensures
            s.wf(),
            s.buffer.samples@ == Seq::<u32>::empty(),
            s.queue.frames@ == Seq::<Vec<u32>>::empty(),
            s.queue.dropped == 0,
    {
        InputState { buffer: SampleQueue::new(), queue: FrameQueue::new() }
    }

    /// Takes samples at the rate of the codec: whole frames go to the queue, the rest waits. Returns
    /// the counts of dropped frames to warn of.
    pub fn process_input_chunk(&mut self, resampled: &[u32]) -> (warned: Vec<u64>)
        requires
            old(self).wf(),
            old(self).queue.dropped + old(self).buffer.samples@.len() + resampled@.len()
                <= u64::MAX,
        ensures
            final(self).wf(),
            ({
                let all = old(self).buffer.samples@ + resampled@;
                &&& contents(final(self).queue.frames@) == with_frames(
                    contents(old(self).queue.frames@),
                    capture::frames_of(all, FRAME_SIZE as int),
                )
                &&& final(self).queue.dropped == old(self).queue.dropped
                    + old(self).queue.frames@.len() + capture::frames_of(
                    all,
                    FRAME_SIZE as int,
                ).len() - final(self).queue.frames@.len()
                &&& final(self).buffer.samples@ == all.skip(all.len() - all.len() as int
                    % FRAME_SIZE as int)
            }),
            warned@ == warnings(old(self).queue.dropped as int, final(self).queue.dropped as int),
    {
        let mut warned: Vec<u64> = Vec::new();
        let ghost all = self.buffer.samples@ + resampled@;
        let ghost start = contents(self.queue.frames@);
        let ghost dropped0 = self.queue.dropped;
        let ghost mut done: Seq<Seq<u32>> = Seq::empty();
        let ghost mut at: int = 0;
        let ghost mut m: int = 0;
        self.buffer.extend(resampled);
        assert(all.skip(0) =~= all);
        assert(done + capture::frames_of(all.skip(0), FRAME_SIZE as int) =~= capture::frames_of(
            all,
            FRAME_SIZE as int,
        ));
        let mut more = true;
        while more
            invariant
                self.queue.wf(),
                0 <= at <= all.len(),
                at == 320 * m,
                self.buffer.samples@ == all.skip(at),
                done + capture::frames_of(all.skip(at), FRAME_SIZE as int) == capture::frames_of(
                    all,
                    FRAME_SIZE as int,
                ),
                contents(self.queue.frames@) == with_frames(start, done),
                self.queue.dropped <= dropped0 + at,
                warned@ == warnings(dropped0 as int, self.queue.dropped as int),
                dropped0 <= self.queue.dropped,
                self.queue.dropped == dropped0 + start.len() + done.len() - self.queue.frames@.len(),
                dropped0 + all.len() <= u64::MAX,
                !more ==> all.len() - at < FRAME_SIZE,
            decreases
                all.len() - at,
                if more {
                    1int
                } else {
                    0
                },
        {
            let ghost rest = all.skip(at);
            match self.buffer.take(FRAME_SIZE) {
                Some(frame) => {
                    let ghost frames = self.queue.frames@;
                    if let Some(count) = self.queue.push_frame(frame) {
                        warned.push(count);
                    }
                    proof {
                        let taken = frame@;
                        let tail = capture::frames_of(rest.skip(FRAME_SIZE as int), FRAME_SIZE as int);
                        assert(capture::frames_of(rest, FRAME_SIZE as int) == seq![taken] + tail);
                        assert(rest.skip(FRAME_SIZE as int) =~= all.skip(at + FRAME_SIZE));
                        let next = done.push(taken);
                        assert(next + tail =~= done + (seq![taken] + tail));
                        assert(next.drop_last() =~= done);
                        assert(contents(with_frame(frames, frame)) =~= with_frame(
                            contents(frames),
                            taken,
                        ));
                        done = next;
                        at = at + FRAME_SIZE;
                        m = m + 1;
                    }
                },
                None => {
                    more = false;
                },
            }
        }
        proof {
            let rest = all.skip(at);
            assert(capture::frames_of(rest, FRAME_SIZE as int) =~= Seq::<Seq<u32>>::empty());
            assert(done =~= capture::frames_of(all, FRAME_SIZE as int));
            assert(all.len() as int % 320 == all.len() - at);
        }
        warned
    }

    /// Takes the oldest frame out.
    pub fn read_frame(&mut self) -> (r: Option<Vec<u32>>)
        requires
            old(self).wf(),
        ensures
            final(self).wf(),
            final(self).buffer == old(self).buffer,
            final(self).queue.dropped == old(self).queue.dropped,
            match r {
                Some(f) => {
                    &&& old(self).queue.frames@.len() > 0
                    &&& f == old(self).queue.frames@[0]
                    &&& final(self).queue.frames@ == old(self).queue.frames@.skip(1)
                },
                None => {
                    &&& old(self).queue.frames@.len() == 0
                    &&& final(self).queue.frames@ == old(self).queue.frames@
                },
            },
    {
        self.queue.pop_frame()
    }

    /// Drops what was captured, so that it is not sent after a reconnection.
    pub fn stop(&mut self)
        ensures
            final(self).wf(),
            final(self).buffer.samples@ == Seq::<u32>::empty(),
            final(self).queue.frames@ == Seq::<Vec<u32>>::empty(),
            final(self).queue.dropped == old(self).queue.dropped,
    {
        self.queue.clear();
        self.buffer = SampleQueue::new();
    }
}

/// What the output side keeps: samples at the rate of the device, read up to `head`, and frames
/// that wait to be brought to that rate.
pub struct OutputState {
    pub buffer: Vec<u32>,
    pub head: usize,
    pub queue: FrameQueue<Vec<u32>>,
    pub last_out: u32,
    pub ramp_pending: bool,
    pub ramp_left: usize,
    /// Frames in a fade; 0 before the device is known.
    pub ramp_len: usize,
    pub target_samples: usize,
}

/// The smaller of two numbers.
pub open spec fn lesser(a: int, b: int) -> int {
    if a < b {
        a
    } else {
        b
    }
}

impl OutputState {
    /// The samples not read yet are part of the buffer, and no more frames wait than may.
    pub open spec fn wf(self) -> bool {
        &&& self.head <= self.buffer@.len()
        &&& self.queue.wf()
    }

    /// The samples not read yet.
    pub open spec fn unread(self) -> Seq<u32> {
        self.buffer@.skip(self.head as int)
    }

    /// Nothing played yet.
    pub fn new() -> (s: Self)
        ensures
            s.wf(),
            s.buffer@ == Seq::<u32>::empty(),
            s.head == 0,
            s.unread() == Seq::<u32>::empty(),
            s.queue.frames@ == Seq::<Vec<u32>>::empty(),
            s.queue.dropped == 0,
            s.last_out == 0,
            !s.ramp_pending,
            s.ramp_left == 0,
            s.ramp_len == 0,
            s.target_samples == 0,
    {
        let s = OutputState {
            buffer: Vec::new(),
            head: 0,
            queue: FrameQueue::new(),
            last_out: 0,
            ramp_pending: false,
            ramp_left: 0,
            ramp_len: 0,
            target_samples: 0,
        };
        assert(s.unread() =~= Seq::<u32>::empty());
        s
    }

    /// Sets the length of fades and the depth of the buffer, the first time the device asks for
    /// output.
    pub fn configure(&mut self, ramp_len: usize, target_samples: usize)
        requires
            old(self).wf(),
        ensures
            final(self).wf(),
            *final(self) == if old(self).ramp_len == 0 {
                OutputState {
                    ramp_len: output::fade_len(ramp_len),
                    target_samples,
                    ..*old(self)
                }
            } else {
                *old(self)
            },
    {
        if self.ramp_len == 0 {
            self.ramp_len = if ramp_len < 1 {
                1
            } else {
                ramp_len
            };
            self.target_samples = target_samples;
        }
    }

    /// Puts a frame into the queue. Returns the number of frames dropped so far where a warning is
    /// due.
    pub fn write_frame(&mut self, frame: Vec<u32>) -> (warn: Option<u64>)
        requires
            old(self).wf(),
            old(self).queue.dropped < u64::MAX,
        ensures
            final(self).wf(),
            *final(self) == (OutputState { queue: final(self).queue, ..*old(self) }),
            final(self).queue.frames@ == with_frame(old(self).queue.frames@, frame),
            final(self).queue.dropped == if old(self).queue.frames@.len() >= FRAME_QUEUE_CAP {
                old(self).queue.dropped + 1
            } else {
                old(self).queue.dropped as int
            },
            warn == if old(self).queue.frames@.len() >= FRAME_QUEUE_CAP
                && final(self).queue.dropped % WARN_EVERY == 1 {
                Some(final(self).queue.dropped)
            } else {
                None
            },
    {
        self.queue.push_frame(frame)
    }

    /// The next frame to bring to the rate of the device, while the buffer is below its depth.
    pub fn refill(&mut self) -> (r: Option<Vec<u32>>)
        requires
            old(self).wf(),
        ensures
            final(self).wf(),
            *final(self) == (OutputState { queue: final(self).queue, ..*old(self) }),
            final(self).queue.dropped == old(self).queue.dropped,
            ({
                let due = old(self).unread().len() < old(self).target_samples
                    && old(self).queue.frames@.len() > 0;
                match r {
                    Some(f) => due && f == old(self).queue.frames@[0]
                        && final(self).queue.frames@ == old(self).queue.frames@.skip(1),
                    None => !due && final(self).queue.frames@ == old(self).queue.frames@,
                }
            }),
    {
        if self.buffer.len() - self.head < self.target_samples {
            self.queue.pop_frame()
        } else {
            None
        }
    }

    /// Takes samples at the rate of the device.
    pub fn append(&mut self, resampled: &[u32])
        requires
            old(self).wf(),
        ensures
            final(self).wf(),
            *final(self) == (OutputState { buffer: final(self).buffer, ..*old(self) }),
            final(self).unread() == old(self).unread() + resampled@,
    {
        let ghost before = *self;
        self.buffer.extend_from_slice(resampled);
        proof {
            assert(self.buffer@ =~= before.buffer@ + resampled@);
            assert(self.unread() =~= before.unread() + resampled@);
        }
    }

    /// How many frames of a buffer of `n` slots there are samples for.
    pub open spec fn covered(self, n: int, channels: int) -> int {
        lesser(self.unread().len() as int, n / channels)
    }

    /// The sample that a fade starts from, after the samples that there are.
    pub open spec fn fade_from(self, avail: int) -> u32 {
        if avail > 0 {
            self.unread()[avail - 1]
        } else {
            self.last_out
        }
    }

    /// What the fade has left where the samples end, after `avail` of them.
    pub open spec fn fade_left(self, avail: int) -> int {
        if avail == 0 && self.ramp_left > 0 {
            self.ramp_left as int
        } else if (avail > 0 || self.ramp_pending) && output::is_audible(self.fade_from(avail)) {
            self.ramp_len - 1
        } else {
            0
        }
    }

    /// Slot `k` of a buffer of `n` slots: the samples that there are, on every channel, and
    /// behind them the fade, frame by frame and the same on every channel, and silence.
    pub open spec fn slot(self, n: int, channels: int, k: int) -> OutFrame {
        let avail = self.covered(n, channels);
        let behind = k / channels - avail;
        if behind < 0 {
            OutFrame::Sample(self.unread()[k / channels])
        } else if behind < self.fade_left(avail) {
            OutFrame::Fade {
                last: self.fade_from(avail),
                left: (self.fade_left(avail) - 1 - behind) as usize,
                len: self.ramp_len,
            }
        } else {
            OutFrame::Silence
        }
    }

    /// The frames of a buffer of `n` slots that there are no samples for; the last one may be cut
    /// off.
    pub open spec fn uncovered(self, n: int, channels: int) -> int {
        (n + channels - 1) / channels - self.covered(n, channels)
    }

    /// Whether `post` is the state after a buffer of `n` slots was filled.
    pub open spec fn filled(self, n: int, channels: int, post: OutputState) -> bool {
        let avail = self.covered(n, channels);
        let tail = self.uncovered(n, channels);
        &&& post.unread() == self.unread().skip(avail)
        &&& post.queue == self.queue
        &&& post.ramp_len == self.ramp_len
        &&& post.target_samples == self.target_samples
        &&& post.last_out == self.fade_from(avail)
        &&& if tail > 0 {
            &&& post.ramp_left == self.fade_left(avail) - lesser(self.fade_left(avail), tail)
            &&& post.ramp_pending == (self.ramp_pending && avail == 0 && self.ramp_left > 0)
        } else {
            &&& post.ramp_left == if avail > 0 {
                0
            } else {
                self.ramp_left
            }
            &&& post.ramp_pending == (self.ramp_pending || avail > 0)
        }
        &&& post.head < COMPACT_THRESHOLD
    }

    /// Fills a buffer of the device with the samples that there are; where they end, the last one
    /// is faded out.
    pub fn fill_output(&mut self, data: &mut Vec<OutFrame>, channels: usize)
        requires
            old(self).wf(),
            old(self).ramp_len > 0,
            channels > 0,
        ensures
            final(self).wf(),
            old(self).filled(old(data)@.len() as int, channels as int, *final(self)),
            final(data)@ == Seq::new(
                old(data)@.len(),
                |k: int| old(self).slot(old(data)@.len() as int, channels as int, k),
            ),
    {
        let ghost pre = *self;
        let n: usize = data.len();
        let frames: usize = n / channels;
        let total: usize = self.buffer.len();
        let unread: usize = total - self.head;
        let avail: usize = if unread < frames {
            unread
        } else {
            frames
        };
        let ghost ch = channels as int;
        assert(pre.covered(n as int, ch) == avail);
        assert(avail * channels <= n) by (nonlinear_arith)
            requires
                avail <= frames,
                frames == n as int / channels as int,
                channels > 0,
        ;
        let mut i: usize = 0;
        while i < avail
            invariant
                i <= avail,
                avail <= pre.unread().len(),
                avail * channels <= n == data@.len(),
                n <= usize::MAX,
                channels > 0,
                ch == channels,
                self.head == pre.head,
                self.buffer == pre.buffer,
                self.queue == pre.queue,
                self.ramp_len == pre.ramp_len,
                self.ramp_left == pre.ramp_left,
                self.ramp_pending == pre.ramp_pending,
                self.target_samples == pre.target_samples,
                pre.head + avail <= pre.buffer@.len() == total,
                self.last_out == pre.fade_from(i as int),
                forall|k: int|
                    0 <= k < i * channels ==> #[trigger] data@[k] == OutFrame::Sample(
                        pre.unread()[k / ch],
                    ),
            decreases avail - i,
        {
            let v: u32 = self.buffer[self.head + i];
            assert(v == pre.unread()[i as int]);
            assert(i * channels + channels <= n) by (nonlinear_arith)
                requires
                    i < avail,
                    avail * channels <= n,
            ;
            let base: usize = i * channels;
            let mut c: usize = 0;
            while c < channels
                invariant
                    c <= channels,
                    base == i * channels,
                    base + channels <= n == data@.len(),
                    n <= usize::MAX,
                    channels > 0,
                    ch == channels,
                    v == pre.unread()[i as int],
                    forall|k: int|
                        0 <= k < base + c ==> #[trigger] data@[k] == OutFrame::Sample(
                            pre.unread()[k / ch],
                        ),
                decreases channels - c,
            {
                data.set(base + c, OutFrame::Sample(v));
                assert((base + c) / ch == i) by (nonlinear_arith)
                    requires
                        base == i * channels,
                        0 <= c < channels,
                        ch == channels,
                        channels > 0,
                ;
                c = c + 1;
            }
            self.last_out = v;
            assert((i + 1) * channels == base + channels) by (nonlinear_arith)
                requires
                    base == i * channels,
            ;
            i = i + 1;
        }
        if avail > 0 {
            self.head = self.head + avail;
            self.ramp_pending = true;
            self.ramp_left = 0;
        }
        if self.head >= COMPACT_THRESHOLD {
            let rest = self.buffer.split_off(self.head);
            self.buffer = rest;
            self.head = 0;
        }
        assert(self.unread() =~= pre.unread().skip(avail as int));
        let from: usize = avail * channels;
        let ghost left = pre.fade_left(avail as int);
        let mut k: usize = from;
        if from < n {
            if self.ramp_left > 0 {
            } else if self.ramp_pending {
                self.ramp_pending = false;
                let magnitude: u32 = self.last_out % 0x8000_0000;
                if SILENCE_BITS < magnitude && magnitude <= INFINITY_BITS {
                    self.ramp_left = self.ramp_len - 1;
                }
            }
            assert(self.ramp_left == left);
        }
        let ghost here = *self;
        let ghost mut f: int = 0;
        assert(from + 0 * ch == from);
        while k < n
            invariant
                from <= k <= n == data@.len(),
                n <= usize::MAX,
                from == avail * channels,
                ch == channels,
                channels > 0,
                0 <= f,
                k < n ==> k == from + f * ch,
                from + f * ch < n + ch,
                n <= from + f * ch || k < n,
                here == (OutputState { ramp_left: here.ramp_left, ..*self }),
                from < n ==> self.ramp_left == left - lesser(left, f),
                from < n ==> here.ramp_left == left,
                from == n ==> self.ramp_left == here.ramp_left && f == 0,
                left >= 0,
                left == pre.fade_left(avail as int),
                self.last_out == pre.fade_from(avail as int),
                self.ramp_len == pre.ramp_len,
                avail == pre.covered(n as int, ch),
                forall|j: int|
                    0 <= j < from ==> #[trigger] data@[j] == OutFrame::Sample(pre.unread()[j / ch]),
                forall|j: int| from <= j < k ==> #[trigger] data@[j] == pre.slot(n as int, ch, j),
            decreases n - k,
        {
            let frame = if self.ramp_left > 0 {
                self.ramp_left = self.ramp_left - 1;
                OutFrame::Fade { last: self.last_out, left: self.ramp_left, len: self.ramp_len }
            } else {
                OutFrame::Silence
            };
            let end: usize = if n - k < channels {
                n
            } else {
                k + channels
            };
            let ghost start = k as int;
            while k < end
                invariant
                    from <= start <= k <= end <= n == data@.len(),
                    end <= start + ch,
                    from == avail * channels,
                    ch == channels,
                    channels > 0,
                    0 <= f,
                    start == from + f * ch,
                    avail == pre.covered(n as int, ch),
                    left == pre.fade_left(avail as int),
                    frame == if f < left {
                        OutFrame::Fade {
                            last: pre.fade_from(avail as int),
                            left: (left - 1 - f) as usize,
                            len: pre.ramp_len,
                        }
                    } else {
                        OutFrame::Silence
                    },
                    forall|j: int|
                        0 <= j < from ==> #[trigger] data@[j] == OutFrame::Sample(
                            pre.unread()[j / ch],
                        ),
                    forall|j: int|
                        from <= j < k ==> #[trigger] data@[j] == pre.slot(n as int, ch, j),
                decreases end - k,
            {
                data.set(k, frame);
                assert(k as int / ch == avail + f) by (nonlinear_arith)
                    requires
                        from == avail * channels,
                        start == from + f * ch,
                        start <= k < start + ch,
                        ch == channels,
                        ch > 0,
                ;
                assert(data@[k as int] == pre.slot(n as int, ch, k as int));
                k = k + 1;
            }
            proof {
                assert((f + 1) * ch == f * ch + ch) by (nonlinear_arith);
                f = f + 1;
            }
        }
        proof {
            assert((n + ch - 1) / ch == avail + f) by (nonlinear_arith)
                requires
                    from == avail * channels,
                    ch == channels,
                    ch > 0,
                    n <= from + f * ch < n + ch,
            ;
            assert forall|j: int| 0 <= j < n implies data@[j] == pre.slot(n as int, ch, j) by {
                if j < from {
                    assert(j / ch < avail) by (nonlinear_arith)
                        requires
                            0 <= j < from,
                            from == avail * channels,
                            ch == channels,
                            ch > 0,
                    ;
                }
            }
            assert(data@ =~= Seq::new(n as nat, |k: int| pre.slot(n as int, ch, k)));
        }
    }

    /// Drops what is still to be played, before the next speech begins.
    pub fn clear_playback(&mut self)
        requires
            old(self).wf(),
        ensures
            final(self).wf(),
            final(self).unread() == Seq::<u32>::empty(),
            final(self).queue.frames@ == Seq::<Vec<u32>>::empty(),
            final(self).queue.dropped == old(self).queue.dropped,
            !final(self).ramp_pending,
            final(self).ramp_left == 0,
            final(self).last_out == 0,
            final(self).ramp_len == old(self).ramp_len,
            final(self).target_samples == old(self).target_samples,
    {
        self.queue.clear();
        self.buffer = Vec::new();
        self.head = 0;
        self.ramp_pending = false;
        self.ramp_left = 0;
        self.last_out = 0;
        assert(self.unread() =~= Seq::<u32>::empty());
    }

    /// Drops what is still to be played, so that it is not played after a reconnection.
    pub fn stop(&mut self)
        requires
            old(self).wf(),
        ensures
            final(self).wf(),
            final(self).unread() == Seq::<u32>::empty(),
            final(self).queue.frames@ == Seq::<Vec<u32>>::empty(),
            final(self).queue.dropped == old(self).queue.dropped,
            *final(self) == (OutputState {
                buffer: final(self).buffer,
                head: 0,
                queue: final(self).queue,
                ..*old(self)
            }),
    {
        self.queue.clear();
        self.buffer = Vec::new();
        self.head = 0;
        assert(self.unread() =~= Seq::<u32>::empty());
    }
}

/// Nothing is lost and nothing comes twice: what a buffer took is the beginning of what was
/// unread, and what is unread afterwards is the rest.
pub proof fn law_output_is_in_order(pre: OutputState, n: int, channels: int, post: OutputState)
    requires
        pre.wf(),
        n >= 0,
        channels > 0,
        pre.filled(n, channels, post),
    ensures
        pre.unread().take(pre.covered(n, channels)) + post.unread() == pre.unread(),
        forall|i: int, c: int|
            0 <= i < pre.covered(n, channels) && 0 <= c < channels ==> #[trigger] pre.slot(
                n,
                channels,
                i * channels + c,
            ) == OutFrame::Sample(pre.unread()[i]),
{
    let avail = pre.covered(n, channels);
    assert(0 <= n / channels) by (nonlinear_arith)
        requires
            n >= 0,
            channels > 0,
    ;
    assert(pre.unread().take(avail) + post.unread() =~= pre.unread());
    assert forall|i: int, c: int| 0 <= i < avail && 0 <= c < channels implies #[trigger] pre.slot(
        n,
        channels,
        i * channels + c,
    ) == OutFrame::Sample(pre.unread()[i]) by {
        assert((i * channels + c) / channels == i) by (nonlinear_arith)
            requires
                0 <= c < channels,
        ;
    }
}

/// A fade lasts as many frames on several channels as on one, and every channel fades alike: slot
/// `c` of a frame holds what the frame would on one channel.
pub proof fn law_channels_fade_alike(pre: OutputState, frames: int, channels: int, i: int, c: int)
    requires
        0 <= i < frames,
        0 <= c < channels,
    ensures
        pre.slot(frames * channels, channels, i * channels + c) == pre.slot(frames, 1, i),
{
    assert((i * channels + c) / channels == i) by (nonlinear_arith)
        requires
            0 <= c < channels,
    ;
    assert((frames * channels) / channels == frames) by (nonlinear_arith)
        requires
            0 < channels,
    ;
}

/// A frame goes behind those that wait. Where 25 wait the oldest one makes room for it and is
/// counted; of the dropped ones the first of every fifty is warned of.
pub proof fn law_full_queues_drop_the_oldest<T>(q: &mut FrameQueue<T>, frame: T, warn: Option<u64>)
    requires
        call_ensures(FrameQueue::<T>::push_frame, (q, frame), warn),
        old(q).frames@.len() <= 25,
    ensures
        final(q).frames@.last() == frame,
        final(q).frames@.len() == if old(q).frames@.len() < 25 {
            old(q).frames@.len() + 1
        } else {
            25
        },
        old(q).frames@.len() < 25 ==> final(q).frames@.drop_last() == old(q).frames@
            && final(q).dropped == old(q).dropped && warn is None,
        old(q).frames@.len() == 25 ==> final(q).frames@.drop_last() == old(q).frames@.drop_first()
            && final(q).dropped == old(q).dropped + 1 && (warn is Some <==> old(q).dropped % 50
            == 0) && (warn matches Some(k) ==> k == old(q).dropped + 1),
{
    assert(final(q).frames@.drop_last() =~= if old(q).frames@.len() < 25 {
        old(q).frames@
    } else {
        old(q).frames@.drop_first()
    });
}

/// What goes into an empty queue comes out of it, and what waits longest comes out first.
pub proof fn law_queue_is_first_in_first_out<T>(
    a: &mut FrameQueue<T>,
    frame: T,
    warn: Option<u64>,
    b: &mut FrameQueue<T>,
    r: Option<T>,
)
    requires
        call_ensures(FrameQueue::<T>::push_frame, (a, frame), warn),
        old(a).frames@.len() < 25,
        *old(b) == *final(a),
        call_ensures(FrameQueue::<T>::pop_frame, (b,), r),
    ensures
        r matches Some(f) && seq![f] + final(b).frames@ == old(a).frames@.push(frame),
        final(b).dropped == old(a).dropped,
{
    if let Some(f) = r {
        assert(seq![f] + final(b).frames@ =~= old(a).frames@.push(frame));
    }
}

/// Nothing that is captured is lost while there is room: the new frames, put together, and the rest
/// that waits are what waited and what came, and every frame has 320 samples.
pub proof fn law_captured_samples_are_kept(
    s: &mut InputState,
    resampled: &[u32],
    warned: Vec<u64>,
    i: int,
)
    requires
        call_ensures(InputState::process_input_chunk, (s, resampled), warned),
        old(s).queue.frames@.len() + (old(s).buffer.samples@.len() + resampled@.len()) / 320 <= 25,
        0 <= i < final(s).queue.frames@.len(),
    ensures
        ({
            let all = old(s).buffer.samples@ + resampled@;
            let was = old(s).queue.frames@.len() as int;
            let now = contents(final(s).queue.frames@);
            &&& capture::joined(now.skip(was)) + final(s).buffer.samples@ == all
            &&& now.len() == was + all.len() / 320
            &&& i < was ==> final(s).queue.frames@[i]@ == old(s).queue.frames@[i]@
            &&& i >= was ==> final(s).queue.frames@[i]@.len() == 320
            &&& final(s).buffer.samples@.len() < 320
            &&& final(s).queue.dropped == old(s).queue.dropped
            &&& warned@.len() == 0
        }),
{
    let all = old(s).buffer.samples@ + resampled@;
    let was = old(s).queue.frames@.len() as int;
    let before = contents(old(s).queue.frames@);
    let now = contents(final(s).queue.frames@);
    let new = capture::frames_of(all, 320);
    capture::law_framing_is_lossless(all, 320);
    law_queue_keeps_the_newest(before, new);
    assert(now == before + new);
    assert(now.skip(was) =~= new);
    assert(now[i] == final(s).queue.frames@[i]@);
    if i < was {
        assert(before[i] == old(s).queue.frames@[i]@);
    } else {
        assert(new[i - was].len() == 320);
    }
    assert(capture::joined(new) + final(s).buffer.samples@ =~= all);
}

/// Where there is no room for all frames, the newest 25 are kept, and every other one is counted.
pub proof fn law_newest_frames_are_kept(s: &mut InputState, resampled: &[u32], warned: Vec<u64>)
    requires
        call_ensures(InputState::process_input_chunk, (s, resampled), warned),
        old(s).queue.frames@.len() <= 25,
        old(s).queue.frames@.len() + (old(s).buffer.samples@.len() + resampled@.len()) / 320 >= 25,
    ensures
        ({
            let all = old(s).buffer.samples@ + resampled@;
            let frames = contents(old(s).queue.frames@) + capture::frames_of(all, 320);
            &&& final(s).queue.frames@.len() == 25
            &&& contents(final(s).queue.frames@) == frames.skip(frames.len() - 25)
            &&& final(s).queue.dropped - old(s).queue.dropped == old(s).queue.frames@.len()
                + all.len() / 320 - 25
        }),
{
    let all = old(s).buffer.samples@ + resampled@;
    let before = contents(old(s).queue.frames@);
    let new = capture::frames_of(all, 320);
    capture::law_framing_is_lossless(all, 320);
    law_queue_keeps_the_newest(before, new);
    let frames = before + new;
    assert(frames.skip(0) =~= frames);
    assert(contents(final(s).queue.frames@).len() == final(s).queue.frames@.len());
}

/// Of the dropped frames the 1st, the 51st, the 101st and so on are warned of, each once and in
/// order.
pub proof fn law_warnings_are_regular(from: int, to: int, n: u64)
    requires
        0 <= from <= to <= u64::MAX,
    ensures
        warnings(from, to).contains(n) <==> from < n <= to && n % 50 == 1,
        forall|i: int, j: int|
            0 <= i < j < warnings(from, to).len() ==> #[trigger] warnings(from, to)[i]
                < #[trigger] warnings(from, to)[j],
    decreases to - from,
{
    if from < to {
        law_warnings_are_regular(from, to - 1, n);
        let w = warnings(from, to - 1);
        if to % 50 == 1 {
            let all = w.push(to as u64);
            assert(warnings(from, to) == all);
            if w.contains(n) {
                let i = choose|i: int| 0 <= i < w.len() && w[i] == n;
                assert(all[i] == n);
            }
            assert(all[w.len() as int] == to as u64);
            assert forall|i: int, j: int| 0 <= i < j < all.len() implies #[trigger] all[i]
                < #[trigger] all[j] by {
                law_warnings_are_regular(from, to - 1, w[i]);
                assert(w.contains(w[i]));
            }
        }
    } else {
        assert(warnings(from, to) =~= Seq::<u64>::empty());
    }
}

/// The formats to capture and to play in: 16-bit integers and floats, and for playing unsigned
/// ones too.
pub proof fn law_classic_formats(
    kind: SampleKind,
    name: &str,
    i: Result<InputFormat, String>,
    o: Result<OutputFormat, String>,
)
    requires
        call_ensures(capture_format, (&kind, name), i),
        call_ensures(playback_format, (&kind, name), o),
    ensures
        kind is I16 ==> i == Ok::<InputFormat, String>(InputFormat::I16) && o == Ok::<
            OutputFormat,
            String,
        >(OutputFormat::I16),
        kind is F32 ==> i == Ok::<InputFormat, String>(InputFormat::F32) && o == Ok::<
            OutputFormat,
            String,
        >(OutputFormat::F32),
        kind is U16 ==> i is Err && o == Ok::<OutputFormat, String>(OutputFormat::U16),
        kind is Other ==> i is Err && o is Err,
        i matches Err(e) ==> e@ == "不支持的采样格式: "@ + name@,
        o matches Err(e) ==> e@ == "不支持的采样格式: "@ + name@,
{
}

/// The device sets the length of fades, one frame at least, and the depth of the buffer the first
/// time only; nothing else changes.
pub proof fn law_configured_once(
    a: &mut OutputState,
    len: usize,
    depth: usize,
    b: &mut OutputState,
    other_len: usize,
    other_depth: usize,
)
    requires
        call_ensures(OutputState::configure, (a, len, depth), ()),
        *old(b) == *final(a),
        call_ensures(OutputState::configure, (b, other_len, other_depth), ()),
    ensures
        *final(b) == *final(a),
        old(a).ramp_len > 0 ==> *final(a) == *old(a),
        old(a).ramp_len == 0 ==> final(a).target_samples == depth && final(a).ramp_len == if len == 0 {
            1
        } else {
            len
        },
        final(a).buffer == old(a).buffer,
        final(a).head == old(a).head,
        final(a).queue == old(a).queue,
        final(a).last_out == old(a).last_out,
        final(a).ramp_pending == old(a).ramp_pending,
        final(a).ramp_left == old(a).ramp_left,
{
}

/// The oldest frame is handed out while fewer samples are unread than the depth asks for, and none
/// otherwise; what was brought to the rate of the device is played behind what is unread.
pub proof fn law_buffer_is_refilled(
    a: &mut OutputState,
    r: Option<Vec<u32>>,
    b: &mut OutputState,
    resampled: &[u32],
)
    requires
        old(a).head <= old(a).buffer@.len(),
        call_ensures(OutputState::refill, (a,), r),
        *old(b) == *final(a),
        call_ensures(OutputState::append, (b, resampled), ()),
    ensures
        r is Some <==> old(a).buffer@.len() - old(a).head < old(a).target_samples
            && old(a).queue.frames@.len() > 0,
        r matches Some(f) ==> seq![f] + final(a).queue.frames@ == old(a).queue.frames@,
        r is None ==> final(a).queue.frames@ == old(a).queue.frames@,
        final(b).buffer@.skip(final(b).head as int) == old(a).buffer@.skip(old(a).head as int)
            + resampled@,
        final(b).queue == final(a).queue,
        final(b).last_out == old(a).last_out,
        final(b).ramp_left == old(a).ramp_left,
        final(b).ramp_pending == old(a).ramp_pending,
{
    if let Some(f) = r {
        assert(seq![f] + final(a).queue.frames@ =~= old(a).queue.frames@);
    }
}

/// A buffer of the device gets the samples that wait, in order and on every channel; what it got is
/// gone, and the rest still waits.
pub proof fn law_samples_reach_the_device(
    s: &mut OutputState,
    data: &mut Vec<OutFrame>,
    channels: usize,
    i: int,
    c: int,
)
    requires
        call_ensures(OutputState::fill_output, (s, data, channels), ()),
        old(s).head <= old(s).buffer@.len(),
        0 <= c < channels,
        0 <= i < old(data)@.len() as int / channels as int,
    ensures
        final(data)@.len() == old(data)@.len(),
        ({
            let unread = old(s).buffer@.len() - old(s).head;
            let frames = old(data)@.len() as int / channels as int;
            let avail = if unread < frames {
                unread
            } else {
                frames
            };
            &&& i < unread ==> final(data)@[i * channels + c] == OutFrame::Sample(
                old(s).buffer@[old(s).head + i],
            )
            &&& i >= unread ==> !(final(data)@[i * channels + c] is Sample)
            &&& final(s).buffer@.skip(final(s).head as int) == old(s).buffer@.skip(
                old(s).head + avail,
            )
            &&& final(s).last_out == if avail > 0 {
                old(s).buffer@[old(s).head + avail - 1]
            } else {
                old(s).last_out
            }
        }),
        final(s).head < 8192,
        final(s).queue == old(s).queue,
        final(s).ramp_len == old(s).ramp_len,
        final(s).target_samples == old(s).target_samples,
{
    let ch = channels as int;
    let n = old(data)@.len() as int;
    let frames = n / ch;
    let k = i * ch + c;
    assert(k / ch == i && 0 <= k < n) by (nonlinear_arith)
        requires
            k == i * ch + c,
            0 <= c < ch,
            0 <= i < n / ch,
    ;
    assert(final(data)@[k] == old(s).slot(n, ch, k));
    let unread = old(s).buffer@.len() - old(s).head;
    let avail = lesser(unread, frames);
    assert(old(s).buffer@.skip(old(s).head as int).skip(avail) =~= old(s).buffer@.skip(
        old(s).head + avail,
    ));
}

/// Where the samples end, the last one fades if it is audible, one part less per frame, for one
/// frame less than a fade is long; a fade that was cut off goes on; and then there is silence.
pub proof fn law_ends_fade_out(
    s: &mut OutputState,
    data: &mut Vec<OutFrame>,
    channels: usize,
    i: int,
    c: int,
)
    requires
        call_ensures(OutputState::fill_output, (s, data, channels), ()),
        old(s).head <= old(s).buffer@.len(),
        0 <= c < channels,
        old(s).buffer@.len() - old(s).head <= i < old(data)@.len() as int / channels as int,
    ensures
        ({
            let unread = old(s).buffer@.len() - old(s).head;
            let last = if unread > 0 {
                old(s).buffer@.last()
            } else {
                old(s).last_out
            };
            let bits = last as int % 0x8000_0000;
            let left: int = if unread == 0 && old(s).ramp_left > 0 {
                old(s).ramp_left as int
            } else if (unread > 0 || old(s).ramp_pending) && 0x38D1_B717 < bits && bits
                <= 0x7F80_0000 {
                old(s).ramp_len - 1
            } else {
                0
            };
            final(data)@[i * channels + c] == if i - unread < left {
                OutFrame::Fade {
                    last,
                    left: (left - 1 - (i - unread)) as usize,
                    len: old(s).ramp_len,
                }
            } else {
                OutFrame::Silence
            }
        }),
{
    let ch = channels as int;
    let n = old(data)@.len() as int;
    let k = i * ch + c;
    assert(k / ch == i && 0 <= k < n) by (nonlinear_arith)
        requires
            k == i * ch + c,
            0 <= c < ch,
            0 <= i < n / ch,
    ;
    assert(final(data)@[k] == old(s).slot(n, ch, k));
}

/// A fade goes on over the end of a buffer, one part less from frame to frame, while nothing new is
/// there to be played.
pub proof fn law_fades_span_buffers(
    a: &mut OutputState,
    first: &mut Vec<OutFrame>,
    b: &mut OutputState,
    second: &mut Vec<OutFrame>,
    channels: usize,
)
    requires
        old(a).wf(),
        !(old(a).ramp_pending && old(a).ramp_left > 0),
        channels > 0,
        call_ensures(OutputState::fill_output, (a, first, channels), ()),
        *old(b) == *final(a),
        final(a).buffer@.len() == final(a).head,
        call_ensures(OutputState::fill_output, (b, second, channels), ()),
        old(first)@.len() as int % channels as int == 0,
        old(first)@.len() > 0,
        old(second)@.len() >= channels,
        final(first)@.last() is Fade,
    ensures
        final(first)@.last() matches OutFrame::Fade { last, left, len } && if left > 0 {
            final(second)@[0] == (OutFrame::Fade { last, left: (left - 1) as usize, len })
        } else {
            final(second)@[0] == OutFrame::Silence
        },
{
    let ch = channels as int;
    let n = old(first)@.len() as int;
    let m = old(second)@.len() as int;
    let frames = n / ch;
    assert(n - 1 >= 0 && (n - 1) / ch == frames - 1 && (n + ch - 1) / ch == frames && frames >= 1)
        by (nonlinear_arith)
        requires
            n > 0,
            ch > 0,
            n % ch == 0,
            frames == n / ch,
    ;
    assert(m / ch >= 1) by (nonlinear_arith)
        requires
            m >= ch,
            ch > 0,
    ;
    assert(0int / ch == 0) by (nonlinear_arith)
        requires
            ch > 0,
    ;
    assert((m + ch - 1) / ch >= 1) by (nonlinear_arith)
        requires
            m >= ch,
            ch > 0,
    ;
    assert(final(first)@[n - 1] == old(a).slot(n, ch, n - 1));
    assert(final(second)@[0] == old(b).slot(m, ch, 0));
    assert(old(b).unread().len() == 0);
}

/// Before the next speech nothing is left to be played, and no fade either; the depth and the count
/// of dropped frames stay.
pub proof fn law_playback_is_cleared(
    a: &mut OutputState,
    b: &mut OutputState,
    data: &mut Vec<OutFrame>,
    channels: usize,
    k: int,
)
    requires
        call_ensures(OutputState::clear_playback, (a,), ()),
        *old(b) == *final(a),
        call_ensures(OutputState::fill_output, (b, data, channels), ()),
        channels > 0,
        0 <= k < old(data)@.len(),
    ensures
        final(data)@[k] == OutFrame::Silence,
        final(a).queue.frames@.len() == 0,
        final(a).queue.dropped == old(a).queue.dropped,
        final(a).target_samples == old(a).target_samples,
        final(a).ramp_len == old(a).ramp_len,
{
    let ch = channels as int;
    let n = old(data)@.len() as int;
    assert(0 <= k / ch && 0 <= n / ch) by (nonlinear_arith)
        requires
            0 <= k < n,
            ch > 0,
    ;
    assert(final(data)@[k] == old(b).slot(n, ch, k));
}

/// A fade waits for the samples to end: a buffer that they cover ends none and begins none, and
/// whatever was faded before is forgotten. Where they end the fade has begun.
pub proof fn law_fades_wait_for_the_end(s: &mut OutputState, data: &mut Vec<OutFrame>, channels: usize)
    requires
        call_ensures(OutputState::fill_output, (s, data, channels), ()),
        old(s).head <= old(s).buffer@.len(),
        channels > 0,
        old(data)@.len() as int % channels as int == 0,
        old(data)@.len() > 0,
    ensures
        ({
            let unread = old(s).buffer@.len() - old(s).head;
            let frames = old(data)@.len() as int / channels as int;
            &&& unread >= frames ==> final(s).ramp_pending && final(s).ramp_left == 0
            &&& 0 < unread < frames ==> !final(s).ramp_pending
            &&& unread == 0 && old(s).ramp_left == 0 ==> !final(s).ramp_pending
        }),
{
    let ch = channels as int;
    let n = old(data)@.len() as int;
    let frames = n / ch;
    assert((n + ch - 1) / ch == frames && frames >= 1) by (nonlinear_arith)
        requires
            n > 0,
            ch > 0,
            n % ch == 0,
            frames == n / ch,
    ;
}

/// A frame that is written waits behind the others, and is handed out in its turn while the buffer
/// is below its depth; where 25 wait the oldest one makes room.
pub proof fn law_written_frames_wait(
    a: &mut OutputState,
    frame: Vec<u32>,
    warn: Option<u64>,
    b: &mut OutputState,
    r: Option<Vec<u32>>,
)
    requires
        old(a).head <= old(a).buffer@.len(),
        old(a).queue.frames@.len() <= 25,
        call_ensures(OutputState::write_frame, (a, frame), warn),
        *old(b) == *final(a),
        old(a).buffer@.len() - old(a).head < old(a).target_samples,
        call_ensures(OutputState::refill, (b,), r),
    ensures
        old(a).queue.frames@.len() == 0 ==> r == Some(frame),
        0 < old(a).queue.frames@.len() < 25 ==> r == Some(old(a).queue.frames@[0]),
        old(a).queue.frames@.len() == 25 ==> r == Some(old(a).queue.frames@[1]),
        old(a).queue.frames@.len() < 25 ==> final(b).queue.dropped == old(a).queue.dropped && warn is
            None,
        old(a).queue.frames@.len() == 25 ==> final(b).queue.dropped == old(a).queue.dropped + 1 && (
        warn is Some <==> old(a).queue.dropped % 50 == 0),
        final(b).buffer == old(a).buffer,
        final(b).last_out == old(a).last_out,
{
}

/// After a stop nothing that was captured or was still to be played is left on either side, and a
/// frame that comes then is the first one.
pub proof fn law_stops_leave_nothing(
    i: &mut InputState,
    j: &mut InputState,
    frame: Option<Vec<u32>>,
    o: &mut OutputState,
    p: &mut OutputState,
    next: Option<Vec<u32>>,
)
    requires
        call_ensures(InputState::stop, (i,), ()),
        *old(j) == *final(i),
        call_ensures(InputState::read_frame, (j,), frame),
        call_ensures(OutputState::stop, (o,), ()),
        *old(p) == *final(o),
        call_ensures(OutputState::refill, (p,), next),
    ensures
        frame is None,
        final(j).buffer.samples@.len() == 0,
        final(j).queue.dropped == old(i).queue.dropped,
        next is None,
        final(o).buffer@.len() == final(o).head,
        final(p).queue.dropped == old(o).queue.dropped,
        final(p).last_out == old(o).last_out,
        final(p).ramp_len == old(o).ramp_len,
        final(p).target_samples == old(o).target_samples,
{
    assert(final(o).buffer@.skip(0).len() == final(o).buffer@.len());
}

} // verus!
