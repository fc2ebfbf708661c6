//! How deep the playback buffer is to be: 40 ms and four times the jitter, rounded up to whole
//! frames, between 40 and 240 ms.
//! It grows at once and shrinks, frame by frame, only after half a minute without growth.

use vstd::prelude::*;

use crate::clock;

verus! {

/// The depth to begin with.
pub const INITIAL_TARGET_MS: u64 = 60;

/// The least depth.
pub const TARGET_MIN_MS: u64 = 40;

/// The greatest depth.
pub const TARGET_MAX_MS: u64 = 240;

/// How long the depth stays before it shrinks.
pub const SHRINK_STABLE_DURATION: u64 = 30_000_000_000;

/// The depth of the playback buffer. The average of the jitter is kept by the caller.
#[derive(Debug, Clone, Copy, PartialEq, Eq, Structural)]
pub struct PlaybackBuffer {
    pub target_ms: u64,
    pub frame_ms: u64,
    pub last_arrival: Option<u64>,
    pub stable_since: Option<u64>,
}

/// A depth within the bounds.
pub open spec fn bounded_target(ms: int) -> u64 {
    if ms < TARGET_MIN_MS {
        TARGET_MIN_MS
    } else if ms > TARGET_MAX_MS {
        TARGET_MAX_MS
    } else {
        ms as u64
    }
}

/// The least length of whole frames that is not below `ms`.
pub open spec fn whole_frames(ms: int, frame_ms: int) -> int {
    (ms + frame_ms - 1) / frame_ms * frame_ms
}

/// The depth that a wanted one comes to: whole frames, within the bounds.
pub open spec fn desired_target(wanted_ms: u64, frame_ms: u64) -> u64 {
    bounded_target(whole_frames(wanted_ms as int, frame_len(frame_ms) as int))
}

/// The depth that a wanted one comes to.
fn desired_depth(wanted_ms: u64, frame: u64) -> (ms: u64)
    requires
        frame > 0,
    ensures
        ms == bounded_target(whole_frames(wanted_ms as int, frame as int)),
{
    let ghost w = wanted_ms as int;
    let ghost f = frame as int;
    let over: u64 = wanted_ms % frame;
    proof {
        lemma_whole_frames(w, f);
        assert(0 <= w % f < f && w % f <= w) by (nonlinear_arith)
            requires
                0 <= w,
                0 < f,
        ;
    }
    let base: u64 = wanted_ms - over;
    if base > TARGET_MAX_MS {
        return TARGET_MAX_MS;
    }
    let whole: u64 = if over == 0 {
        base
    } else if frame > TARGET_MAX_MS - base {
        TARGET_MAX_MS
    } else {
        base + frame
    };
    if whole < TARGET_MIN_MS {
        TARGET_MIN_MS
    } else {
        whole
    }
}

/// Whole frames in terms of what is left over of the last one.
proof fn lemma_whole_frames(w: int, f: int)
    requires
        0 <= w,
        0 < f,
    ensures
        whole_frames(w, f) == if w % f == 0 {
            w
        } else {
            w - w % f + f
        },
{
    let q = w / f;
    let r = w % f;
    assert(w == q * f + r && 0 <= r < f) by (nonlinear_arith)
        requires
            0 < f,
            q == w / f,
            r == w % f,
    ;
    if r == 0 {
        assert((w + f - 1) / f == q) by (nonlinear_arith)
            requires
                w == q * f,
                0 < f,
        ;
    } else {
        assert((w + f - 1) / f == q + 1) by (nonlinear_arith)
            requires
                w == q * f + r,
                0 < r < f,
        ;
        assert((q + 1) * f == q * f + f) by (nonlinear_arith);
    }
}

/// The length of a frame, which the depth is counted and shrinks in: a millisecond at least.
pub open spec fn frame_len(frame_ms: u64) -> u64 {
    if frame_ms < 1 {
        1
    } else {
        frame_ms
    }
}

impl PlaybackBuffer {
    /// The depth lies between 40 and 240 ms.
    pub open spec fn wf(self) -> bool {
        TARGET_MIN_MS <= self.target_ms <= TARGET_MAX_MS
    }

    /// A buffer for frames of the given length, which nothing has arrived for.
    pub fn new(frame_ms: u64) -> (b: Self)
        ensures
            b.wf(),
            b == (PlaybackBuffer {
                target_ms: INITIAL_TARGET_MS,
                frame_ms,
                last_arrival: None,
                stable_since: None,
            }),
    {
        PlaybackBuffer {
            target_ms: INITIAL_TARGET_MS,
            frame_ms,
            last_arrival: None,
            stable_since: None,
        }
    }

    /// Takes note of an arrival. Returns how long the one before it lies back, in nanoseconds.
    pub fn observe_arrival(&mut self, now: u64) -> (gap: Option<u64>)
        requires
            old(self).wf(),
        ensures
            final(self).wf(),
            *final(self) == (PlaybackBuffer { last_arrival: Some(now), ..*old(self) }),
            gap == match old(self).last_arrival {
                Some(prev) => Some(clock::span(now, prev) as u64),
                None => None,
            },
    {
        let gap: Option<u64> = match self.last_arrival {
            Some(prev) => Some(clock::elapsed(now, prev)),
            None => None,
        };
        self.last_arrival = Some(now);
        gap
    }

    /// The buffer after the depth is set anew for a wanted one.
    pub open spec fn retargeted(self, wanted_ms: u64, now: u64) -> PlaybackBuffer {
        let desired = desired_target(wanted_ms, self.frame_ms);
        let step = frame_len(self.frame_ms);
        if desired > self.target_ms {
            PlaybackBuffer { target_ms: desired, stable_since: None, ..self }
        } else {
            match self.stable_since {
                None => PlaybackBuffer { stable_since: Some(now), ..self },
                Some(since) => if clock::span(now, since) >= SHRINK_STABLE_DURATION
                    && self.target_ms > TARGET_MIN_MS && self.target_ms >= desired + step {
                    PlaybackBuffer {
                        target_ms: (self.target_ms - step) as u64,
                        stable_since: Some(now),
                        ..self
                    }
                } else {
                    self
                },
            }
        }
    }

    /// Sets the depth anew for a wanted one, in milliseconds: 40 ms and four times the jitter. It is
    /// rounded up to whole frames and kept within the bounds.
    pub fn update_target(&mut self, wanted_ms: u64, now: u64)
        requires
            old(self).wf(),
        ensures
            final(self).wf(),
            *final(self) == old(self).retargeted(wanted_ms, now),
    {
        let frame: u64 = if self.frame_ms < 1 {
            1
        } else {
            self.frame_ms
        };
        let desired: u64 = desired_depth(wanted_ms, frame);
        if desired > self.target_ms {
            self.target_ms = desired;
            self.stable_since = None;
        } else {
            match self.stable_since {
                Some(since) => {
                    if clock::elapsed(now, since) >= SHRINK_STABLE_DURATION {
                        if self.target_ms > TARGET_MIN_MS && self.target_ms - desired >= frame {
                            self.target_ms = self.target_ms - frame;
                            self.stable_since = Some(now);
                        }
                    }
                },
                None => {
                    self.stable_since = Some(now);
                },
            }
        }
    }

    /// The depth, in milliseconds.
    pub fn target_ms(&self) -> (ms: u64)
        ensures
            ms == self.target_ms,
    {
        self.target_ms
    }

    /// Starts over, for the next speech.
    pub fn reset(&mut self)
        ensures
            final(self).wf(),
            *final(self) == (PlaybackBuffer {
                target_ms: INITIAL_TARGET_MS,
                frame_ms: old(self).frame_ms,
                last_arrival: None,
                stable_since: None,
            }),
    {
        self.target_ms = INITIAL_TARGET_MS;
        self.stable_since = None;
        self.last_arrival = None;
    }
}

/// The depth follows a larger wish at once, and never leaves its bounds.
pub proof fn law_grows_at_once(b: PlaybackBuffer, wanted_ms: u64, now: u64)
    requires
        b.wf(),
    ensures
        b.retargeted(wanted_ms, now).wf(),
        b.retargeted(wanted_ms, now).target_ms >= desired_target(wanted_ms, b.frame_ms),
        desired_target(wanted_ms, b.frame_ms) > b.target_ms ==> b.retargeted(
            wanted_ms,
            now,
        ).target_ms == desired_target(wanted_ms, b.frame_ms),
{
}

/// The depth covers the wish, as far as the bounds allow, by less than a frame too much.
pub proof fn law_depth_is_whole_frames(wanted_ms: u64, frame_ms: u64)
    ensures
        whole_frames(wanted_ms as int, frame_len(frame_ms) as int) % (frame_len(frame_ms) as int)
            == 0,
        wanted_ms <= whole_frames(wanted_ms as int, frame_len(frame_ms) as int) < wanted_ms
            + frame_len(frame_ms),
        wanted_ms <= TARGET_MAX_MS ==> desired_target(wanted_ms, frame_ms) >= wanted_ms,
{
    let w = wanted_ms as int;
    let f = frame_len(frame_ms) as int;
    lemma_whole_frames(w, f);
    let n = (w + f - 1) / f;
    assert((n * f) % f == 0) by (nonlinear_arith)
        requires
            0 < f,
    ;
    assert(0 <= w % f < f) by (nonlinear_arith)
        requires
            0 < f,
    ;
}

/// The depth shrinks by one frame at most, and only where half a minute has gone by since it last
/// grew or shrank.
pub proof fn law_shrinks_slowly(b: PlaybackBuffer, wanted_ms: u64, now: u64)
    requires
        b.wf(),
        b.retargeted(wanted_ms, now).target_ms < b.target_ms,
    ensures
        b.target_ms - b.retargeted(wanted_ms, now).target_ms == frame_len(b.frame_ms),
        b.stable_since matches Some(since) && now - since >= SHRINK_STABLE_DURATION,
        b.retargeted(wanted_ms, now).stable_since == Some(now),
{
}

/// The depth covers the wish at once, rounded up to whole frames, as far as 240 ms go; it never
/// leaves its bounds, and where it grows it is not larger than it has to be.
pub proof fn law_depth_follows_the_wish(b: &mut PlaybackBuffer, wanted_ms: u64, now: u64)
    requires
        call_ensures(PlaybackBuffer::update_target, (b, wanted_ms, now), ()),
        40 <= old(b).target_ms <= 240,
        old(b).frame_ms > 0,
    ensures
        40 <= final(b).target_ms <= 240,
        final(b).target_ms >= wanted_ms || final(b).target_ms == 240,
        final(b).target_ms > old(b).target_ms ==> {
            &&& final(b).target_ms == 240 || final(b).target_ms == 40 || (final(b).target_ms
                % old(b).frame_ms == 0 && final(b).target_ms < wanted_ms + old(b).frame_ms)
            &&& final(b).stable_since is None
        },
        final(b).frame_ms == old(b).frame_ms,
        final(b).last_arrival == old(b).last_arrival,
{
    law_depth_is_whole_frames(wanted_ms, old(b).frame_ms);
}

/// The depth shrinks by a frame once half a minute has gone by without a larger wish and a frame
/// less still covers it, and then not before another half a minute.
pub proof fn law_depth_shrinks_after_half_a_minute(b: &mut PlaybackBuffer, wanted_ms: u64, now: u64)
    requires
        call_ensures(PlaybackBuffer::update_target, (b, wanted_ms, now), ()),
        40 <= old(b).target_ms <= 240,
        old(b).frame_ms > 0,
    ensures
        final(b).target_ms < old(b).target_ms ==> {
            &&& old(b).stable_since matches Some(since) && now >= since + 30_000_000_000
            &&& final(b).target_ms == old(b).target_ms - old(b).frame_ms
            &&& final(b).stable_since == Some(now)
        },
        (old(b).stable_since matches Some(since) && now >= since + 30_000_000_000) && old(
            b,
        ).target_ms >= wanted_ms + 2 * old(b).frame_ms && old(b).target_ms >= 40 + old(b).frame_ms
            ==> final(b).target_ms == old(b).target_ms - old(b).frame_ms,
        final(b).target_ms == old(b).target_ms ==> final(b).stable_since == match old(
            b,
        ).stable_since {
            Some(since) => Some(since),
            None => Some(now),
        },
{
    law_depth_is_whole_frames(wanted_ms, old(b).frame_ms);
}

/// An arrival is timed from the one before it, and the first one from nothing.
pub proof fn law_arrivals_are_timed(b: &mut PlaybackBuffer, now: u64, gap: Option<u64>)
    requires
        call_ensures(PlaybackBuffer::observe_arrival, (b, now), gap),
        old(b).last_arrival matches Some(prev) ==> prev <= now,
    ensures
        old(b).last_arrival matches Some(prev) ==> (gap matches Some(d) && d == now - prev),
        old(b).last_arrival is None ==> gap is None,
        final(b).last_arrival == Some(now),
        final(b).target_ms == old(b).target_ms,
        final(b).stable_since == old(b).stable_since,
{
}

/// A buffer starts 60 ms deep, with nothing known of arrivals, and is brought back to that by a
/// reset; the length of its frames stays what it was made with.
pub proof fn law_buffers_start_over(frame_ms: u64, n: PlaybackBuffer, b: &mut PlaybackBuffer)
    requires
        call_ensures(PlaybackBuffer::new, (frame_ms,), n),
        call_ensures(PlaybackBuffer::reset, (b,), ()),
    ensures
        n.target_ms == 60,
        n.last_arrival is None,
        n.stable_since is None,
        n.frame_ms == frame_ms,
        final(b).target_ms == 60,
        final(b).last_arrival is None,
        final(b).stable_since is None,
        final(b).frame_ms == old(b).frame_ms,
{
}

} // verus!
