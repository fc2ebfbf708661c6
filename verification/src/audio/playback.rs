//! The playback side: what the worker does with messages, ticks and decoded frames.

use rtrb::Producer;
use vstd::prelude::*;

use crate::audio::buffer::PlaybackBuffer;
use crate::audio::opus::{NetworkGrade, FRAME_MS};
use crate::audio::{buffer, output, ring};
use crate::clock;

verus! {

/// Frames that may wait for the playback.
pub const PLAYBACK_CHANNEL_CAP: usize = 32;

/// Grades that may wait for a worker.
pub const GRADE_CHANNEL_CAP: usize = 4;

/// Without a frame for this long, a loss is concealed: two frame lengths.
pub const CONCEAL_AFTER: u64 = 120_000_000;

/// A longer pause between packets is a pause of the server, and no loss.
pub const LOSS_AT_MOST: u64 = 1_000_000_000;

/// The length of a frame.
pub const FRAME_NANOS: u64 = 60_000_000;

/// How often the clock drift is corrected.
pub const PLAYBACK_DRIFT_PERIOD: u64 = 500_000_000;

/// How often the playback reports.
pub const PLAYBACK_REPORT_INTERVAL: u64 = 2_000_000_000;

/// What the playback gets.
#[derive(Debug)]
pub enum PlaybackMsg {
    Audio(Vec<u8>),
    /// Drop what is buffered: another speech begins.
    Flush,
}

/// What the playback has done since its last report.
#[derive(Debug, Clone, Copy, PartialEq, Eq, Structural)]
pub struct PlaybackStats {
    pub flush_at: u64,
    pub received: u64,
    pub decoded_ok: u64,
    pub decoded_fail: u64,
    pub plc: u64,
    pub written: u64,
    pub last_pcm_len: usize,
    pub last_needed: usize,
    pub last_produced: usize,
    pub zero_produced: u64,
}

impl PlaybackStats {
    /// Nothing done since `now`.
    pub open spec fn none(now: u64) -> PlaybackStats {
        PlaybackStats {
            flush_at: now,
            received: 0,
            decoded_ok: 0,
            decoded_fail: 0,
            plc: 0,
            written: 0,
            last_pcm_len: 0,
            last_needed: 0,
            last_produced: 0,
            zero_produced: 0,
        }
    }

    /// Nothing done since `now`.
    pub fn new(now: u64) -> (s: Self)
        ensures
            s == Self::none(now),
    {
        PlaybackStats {
            flush_at: now,
            received: 0,
            decoded_ok: 0,
            decoded_fail: 0,
            plc: 0,
            written: 0,
            last_pcm_len: 0,
            last_needed: 0,
            last_produced: 0,
            zero_produced: 0,
        }
    }

    /// Whether the counters can take one more event.
    pub open spec fn room(self) -> bool {
        &&& self.received < u64::MAX
        &&& self.decoded_ok < u64::MAX
        &&& self.decoded_fail < u64::MAX
        &&& self.plc < u64::MAX
        &&& self.zero_produced < u64::MAX
    }
}

/// What to do about a message.
#[derive(Debug)]
pub enum PlayAction {
    /// Decode the packet. As it is, it gives its own frame; with error correction asked for, it
    /// gives the frame before it. Where `recover` says so, that one is decoded and played first.
    Decode { opus: Vec<u8>, recover: bool },
    /// Forget the jitter, and play nothing of what was queued: the output drops all samples up to
    /// the mark, counted from the first one ever written to the ring.
    Flush { mark: u64 },
}

/// What the playback worker keeps track of.
#[derive(Debug, Clone, Copy, PartialEq, Eq, Structural)]
pub struct PlaybackControl {
    /// The rate that the server declared.
    pub server_rate: u32,
    pub grade: NetworkGrade,
    pub last_frame_at: u64,
    pub frame_len_warned: bool,
    pub buf: PlaybackBuffer,
    pub last_drift: u64,
    /// Losses concealed since the last frame.
    pub concealed: u64,
    /// Samples written to the playback ring.
    pub sent: u64,
    pub stats: PlaybackStats,
}

/// The frames that a pause between two packets leaves out: none in a pause that is too short for a
/// loss or too long for one.
pub open spec fn frames_lost(gap: int) -> int {
    if CONCEAL_AFTER <= gap <= LOSS_AT_MOST {
        gap / FRAME_NANOS as int - 1
    } else {
        0
    }
}

/// Samples in a frame at the declared rate.
pub open spec fn expected_len(rate: u32) -> int {
    rate as int * FRAME_MS / 1000
}

impl PlaybackControl {
    /// The depth of the buffer is within its bounds.
    pub open spec fn wf(self) -> bool {
        self.buf.wf()
    }

    /// Whether the counters can take one more event.
    pub fn has_room(&self) -> (r: bool)
        ensures
            r == (self.concealed < u64::MAX && self.stats.room()),
    {
        self.concealed < u64::MAX && self.stats.received < u64::MAX && self.stats.decoded_ok < u64::MAX
            && self.stats.decoded_fail < u64::MAX && self.stats.plc < u64::MAX
            && self.stats.zero_produced < u64::MAX
    }

    /// Nothing played yet.
    pub fn new(server_rate: u32, now: u64) -> (c: Self)
        ensures
            c.wf(),
            c.server_rate == server_rate,
            c.grade == NetworkGrade::Good,
            c.last_frame_at == now,
            !c.frame_len_warned,
            c.buf == (PlaybackBuffer {
                target_ms: buffer::INITIAL_TARGET_MS,
                frame_ms: 60,
                last_arrival: None,
                stable_since: None,
            }),
            c.last_drift == now,
            c.concealed == 0,
            c.sent == 0,
            c.stats == PlaybackStats::none(now),
    {
        PlaybackControl {
            server_rate,
            grade: NetworkGrade::Good,
            last_frame_at: now,
            frame_len_warned: false,
            buf: PlaybackBuffer::new(60),
            last_drift: now,
            concealed: 0,
            sent: 0,
            stats: PlaybackStats::new(now),
        }
    }

    /// Takes a grade of the network.
    pub fn set_grade(&mut self, grade: NetworkGrade)
        ensures
            *final(self) == (PlaybackControl { grade, ..*old(self) }),
    {
        self.grade = grade;
    }

    /// Whether a packet of `len` bytes is decoded for the frame before it first: the network is
    /// weak, and more frames were lost before the packet than were concealed.
    pub open spec fn recovers(self, len: int, now: u64) -> bool {
        &&& self.grade != NetworkGrade::Good
        &&& len > 0
        &&& self.buf.last_arrival matches Some(prev) && frames_lost(clock::span(now, prev))
            > self.concealed
    }

    /// The control after a message.
    pub open spec fn after_msg(self, msg: PlaybackMsg, now: u64) -> PlaybackControl {
        match msg {
            PlaybackMsg::Audio(_) => PlaybackControl {
                last_frame_at: now,
                buf: PlaybackBuffer { last_arrival: Some(now), ..self.buf },
                concealed: 0,
                stats: PlaybackStats { received: (self.stats.received + 1) as u64, ..self.stats },
                ..self
            },
            PlaybackMsg::Flush => PlaybackControl {
                buf: PlaybackBuffer {
                    target_ms: buffer::INITIAL_TARGET_MS,
                    frame_ms: self.buf.frame_ms,
                    last_arrival: None,
                    stable_since: None,
                },
                concealed: 0,
                ..self
            },
        }
    }

    /// Takes a message. Returns what to do, and how long the frame before it lies back, in
    /// nanoseconds.
    pub fn handle_msg(&mut self, msg: PlaybackMsg, now: u64) -> (r: (PlayAction, Option<u64>))
        requires
            old(self).wf(),
            old(self).stats.room(),
        ensures
            final(self).wf(),
            *final(self) == old(self).after_msg(msg, now),
            match msg {
                PlaybackMsg::Audio(opus) => {
                    &&& r.0 == PlayAction::Decode {
                        opus,
                        recover: old(self).recovers(opus@.len() as int, now),
                    }
                    &&& r.1 == match old(self).buf.last_arrival {
                        Some(prev) => Some(clock::span(now, prev) as u64),
                        None => None,
                    }
                },
                PlaybackMsg::Flush => r.0 == (PlayAction::Flush { mark: old(self).sent })
                    && r.1 is None,
            },
    {
        match msg {
            PlaybackMsg::Audio(opus) => {
                self.stats.received = self.stats.received + 1;
                let gap: Option<u64> = self.buf.observe_arrival(now);
                self.last_frame_at = now;
                let lost: u64 = match gap {
                    Some(nanos) => if CONCEAL_AFTER <= nanos && nanos <= LOSS_AT_MOST {
                        nanos / FRAME_NANOS - 1
                    } else {
                        0
                    },
                    None => 0,
                };
                let recover = self.grade != NetworkGrade::Good && opus.len() > 0 && lost
                    > self.concealed;
                self.concealed = 0;
                (PlayAction::Decode { opus, recover }, gap)
            },
            PlaybackMsg::Flush => {
                self.buf.reset();
                self.concealed = 0;
                (PlayAction::Flush { mark: self.sent }, None)
            },
        }
    }

    /// Whether a tick finds a loss to conceal: no frame for two frame lengths. It is counted.
    pub fn conceal_due(&mut self, now: u64) -> (r: bool)
        requires
            old(self).concealed < u64::MAX,
        ensures
            r == (clock::span(now, old(self).last_frame_at) >= CONCEAL_AFTER),
            *final(self) == (PlaybackControl {
                concealed: if r {
                    (old(self).concealed + 1) as u64
                } else {
                    old(self).concealed
                },
                ..*old(self)
            }),
    {
        let due = clock::elapsed(now, self.last_frame_at) >= CONCEAL_AFTER;
        if due {
            self.concealed = self.concealed + 1;
        }
        due
    }

    /// Takes note of a packet that did not decode; the loss is to be concealed.
    pub fn decode_failed(&mut self)
        requires
            old(self).stats.room(),
        ensures
            *final(self) == (PlaybackControl {
                stats: PlaybackStats {
                    decoded_fail: (old(self).stats.decoded_fail + 1) as u64,
                    ..old(self).stats
                },
                ..*old(self)
            }),
    {
        self.stats.decoded_fail = self.stats.decoded_fail + 1;
    }

    /// The control after a decoded frame of `len` samples, which conceals a loss or not, and of
    /// which the resampler made `produced`.
    pub open spec fn after_pcm(
        self,
        len: usize,
        concealed: bool,
        needed: usize,
        produced: usize,
    ) -> PlaybackControl {
        PlaybackControl {
            frame_len_warned: self.frame_len_warned || (!concealed && len != expected_len(
                self.server_rate,
            )),
            stats: PlaybackStats {
                decoded_ok: if concealed {
                    self.stats.decoded_ok
                } else {
                    (self.stats.decoded_ok + 1) as u64
                },
                plc: if concealed {
                    (self.stats.plc + 1) as u64
                } else {
                    self.stats.plc
                },
                last_pcm_len: len,
                last_needed: needed,
                last_produced: produced,
                zero_produced: if produced == 0 {
                    (self.stats.zero_produced + 1) as u64
                } else {
                    self.stats.zero_produced
                },
                ..self.stats
            },
            ..self
        }
    }

    /// Takes note of a decoded frame. Returns the length to warn about, once: a frame that is not
    /// 60 ms at the declared rate comes from a server that declares another one than it uses.
    pub fn write_pcm(&mut self, len: usize, concealed: bool, needed: usize, produced: usize) -> (r:
        Option<usize>)
        requires
            old(self).stats.room(),
        ensures
            *final(self) == old(self).after_pcm(len, concealed, needed, produced),
            r == if !concealed && len != expected_len(old(self).server_rate)
                && !old(self).frame_len_warned {
                Some(expected_len(old(self).server_rate) as usize)
            } else {
                None
            },
    {
        let mut r: Option<usize> = None;
        if concealed {
            self.stats.plc = self.stats.plc + 1;
        } else {
            let expected: usize = (self.server_rate as u64 * FRAME_MS as u64 / 1000) as usize;
            if len != expected && !self.frame_len_warned {
                self.frame_len_warned = true;
                r = Some(expected);
            }
            self.stats.decoded_ok = self.stats.decoded_ok + 1;
        }
        self.stats.last_pcm_len = len;
        self.stats.last_needed = needed;
        self.stats.last_produced = produced;
        if produced == 0 {
            self.stats.zero_produced = self.stats.zero_produced + 1;
        }
        r
    }

    /// Takes note of a write to the playback ring, by the free slots before and after it.
    pub fn wrote(&mut self, free_before: usize, free_after: usize)
        requires
            old(self).stats.written + free_before <= u64::MAX,
        ensures
            *final(self) == (PlaybackControl {
                stats: PlaybackStats {
                    written: (old(self).stats.written + (if free_before > free_after {
                        free_before - free_after
                    } else {
                        0
                    })) as u64,
                    ..old(self).stats
                },
                ..*old(self)
            }),
    {
        if free_before > free_after {
            self.stats.written = self.stats.written + (free_before - free_after) as u64;
        }
    }

    /// Whether the counters can take a write of `len` samples to a ring of the given capacity.
    pub open spec fn write_room(self, len: int, capacity: int) -> bool {
        self.sent + len <= u64::MAX && self.stats.written + capacity <= u64::MAX
    }

    /// Whether the counters can take a write of `len` samples to a ring of the given capacity.
    pub fn can_write(&self, len: usize, capacity: usize) -> (r: bool)
        ensures
            r == self.write_room(len as int, capacity as int),
    {
        self.sent <= u64::MAX - len as u64 && self.stats.written <= u64::MAX - capacity as u64
    }

    /// Writes samples to the playback ring, as far as it takes them, and counts them. Returns the
    /// slots that were free, how many samples were written, and the slots free afterwards.
    pub fn deliver(
        &mut self,
        out: &mut Producer<u32>,
        samples: &[u32],
        output_rate: u32,
        capacity: usize,
    ) -> (r: (usize, usize, usize))
        requires
            ring::ring_capacity(*old(out)) <= capacity,
            old(self).sent == ring::pushed(*old(out)).len(),
            old(self).write_room(samples@.len() as int, capacity as int),
        ensures
            ring::known_free(*old(out)) <= r.0 <= ring::ring_capacity(*old(out)),
            r.1 == output::write_count(
                r.0 as int,
                samples@.len() as int,
                output_rate,
                capacity as int,
            ),
            ring::pushed(*final(out)) == ring::pushed(*old(out)) + samples@.take(r.1 as int),
            r.0 - r.1 <= r.2 <= ring::ring_capacity(*old(out)),
            ring::known_free(*final(out)) == r.2,
            ring::ring_capacity(*final(out)) == ring::ring_capacity(*old(out)),
            final(self).sent == ring::pushed(*final(out)).len(),
            *final(self) == (PlaybackControl {
                sent: (old(self).sent + r.1) as u64,
                stats: PlaybackStats {
                    written: (old(self).stats.written + (if r.0 > r.2 {
                        r.0 - r.2
                    } else {
                        0
                    })) as u64,
                    ..old(self).stats
                },
                ..*old(self)
            }),
    {
        let (free, written) = output::write_samples(out, samples, output_rate, capacity);
        let after: usize = ring::free_slots(out);
        self.sent = self.sent + written as u64;
        self.wrote(free, after);
        (free, written, after)
    }

    /// Reports what was done, once every two seconds.
    pub fn report(&mut self, now: u64) -> (r: Option<PlaybackStats>)
        ensures
            if clock::span(now, old(self).stats.flush_at) >= PLAYBACK_REPORT_INTERVAL {
                &&& r == Some(old(self).stats)
                &&& *final(self) == (PlaybackControl {
                    stats: PlaybackStats::none(now),
                    ..*old(self)
                })
            } else {
                r is None && *final(self) == *old(self)
            },
    {
        if clock::elapsed(now, self.stats.flush_at) >= PLAYBACK_REPORT_INTERVAL {
            let r = self.stats;
            self.stats = PlaybackStats::new(now);
            Some(r)
        } else {
            None
        }
    }

    /// The depth to steer the drift to, once a correction is due. The depth is set anew for the
    /// wanted one first.
    pub fn drift_due(&mut self, wanted_ms: u64, now: u64) -> (target: Option<u64>)
        requires
            old(self).wf(),
        ensures
            final(self).wf(),
            if clock::span(now, old(self).last_drift) >= PLAYBACK_DRIFT_PERIOD {
                &&& *final(self) == (PlaybackControl {
                    buf: old(self).buf.retargeted(wanted_ms, now),
                    last_drift: now,
                    ..*old(self)
                })
                &&& target == Some(final(self).buf.target_ms)
            } else {
                target is None && *final(self) == *old(self)
            },
    {
        if clock::elapsed(now, self.last_drift) >= PLAYBACK_DRIFT_PERIOD {
            self.buf.update_target(wanted_ms, now);
            self.last_drift = now;
            Some(self.buf.target_ms())
        } else {
            None
        }
    }
}

/// A frame silences the concealment for two frame lengths: no tick conceals a loss before.
pub proof fn law_frames_hold_off_concealment(c: PlaybackControl, opus: Vec<u8>, t: u64, now: u64)
    requires
        t <= now < t + CONCEAL_AFTER,
    ensures
        clock::span(now, c.after_msg(PlaybackMsg::Audio(opus), t).last_frame_at) < CONCEAL_AFTER,
{
}

/// A frame is recovered only on a weak network, and only where a frame was lost that nothing was
/// played in place of.
pub proof fn law_recovery_fills_a_gap(c: PlaybackControl, len: int, now: u64)
    requires
        c.recovers(len, now),
    ensures
        c.grade != NetworkGrade::Good,
        c.buf.last_arrival matches Some(prev) && now - prev >= (c.concealed + 2) * FRAME_NANOS,
{
    let prev = c.buf.last_arrival->0;
    let gap = clock::span(now, prev);
    assert(gap >= gap / FRAME_NANOS as int * FRAME_NANOS) by (nonlinear_arith)
        requires
            FRAME_NANOS > 0,
            gap >= 0,
    ;
}

/// The warning about the length of frames comes once at most.
pub proof fn law_length_warning_once(
    c: PlaybackControl,
    len: usize,
    concealed: bool,
    needed: usize,
    produced: usize,
)
    requires
        c.frame_len_warned,
    ensures
        c.after_pcm(len, concealed, needed, produced).frame_len_warned,
{
}

/// A packet is decoded as it came, counted, and holds off the concealment from now on; how long the
/// one before it lies back is told.
pub proof fn law_packets_are_decoded(
    c: &mut PlaybackControl,
    opus: Vec<u8>,
    now: u64,
    r: (PlayAction, Option<u64>),
)
    requires
        call_ensures(PlaybackControl::handle_msg, (c, PlaybackMsg::Audio(opus), now), r),
        old(c).buf.last_arrival matches Some(prev) ==> prev <= now,
        old(c).stats.received < u64::MAX,
    ensures
        r.0 matches PlayAction::Decode { opus: packet, recover } && packet == opus && (recover <==> {
            &&& old(c).grade != NetworkGrade::Good
            &&& opus@.len() > 0
            &&& old(c).buf.last_arrival matches Some(prev) && 120_000_000 <= now - prev
                <= 1_000_000_000 && (now - prev) / 60_000_000 - 1 > old(c).concealed
        }),
        old(c).buf.last_arrival matches Some(prev) ==> (r.1 matches Some(d) && d == now - prev),
        old(c).buf.last_arrival is None ==> r.1 is None,
        final(c).last_frame_at == now,
        final(c).buf.last_arrival == Some(now),
        final(c).buf.target_ms == old(c).buf.target_ms,
        final(c).concealed == 0,
        final(c).stats.received == old(c).stats.received + 1,
        final(c).sent == old(c).sent,
        final(c).grade == old(c).grade,
{
}

/// A flush marks all that was written so far, and brings the depth back to 60 ms with nothing known
/// of arrivals; nothing else changes.
pub proof fn law_flushes_start_over(c: &mut PlaybackControl, now: u64, r: (PlayAction, Option<u64>))
    requires
        call_ensures(PlaybackControl::handle_msg, (c, PlaybackMsg::Flush, now), r),
    ensures
        r.0 matches PlayAction::Flush { mark } && mark == old(c).sent,
        r.1 is None,
        final(c).buf.target_ms == 60,
        final(c).buf.last_arrival is None,
        final(c).buf.stable_since is None,
        final(c).buf.frame_ms == old(c).buf.frame_ms,
        final(c).concealed == 0,
        final(c).sent == old(c).sent,
        final(c).grade == old(c).grade,
        final(c).stats == old(c).stats,
        final(c).last_frame_at == old(c).last_frame_at,
{
}

/// The mark of a flush is behind every sample that went into the ring before it.
pub proof fn law_flush_marks_what_was_written(
    a: &mut PlaybackControl,
    out: &mut Producer<u32>,
    samples: &[u32],
    rate: u32,
    capacity: usize,
    w: (usize, usize, usize),
    b: &mut PlaybackControl,
    now: u64,
    r: (PlayAction, Option<u64>),
)
    requires
        call_ensures(PlaybackControl::deliver, (a, out, samples, rate, capacity), w),
        *old(b) == *final(a),
        call_ensures(PlaybackControl::handle_msg, (b, PlaybackMsg::Flush, now), r),
    ensures
        r.0 matches PlayAction::Flush { mark } && mark == ring::pushed(*final(out)).len(),
        ring::pushed(*final(out)) == ring::pushed(*old(out)) + samples@.take(w.1 as int),
{
}

/// A loss is concealed exactly where no packet has come for 120 ms, and it is counted.
pub proof fn law_losses_are_concealed(c: &mut PlaybackControl, now: u64, due: bool)
    requires
        call_ensures(PlaybackControl::conceal_due, (c, now), due),
        old(c).last_frame_at <= now,
        old(c).concealed < u64::MAX,
    ensures
        due <==> now - old(c).last_frame_at >= 120_000_000,
        final(c).concealed == old(c).concealed + (if due {
            1int
        } else {
            0
        }),
        final(c).last_frame_at == old(c).last_frame_at,
        final(c).stats == old(c).stats,
{
}

/// Every frame that is played is counted once, as decoded or as concealed. A decoded frame of
/// another length than 60 ms at the declared rate is warned of, once.
pub proof fn law_played_frames_are_counted(
    c: &mut PlaybackControl,
    len: usize,
    concealed: bool,
    needed: usize,
    produced: usize,
    r: Option<usize>,
)
    requires
        call_ensures(PlaybackControl::write_pcm, (c, len, concealed, needed, produced), r),
        old(c).stats.decoded_ok < u64::MAX,
        old(c).stats.plc < u64::MAX,
        old(c).stats.zero_produced < u64::MAX,
    ensures
        final(c).stats.decoded_ok == old(c).stats.decoded_ok + (if concealed {
            0int
        } else {
            1
        }),
        final(c).stats.plc == old(c).stats.plc + (if concealed {
            1int
        } else {
            0
        }),
        final(c).stats.zero_produced == old(c).stats.zero_produced + (if produced == 0 {
            1int
        } else {
            0
        }),
        final(c).stats.last_pcm_len == len,
        final(c).stats.last_needed == needed,
        final(c).stats.last_produced == produced,
        r is Some <==> !concealed && !old(c).frame_len_warned && len != old(c).server_rate as int
            * 60 / 1000,
        r matches Some(n) ==> n == (old(c).server_rate as int * 60 / 1000) as usize
            && final(c).frame_len_warned,
        final(c).sent == old(c).sent,
{
}

/// The drift is corrected once every half a second, towards the depth that the wish comes to.
pub proof fn law_drift_is_corrected(
    c: &mut PlaybackControl,
    wanted_ms: u64,
    now: u64,
    r: Option<u64>,
)
    requires
        call_ensures(PlaybackControl::drift_due, (c, wanted_ms, now), r),
        old(c).last_drift <= now,
        40 <= old(c).buf.target_ms <= 240,
        old(c).buf.frame_ms > 0,
    ensures
        r is Some <==> now - old(c).last_drift >= 500_000_000,
        r matches Some(t) ==> t == final(c).buf.target_ms && 40 <= t <= 240 && (t >= wanted_ms || t
            == 240) && final(c).last_drift == now,
        r is None ==> *final(c) == *old(c),
{
    buffer::law_depth_is_whole_frames(wanted_ms, old(c).buf.frame_ms);
}

/// The playback reports once every two seconds what it counted, and counts anew from there; what
/// was written to the ring is not forgotten.
pub proof fn law_playback_reports(c: &mut PlaybackControl, now: u64, r: Option<PlaybackStats>)
    requires
        call_ensures(PlaybackControl::report, (c, now), r),
        old(c).stats.flush_at <= now,
    ensures
        r is Some <==> now - old(c).stats.flush_at >= 2_000_000_000,
        r matches Some(s) ==> s == old(c).stats && final(c).stats.flush_at == now
            && final(c).stats.received == 0 && final(c).stats.decoded_ok == 0
            && final(c).stats.decoded_fail == 0 && final(c).stats.plc == 0 && final(c).stats.written
            == 0 && final(c).stats.zero_produced == 0 && final(c).stats.last_pcm_len == 0
            && final(c).stats.last_needed == 0 && final(c).stats.last_produced == 0,
        r is None ==> *final(c) == *old(c),
        final(c).sent == old(c).sent,
        final(c).concealed == old(c).concealed,
{
}

/// What is written is counted, and as much is written as fits into 280 ms of the ring and its free
/// slots; a second delivery goes behind the first.
pub proof fn law_deliveries_follow_each_other(
    a: &mut PlaybackControl,
    out: &mut Producer<u32>,
    first: &[u32],
    rate: u32,
    capacity: usize,
    w: (usize, usize, usize),
    b: &mut PlaybackControl,
    out2: &mut Producer<u32>,
    second: &[u32],
    v: (usize, usize, usize),
)
    requires
        old(a).sent + first@.len() + second@.len() <= u64::MAX,
        call_ensures(PlaybackControl::deliver, (a, out, first, rate, capacity), w),
        *old(b) == *final(a),
        *old(out2) == *final(out),
        call_ensures(PlaybackControl::deliver, (b, out2, second, rate, capacity), v),
    ensures
        (capacity - w.0) * 1000 > 280 * rate ==> w.1 == 0,
        (capacity - w.0) * 1000 <= 280 * rate ==> w.1 == if first@.len() < w.0 {
            first@.len() as int
        } else {
            w.0 as int
        },
        ring::pushed(*final(out2)) == ring::pushed(*old(out)) + first@.take(w.1 as int)
            + second@.take(v.1 as int),
        final(b).sent == old(a).sent + w.1 + v.1,
        final(b).grade == old(a).grade,
        final(b).buf == old(a).buf,
        final(b).concealed == old(a).concealed,
        final(b).last_frame_at == old(a).last_frame_at,
{
}

/// A packet that does not decode is counted as such, and a grade is kept until the next one: with
/// a grade other than good, a gap of lost frames is recovered from the packet behind it.
pub proof fn law_grades_allow_recovery(
    a: &mut PlaybackControl,
    grade: NetworkGrade,
    b: &mut PlaybackControl,
    c: &mut PlaybackControl,
    opus: Vec<u8>,
    now: u64,
    r: (PlayAction, Option<u64>),
)
    requires
        call_ensures(PlaybackControl::set_grade, (a, grade), ()),
        *old(b) == *final(a),
        old(b).stats.decoded_fail < u64::MAX,
        call_ensures(PlaybackControl::decode_failed, (b,), ()),
        *old(c) == *final(b),
        call_ensures(PlaybackControl::handle_msg, (c, PlaybackMsg::Audio(opus), now), r),
        old(a).buf.last_arrival matches Some(prev) && prev <= now && 120_000_000 <= now - prev
            <= 1_000_000_000,
        old(a).concealed == 0,
        opus@.len() > 0,
    ensures
        r.0 matches PlayAction::Decode { opus: packet, recover } && packet == opus && (recover
            <==> grade != NetworkGrade::Good),
        final(b).stats.decoded_fail == old(a).stats.decoded_fail + 1,
        final(b).stats.received == old(a).stats.received,
        final(b).sent == old(a).sent,
{
}

} // verus!
