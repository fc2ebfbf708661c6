//! Reconnection policy: jittered backoff, the MQTT circuit breaker and the loss estimate.

use vstd::prelude::*;

use crate::audio::opus::NetworkGrade;
use crate::clock;
use crate::error::{ErrorKind, VoiceError};

verus! {

/// Shortest upper bound of a backoff delay, in milliseconds.
pub const BACKOFF_BASE_MS: u64 = 250;

/// Longest backoff delay, in milliseconds.
pub const BACKOFF_CAP_MS: u64 = 30_000;

/// Shortest backoff delay, in milliseconds.
pub const BACKOFF_FLOOR_MS: u64 = 25;

/// Jittered exponential backoff: the upper bound doubles with every attempt, from 250 ms to 30 s,
/// and the delay is drawn below it.
pub struct Backoff {
    pub attempt: u64,
    pub rng: u64,
}

/// Two to the power of `n`.
pub open spec fn doubled(n: int) -> int
    decreases n,
{
    if n <= 0 {
        1
    } else {
        2 * doubled(n - 1)
    }
}

/// The smaller of two numbers.
pub open spec fn lesser(a: int, b: int) -> int {
    if a < b {
        a
    } else {
        b
    }
}

/// The bound below which the delay of an attempt is drawn, in milliseconds.
pub open spec fn backoff_bound(attempt: u64) -> int {
    lesser(BACKOFF_BASE_MS * doubled(lesser(attempt as int, 8)), BACKOFF_CAP_MS as int)
}

/// The next state of the generator that draws the delays.
pub open spec fn next_draw(rng: u64) -> u64 {
    rng.wrapping_mul(6_364_136_223_846_793_005).wrapping_add(1_442_695_040_888_963_407)
}

/// The delay of an attempt for a drawn number, in milliseconds.
pub open spec fn backoff_delay(attempt: u64, drawn: u64) -> int {
    let jitter = drawn as int % backoff_bound(attempt);
    if jitter < BACKOFF_FLOOR_MS {
        BACKOFF_FLOOR_MS as int
    } else {
        jitter
    }
}

impl Backoff {
    /// No attempt made yet.
    pub fn new() -> (b: Self)
        ensures
            b.attempt == 0,
            b.rng == 0x9E37_79B9_7F4A_7C15,
    {
        Backoff { attempt: 0, rng: 0x9E37_79B9_7F4A_7C15 }
    }

    /// Draws the delay before the next attempt, in milliseconds.
    pub fn next(&mut self) -> (delay: u64)
        requires
            old(self).attempt < u64::MAX,
        ensures
            final(self).attempt == old(self).attempt + 1,
            final(self).rng == next_draw(old(self).rng),
            delay == backoff_delay(old(self).attempt, final(self).rng),
    {
        self.rng = self.rng.wrapping_mul(6_364_136_223_846_793_005).wrapping_add(
            1_442_695_040_888_963_407,
        );
        let steps: u64 = if self.attempt < 8 {
            self.attempt
        } else {
            8
        };
        let mut upper: u64 = BACKOFF_BASE_MS;
        let mut i: u64 = 0;
        while i < steps
            invariant
                i <= steps <= 8,
                upper == BACKOFF_BASE_MS * doubled(i as int),
            decreases steps - i,
        {
            proof {
                reveal_with_fuel(doubled, 9);
            }
            upper = upper * 2;
            i = i + 1;
        }
        proof {
            reveal_with_fuel(doubled, 9);
        }
        if upper > BACKOFF_CAP_MS {
            upper = BACKOFF_CAP_MS;
        }
        let jitter: u64 = self.rng % upper;
        self.attempt = self.attempt + 1;
        if jitter < BACKOFF_FLOOR_MS {
            BACKOFF_FLOOR_MS
        } else {
            jitter
        }
    }

    /// Starts over after a connection was made.
    pub fn on_success(&mut self)
        ensures
            final(self).attempt == 0,
            final(self).rng == old(self).rng,
    {
        self.attempt = 0;
    }
}

/// Every delay lies between 25 ms and 30 s, whatever was drawn and however many attempts were
/// made.
pub proof fn law_backoff_bounds(attempt: u64, drawn: u64)
    ensures
        BACKOFF_FLOOR_MS <= backoff_delay(attempt, drawn) <= BACKOFF_CAP_MS,
{
    let bound = backoff_bound(attempt);
    reveal_with_fuel(doubled, 9);
    assert(0 <= drawn as int % bound < bound) by (nonlinear_arith)
        requires
            bound > 0,
    ;
}

/// After a success the first delay is at most 250 ms.
pub proof fn law_backoff_restarts_low(drawn: u64)
    ensures
        backoff_delay(0, drawn) <= BACKOFF_BASE_MS,
{
}

/// Two failures within this span open the breaker.
pub const FAIL_WINDOW: u64 = 120_000_000_000;

/// The span that the cooldown doubles from.
pub const OPEN_COOLDOWN: u64 = 300_000_000_000;

/// The longest cooldown.
pub const OPEN_COOLDOWN_MAX: u64 = 1_800_000_000_000;

/// A breaker whose last failure lies further back than this is reset by a success.
pub const STABLE_RESET: u64 = 120_000_000_000;

/// The latest instant at which a cooldown can still be added.
pub const LAST_INSTANT: u64 = 18_446_742_273_709_551_615;

/// Keeps MQTT out of use for a while after repeated failures.
pub struct CircuitBreaker {
    pub failures: Vec<u64>,
    pub cooldown_until: Option<u64>,
    pub open_count: u32,
}

/// The failures that lie less than `window` before `now`, in their order.
pub open spec fn recent(failures: Seq<u64>, now: u64, window: u64) -> Seq<u64> {
    failures.filter(|t: u64| clock::span(now, t) < window)
}

/// How long the breaker stays open after `n` openings in a row, in nanoseconds: five minutes at
/// first, then ten, twenty and thirty.
pub open spec fn cooldown(n: int) -> int {
    lesser(OPEN_COOLDOWN * doubled(lesser(n, 4)), OPEN_COOLDOWN_MAX as int)
}

/// Keeps the instants that lie less than `window` before `now`.
fn retain_recent(failures: &Vec<u64>, now: u64, window: u64) -> (kept: Vec<u64>)
    ensures
        kept@ == recent(failures@, now, window),
{
    let mut kept: Vec<u64> = Vec::new();
    let mut i: usize = 0;
    proof {
        reveal(Seq::filter);
    }
    while i < failures.len()
        invariant
            i <= failures@.len(),
            kept@ == recent(failures@.take(i as int), now, window),
        decreases failures@.len() - i,
    {
        let t: u64 = failures[i];
        if clock::elapsed(now, t) < window {
            kept.push(t);
        }
        proof {
            reveal(Seq::filter);
            assert(failures@.take(i + 1).drop_last() =~= failures@.take(i as int));
            assert(failures@.take(i + 1).last() == t);
        }
        i = i + 1;
    }
    assert(failures@.take(i as int) =~= failures@);
    kept
}

impl CircuitBreaker {
    /// Closed, with no failure on record.
    pub fn new() -> (b: Self)
        ensures
            b.failures@ == Seq::<u64>::empty(),
            b.cooldown_until is None,
            b.open_count == 0,
    {
        CircuitBreaker { failures: Vec::new(), cooldown_until: None, open_count: 0 }
    }

    /// Whether the breaker is in a cooldown at `now`.
    pub open spec fn open_at(self, now: u64) -> bool {
        match self.cooldown_until {
            Some(until) => now < until,
            None => false,
        }
    }

    /// Whether the breaker is in a cooldown at `now`.
    pub fn is_open(&self, now: u64) -> (r: bool)
        ensures
            r == self.open_at(now),
    {
        match self.cooldown_until {
            Some(until) => now < until,
            None => false,
        }
    }

    /// The breaker after a failure at `now`, and whether that failure opened it: it does where
    /// another failure lies within the window.
    pub open spec fn after_failure(self, now: u64, next: CircuitBreaker, opened: bool) -> bool {
        let kept = recent(self.failures@, now, FAIL_WINDOW);
        &&& opened == (kept.len() > 0)
        &&& if opened {
            &&& next.failures@ == Seq::<u64>::empty()
            &&& next.open_count == self.open_count + 1
            &&& next.cooldown_until == Some((now + cooldown(self.open_count as int)) as u64)
        } else {
            &&& next.failures@ == seq![now]
            &&& next.open_count == self.open_count
            &&& next.cooldown_until == self.cooldown_until
        }
    }

    /// Records a failure and says whether it opened the breaker.
    pub fn record_failure(&mut self, now: u64) -> (opened: bool)
        requires
            old(self).open_count < u32::MAX,
            now <= LAST_INSTANT,
        ensures
            old(self).after_failure(now, *final(self), opened),
    {
        let mut kept = retain_recent(&self.failures, now, FAIL_WINDOW);
        kept.push(now);
        if kept.len() >= 2 {
            let steps: u32 = if self.open_count < 4 {
                self.open_count
            } else {
                4
            };
            self.open_count = self.open_count + 1;
            let mut wait: u64 = OPEN_COOLDOWN;
            let mut i: u32 = 0;
            while i < steps
                invariant
                    i <= steps <= 4,
                    wait == OPEN_COOLDOWN * doubled(i as int),
                decreases steps - i,
            {
                proof {
                    reveal_with_fuel(doubled, 5);
                }
                wait = wait * 2;
                i = i + 1;
            }
            if wait > OPEN_COOLDOWN_MAX {
                wait = OPEN_COOLDOWN_MAX;
            }
            proof {
                reveal_with_fuel(doubled, 5);
            }
            self.cooldown_until = Some(now + wait);
            self.failures = Vec::new();
            true
        } else {
            assert(kept@ =~= seq![now]);
            self.failures = kept;
            false
        }
    }

    /// The breaker after a connection was made at `now`: forgotten, unless a failure is recent.
    pub open spec fn after_stable(self, now: u64, next: CircuitBreaker) -> bool {
        let kept = recent(self.failures@, now, STABLE_RESET);
        &&& next.failures@ == kept
        &&& if kept.len() == 0 {
            next.open_count == 0 && next.cooldown_until is None
        } else {
            next.open_count == self.open_count && next.cooldown_until == self.cooldown_until
        }
    }

    /// Records that a connection was made.
    pub fn on_stable(&mut self, now: u64)
        ensures
            old(self).after_stable(now, *final(self)),
    {
        self.failures = retain_recent(&self.failures, now, STABLE_RESET);
        if self.failures.is_empty() {
            self.open_count = 0;
            self.cooldown_until = None;
        }
    }

    /// The breaker after a connection over any transport was made at `now`: a cooldown that runs
    /// is served to its end, otherwise the connection speaks for the link.
    pub open spec fn after_connection(self, now: u64, next: CircuitBreaker) -> bool {
        if self.open_at(now) {
            next == self
        } else {
            self.after_stable(now, next)
        }
    }

    /// Records that a connection was made, over any transport.
    pub fn on_connection(&mut self, now: u64)
        ensures
            old(self).after_connection(now, *final(self)),
    {
        if !self.is_open(now) {
            self.on_stable(now);
        }
    }
}

/// Of two failures less than two minutes apart the second opens the breaker, and it stays open
/// for five minutes at least and thirty at most; for five exactly the first time.
pub proof fn law_two_failures_open(
    start: CircuitBreaker,
    first: CircuitBreaker,
    second: CircuitBreaker,
    opened_first: bool,
    opened_second: bool,
    t1: u64,
    t2: u64,
)
    requires
        start.after_failure(t1, first, opened_first),
        first.after_failure(t2, second, opened_second),
        start.open_count < u32::MAX,
        t1 <= t2 <= LAST_INSTANT,
        t2 - t1 < FAIL_WINDOW,
        !opened_first,
    ensures
        opened_second,
        second.open_at(t2),
        second.cooldown_until matches Some(until) && t2 + 300 * clock::SECOND <= until <= t2 + 1800
            * clock::SECOND,
        start.open_count == 0 ==> second.cooldown_until == Some(
            (t2 + 300 * clock::SECOND) as u64,
        ),
{
    reveal(Seq::filter);
    reveal_with_fuel(doubled, 5);
    assert(first.failures@.drop_last() =~= Seq::<u64>::empty());
    assert(recent(first.failures@, t2, FAIL_WINDOW) =~= seq![t1]);
}

/// A failure that stands alone in its two minutes leaves the breaker as open or closed as it was.
pub proof fn law_lone_failure_opens_nothing(
    before: CircuitBreaker,
    after: CircuitBreaker,
    opened: bool,
    now: u64,
    at: u64,
)
    requires
        before.after_failure(now, after, opened),
        forall|i: int|
            0 <= i < before.failures@.len() ==> clock::span(now, #[trigger] before.failures@[i])
                >= FAIL_WINDOW,
    ensures
        !opened,
        after.open_at(at) == before.open_at(at),
{
    lemma_none_recent(before.failures@, now, FAIL_WINDOW);
}

proof fn lemma_none_recent(failures: Seq<u64>, now: u64, window: u64)
    requires
        forall|i: int|
            0 <= i < failures.len() ==> clock::span(now, #[trigger] failures[i]) >= window,
    ensures
        recent(failures, now, window) == Seq::<u64>::empty(),
    decreases failures.len(),
{
    reveal(Seq::filter);
    if failures.len() > 0 {
        assert forall|i: int| 0 <= i < failures.drop_last().len() implies clock::span(
            now,
            #[trigger] failures.drop_last()[i],
        ) >= window by {
            assert(failures.drop_last()[i] == failures[i]);
        }
        lemma_none_recent(failures.drop_last(), now, window);
        assert(clock::span(now, failures[failures.len() - 1]) >= window);
    }
}

/// The breaker closes by itself: once the cooldown is over it is closed.
pub proof fn law_breaker_closes_by_itself(b: CircuitBreaker, now: u64)
    requires
        b.cooldown_until matches Some(until) ==> until <= now,
    ensures
        !b.open_at(now),
{
}

/// Whether an error means that the link was lost: disconnected or timed out.
pub open spec fn transport_loss(kind: ErrorKind) -> bool {
    kind == ErrorKind::Transport || kind == ErrorKind::Timeout
}

/// Whether an error means that the link was lost: disconnected or timed out.
pub fn is_transport_loss(e: &VoiceError) -> (r: bool)
    ensures
        r == transport_loss(e.kind_spec()),
{
    match e {
        VoiceError::Transport(_) => true,
        VoiceError::Timeout(_) => true,
        _ => false,
    }
}

/// Length of a downlink frame, in milliseconds.
pub const LOSS_FRAME_MS: u64 = 60;

/// A gap longer than this, in milliseconds, is the server's silence and no loss.
pub const RESET_GAP_MS: u64 = 1000;

/// Span over which the loss is graded.
pub const LOSS_WINDOW: u64 = 10_000_000_000;

/// Estimates the downlink loss from the gaps between frames, and grades it every ten seconds.
pub struct LossEstimator {
    pub last: Option<u64>,
    pub received: u64,
    pub lost: u64,
    pub window_start: u64,
    pub grade: NetworkGrade,
}

/// The grade of a window in which `lost` of `total` frames went missing: below 3 % good, below
/// 10 % fair, poor otherwise.
pub open spec fn graded(lost: int, total: int) -> NetworkGrade {
    if lost * 100 < total * 3 {
        NetworkGrade::Good
    } else if lost * 10 < total {
        NetworkGrade::Fair
    } else {
        NetworkGrade::Poor
    }
}

/// The frames that a gap swallowed: none up to three frame lengths.
pub open spec fn lost_in_gap(gap_ms: int) -> int {
    if gap_ms > 3 * LOSS_FRAME_MS {
        gap_ms / LOSS_FRAME_MS as int - 1
    } else {
        0
    }
}

impl LossEstimator {
    /// Nothing received yet.
    pub fn new(now: u64) -> (e: Self)
        ensures
            e.last is None,
            e.received == 0,
            e.lost == 0,
            e.window_start == now,
            e.grade == NetworkGrade::Good,
    {
        LossEstimator {
            last: None,
            received: 0,
            lost: 0,
            window_start: now,
            grade: NetworkGrade::Good,
        }
    }

    /// Whether the counters can take one more frame.
    pub open spec fn room(self) -> bool {
        self.received + self.lost <= u64::MAX - 32
    }

    /// Whether the counters can take one more frame.
    pub fn has_room(&self) -> (r: bool)
        ensures
            r == self.room(),
    {
        self.received as u128 + self.lost as u128 <= (u64::MAX - 32) as u128
    }

    /// Milliseconds since the frame before, where there was one.
    pub open spec fn gap_ms(self, now: u64) -> int {
        match self.last {
            Some(prev) => clock::span(now, prev) / clock::MILLI as int,
            None => 0,
        }
    }

    /// The estimate after a frame that came at `now`: a gap of more than a second starts a new
    /// window, a shorter one counts the frames that it swallowed; after ten seconds the window is
    /// graded and a new one starts.
    pub open spec fn after_frame(self, now: u64) -> LossEstimator {
        let silent = self.gap_ms(now) > RESET_GAP_MS;
        let received = if silent {
            1
        } else {
            self.received + 1
        };
        let lost = if silent {
            0
        } else {
            self.lost + lost_in_gap(self.gap_ms(now))
        };
        let start = if silent {
            now
        } else {
            self.window_start
        };
        if clock::span(now, start) >= LOSS_WINDOW {
            LossEstimator {
                last: Some(now),
                received: 0,
                lost: 0,
                window_start: now,
                grade: graded(lost, received + lost),
            }
        } else {
            LossEstimator {
                last: Some(now),
                received: received as u64,
                lost: lost as u64,
                window_start: start,
                grade: self.grade,
            }
        }
    }

    /// Takes note of a frame that came at `now`.
    pub fn observe_frame(&mut self, now: u64)
        requires
            old(self).room(),
        ensures
            *final(self) == old(self).after_frame(now),
    {
        if let Some(prev) = self.last {
            let gap_ms: u64 = clock::elapsed(now, prev) / clock::MILLI;
            if gap_ms > RESET_GAP_MS {
                self.received = 0;
                self.lost = 0;
                self.window_start = now;
            } else if gap_ms > LOSS_FRAME_MS * 3 {
                self.lost = self.lost + (gap_ms / LOSS_FRAME_MS - 1);
            }
        }
        self.last = Some(now);
        self.received = self.received + 1;
        if clock::elapsed(now, self.window_start) >= LOSS_WINDOW {
            let lost: u128 = self.lost as u128;
            let total: u128 = self.received as u128 + lost;
            self.grade = if lost * 100 < total * 3 {
                NetworkGrade::Good
            } else if lost * 10 < total {
                NetworkGrade::Fair
            } else {
                NetworkGrade::Poor
            };
            self.received = 0;
            self.lost = 0;
            self.window_start = now;
        }
    }
}

/// A frame after more than a second of silence counts no loss and starts the window anew.
pub proof fn law_silence_is_no_loss(e: LossEstimator, now: u64)
    requires
        e.gap_ms(now) > RESET_GAP_MS,
    ensures
        e.after_frame(now).lost == 0,
        e.after_frame(now).received == 1,
        e.after_frame(now).window_start == now,
        e.after_frame(now).grade == e.grade,
{
}

/// Frames that come in time lose nothing: a window without a gap of more than three frame
/// lengths is graded good.
pub proof fn law_no_gap_is_good(e: LossEstimator, now: u64)
    requires
        e.room(),
        e.lost == 0,
        e.gap_ms(now) <= 3 * LOSS_FRAME_MS,
        clock::span(now, e.window_start) >= LOSS_WINDOW,
    ensures
        e.after_frame(now).grade == NetworkGrade::Good,
{
}

/// The estimate after frames that came at the given instants, one after another.
pub open spec fn after_frames(e: LossEstimator, times: Seq<u64>) -> LossEstimator
    decreases times.len(),
{
    if times.len() == 0 {
        e
    } else {
        after_frames(e, times.drop_last()).after_frame(times.last())
    }
}

/// Whether frames follow one another, and the one before them, within three frame lengths.
pub open spec fn close_together(first: u64, times: Seq<u64>) -> bool {
    &&& times.len() > 0 ==> first <= times[0] <= first + 180_000_000
    &&& forall|i: int|
        0 <= i < times.len() - 1 ==> times[i] <= #[trigger] times[i + 1] <= times[i] + 180_000_000
}

/// A window is graded by its own frames alone: a frame that ends one after ten seconds leaves
/// nothing counted, whatever was counted before.
pub proof fn law_windows_start_empty(e: &mut LossEstimator, now: u64)
    requires
        call_ensures(LossEstimator::observe_frame, (e, now), ()),
        old(e).last matches Some(prev) ==> now <= prev + 1_000_000_000,
        now >= old(e).window_start + 10_000_000_000,
    ensures
        final(e).received == 0,
        final(e).lost == 0,
        final(e).window_start == now,
        final(e).last == Some(now),
{
}

/// Windows do not mix: two estimates whose windows end with the same frame go on alike, whatever
/// each had counted.
pub proof fn law_windows_do_not_mix(a: LossEstimator, b: LossEstimator, now: u64, times: Seq<u64>)
    requires
        a.last == b.last,
        a.last matches Some(prev) ==> now <= prev + 1_000_000_000,
        now >= a.window_start + 10_000_000_000,
        now >= b.window_start + 10_000_000_000,
    ensures
        ({
            let x = after_frames(a.after_frame(now), times);
            let y = after_frames(b.after_frame(now), times);
            &&& x.received == y.received
            &&& x.lost == y.lost
            &&& x.window_start == y.window_start
            &&& x.last == y.last
            &&& x.grade == y.grade || (x.grade == a.after_frame(now).grade && y.grade
                == b.after_frame(now).grade)
        }),
    decreases times.len(),
{
    if times.len() > 0 {
        law_windows_do_not_mix(a, b, now, times.drop_last());
    }
}

/// A window without a gap is good, whatever came before it: once a frame has ended a window, frames
/// that follow one another within three frame lengths lose nothing, and the next window that ends
/// is graded good.
pub proof fn law_clean_windows_are_good(e: LossEstimator, now: u64, times: Seq<u64>)
    requires
        e.last matches Some(prev) ==> now <= prev + 1_000_000_000,
        now >= e.window_start + 10_000_000_000,
        close_together(now, times),
        times.len() < u64::MAX,
    ensures
        ({
            let end = after_frames(e.after_frame(now), times);
            &&& end.lost == 0
            &&& end.received <= times.len()
            &&& end.last == Some(
                if times.len() == 0 {
                    now
                } else {
                    times.last()
                },
            )
            &&& end.window_start == now || end.grade == NetworkGrade::Good
            &&& now <= end.window_start <= end.last->0
            &&& end.last->0 < end.window_start + 10_000_000_000
        }),
    decreases times.len(),
{
    if times.len() > 0 {
        let before = times.drop_last();
        assert(close_together(now, before)) by {
            assert forall|i: int| 0 <= i < before.len() - 1 implies before[i]
                <= #[trigger] before[i + 1] <= before[i] + 180_000_000 by {
                assert(times[i + 1] == before[i + 1]);
            }
        }
        law_clean_windows_are_good(e, now, before);
        if times.len() > 1 {
            let i = times.len() - 2;
            assert(times[i + 1] <= times[i] + 180_000_000);
        }
    }
}

/// The frames that a gap swallows are counted: of a gap of more than three frame lengths and at
/// most a second, as many as would have come in it; of a shorter one none, and after a longer one
/// the counting starts over. Within a window the grade stays.
pub proof fn law_gaps_are_counted(e: &mut LossEstimator, now: u64)
    requires
        call_ensures(LossEstimator::observe_frame, (e, now), ()),
        old(e).received + old(e).lost <= u64::MAX - 32,
        now < old(e).window_start + 10_000_000_000,
        old(e).last matches Some(prev) && prev <= now,
    ensures
        final(e).grade == old(e).grade,
        final(e).last == Some(now),
        ({
            let gap_ms = (now - old(e).last->0) / 1_000_000;
            if gap_ms > 1000 {
                final(e).received == 1 && final(e).lost == 0 && final(e).window_start == now
            } else {
                &&& final(e).received == old(e).received + 1
                &&& final(e).window_start == old(e).window_start
                &&& final(e).lost == old(e).lost + (if gap_ms > 180 {
                    gap_ms / 60 - 1
                } else {
                    0
                })
            }
        }),
{
}

/// The grade of a window that ends without a gap: good below three lost frames in a hundred, poor
/// from ten in a hundred on, fair in between.
pub proof fn law_grade_limits(e: &mut LossEstimator, now: u64)
    requires
        call_ensures(LossEstimator::observe_frame, (e, now), ()),
        old(e).last matches Some(prev) && prev <= now <= prev + 180_000_000,
        now >= old(e).window_start + 10_000_000_000,
    ensures
        ({
            let total = old(e).received + 1 + old(e).lost;
            &&& final(e).grade == NetworkGrade::Good <==> 100 * old(e).lost < 3 * total
            &&& final(e).grade == NetworkGrade::Poor <==> 100 * old(e).lost >= 10 * total
        }),
{
}

/// The bound of the delays doubles with every attempt that fails, from a quarter of a second up to
/// thirty seconds, and a success brings it back. The delay is the draw below that bound, but 25 ms
/// at least.
pub proof fn law_backoff_doubles(b: &mut Backoff, delay: u64)
    requires
        call_ensures(Backoff::next, (b,), delay),
    ensures
        final(b).attempt == old(b).attempt + 1,
        backoff_bound(0) == 250,
        forall|a: u64|
            a < u64::MAX ==> #[trigger] backoff_bound((a + 1) as u64) == if 2 * backoff_bound(a)
                < 30_000 {
                2 * backoff_bound(a)
            } else {
                30_000
            },
        ({
            let draw = final(b).rng as int % backoff_bound(old(b).attempt);
            delay == if draw < 25 {
                25
            } else {
                draw
            }
        }),
        25 <= delay <= 30_000,
{
    reveal_with_fuel(doubled, 10);
    law_backoff_bounds(old(b).attempt, final(b).rng);
    assert forall|a: u64| a < u64::MAX implies #[trigger] backoff_bound((a + 1) as u64) == if 2
        * backoff_bound(a) < 30_000 {
        2 * backoff_bound(a)
    } else {
        30_000
    } by {
        reveal_with_fuel(doubled, 10);
    }
}

/// A failure opens the breaker exactly where another one lies less than two minutes back.
pub proof fn law_breaker_opens_on_the_second(b: &mut CircuitBreaker, now: u64, opened: bool)
    requires
        call_ensures(CircuitBreaker::record_failure, (b, now), opened),
        forall|i: int| 0 <= i < old(b).failures@.len() ==> #[trigger] old(b).failures@[i] <= now,
    ensures
        opened <==> exists|i: int|
            0 <= i < old(b).failures@.len() && now - (#[trigger] old(b).failures@[i])
                < 120_000_000_000,
        opened ==> final(b).failures@.len() == 0 && final(b).open_count == old(b).open_count + 1,
        !opened ==> final(b).failures@ == seq![now] && final(b).open_count == old(b).open_count
            && final(b).cooldown_until == old(b).cooldown_until,
{
    let f = old(b).failures@;
    let keep = |t: u64| clock::span(now, t) < FAIL_WINDOW;
    lemma_filter_has(f, keep);
    if opened {
        let kept = recent(f, now, FAIL_WINDOW);
        assert(kept.contains(kept[0]));
        let i = choose|i: int| 0 <= i < f.len() && f[i] == kept[0];
        assert(now - f[i] < 120_000_000_000);
    } else {
        assert forall|i: int| 0 <= i < f.len() implies !(now - (#[trigger] f[i])
            < 120_000_000_000) by {
            if now - f[i] < 120_000_000_000 {
                assert(f.contains(f[i]));
                assert(f.filter(keep).contains(f[i]));
            }
        }
    }
}

/// A filtered sequence holds exactly the elements that pass.
proof fn lemma_filter_has(f: Seq<u64>, keep: spec_fn(u64) -> bool)
    ensures
        forall|t: u64| #[trigger] f.filter(keep).contains(t) <==> f.contains(t) && keep(t),
    decreases f.len(),
{
    reveal(Seq::filter);
    if f.len() > 0 {
        let rest = f.drop_last();
        lemma_filter_has(rest, keep);
        assert(f =~= rest.push(f.last()));
        assert forall|t: u64| #[trigger] f.filter(keep).contains(t) <==> f.contains(t) && keep(
            t,
        ) by {
            let part = rest.filter(keep);
            if f.filter(keep).contains(t) {
                let i = choose|i: int| 0 <= i < f.filter(keep).len() && f.filter(keep)[i] == t;
                if keep(f.last()) && i == part.len() {
                    assert(f[f.len() - 1] == t);
                } else {
                    assert(part[i] == t);
                    assert(part.contains(t));
                    assert(rest.contains(t));
                    let j = choose|j: int| 0 <= j < rest.len() && rest[j] == t;
                    assert(f[j] == t);
                }
            }
            if f.contains(t) && keep(t) {
                let j = choose|j: int| 0 <= j < f.len() && f[j] == t;
                if j < rest.len() {
                    assert(rest[j] == t);
                    assert(part.contains(t));
                    let i = choose|i: int| 0 <= i < part.len() && part[i] == t;
                    assert(f.filter(keep)[i] == t);
                } else {
                    assert(f.filter(keep)[part.len() as int] == t);
                }
            }
        }
    }
}

/// Each opening in a row keeps the breaker open longer: five minutes, ten, twenty, and thirty from
/// there on; it is open up to that instant and closed from it on.
pub proof fn law_cooldowns_grow(b: &mut CircuitBreaker, now: u64, at: u64)
    requires
        call_ensures(CircuitBreaker::record_failure, (b, now), true),
        now <= LAST_INSTANT,
    ensures
        ({
            let minutes: int = if old(b).open_count == 0 {
                5
            } else if old(b).open_count == 1 {
                10
            } else if old(b).open_count == 2 {
                20
            } else {
                30
            };
            &&& final(b).cooldown_until == Some((now + minutes * 60_000_000_000) as u64)
            &&& final(b).open_at(at) <==> at < now + minutes * 60_000_000_000
        }),
{
    reveal_with_fuel(doubled, 5);
}

/// A connection that is made while no cooldown runs clears the breaker, unless a failure lies less
/// than two minutes back: that one stays on record, and with it how often the breaker has opened.
/// In a cooldown it changes nothing.
pub proof fn law_connection_clears_the_breaker(b: &mut CircuitBreaker, now: u64)
    requires
        call_ensures(CircuitBreaker::on_connection, (b, now), ()),
    ensures
        (old(b).cooldown_until matches Some(until) && now < until) ==> *final(b) == *old(b),
        !(old(b).cooldown_until matches Some(until) && now < until) ==> {
            &&& forall|t: u64| #[trigger]
                final(b).failures@.contains(t) <==> old(b).failures@.contains(t) && (now < t || now
                    - t < 120_000_000_000)
            &&& final(b).failures@.len() == 0 ==> final(b).open_count == 0
                && final(b).cooldown_until is None
            &&& final(b).failures@.len() > 0 ==> final(b).open_count == old(b).open_count
                && final(b).cooldown_until == old(b).cooldown_until
        },
{
    lemma_filter_has(old(b).failures@, |t: u64| clock::span(now, t) < STABLE_RESET);
}

/// The breaker is open exactly before the end of its cooldown.
pub proof fn law_breaker_is_open_in_the_cooldown(b: CircuitBreaker, now: u64, r: bool)
    requires
        call_ensures(CircuitBreaker::is_open, (&b, now), r),
    ensures
        r <==> (b.cooldown_until matches Some(until) && now < until),
{
}

/// A link is lost by a disconnection or a timeout, and by no other error.
pub proof fn law_lost_links(e: VoiceError, r: bool)
    requires
        call_ensures(is_transport_loss, (&e,), r),
    ensures
        r <==> e is Transport || e is Timeout,
{
}

/// Every wait is drawn anew: the generator goes on by one step of its linear recurrence, modulo
/// 2^64, and the wait is what is left of its number modulo the bound of the attempt, but 25 ms at
/// least.
pub proof fn law_waits_are_drawn(b: &mut Backoff, delay: u64)
    requires
        call_ensures(Backoff::next, (b,), delay),
    ensures
        final(b).rng as int == (old(b).rng * 6_364_136_223_846_793_005 + 1_442_695_040_888_963_407)
            % 0x1_0000_0000_0000_0000,
        ({
            let bound: int = match old(b).attempt {
                0 => 250,
                1 => 500,
                2 => 1000,
                3 => 2000,
                4 => 4000,
                5 => 8000,
                6 => 16_000,
                _ => 30_000,
            };
            let jitter = final(b).rng as int % bound;
            delay == if jitter < 25 {
                25
            } else {
                jitter
            }
        }),
        final(b).attempt == old(b).attempt + 1,
{
    let m = 0x1_0000_0000_0000_0000int;
    let p = old(b).rng * 6_364_136_223_846_793_005;
    vstd::arithmetic::div_mod::lemma_add_mod_noop(p, 1_442_695_040_888_963_407, m);
    reveal_with_fuel(doubled, 10);
}

/// A success brings the waits back: whatever failed before, the next one is below a quarter of a
/// second, as the first one is.
pub proof fn law_success_shortens_the_waits(
    a: &mut Backoff,
    b: &mut Backoff,
    delay: u64,
    n: Backoff,
    c: &mut Backoff,
    first: u64,
)
    requires
        call_ensures(Backoff::on_success, (a,), ()),
        *old(b) == *final(a),
        call_ensures(Backoff::next, (b,), delay),
        call_ensures(Backoff::new, (), n),
        *old(c) == n,
        call_ensures(Backoff::next, (c,), first),
    ensures
        25 <= delay < 250,
        25 <= first < 250,
        final(b).attempt == 1,
        final(a).rng == old(a).rng,
{
    reveal_with_fuel(doubled, 10);
}

/// A breaker starts closed, and one failure does not open it.
pub proof fn law_one_failure_is_forgiven(n: CircuitBreaker, b: &mut CircuitBreaker, now: u64, opened: bool)
    requires
        call_ensures(CircuitBreaker::new, (), n),
        *old(b) == n,
        call_ensures(CircuitBreaker::record_failure, (b, now), opened),
    ensures
        !opened,
        final(b).failures@ == seq![now],
        final(b).cooldown_until is None,
        final(b).open_count == 0,
{
    reveal(Seq::filter);
}

} // verus!
