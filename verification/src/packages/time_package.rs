//! Frame timing: the time since start, the rate of the most recent frame,
//! and a bounded history of recent rates.
//!
//! Times are whole nanoseconds since the tracker was made. Rates are whole
//! millihertz (thousandths of a frame per second).

use vstd::prelude::*;
use std::collections::VecDeque;
use std::time::Duration;
use std::time::Instant;

verus! {

/// A monotonic clock reading of std. Verus sees nothing inside it.
#[verifier::external_type_specification]
#[verifier::external_body]
pub struct ExInstant(Instant);

/// `Instant::now` of std reads the monotonic clock. Nothing is claimed of
/// the reading.
pub assume_specification[ Instant::now ]() -> (r: Instant);

/// `Instant::elapsed` of std gives the time since the instant was read.
/// Nothing is claimed of the result.
pub assume_specification[ Instant::elapsed ](start: &Instant) -> (r: Duration);

/// `Duration::as_nanos` of std gives a duration in whole nanoseconds.
/// Nothing is claimed of the result.
pub assume_specification[ Duration::as_nanos ](d: &Duration) -> (r: u128);

/// Millihertz in one frame per nanosecond.
pub const MILLIHERTZ_PER_TICK: u64 = 1_000_000_000_000;

/// The rate, in millihertz, of a frame that took `dt` nanoseconds. A frame
/// is taken to last at least one nanosecond.
pub open spec fn frame_rate(dt: nat) -> u64 {
    (MILLIHERTZ_PER_TICK as nat / (if dt == 0 { 1 } else { dt })) as u64
}

/// The last `n` items of a sequence, in their order, or all of them where
/// it has no more than `n`.
pub open spec fn keep_last<T>(s: Seq<T>, n: nat) -> Seq<T> {
    if s.len() <= n {
        s
    } else {
        s.subrange(s.len() - n, s.len() as int)
    }
}

/// What a time tracker stands for.
#[verifier::ext_equal]
pub struct TimeView {
    /// The clock reading from which the tracker counts, where the tracker
    /// has a clock of its own.
    pub start_time: Option<Instant>,
    /// The largest number of samples the history keeps.
    pub capacity: nat,
    /// Nanoseconds from the start to the most recent frame.
    pub elapsed: u64,
    /// The rate of the most recent frame, zero before the first.
    pub fps: u64,
    /// The rates of the most recent frames, oldest first.
    pub past_fps: Seq<u64>,
}

impl TimeView {
    /// The history never outgrows the capacity.
    pub open spec fn wf(self) -> bool {
        self.past_fps.len() <= self.capacity
    }

    /// A tracker that counts from `start_time` and has seen no frame.
    pub open spec fn initial(start_time: Option<Instant>, capacity: nat) -> TimeView {
        TimeView { start_time, capacity, elapsed: 0, fps: 0, past_fps: Seq::empty() }
    }

    /// The time of a frame reported at `now`: a reading that lies before
    /// the most recent frame counts as the time of that frame, so time
    /// never runs backwards.
    pub open spec fn frame_time(self, now: u64) -> u64 {
        if now > self.elapsed {
            now
        } else {
            self.elapsed
        }
    }

    /// The rate of a frame reported at `now`.
    pub open spec fn rate_at(self, now: u64) -> u64 {
        frame_rate((self.frame_time(now) - self.elapsed) as nat)
    }

    /// The tracker after a frame reported at `now`: the frame's rate becomes
    /// the current rate and the newest sample, and the oldest sample leaves
    /// where the history would outgrow the capacity. The start and the
    /// capacity stay.
    pub open spec fn advanced(self, now: u64) -> TimeView {
        TimeView {
            start_time: self.start_time,
            capacity: self.capacity,
            elapsed: self.frame_time(now),
            fps: self.rate_at(now),
            past_fps: keep_last(self.past_fps.push(self.rate_at(now)), self.capacity),
        }
    }

    /// The tracker after one frame at each of `stamps`, in their order.
    pub open spec fn replay(self, stamps: Seq<u64>) -> TimeView
        decreases stamps.len(),
    {
        if stamps.len() == 0 {
            self
        } else {
            self.replay(stamps.drop_last()).advanced(stamps.last())
        }
    }

    /// The rate of every frame of `stamps`, in their order.
    pub open spec fn rates(self, stamps: Seq<u64>) -> Seq<u64>
        decreases stamps.len(),
    {
        if stamps.len() == 0 {
            Seq::empty()
        } else {
            self.rates(stamps.drop_last()).push(self.replay(stamps).fps)
        }
    }
}

/// Keeping the last `n` items after every push leaves what keeping the last
/// `n` items of all that was pushed leaves.
pub proof fn lemma_keep_last_push<T>(s: Seq<T>, x: T, n: nat)
    ensures
        keep_last(keep_last(s, n).push(x), n) =~= keep_last(s.push(x), n),
{
}

/// One frame of a well-formed tracker. The start and the capacity stay.
/// Elapsed time does not decrease, and is the reading itself where the
/// reading is not before the most recent frame. The history grows by the
/// frame's rate, which comes last, and loses at most one sample, the
/// oldest, and only when it was full; the samples that stay keep their
/// order.
pub proof fn lemma_one_frame(before: TimeView, now: u64)
    requires
        before.wf(),
    ensures
        ({
            let after = before.advanced(now);
            let evicted = before.past_fps.len() + 1 - after.past_fps.len();
            &&& after.wf()
            &&& after.start_time == before.start_time
            &&& after.capacity == before.capacity
            &&& after.elapsed >= before.elapsed
            &&& now >= before.elapsed ==> after.elapsed == now
            &&& after.fps == before.rate_at(now)
            &&& after.past_fps.len() == if before.past_fps.len() < before.capacity {
                before.past_fps.len() + 1
            } else {
                before.capacity
            }
            &&& 0 <= evicted <= 1
            &&& evicted == 1 ==> before.past_fps.len() == before.capacity
            &&& before.capacity > 0 ==> after.past_fps.last() == after.fps
            &&& forall|i: int|
                0 <= i < after.past_fps.len() - 1 ==> after.past_fps[i] == before.past_fps[i
                    + evicted]
        }),
{
}

/// After any number of frames the history holds the rates of the most
/// recent frames, oldest first, and no more of them than the capacity
/// allows: it is the tail of everything the tracker held at the start
/// followed by the rate of every frame since.
pub proof fn lemma_history_is_recent(start: TimeView, stamps: Seq<u64>)
    requires
        start.wf(),
    ensures
        start.replay(stamps).wf(),
        start.replay(stamps).capacity == start.capacity,
        start.replay(stamps).start_time == start.start_time,
        start.replay(stamps).past_fps == keep_last(
            start.past_fps + start.rates(stamps),
            start.capacity,
        ),
        start.rates(stamps).len() == stamps.len(),
    decreases stamps.len(),
{
    if stamps.len() == 0 {
        assert(start.past_fps + start.rates(stamps) =~= start.past_fps);
    } else {
        let before = start.replay(stamps.drop_last());
        let rate = before.rate_at(stamps.last());
        lemma_history_is_recent(start, stamps.drop_last());
        let all = start.past_fps + start.rates(stamps.drop_last());
        lemma_keep_last_push(all, rate, start.capacity);
        assert(start.past_fps + start.rates(stamps) =~= all.push(rate));
    }
}

/// A tracker that starts empty holds, after `n` frames, the rates of the
/// last `min(n, capacity)` of them.
pub proof fn lemma_history_from_start(
    start_time: Option<Instant>,
    capacity: nat,
    stamps: Seq<u64>,
)
    ensures
        ({
            let start = TimeView::initial(start_time, capacity);
            let end = start.replay(stamps);
            &&& end.past_fps == keep_last(start.rates(stamps), capacity)
            &&& end.past_fps.len() == if stamps.len() <= capacity {
                stamps.len()
            } else {
                capacity
            }
        }),
{
    let start = TimeView::initial(start_time, capacity);
    lemma_history_is_recent(start, stamps);
    assert(start.past_fps + start.rates(stamps) =~= start.rates(stamps));
}

/// Elapsed time never decreases: not with one frame, and not over any run
/// of frames.
pub proof fn lemma_elapsed_monotonic(start: TimeView, stamps: Seq<u64>, k: int)
    requires
        0 <= k <= stamps.len(),
    ensures
        start.elapsed <= start.replay(stamps.take(k)).elapsed <= start.replay(stamps).elapsed,
    decreases stamps.len() - k,
{
    if k == stamps.len() {
        assert(stamps.take(k) =~= stamps);
        lemma_elapsed_from(start, stamps);
    } else {
        lemma_elapsed_monotonic(start, stamps, k + 1);
        assert(stamps.take(k + 1).drop_last() =~= stamps.take(k));
        lemma_elapsed_from(start, stamps.take(k));
    }
}

/// A run of frames ends no earlier than it starts.
pub proof fn lemma_elapsed_from(start: TimeView, stamps: Seq<u64>)
    ensures
        start.elapsed <= start.replay(stamps).elapsed,
    decreases stamps.len(),
{
    if stamps.len() > 0 {
        lemma_elapsed_from(start, stamps.drop_last());
    }
}

/// The time tracker: when the shell started, when the most recent frame
/// came, how fast it came, and how fast the frames before it came.
///
/// On a host whose standard library has a monotonic clock the tracker reads
/// it. On a host without one the tracker is made without a clock, and the
/// caller hands in the time.
pub struct TimePackage {
    start_time: Option<Instant>,
    elapsed: u64,
    fps: u64,
    past_fps: VecDeque<u64>,
    capacity: usize,
}

impl View for TimePackage {
    type V = TimeView;

    closed spec fn view(&self) -> TimeView {
        TimeView {
            start_time: self.start_time,
            capacity: self.capacity as nat,
            elapsed: self.elapsed,
            fps: self.fps,
            past_fps: self.past_fps@,
        }
    }
}

impl TimePackage {
    /// A tracker that starts now by the monotonic clock, has seen no frame,
    /// and keeps up to `capacity` samples.
    pub fn new(capacity: usize) -> (r: TimePackage)
        ensures
            r@.start_time is Some,
            r@ == TimeView::initial(r@.start_time, capacity as nat),
            r@.wf(),
    {
        TimePackage {
            start_time: Some(Instant::now()),
            elapsed: 0,
            fps: 0,
            past_fps: VecDeque::new(),
            capacity,
        }
    }

    /// A tracker without a clock of its own that has seen no frame and
    /// keeps up to `capacity` samples. It never reads the monotonic clock.
    pub fn without_clock(capacity: usize) -> (r: TimePackage)
        ensures
            r@ == TimeView::initial(None, capacity as nat),
            r@.wf(),
    {
        TimePackage { start_time: None, elapsed: 0, fps: 0, past_fps: VecDeque::new(), capacity }
    }

    /// Nanoseconds since the tracker was made, by the monotonic clock; the
    /// largest `u64` where they no longer fit. For a tracker without a
    /// clock time stands still: the reading is the time of the most recent
    /// frame.
    pub fn now(&self) -> (r: u64)
        ensures
            self@.start_time is None ==> r == self@.elapsed,
    {
        match &self.start_time {
            Some(start_time) => {
                let since_start = start_time.elapsed();
                clamp_nanos(since_start.as_nanos())
            },
            None => self.elapsed,
        }
    }

    /// Counts a frame at `now` nanoseconds since the start.
    pub fn advance(&mut self, now: u64)
        requires
            old(self)@.wf(),
        ensures
            final(self)@ == old(self)@.advanced(now),
            final(self)@.wf(),
    {
        let t = if now > self.elapsed { now } else { self.elapsed };
        let dt = t - self.elapsed;
        let rate = MILLIHERTZ_PER_TICK / (if dt == 0 { 1 } else { dt });
        self.elapsed = t;
        self.fps = rate;
        if self.capacity > 0 {
            if self.past_fps.len() >= self.capacity {
                self.past_fps.pop_front();
            }
            self.past_fps.push_back(rate);
        }
        assert(final(self)@.past_fps =~= old(self)@.advanced(now).past_fps);
    }

    /// Counts a frame at the present moment. The tracker ends as `advance`
    /// leaves it for the clock's reading, whatever that reading is; for a
    /// tracker without a clock that is the time of the most recent frame.
    pub fn update(&mut self)
        requires
            old(self)@.wf(),
        ensures
            exists|now: u64| final(self)@ == old(self)@.advanced(now),
            old(self)@.start_time is None ==> final(self)@ == old(self)@.advanced(
                old(self)@.elapsed,
            ),
            final(self)@.wf(),
    {
        let now = self.now();
        self.advance(now);
    }

    /// The rate of the most recent frame in millihertz, zero before the
    /// first frame.
    pub fn fps(&self) -> (r: u64)
        ensures
            r == self@.fps,
    {
        self.fps
    }

    /// Nanoseconds from the start to the most recent frame.
    pub fn elapsed(&self) -> (r: u64)
        ensures
            r == self@.elapsed,
    {
        self.elapsed
    }

    /// The largest number of samples the history keeps.
    pub fn capacity(&self) -> (r: usize)
        ensures
            r == self@.capacity,
    {
        self.capacity
    }

    /// The rates of the most recent frames in millihertz, oldest first.
    pub fn past_fps(&self) -> (r: Vec<u64>)
        ensures
            r@ == self@.past_fps,
    {
        let mut out: Vec<u64> = Vec::new();
        let mut i: usize = 0;
        while i < self.past_fps.len()
            invariant
                0 <= i <= self.past_fps@.len(),
                out@ == self.past_fps@.take(i as int),
            decreases self.past_fps@.len() - i,
        {
            out.push(self.past_fps[i]);
            assert(self.past_fps@.take(i as int).push(self.past_fps@[i as int])
                =~= self.past_fps@.take(i as int + 1));
            i = i + 1;
        }
        assert(self.past_fps@.take(i as int) =~= self.past_fps@);
        out
    }
}

/// A count of nanoseconds as the tracker keeps it: the count itself where
/// it fits in 64 bits, and the largest 64-bit value where it does not.
pub open spec fn nanos_in_u64(nanos: u128) -> u64 {
    if nanos > u64::MAX {
        u64::MAX
    } else {
        nanos as u64
    }
}

/// Brings a clock reading in nanoseconds into the tracker's 64 bits. A
/// reading that does not fit, which takes more than five centuries, counts
/// as the largest value that does.
pub fn clamp_nanos(nanos: u128) -> (r: u64)
    ensures
        r == nanos_in_u64(nanos),
{
    if nanos > 0xffff_ffff_ffff_ffff_u128 {
        u64::MAX
    } else {
        nanos as u64
    }
}

} // verus!
