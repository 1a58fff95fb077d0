//! Frame timing: the time each frame took and a frame rate measured once per second.
use vstd::prelude::*;
use web_time::Instant;

verus! {

/// web_time::Instant (std's own on native targets), held opaquely as a timer's origin.
#[verifier::external_type_specification]
#[verifier::external_body]
pub struct ExInstant(Instant);

/// Relies on web_time::Instant::now: reads the monotonic clock; nothing is known of the result.
#[verifier::external_body]
fn clock_now() -> (r: Instant) {
    Instant::now()
}

/// Relies on web_time::Instant::elapsed: the time passed since `origin`, in whole
/// nanoseconds; it depends on the clock, so nothing is known of its value.
#[verifier::external_body]
fn nanos_since(origin: &Instant) -> (r: u128) {
    origin.elapsed().as_nanos()
}

/// Nanoseconds in one second.
pub const NANOS_PER_SECOND: u64 = 1_000_000_000;

/// The bookkeeping of a frame timer, with times in nanoseconds since the timer was made.
#[derive(Debug, Clone, Copy, PartialEq, Eq, Structural)]
pub struct TimerState {
    /// Frames counted since the last measurement.
    pub frame_count: u32,
    /// How long the previous frame took.
    pub delta_nanos: u64,
    /// Frames counted in the last completed measurement.
    pub fps_frames: u32,
    /// How long the last completed measurement lasted; zero before the first.
    pub fps_window_nanos: u64,
    /// When the previous frame was ticked.
    pub last_frame: u64,
    /// When the last measurement ended.
    pub last_second: u64,
}

impl TimerState {
    /// The state of a timer that has not ticked yet.
    pub open spec fn start() -> TimerState {
        TimerState {
            frame_count: 0,
            delta_nanos: 0,
            fps_frames: 0,
            fps_window_nanos: 0,
            last_frame: 0,
            last_second: 0,
        }
    }

    /// The time from the last measurement to `now`; zero if the clock seems to run backwards.
    pub open spec fn since_measurement(self, now: u64) -> u64 {
        if now >= self.last_second {
            (now - self.last_second) as u64
        } else {
            0
        }
    }

    /// Whether a tick at time `now` ends a measurement: more than a second has passed.
    pub open spec fn measures(self, now: u64) -> bool {
        self.since_measurement(now) > NANOS_PER_SECOND
    }

    /// The state after a tick at time `now`: the frame is counted (saturating), the
    /// delta is the time since the previous tick (zero if the clock seems to run
    /// backwards), and when the tick ends a measurement, the count and the time it
    /// took are recorded and the count restarts from zero.
    pub open spec fn ticked(self, now: u64) -> TimerState {
        let count: u32 = if self.frame_count == u32::MAX {
            u32::MAX
        } else {
            (self.frame_count + 1) as u32
        };
        let delta: u64 = if now >= self.last_frame {
            (now - self.last_frame) as u64
        } else {
            0
        };
        if self.measures(now) {
            TimerState {
                frame_count: 0,
                delta_nanos: delta,
                fps_frames: count,
                fps_window_nanos: self.since_measurement(now),
                last_frame: now,
                last_second: now,
            }
        } else {
            TimerState { frame_count: count, delta_nanos: delta, last_frame: now, ..self }
        }
    }

    /// The state after ticks at each of `times`, in order.
    pub open spec fn ticked_all(self, times: Seq<u64>) -> TimerState
        decreases times.len(),
    {
        if times.len() == 0 {
            self
        } else {
            self.ticked_all(times.drop_last()).ticked(times.last())
        }
    }
}

proof fn lemma_ticks_within_second(start: TimerState, times: Seq<u64>, m: nat)
    requires
        start.frame_count == 0,
        m <= times.len() < u32::MAX,
        forall|i: int| 0 <= i < m ==> !start.measures(#[trigger] times[i]),
    ensures
        start.ticked_all(times.take(m as int)).frame_count == m,
        start.ticked_all(times.take(m as int)).last_second == start.last_second,
    decreases m,
{
    if m > 0 {
        lemma_ticks_within_second(start, times, (m - 1) as nat);
        assert(times.take(m as int).drop_last() =~= times.take(m - 1));
        assert(times.take(m as int).last() == times[m - 1]);
    }
}

/// A run of ticks, counted from a measurement, whose last tick is the first to
/// come more than a second after that measurement, is measured exactly: the
/// frames recorded are the number of ticks, the time recorded runs from the
/// measurement to the last tick, and the frame count starts again from zero.
pub proof fn lemma_measurement_counts_ticks(start: TimerState, times: Seq<u64>)
    requires
        start.frame_count == 0,
        0 < times.len() < u32::MAX,
        forall|i: int| 0 <= i < times.len() - 1 ==> !start.measures(#[trigger] times[i]),
        start.measures(times.last()),
    ensures
        start.ticked_all(times).frame_count == 0,
        start.ticked_all(times).fps_frames == times.len(),
        start.ticked_all(times).fps_window_nanos == times.last() - start.last_second,
        start.ticked_all(times).last_second == times.last(),
{
    let m = (times.len() - 1) as nat;
    lemma_ticks_within_second(start, times, m);
    assert(times.drop_last() =~= times.take(m as int));
}

/// Manages all state related to frame timings.
pub struct FrameTimer {
    state: TimerState,
    origin: Instant,
}

impl View for FrameTimer {
    type V = TimerState;

    closed spec fn view(&self) -> TimerState {
        self.state
    }
}

impl FrameTimer {
    /// Creates a new [`FrameTimer`] whose clock starts now.
    pub fn new() -> (r: FrameTimer)
        ensures
            r@ == TimerState::start(),
    {
        FrameTimer {
            state: TimerState {
                frame_count: 0,
                delta_nanos: 0,
                fps_frames: 0,
                fps_window_nanos: 0,
                last_frame: 0,
                last_second: 0,
            },
            origin: clock_now(),
        }
    }

    /// Updates the timer for a frame ticked `now` nanoseconds after it was made.
    /// Returns whether a new frame rate was measured.
    pub fn tick_at(&mut self, now: u64) -> (measured: bool)
        ensures
            final(self)@ == old(self)@.ticked(now),
            measured == old(self)@.measures(now),
    {
        let s = self.state;
        let count: u32 = if s.frame_count == u32::MAX {
            u32::MAX
        } else {
            s.frame_count + 1
        };
        let delta: u64 = if now >= s.last_frame {
            now - s.last_frame
        } else {
            0
        };
        let since: u64 = if now >= s.last_second {
            now - s.last_second
        } else {
            0
        };
        if since > NANOS_PER_SECOND {
            self.state = TimerState {
                frame_count: 0,
                delta_nanos: delta,
                fps_frames: count,
                fps_window_nanos: since,
                last_frame: now,
                last_second: now,
            };
            true
        } else {
            self.state = TimerState { frame_count: count, delta_nanos: delta, last_frame: now, ..s };
            false
        }
    }

    /// Updates the timer. Should be called once per frame.
    /// Returns whether a new frame rate was measured.
    pub fn tick(&mut self) -> (measured: bool)
        ensures
            exists|now: u64|
                #[trigger] old(self)@.ticked(now) == final(self)@ && measured == old(self)@.measures(
                    now,
                ),
    {
        let elapsed = nanos_since(&self.origin);
        let now: u64 = if elapsed > u64::MAX as u128 {
            u64::MAX
        } else {
            elapsed as u64
        };
        self.tick_at(now)
    }

    /// How long the previous frame took, in nanoseconds.
    pub fn dt_nanos(&self) -> (r: u64)
        ensures
            r == self@.delta_nanos,
    {
        self.state.delta_nanos
    }

    /// The frames counted since the last measurement.
    pub fn frame_count(&self) -> (r: u32)
        ensures
            r == self@.frame_count,
    {
        self.state.frame_count
    }

    /// The last measurement: the frames counted and the nanoseconds they took.
    /// Both are zero before the first measurement.
    pub fn fps_sample(&self) -> (r: (u32, u64))
        ensures
            r == (self@.fps_frames, self@.fps_window_nanos),
    {
        (self.state.fps_frames, self.state.fps_window_nanos)
    }
}

impl Default for FrameTimer {
    fn default() -> (r: FrameTimer)
        ensures
            r@ == TimerState::start(),
    {
        FrameTimer::new()
    }
}

} // verus!
