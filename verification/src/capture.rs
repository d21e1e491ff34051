use vstd::prelude::*;

verus! {

/// How fast and how long to pace frames.
#[derive(Clone, Copy, Debug)]
pub struct CaptureTuning {
    pub target_fps: u32,
    pub probe_seconds: u64,
}

/// Nanoseconds in a microsecond and in a second.
pub const NANOS_PER_MICRO: u128 = 1000;
pub const NANOS_PER_SEC: u128 = 1_000_000_000;

/// The frame interval at a frame rate, in whole microseconds.
pub open spec fn spec_frame_interval_micros(target_fps: u32) -> u64
    recommends
        target_fps > 0,
{
    (1_000_000int / (target_fps as int)) as u64
}

/// The frame interval at `target_fps`, in whole microseconds.
pub fn frame_interval_micros(target_fps: u32) -> (r: u64)
    requires
        target_fps > 0,
    ensures
        r == spec_frame_interval_micros(target_fps),
        r <= 1_000_000,
        r * target_fps <= 1_000_000 < (r + 1) * target_fps,
{
    proof {
        law_frame_interval_is_whole_micros_per_frame(target_fps);
    }
    1_000_000u64 / (target_fps as u64)
}

/// What the pacing loop does after a tick.
#[derive(Clone, Copy, Debug, PartialEq, Eq, Structural)]
pub enum PacingAction {
    /// Sleep this many nanoseconds: the next tick lies ahead.
    Sleep { nanos: u128 },
    /// The next tick is already due: read the clock again and resynchronise
    /// the schedule to it, so that lag does not accumulate.
    Resync,
}

/// The frame pacing schedule of a probe. Times are nanoseconds since the
/// start of the probe, read from a monotonic clock.
#[derive(Clone, Copy, Debug)]
pub struct FramePacer {
    /// The frame interval.
    pub interval_nanos: u128,
    /// The probe runs while less time than this has passed.
    pub deadline_nanos: u128,
    /// When the last scheduled tick is due.
    pub next_tick_nanos: u128,
    /// Frames produced so far.
    pub frames: u64,
}

impl FramePacer {
    /// Never more frames than the schedule allows: every counted frame took
    /// one interval of the schedule.
    pub open spec fn wf(&self) -> bool {
        self.frames * self.interval_nanos <= self.next_tick_nanos
    }

    /// The schedule at the start of a probe: the first tick is due at the
    /// start, nothing produced yet.
    pub fn new(tuning: CaptureTuning) -> (p: FramePacer)
        requires
            tuning.target_fps > 0,
        ensures
            p.interval_nanos == spec_frame_interval_micros(tuning.target_fps) as int * 1000,
            p.deadline_nanos == tuning.probe_seconds as int * 1_000_000_000,
            p.next_tick_nanos == 0,
            p.frames == 0,
            p.wf(),
    {
        let micros: u64 = frame_interval_micros(tuning.target_fps);
        FramePacer {
            interval_nanos: (micros as u128) * NANOS_PER_MICRO,
            deadline_nanos: (tuning.probe_seconds as u128) * NANOS_PER_SEC,
            next_tick_nanos: 0,
            frames: 0,
        }
    }

    /// Whether the probe goes on after `elapsed_nanos`.
    pub fn keep_running(&self, elapsed_nanos: u128) -> (b: bool)
        ensures
            b == (elapsed_nanos < self.deadline_nanos),
    {
        elapsed_nanos < self.deadline_nanos
    }

    /// Schedules the next tick one interval after the last one and counts a
    /// frame. Where the new tick lies after `now_nanos`, the loop sleeps until
    /// it; else the loop is late and resynchronises.
    pub fn tick(&mut self, now_nanos: u128) -> (action: PacingAction)
        requires
            old(self).wf(),
            old(self).next_tick_nanos + old(self).interval_nanos <= u128::MAX,
            old(self).frames < u64::MAX,
        ensures
            final(self).wf(),
            old(self).next_tick_nanos < old(self).deadline_nanos ==> final(self).frames
                * final(self).interval_nanos < final(self).deadline_nanos
                + final(self).interval_nanos,
            final(self).interval_nanos == old(self).interval_nanos,
            final(self).deadline_nanos == old(self).deadline_nanos,
            final(self).frames == old(self).frames + 1,
            final(self).next_tick_nanos == old(self).next_tick_nanos + old(self).interval_nanos,
            final(self).next_tick_nanos > now_nanos ==> action == (PacingAction::Sleep {
                nanos: (final(self).next_tick_nanos - now_nanos) as u128,
            }),
            final(self).next_tick_nanos <= now_nanos ==> action == PacingAction::Resync,
            action matches PacingAction::Sleep { nanos } ==> nanos > 0 && now_nanos + nanos
                == final(self).next_tick_nanos,
            old(self).next_tick_nanos <= now_nanos ==> (action matches PacingAction::Sleep {
                nanos,
            } ==> nanos <= old(self).interval_nanos),
    {
        proof {
            let f = self.frames as int;
            let i = self.interval_nanos as int;
            assert((f + 1) * i == f * i + i) by (nonlinear_arith);
        }
        self.next_tick_nanos = self.next_tick_nanos + self.interval_nanos;
        self.frames = self.frames + 1;
        if self.next_tick_nanos > now_nanos {
            PacingAction::Sleep { nanos: self.next_tick_nanos - now_nanos }
        } else {
            PacingAction::Resync
        }
    }

    /// Moves the schedule to `now_nanos`, dropping the lag. The schedule is
    /// only ever moved forward: `now_nanos` is not before the tick that fell
    /// due.
    pub fn resync(&mut self, now_nanos: u128)
        requires
            old(self).wf(),
            old(self).next_tick_nanos <= now_nanos,
        ensures
            final(self).wf(),
            final(self).next_tick_nanos == now_nanos,
            final(self).interval_nanos == old(self).interval_nanos,
            final(self).deadline_nanos == old(self).deadline_nanos,
            final(self).frames == old(self).frames,
    {
        self.next_tick_nanos = now_nanos;
    }
}

/// The frame interval is the whole number of microseconds in one frame at the
/// target rate: that many intervals fit in a second, one more does not.
pub proof fn law_frame_interval_is_whole_micros_per_frame(target_fps: u32)
    requires
        target_fps > 0,
    ensures
        spec_frame_interval_micros(target_fps) * target_fps <= 1_000_000,
        1_000_000 < (spec_frame_interval_micros(target_fps) + 1) * target_fps,
{
    let f = target_fps as int;
    let q = 1_000_000int / f;
    let r = 1_000_000int % f;
    assert(1_000_000int == q * f + r && 0 <= r < f && 0 <= q <= 1_000_000) by (nonlinear_arith)
        requires
            f > 0,
            q == 1_000_000int / f,
            r == 1_000_000int % f,
    ;
    assert((q + 1) * f == q * f + f) by (nonlinear_arith);
}

/// Whether a probe of `probe_seconds` goes on after `elapsed_nanos`.
pub fn probe_running(probe_seconds: u64, elapsed_nanos: u128) -> (b: bool)
    ensures
        b == (elapsed_nanos < probe_seconds as int * 1_000_000_000),
{
    elapsed_nanos < (probe_seconds as u128) * NANOS_PER_SEC
}

/// A probe whose ticks were all scheduled before its deadline produces at most
/// the deadline divided by the interval, rounded up, frames: frames never come
/// faster than one per interval.
pub proof fn law_frames_at_most_one_per_interval(frames: int, interval: int, deadline: int)
    requires
        frames >= 0,
        interval > 0,
        deadline >= 0,
        frames * interval < deadline + interval,
    ensures
        frames <= (deadline + interval - 1) / interval,
{
    let n: int = deadline + interval - 1;
    let c: int = n / interval;
    let r: int = n % interval;
    assert(n == c * interval + r && 0 <= r < interval) by (nonlinear_arith)
        requires
            interval > 0,
            n >= 0,
            c == n / interval,
            r == n % interval,
    ;
    if frames > c {
        assert(frames * interval >= (c + 1) * interval) by (nonlinear_arith)
            requires
                frames >= c + 1,
                interval > 0,
        ;
        assert((c + 1) * interval == c * interval + interval) by (nonlinear_arith);
    }
}

} // verus!
