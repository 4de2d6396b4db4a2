use vstd::prelude::*;

verus! {

/// Feet per metre, times one hundred (one metre is taken as 3.28 feet).
pub const FEET_PER_METRE_X100: i64 = 328;

/// Chute deploy threshold, in feet (about 304.9 m).
pub const CHUTE_DEPLOY_FEET: i64 = 1000;

/// Balloon release threshold, in feet (about 457.3 m).
pub const BALLOON_RELEASE_FEET: i64 = 1500;

/// Balloon pop threshold, in feet (about 548.8 m).
pub const BALLOON_POP_FEET: i64 = 1800;

/// Rocket launch threshold, in feet (about 609.8 m).
pub const ROCKET_FEET: i64 = 2000;

/// An altitude of `alt_mm` millimetres lies at or below `feet` feet.
pub open spec fn at_or_below(alt_mm: int, feet: int) -> bool {
    alt_mm * 328 <= feet * 100_000
}

/// An altitude of `alt_mm` millimetres lies at or above `feet` feet.
pub open spec fn at_or_above(alt_mm: int, feet: int) -> bool {
    alt_mm * 328 >= feet * 100_000
}

/// Whether `alt_mm` millimetres is at or below `feet` feet, compared exactly.
pub fn is_at_or_below(alt_mm: i32, feet: i64) -> (r: bool)
    requires
        0 <= feet <= 1_000_000,
    ensures
        r == at_or_below(alt_mm as int, feet as int),
{
    (alt_mm as i64) * FEET_PER_METRE_X100 <= feet * 100_000
}

/// Whether `alt_mm` millimetres is at or above `feet` feet, compared exactly.
pub fn is_at_or_above(alt_mm: i32, feet: i64) -> (r: bool)
    requires
        0 <= feet <= 1_000_000,
    ensures
        r == at_or_above(alt_mm as int, feet as int),
{
    (alt_mm as i64) * FEET_PER_METRE_X100 >= feet * 100_000
}

/// `m / d` rounded up, for `m >= 0` and `d > 0`.
pub open spec fn ceil_div(m: int, d: int) -> int {
    if m % d == 0 {
        m / d
    } else {
        m / d + 1
    }
}

/// Vertical rate in millimetres per second for a climb of `climb_mm` over
/// `elapsed_ms` milliseconds, rounded away from zero so that any motion
/// gives a rate of its own sign.
pub open spec fn rate_of(climb_mm: int, elapsed_ms: int) -> int {
    if climb_mm >= 0 {
        ceil_div(climb_mm * 1000, elapsed_ms)
    } else {
        -ceil_div(-climb_mm * 1000, elapsed_ms)
    }
}

/// The magnitude of a rate: `mag / elapsed` rounded up; positive exactly
/// when `mag` is.
fn ceil_quotient(mag: u64, elapsed: u64) -> (q: u64)
    requires
        elapsed >= 1,
        mag <= 5_000_000_000_000,
    ensures
        q == ceil_div(mag as int, elapsed as int),
        q <= mag,
        q > 0 <==> mag > 0,
{
    let q: u64 = mag / elapsed;
    let rem: u64 = mag % elapsed;
    assert(q <= mag && q * elapsed + rem == mag && rem < elapsed) by (nonlinear_arith)
        requires
            elapsed >= 1,
            q == mag / elapsed,
            rem == mag % elapsed,
    ;
    if rem != 0 {
        assert(q < mag) by (nonlinear_arith)
            requires
                elapsed >= 1,
                q * elapsed + rem == mag,
                rem > 0,
                rem < elapsed,
        ;
        q + 1
    } else {
        assert(mag > 0 ==> q > 0) by (nonlinear_arith)
            requires
                q * elapsed == mag,
        ;
        q
    }
}

/// One altitude reading and the time at which it was taken.
#[derive(Clone, Copy, Debug, PartialEq, Eq, Structural)]
pub struct AltitudeReading {
    pub altitude_mm: i32,
    pub time_ms: u64,
}

/// The vertical rate between two readings; `None` unless time has passed
/// between them.
pub open spec fn rate_between(previous: AltitudeReading, current: AltitudeReading) -> Option<int> {
    if current.time_ms > previous.time_ms {
        Some(
            rate_of(
                current.altitude_mm - previous.altitude_mm,
                current.time_ms - previous.time_ms,
            ),
        )
    } else {
        None
    }
}

/// Vertical rate in millimetres per second from `previous` to `current`,
/// rounded away from zero. `None` when the timestamps give no positive
/// interval, so that no division by zero can occur.
pub fn vertical_rate(previous: AltitudeReading, current: AltitudeReading) -> (r: Option<i64>)
    ensures
        r matches Some(v) ==> rate_between(previous, current) == Some(v as int),
        r is None <==> rate_between(previous, current) is None,
        r matches Some(v) ==> {
            &&& v > 0 <==> current.altitude_mm > previous.altitude_mm
            &&& v < 0 <==> current.altitude_mm < previous.altitude_mm
        },
{
    if current.time_ms <= previous.time_ms {
        return None;
    }
    let elapsed: u64 = current.time_ms - previous.time_ms;
    let climb: i64 = current.altitude_mm as i64 - previous.altitude_mm as i64;
    if climb >= 0 {
        let q: u64 = ceil_quotient((climb as u64) * 1000, elapsed);
        Some(q as i64)
    } else {
        let q: u64 = ceil_quotient(((-climb) as u64) * 1000, elapsed);
        Some(-(q as i64))
    }
}

/// Number of control-loop iterations per altitude read.
pub const SAMPLE_CADENCE: u16 = 256;

/// Failed reads in a row after which the last altitude counts as stale.
pub const MAX_FAILED_READS: u8 = 3;

/// The last two readings taken, one cadence tick apart.
#[derive(Clone, Copy, Debug, PartialEq, Eq, Structural)]
pub struct AltitudeSample {
    pub previous: Option<AltitudeReading>,
    pub current: Option<AltitudeReading>,
}

impl AltitudeSample {
    /// A previous reading exists only beside a current one.
    pub open spec fn wf(self) -> bool {
        self.previous is Some ==> self.current is Some
    }

    /// The vertical rate between the two readings, when both exist and time
    /// has passed between them.
    pub open spec fn rate_spec(self) -> Option<int> {
        match (self.previous, self.current) {
            (Some(p), Some(c)) => rate_between(p, c),
            _ => None,
        }
    }

    pub fn empty() -> (r: AltitudeSample)
        ensures
            r.previous is None,
            r.current is None,
    {
        AltitudeSample { previous: None, current: None }
    }

    /// Vertical rate in millimetres per second; `None` before two readings
    /// exist or when they carry the same timestamp.
    pub fn rate(&self) -> (r: Option<i64>)
        ensures
            r matches Some(v) ==> self.rate_spec() == Some(v as int),
            r is None <==> self.rate_spec() is None,
    {
        match (self.previous, self.current) {
            (Some(p), Some(c)) => vertical_rate(p, c),
            _ => None,
        }
    }
}

/// Throttles altitude reads to one every `SAMPLE_CADENCE` iterations and
/// keeps the last two readings.
#[derive(Clone, Copy, Debug)]
pub struct AltitudeSampler {
    pub counter: u16,
    pub sample: AltitudeSample,
    pub failed_reads: u8,
}

impl AltitudeSampler {
    pub open spec fn wf(self) -> bool {
        &&& self.counter < SAMPLE_CADENCE
        &&& self.sample.wf()
    }

    /// The altitude the decisions may use: the latest reading, unless none
    /// was ever taken or too many reads in a row have failed since.
    pub open spec fn usable_altitude(self) -> Option<i32> {
        match self.sample.current {
            Some(c) if self.failed_reads <= MAX_FAILED_READS => Some(c.altitude_mm),
            _ => None,
        }
    }

    pub fn new() -> (r: AltitudeSampler)
        ensures
            r.wf(),
            r.counter == 0,
            r.sample == (AltitudeSample { previous: None, current: None }),
            r.failed_reads == 0,
    {
        AltitudeSampler { counter: 0, sample: AltitudeSample::empty(), failed_reads: 0 }
    }

    /// Advances the cadence by one loop iteration; true when a read is due,
    /// which happens once in every `SAMPLE_CADENCE` consecutive calls.
    pub fn tick(&mut self) -> (due: bool)
        requires
            old(self).wf(),
        ensures
            final(self).wf(),
            final(self).counter == (old(self).counter + 1) % (SAMPLE_CADENCE as int),
            due == (final(self).counter == 0),
            final(self).sample == old(self).sample,
            final(self).failed_reads == old(self).failed_reads,
    {
        if self.counter >= SAMPLE_CADENCE - 1 {
            self.counter = 0;
        } else {
            self.counter = self.counter + 1;
        }
        self.counter == 0
    }

    /// Stores the outcome of a read. A reading shifts the current one to
    /// previous; a failed read keeps the last good sample and counts the
    /// failure.
    pub fn record(&mut self, reading: Option<AltitudeReading>)
        requires
            old(self).wf(),
        ensures
            final(self).wf(),
            final(self).counter == old(self).counter,
            match reading {
                Some(r) => {
                    &&& final(self).sample.previous == old(self).sample.current
                    &&& final(self).sample.current == Some(r)
                    &&& final(self).failed_reads == 0
                },
                None => {
                    &&& final(self).sample == old(self).sample
                    &&& final(self).failed_reads == if old(self).failed_reads == 255 {
                        255
                    } else {
                        old(self).failed_reads + 1
                    }
                },
            },
    {
        match reading {
            Some(r) => {
                self.sample = AltitudeSample { previous: self.sample.current, current: Some(r) };
                self.failed_reads = 0;
            },
            None => {
                if self.failed_reads < 255 {
                    self.failed_reads = self.failed_reads + 1;
                }
            },
        }
    }

    /// The altitude the decisions may use (see `usable_altitude`).
    pub fn altitude(&self) -> (r: Option<i32>)
        ensures
            r == self.usable_altitude(),
    {
        match self.sample.current {
            Some(c) => {
                if self.failed_reads <= MAX_FAILED_READS {
                    Some(c.altitude_mm)
                } else {
                    None
                }
            },
            None => None,
        }
    }
}

} // verus!
