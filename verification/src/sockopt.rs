//! Encoding of socket options: timeouts and half-shutdown.
//!
//! The kernel timeout option conflates "no timeout" with a zero duration:
//! both are the `{0 seconds, 0 microseconds}` pair.  The library resolves
//! the ambiguity by rejecting a zero duration outright and reserving the
//! all-zero pair for "block indefinitely".  A duration too fine for the
//! microsecond resolution is nudged up to one microsecond rather than
//! truncated to zero, so that setting a timeout can never silently
//! disable it.

use vstd::prelude::*;

use crate::error::SockError;

verus! {

/// Nanoseconds in a second; durations keep their fractional part below
/// this bound.
pub const NANOS_PER_SEC: u32 = 1_000_000_000;

/// Nanoseconds in a microsecond, the resolution of the kernel timeout.
pub const NANOS_PER_MICRO: u32 = 1_000;

/// Largest value of the kernel's seconds field.
pub const TIME_T_MAX: i64 = 0x7fff_ffff_ffff_ffff;

/// A span of time as seconds plus a sub-second remainder in nanoseconds.
#[derive(Clone, Copy, Debug, PartialEq, Eq, Structural)]
pub struct Duration {
    /// Whole seconds.
    pub secs: u64,
    /// Sub-second remainder, in nanoseconds; below one second for every
    /// well-formed value.
    pub nanos: u32,
}

impl Duration {
    /// Well-formedness: the nanoseconds are a genuine sub-second
    /// remainder.
    pub open spec fn wf(self) -> bool {
        self.nanos < NANOS_PER_SEC
    }

    /// A span of `secs` seconds and `nanos` further nanoseconds.
    pub fn new(secs: u64, nanos: u32) -> (d: Duration)
        requires
            nanos < NANOS_PER_SEC,
        ensures
            d == (Duration { secs, nanos }),
            d.wf(),
    {
        Duration { secs, nanos }
    }

    /// The whole seconds of the span.
    pub fn as_secs(&self) -> (r: u64)
        ensures
            r == self.secs,
    {
        self.secs
    }

    /// The sub-second remainder, in nanoseconds.
    pub fn subsec_nanos(&self) -> (r: u32)
        ensures
            r == self.nanos,
    {
        self.nanos
    }
}

/// The kernel's timeout representation: seconds and microseconds.
#[derive(Clone, Copy, Debug, PartialEq, Eq, Structural)]
pub struct Timeval {
    /// Whole seconds.
    pub sec: i64,
    /// Microseconds, below one million for every value the library
    /// produces or accepts.
    pub usec: i64,
}

/// The pair a non-zero duration encodes to: seconds clamped to the kernel
/// maximum (with the microseconds saturated alongside), sub-microsecond
/// precision truncated, and an all-zero outcome nudged to one microsecond
/// so that a set timeout is never silently disabled.
pub open spec fn spec_encode_duration(secs: u64, nanos: u32) -> Timeval {
    if secs > TIME_T_MAX as u64 {
        Timeval { sec: TIME_T_MAX as i64, usec: 999_999 as i64 }
    } else if secs == 0 && nanos / NANOS_PER_MICRO == 0 {
        Timeval { sec: 0 as i64, usec: 1 as i64 }
    } else {
        Timeval { sec: secs as i64, usec: (nanos / NANOS_PER_MICRO) as i64 }
    }
}

/// What setting a timeout writes to the kernel: the all-zero pair for
/// "no timeout", a rejection for a zero duration, and the encoding of
/// [`spec_encode_duration`] otherwise.
pub open spec fn spec_encode_timeout(dur: Option<Duration>) -> Result<Timeval, SockError> {
    match dur {
        Option::None => Result::Ok(Timeval { sec: 0 as i64, usec: 0 as i64 }),
        Option::Some(d) => {
            if d.secs == 0 && d.nanos == 0 {
                Result::Err(SockError::ZeroTimeout)
            } else {
                Result::Ok(spec_encode_duration(d.secs, d.nanos))
            }
        },
    }
}

/// What reading a timeout back from the kernel yields: the all-zero pair
/// means no timeout is set; any other pair is the duration it encodes.
pub open spec fn spec_decode_timeout(tv: Timeval) -> Option<Duration> {
    if tv.sec == 0 && tv.usec == 0 {
        Option::None
    } else {
        Option::Some(
            Duration { secs: tv.sec as u64, nanos: (tv.usec * NANOS_PER_MICRO as i64) as u32 },
        )
    }
}

/// Encodes a requested timeout for the kernel.  `None` disables the
/// timeout; a zero duration is rejected as invalid input, because the
/// kernel would read its encoding as "no timeout".
pub fn encode_timeout(dur: Option<Duration>) -> (r: Result<Timeval, SockError>)
    requires
        dur matches Some(d) ==> d.wf(),
    ensures
        r == spec_encode_timeout(dur),
        dur is None ==> r == Result::<Timeval, SockError>::Ok(Timeval { sec: 0 as i64, usec: 0 as i64 }),
        dur matches Some(d) && d.secs == 0 && d.nanos == 0 ==> r
            == Result::<Timeval, SockError>::Err(SockError::ZeroTimeout),
        r matches Ok(tv) ==> 0 <= tv.sec <= TIME_T_MAX && 0 <= tv.usec < 1_000_000,
        dur is Some && r is Ok ==> !(r.unwrap().sec == 0 && r.unwrap().usec == 0),
{
    match dur {
        None => Ok(Timeval { sec: 0, usec: 0 }),
        Some(d) => {
            let secs = d.as_secs();
            let nanos = d.subsec_nanos();
            if secs == 0 && nanos == 0 {
                return Err(SockError::ZeroTimeout);
            }
            if secs > TIME_T_MAX as u64 {
                Ok(Timeval { sec: TIME_T_MAX, usec: 999_999 })
            } else if secs == 0 && nanos / NANOS_PER_MICRO == 0 {
                Ok(Timeval { sec: 0, usec: 1 })
            } else {
                Ok(Timeval { sec: secs as i64, usec: (nanos / NANOS_PER_MICRO) as i64 })
            }
        },
    }
}

/// Decodes a timeout read back from the kernel.  The all-zero pair maps
/// to `None`; the fields of any other pair are taken as seconds and
/// microseconds of the active timeout.
pub fn decode_timeout(tv: Timeval) -> (r: Option<Duration>)
    requires
        0 <= tv.sec,
        0 <= tv.usec < 1_000_000,
    ensures
        r == spec_decode_timeout(tv),
        (tv.sec == 0 && tv.usec == 0) <==> r is None,
        r matches Some(d) ==> d.wf(),
{
    if tv.sec == 0 && tv.usec == 0 {
        None
    } else {
        Some(Duration { secs: tv.sec as u64, nanos: (tv.usec as u32) * NANOS_PER_MICRO })
    }
}

/// Disabling the timeout round-trips: what `None` writes to the kernel
/// reads back as `None`.
pub proof fn lemma_timeout_none_round_trip()
    ensures
        spec_encode_timeout(Option::None) matches Ok(tv) && spec_decode_timeout(tv)
            == Option::<Duration>::None,
{
}

/// A timeout whose microsecond representation fits the platform
/// round-trips: for a non-zero duration with whole-microsecond precision
/// and seconds within the kernel's range, reading the timeout back
/// returns exactly the duration that was set.
pub proof fn lemma_timeout_round_trip(d: Duration)
    requires
        d.wf(),
        d.nanos % NANOS_PER_MICRO == 0,
        d.secs <= TIME_T_MAX as u64,
        !(d.secs == 0 && d.nanos == 0),
    ensures
        spec_encode_timeout(Option::Some(d)) matches Ok(tv) && spec_decode_timeout(tv)
            == Option::Some(d),
{
    let tv = spec_encode_timeout(Option::Some(d)).unwrap();
    assert(d.nanos / NANOS_PER_MICRO * NANOS_PER_MICRO == d.nanos);
    assert(spec_decode_timeout(tv) == Option::Some(d));
}

/// Rejection of the zero timeout leaves no encoding behind: the error is
/// reported before anything reaches the kernel, so the prior setting is
/// untouched.
pub proof fn lemma_zero_timeout_rejected(d: Duration)
    requires
        d.secs == 0 && d.nanos == 0,
    ensures
        spec_encode_timeout(Option::Some(d)) == Result::<Timeval, SockError>::Err(
            SockError::ZeroTimeout,
        ),
{
}

/// A direction of a half-shutdown.
#[derive(Clone, Copy, Debug, PartialEq, Eq, Structural)]
pub enum Shutdown {
    /// Close the reading half.
    Read,
    /// Close the writing half.
    Write,
    /// Close both halves.
    Both,
}

impl Shutdown {
    /// The kernel code of this direction.
    pub fn how_code(&self) -> (r: i32)
        ensures
            *self == Shutdown::Read ==> r == 0,
            *self == Shutdown::Write ==> r == 1,
            *self == Shutdown::Both ==> r == 2,
    {
        match *self {
            Shutdown::Read => 0,
            Shutdown::Write => 1,
            Shutdown::Both => 2,
        }
    }
}

} // verus!
