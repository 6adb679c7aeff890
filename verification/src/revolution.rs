//! Rollover-safe rate calculation over wrapping revolution registers.
//!
//! Revolution counters and event times are rolling hardware registers that
//! overflow silently to zero, so consecutive samples are differenced with
//! modular arithmetic: wheel-style counters wrap at 2^32, crank-style
//! counters at 2^16 (even though they are stored widened to 32 bits), and
//! the 16-bit event-time register ticks at 1/1024 s, giving it a period of
//! exactly 64 seconds.

use vstd::prelude::*;

verus! {

/// Which rotating part a revolution or torque register belongs to.
#[derive(Debug, Clone, Copy, PartialEq, Eq, Structural)]
pub enum RotationSource {
    Wheel,
    Crank,
}

/// One sample of a revolution register: a cumulative revolution count and
/// the time of the last revolution event, as the raw 16-bit tick register
/// (1/1024 s per tick for CSC data, 1/2048 s for wheel data delivered by
/// the cycling-power service).
#[derive(Debug, Clone, Copy, PartialEq, Eq, Structural)]
pub struct RevolutionData {
    pub revolution_count: u32,
    pub last_event_ticks: u16,
}

/// Wraparound difference b - a of a register of period m: the raw
/// difference, plus the period if that difference is negative.
pub open spec fn wrapping_delta(m: int, a: int, b: int) -> int {
    if b >= a {
        b - a
    } else {
        b - a + m
    }
}

/// The register width a revolution counter wraps at: 2^32 for wheel-style
/// counters, 2^16 for crank-style counters.
pub open spec fn counter_period(source: RotationSource) -> int {
    match source {
        RotationSource::Wheel => 0x1_0000_0000,
        RotationSource::Crank => 0x1_0000,
    }
}

/// How many new revolutions separate two samples of a counter register,
/// wraparound-aware.
pub open spec fn count_delta(source: RotationSource, a: u32, b: u32) -> int {
    wrapping_delta(counter_period(source), a as int % counter_period(source), b as int % counter_period(source))
}

/// How many 1/1024 s ticks separate two samples of the event-time
/// register, wraparound-aware (the register's period is 64 seconds).
pub open spec fn ticks_delta(a: u16, b: u16) -> int {
    wrapping_delta(0x1_0000, a as int, b as int)
}

/// Revolutions per minute over dc revolutions in dt ticks of 1/1024 s,
/// rounded to the nearest integer: dc / (dt / 1024) * 60.
pub open spec fn rpm_rounded(dc: int, dt: int) -> int
    recommends
        dt > 0,
{
    (2 * dc * 61440 + dt) / (2 * dt)
}

/// The instantaneous rate and revolution delta between two consecutive
/// samples, or nothing when the counter has not advanced or the wrapped
/// time delta is zero.
pub open spec fn spec_rpm_and_new_count(
    source: RotationSource,
    a: RevolutionData,
    b: RevolutionData,
) -> Option<(u64, u32)> {
    let dc = count_delta(source, a.revolution_count, b.revolution_count);
    let dt = ticks_delta(a.last_event_ticks, b.last_event_ticks);
    if dc == 0 || dt == 0 {
        None
    } else {
        Some(((rpm_rounded(dc, dt) as u64), dc as u32))
    }
}

/// Computes the instantaneous rate in rounded RPM and the number of new
/// revolutions between two consecutive register samples, wraparound-aware.
/// Absence means no new revolution, or a duplicate or out-of-order sample
/// from which no rate can be derived; a returned rate is always positive.
/// The same function serves the live-display path and the session-export
/// path.
pub fn checked_rpm_and_new_count(
    previous: &RevolutionData,
    current: &RevolutionData,
    source: RotationSource,
) -> (r: Option<(u64, u32)>)
    ensures
        r == spec_rpm_and_new_count(source, *previous, *current),
        r matches Some(p) ==> p.0 >= 1,
{
    let a = previous.revolution_count;
    let b = current.revolution_count;
    let dc: u32 = match source {
        RotationSource::Wheel => {
            if b >= a {
                b - a
            } else {
                ((b as u64 + 0x1_0000_0000) - a as u64) as u32
            }
        },
        RotationSource::Crank => {
            let al = a % 0x1_0000;
            let bl = b % 0x1_0000;
            if bl >= al {
                bl - al
            } else {
                bl + 0x1_0000 - al
            }
        },
    };
    let at = previous.last_event_ticks;
    let bt = current.last_event_ticks;
    let dt: u32 = if bt >= at {
        (bt - at) as u32
    } else {
        bt as u32 + 0x1_0000 - at as u32
    };
    assert(dc == count_delta(source, a, b));
    assert(dt == ticks_delta(at, bt));
    if dc == 0 || dt == 0 {
        None
    } else {
        let num: u64 = 2 * (dc as u64) * 61440 + dt as u64;
        let den: u64 = 2 * dt as u64;
        let rpm: u64 = num / den;
        assert(rpm == rpm_rounded(dc as int, dt as int));
        assert(rpm >= 1) by {
            assert(num >= den);
            assert(num / den >= 1) by (nonlinear_arith)
                requires
                    num >= den > 0,
            ;
        }
        Some((rpm, dc))
    }
}

/// When the revolution counter has not advanced between two samples, no
/// rate is derived, whatever the two event times are.
pub proof fn lemma_equal_counts_give_no_rate(
    source: RotationSource,
    a: RevolutionData,
    b: RevolutionData,
)
    requires
        a.revolution_count == b.revolution_count,
    ensures
        spec_rpm_and_new_count(source, a, b) is None,
{
}

} // verus!
