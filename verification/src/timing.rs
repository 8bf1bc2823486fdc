//! Durations with exact unit conversion.
//!
//! Every duration is stored as a whole number of attoseconds (10^-18 s)
//! in a `u128`. One attosecond is fine enough to express sub-nanosecond
//! cost coefficients exactly, and every supported unit (seconds,
//! milliseconds, microseconds, nanoseconds) is an exact power-of-ten
//! multiple of it, so conversions are exact integer scalings.
use vstd::prelude::*;

verus! {

use vstd::arithmetic::div_mod::lemma_div_multiples_vanish;
use vstd::arithmetic::div_mod::lemma_fundamental_div_mod;
use vstd::arithmetic::mul::lemma_mul_is_associative;

pub const ATTOS_PER_SECOND: u128 = 1_000_000_000_000_000_000;

pub const ATTOS_PER_MILLISECOND: u128 = 1_000_000_000_000_000;

pub const ATTOS_PER_MICROSECOND: u128 = 1_000_000_000_000;

pub const ATTOS_PER_NANOSECOND: u128 = 1_000_000_000;

/// A span of time, stored as a whole number of attoseconds.
///
/// The view of a `Duration` is its attosecond count.
#[derive(Clone, Copy, Debug, PartialEq, Eq, Structural)]
pub struct Duration {
    attos: u128,
}

impl View for Duration {
    type V = u128;

    closed spec fn view(&self) -> u128 {
        self.attos
    }
}

impl Duration {
    /// The zero-length duration.
    pub fn zero() -> (d: Duration)
        ensures
            d@ == 0,
    {
        Duration { attos: 0 }
    }

    /// A duration of exactly `attos` attoseconds.
    pub fn from_attos(attos: u128) -> (d: Duration)
        ensures
            d@ == attos,
    {
        Duration { attos }
    }

    /// A duration of exactly `secs` seconds.
    pub fn from_secs(secs: u64) -> (d: Duration)
        ensures
            d@ == secs * ATTOS_PER_SECOND,
    {
        Duration { attos: (secs as u128) * ATTOS_PER_SECOND }
    }

    /// A duration of exactly `millis` milliseconds.
    pub fn from_millis(millis: u64) -> (d: Duration)
        ensures
            d@ == millis * ATTOS_PER_MILLISECOND,
    {
        Duration { attos: (millis as u128) * ATTOS_PER_MILLISECOND }
    }

    /// A duration of exactly `micros` microseconds.
    pub fn from_micros(micros: u64) -> (d: Duration)
        ensures
            d@ == micros * ATTOS_PER_MICROSECOND,
    {
        Duration { attos: (micros as u128) * ATTOS_PER_MICROSECOND }
    }

    /// A duration of exactly `nanos` nanoseconds.
    pub fn from_nanos(nanos: u64) -> (d: Duration)
        ensures
            d@ == nanos * ATTOS_PER_NANOSECOND,
    {
        Duration { attos: (nanos as u128) * ATTOS_PER_NANOSECOND }
    }

    /// The attosecond count itself.
    pub fn as_attos(&self) -> (attos: u128)
        ensures
            attos == self@,
    {
        self.attos
    }

    /// Whole seconds in this duration; any fraction of a second is cut off.
    pub fn as_secs(&self) -> (secs: u128)
        ensures
            secs == self@ / ATTOS_PER_SECOND,
    {
        self.attos / ATTOS_PER_SECOND
    }

    /// Whole milliseconds in this duration; the rest is cut off.
    pub fn as_millis(&self) -> (millis: u128)
        ensures
            millis == self@ / ATTOS_PER_MILLISECOND,
    {
        self.attos / ATTOS_PER_MILLISECOND
    }

    /// Whole microseconds in this duration; the rest is cut off.
    pub fn as_micros(&self) -> (micros: u128)
        ensures
            micros == self@ / ATTOS_PER_MICROSECOND,
    {
        self.attos / ATTOS_PER_MICROSECOND
    }

    /// Whole nanoseconds in this duration; the rest is cut off.
    pub fn as_nanos(&self) -> (nanos: u128)
        ensures
            nanos == self@ / ATTOS_PER_NANOSECOND,
    {
        self.attos / ATTOS_PER_NANOSECOND
    }

    /// The sum of two durations.
    pub fn add(self, rhs: Duration) -> (d: Duration)
        requires
            self@ + rhs@ <= u128::MAX,
        ensures
            d@ == self@ + rhs@,
    {
        Duration { attos: self.attos + rhs.attos }
    }

    /// This duration repeated `count` times.
    pub fn scale(self, count: usize) -> (d: Duration)
        requires
            self@ * count <= u128::MAX,
        ensures
            d@ == self@ * count,
    {
        Duration { attos: self.attos * (count as u128) }
    }

    /// This duration split evenly over `count` parts; the remainder is cut off.
    pub fn div(self, count: usize) -> (d: Duration)
        requires
            count >= 1,
        ensures
            d@ == self@ as int / count as int,
    {
        Duration { attos: self.attos / (count as u128) }
    }

    /// The longer of two durations.
    pub fn max(self, rhs: Duration) -> (d: Duration)
        ensures
            d@ == if self@ >= rhs@ {
                self@
            } else {
                rhs@
            },
    {
        if self.attos >= rhs.attos {
            self
        } else {
            rhs
        }
    }
}

impl Default for Duration {
    /// The zero-length duration.
    fn default() -> (d: Duration)
        ensures
            d@ == 0,
    {
        Duration { attos: 0 }
    }
}

/// Two durations with the same attosecond count are the same duration.
pub proof fn lemma_duration_eq(a: Duration, b: Duration)
    requires
        a@ == b@,
    ensures
        a == b,
{
}

/// A whole number of seconds, scaled down to a finer unit that divides a
/// second evenly and scaled back up, is unchanged: the scaling is exact.
proof fn lemma_attos_round_trip_via(secs: u64, unit: u128)
    requires
        0 < unit <= ATTOS_PER_SECOND,
        ATTOS_PER_SECOND % unit == 0,
    ensures
        (secs * ATTOS_PER_SECOND / unit as int) * unit / ATTOS_PER_SECOND as int == secs,
{
    let u = unit as int;
    let a = ATTOS_PER_SECOND as int;
    let k = a / u;
    assert(a == u * k) by {
        lemma_fundamental_div_mod(a, u);
    }
    assert(secs * a == u * (secs * k)) by {
        lemma_mul_is_associative(secs as int, u, k);
        lemma_mul_is_associative(u, secs as int, k);
    }
    assert(secs * a / u == secs * k) by {
        lemma_div_multiples_vanish(secs * k, u);
    }
    assert((secs * k) * u == a * (secs as int)) by {
        lemma_mul_is_associative(secs as int, k, u);
        lemma_mul_is_associative(a, secs as int, 1);
    }
    assert(a * (secs as int) / a == secs) by {
        lemma_div_multiples_vanish(secs as int, a);
    }
}

/// Law: converting a whole number of seconds to any supported unit and
/// back to seconds reproduces the original value exactly. Each clause is
/// the composition of `from_secs`, `as_<unit>`, `from_<unit>` (read off
/// their contracts), and `as_secs`.
pub proof fn lemma_unit_round_trip(secs: u64)
    ensures
        (secs * ATTOS_PER_SECOND / ATTOS_PER_SECOND as int) * ATTOS_PER_SECOND
            / ATTOS_PER_SECOND as int == secs,
        (secs * ATTOS_PER_SECOND / ATTOS_PER_MILLISECOND as int) * ATTOS_PER_MILLISECOND
            / ATTOS_PER_SECOND as int == secs,
        (secs * ATTOS_PER_SECOND / ATTOS_PER_MICROSECOND as int) * ATTOS_PER_MICROSECOND
            / ATTOS_PER_SECOND as int == secs,
        (secs * ATTOS_PER_SECOND / ATTOS_PER_NANOSECOND as int) * ATTOS_PER_NANOSECOND
            / ATTOS_PER_SECOND as int == secs,
{
    lemma_attos_round_trip_via(secs, ATTOS_PER_SECOND);
    lemma_attos_round_trip_via(secs, ATTOS_PER_MILLISECOND);
    lemma_attos_round_trip_via(secs, ATTOS_PER_MICROSECOND);
    lemma_attos_round_trip_via(secs, ATTOS_PER_NANOSECOND);
}

} // verus!
