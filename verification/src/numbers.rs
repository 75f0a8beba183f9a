//! Plain-value stand-ins for the two non-integer quantities the logic compares:
//! IEEE-754 doubles (held by their bit pattern, compared as `f64` compares) and
//! UTC instants (whole seconds plus sub-second nanoseconds).

use vstd::prelude::*;

verus! {

/// A double-precision float, held by its IEEE-754 bit pattern.
#[derive(Debug, Clone, Copy, PartialEq, Eq, Structural)]
pub struct Float64 {
    /// The raw IEEE-754 binary64 bits (`f64::to_bits`).
    pub bits: u64,
}

/// A single-precision float, held by its IEEE-754 bit pattern.
#[derive(Debug, Clone, Copy, PartialEq, Eq, Structural)]
pub struct Float32 {
    /// The raw IEEE-754 binary32 bits (`f32::to_bits`).
    pub bits: u32,
}

/// Bits of the magnitude (everything but the sign).
pub open spec fn magnitude_bits(b: u64) -> u64 {
    b & 0x7fff_ffff_ffff_ffffu64
}

/// Whether a bit pattern encodes NaN (all exponent bits set, non-zero fraction).
pub open spec fn is_nan_bits(b: u64) -> bool {
    magnitude_bits(b) > 0x7ff0_0000_0000_0000u64
}

/// The position of a non-NaN double on the number line: positive magnitudes in
/// increasing order, negative ones mirrored, and both zeros at the origin.
pub open spec fn order_key(b: u64) -> int {
    if b >> 63u64 == 1u64 { -(magnitude_bits(b) as int) } else { magnitude_bits(b) as int }
}

/// `a > b` as `f64` compares: false whenever either side is NaN.
pub open spec fn float_gt(a: Float64, b: Float64) -> bool {
    !is_nan_bits(a.bits) && !is_nan_bits(b.bits) && order_key(a.bits) > order_key(b.bits)
}

impl Float64 {
    /// `self > other` as `f64` compares.
    pub fn gt(&self, other: &Float64) -> (r: bool)
        ensures r == float_gt(*self, *other),
    {
        let ma = self.bits & 0x7fff_ffff_ffff_ffffu64;
        let mb = other.bits & 0x7fff_ffff_ffff_ffffu64;
        if ma > 0x7ff0_0000_0000_0000u64 || mb > 0x7ff0_0000_0000_0000u64 {
            return false;
        }
        let ka: i128 = if self.bits >> 63u64 == 1u64 { -(ma as i128) } else { ma as i128 };
        let kb: i128 = if other.bits >> 63u64 == 1u64 { -(mb as i128) } else { mb as i128 };
        ka > kb
    }
}

/// A UTC instant: seconds since the Unix epoch plus a sub-second part in
/// nanoseconds (up to two seconds' worth during a leap second).
#[derive(Debug, Clone, Copy, PartialEq, Eq, Structural)]
pub struct Instant {
    /// Whole seconds since 1970-01-01T00:00:00Z (`DateTime::timestamp`).
    pub secs: i64,
    /// Sub-second nanoseconds (`DateTime::timestamp_subsec_nanos`).
    pub nanos: u32,
}

/// `a <= b` in time.
pub open spec fn instant_le(a: Instant, b: Instant) -> bool {
    a.secs < b.secs || (a.secs == b.secs && a.nanos <= b.nanos)
}

/// `a < b` in time.
pub open spec fn instant_lt(a: Instant, b: Instant) -> bool {
    a.secs < b.secs || (a.secs == b.secs && a.nanos < b.nanos)
}

impl Instant {
    /// Whether `self` is at or before `other`.
    pub fn le(&self, other: &Instant) -> (r: bool)
        ensures r == instant_le(*self, *other),
    {
        self.secs < other.secs || (self.secs == other.secs && self.nanos <= other.nanos)
    }

    /// Whether `self` is strictly before `other`.
    pub fn lt(&self, other: &Instant) -> (r: bool)
        ensures r == instant_lt(*self, *other),
    {
        self.secs < other.secs || (self.secs == other.secs && self.nanos < other.nanos)
    }
}

/// Time order is total: of two instants, one is at or before the other, and
/// `<` is `<=` without equality.
pub proof fn instant_order_is_total(a: Instant, b: Instant)
    ensures
        instant_le(a, b) || instant_le(b, a),
        instant_lt(a, b) <==> (instant_le(a, b) && a != b),
        !(instant_lt(a, b) && instant_le(b, a)),
{
}

} // verus!
