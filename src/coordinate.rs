//! Bounded geographic coordinates.
//!
//! A coordinate is carried as the bit pattern of an IEEE-754 binary32 value
//! (`f32::to_bits`), which keeps it exact and lets the bounds be stated and
//! proved over integers.
use vstd::prelude::*;

verus! {

/// Bit pattern of the `f32` value 90.0.
pub const LATITUDE_MAX_BITS: u32 = 0x42b4_0000;

/// Bit pattern of the `f32` value -90.0.
pub const LATITUDE_MIN_BITS: u32 = 0xc2b4_0000;

/// Bit pattern of the `f32` value 180.0.
pub const LONGITUDE_MAX_BITS: u32 = 0x4334_0000;

/// Bit pattern of the `f32` value -180.0.
pub const LONGITUDE_MIN_BITS: u32 = 0xc334_0000;

/// The bit pattern of an `f32` without its sign bit.
pub open spec fn magnitude(bits: u32) -> int {
    (bits % 0x8000_0000) as int
}

/// Whether the sign bit is set.
pub open spec fn is_negative(bits: u32) -> bool {
    bits >= 0x8000_0000
}

/// Whether the bits encode a NaN: all exponent bits set and a non-zero fraction.
pub open spec fn is_nan(bits: u32) -> bool {
    magnitude(bits) > 0x7f80_0000
}

/// Position of a non-NaN `f32` on the number line. IEEE-754 orders values of
/// one sign by their magnitude bits, so this key is monotone in the value and
/// maps both zeros to 0.
pub open spec fn order_key(bits: u32) -> int {
    if is_negative(bits) {
        -magnitude(bits)
    } else {
        magnitude(bits)
    }
}

/// `a <= b` as `f32` comparison: false when either is NaN.
pub open spec fn float_le(a: u32, b: u32) -> bool {
    !is_nan(a) && !is_nan(b) && order_key(a) <= order_key(b)
}

/// `a < b` as `f32` comparison: false when either is NaN.
pub open spec fn float_lt(a: u32, b: u32) -> bool {
    !is_nan(a) && !is_nan(b) && order_key(a) < order_key(b)
}

/// `-90.0 <= v <= 90.0`.
pub open spec fn latitude_in_range(v: u32) -> bool {
    float_le(LATITUDE_MIN_BITS, v) && float_le(v, LATITUDE_MAX_BITS)
}

/// `-180.0 <= v <= 180.0`.
pub open spec fn longitude_in_range(v: u32) -> bool {
    float_le(LONGITUDE_MIN_BITS, v) && float_le(v, LONGITUDE_MAX_BITS)
}

/// Whether the magnitude of `v` is at most `limit`, decided on the integer bits.
fn magnitude_within(v: u32, limit: u32) -> (r: bool)
    requires
        limit < 0x7f80_0000,
    ensures
        r == (magnitude(v) <= limit),
{
    v % 0x8000_0000 <= limit
}

/// A latitude in degrees, within [-90.0, 90.0].
#[derive(Clone, Copy, Debug, PartialEq, Eq)]
pub struct Latitude {
    bits: u32,
}

/// The value given for a latitude lies outside [-90.0, 90.0].
#[derive(Clone, Copy, Debug, PartialEq, Eq)]
pub struct LatitudeBoundsError;

impl LatitudeBoundsError {
    /// A short description of the violated bound.
    pub fn message(&self) -> (r: &'static str) {
        "outside of [-90.0, 90.0]"
    }
}

impl View for Latitude {
    type V = u32;

    closed spec fn view(&self) -> u32 {
        self.bits
    }
}

impl Latitude {
    #[verifier::type_invariant]
    spec fn bounded(self) -> bool {
        latitude_in_range(self.bits)
    }

    /// Builds a latitude from the bits of an `f32`; fails unless the value lies in
    /// [-90.0, 90.0]. NaN lies in no interval and is refused.
    pub fn try_from_bits(bits: u32) -> (r: Result<Latitude, LatitudeBoundsError>)
        ensures
            latitude_in_range(bits) ==> r is Ok && r->Ok_0@ == bits,
            (float_lt(bits, LATITUDE_MIN_BITS) || float_lt(LATITUDE_MAX_BITS, bits))
                ==> r is Err,
            r is Ok <==> latitude_in_range(bits),
    {
        if magnitude_within(bits, LATITUDE_MAX_BITS) {
            Ok(Latitude { bits })
        } else {
            Err(LatitudeBoundsError)
        }
    }

    /// The bits of the `f32` this latitude was built from.
    pub fn to_bits(&self) -> (r: u32)
        ensures
            r == self@,
            latitude_in_range(r),
    {
        proof {
            use_type_invariant(self);
        }
        self.bits
    }
}

/// A longitude in degrees, within [-180.0, 180.0].
#[derive(Clone, Copy, Debug, PartialEq, Eq)]
pub struct Longitude {
    bits: u32,
}

/// The value given for a longitude lies outside [-180.0, 180.0].
#[derive(Clone, Copy, Debug, PartialEq, Eq)]
pub struct LongitudeBoundsError;

impl LongitudeBoundsError {
    /// A short description of the violated bound.
    pub fn message(&self) -> (r: &'static str) {
        "outside of [-180.0, 180.0]"
    }
}

impl View for Longitude {
    type V = u32;

    closed spec fn view(&self) -> u32 {
        self.bits
    }
}

impl Longitude {
    #[verifier::type_invariant]
    spec fn bounded(self) -> bool {
        longitude_in_range(self.bits)
    }

    /// Builds a longitude from the bits of an `f32`; fails unless the value lies in
    /// [-180.0, 180.0]. NaN lies in no interval and is refused.
    pub fn try_from_bits(bits: u32) -> (r: Result<Longitude, LongitudeBoundsError>)
        ensures
            longitude_in_range(bits) ==> r is Ok && r->Ok_0@ == bits,
            (float_lt(bits, LONGITUDE_MIN_BITS) || float_lt(LONGITUDE_MAX_BITS, bits))
                ==> r is Err,
            r is Ok <==> longitude_in_range(bits),
    {
        if magnitude_within(bits, LONGITUDE_MAX_BITS) {
            Ok(Longitude { bits })
        } else {
            Err(LongitudeBoundsError)
        }
    }

    /// The bits of the `f32` this longitude was built from.
    pub fn to_bits(&self) -> (r: u32)
        ensures
            r == self@,
            longitude_in_range(r),
    {
        proof {
            use_type_invariant(self);
        }
        self.bits
    }
}

} // verus!
