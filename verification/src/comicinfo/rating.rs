//! Community rating values of `ComicInfo.xml`: from 0 to 5.
//!
//! A rating is a 32-bit float in the schema. It is kept here as the bit pattern of
//! that float (IEEE 754 binary32, `f32::to_bits`), so that it is stored and
//! compared exactly as the float is, with integer operations: for floats that are
//! not negative, their order is the order of their bit patterns; `-0.0` has the
//! bits `0x8000_0000` and equals `0.0`; a NaN has all exponent bits set and a
//! mantissa that is not zero.
use core::cmp::Ordering;
use vstd::std_specs::cmp::{PartialEqSpec, PartialOrdSpec};
use vstd::prelude::*;

verus! {

/// The number of decimals that the schema gives a rating.
pub const PRECISION: usize = 2;

/// The bits of `0.0`, the least rating.
pub const MIN_VALUE_BITS: u32 = 0x0000_0000;

/// The bits of `5.0`, the greatest rating.
pub const MAX_VALUE_BITS: u32 = 0x40A0_0000;

/// The bits of `-0.0`, which equals `0.0`.
pub const NEGATIVE_ZERO_BITS: u32 = 0x8000_0000;

/// Whether the float with these bits is a NaN.
pub open spec fn is_nan_bits(bits: u32) -> bool {
    (bits & 0x7FFF_FFFFu32) > 0x7F80_0000u32
}

/// Whether the float with these bits lies between `0.0` and `5.0`, both included.
pub open spec fn in_rating_range(bits: u32) -> bool {
    bits == NEGATIVE_ZERO_BITS || bits <= MAX_VALUE_BITS
}

/// A rating value, between `0.0` and `5.0`. The default rating is `0.0`.
#[derive(Debug, Clone, Copy)]
pub struct Rating {
    bits: u32,
}

#[derive(Debug)]
#[non_exhaustive]
pub enum RatingError {
    /// The text is not a float.
    ParseFloat(std::num::ParseFloatError),
    /// The value lies outside `0.0..=5.0`.
    InvalidValue,
    /// The value cannot be compared with a bound (it is a NaN); the bits of both.
    Cmp { a: u32, b: u32 },
}

#[verifier::external_type_specification]
#[verifier::external_body]
pub struct ExParseFloatError(std::num::ParseFloatError);

/// What validating the float with these bits gives: a NaN cannot be compared with
/// the least rating; a value in `0.0..=5.0` is a rating; any other is invalid.
pub open spec fn rating_check(bits: u32) -> Result<u32, (bool, u32, u32)> {
    if is_nan_bits(bits) {
        Err((true, bits, MIN_VALUE_BITS))
    } else if in_rating_range(bits) {
        Ok(bits)
    } else {
        Err((false, 0, 0))
    }
}

/// Whether `r` is the outcome that `rating_check` describes for `bits`.
pub open spec fn rating_outcome(bits: u32, r: Result<Rating, RatingError>) -> bool {
    match rating_check(bits) {
        Ok(b) => r matches Ok(x) && x.spec_bits() == b,
        Err((true, a, b)) => r matches Err(RatingError::Cmp { a: x, b: y }) && x == a && y == b,
        Err((false, _, _)) => r matches Err(RatingError::InvalidValue),
    }
}

impl Rating {
    #[verifier::type_invariant]
    spec fn valid(self) -> bool {
        in_rating_range(self.bits)
    }

    /// The bits of the float value of this rating.
    pub closed spec fn spec_bits(self) -> u32 {
        self.bits
    }

    /// Validates the float with these bits as a rating.
    pub fn try_from_bits(bits: u32) -> (r: Result<Rating, RatingError>)
        ensures
            rating_outcome(bits, r),
    {
        if (bits & 0x7FFF_FFFFu32) > 0x7F80_0000u32 {
            Err(RatingError::Cmp { a: bits, b: MIN_VALUE_BITS })
        } else if bits == NEGATIVE_ZERO_BITS || bits <= MAX_VALUE_BITS {
            Ok(Rating { bits })
        } else {
            Err(RatingError::InvalidValue)
        }
    }

    /// Create a new rating value from the bits of its float.
    ///
    /// Values outside `0.0..=5.0` (and NaNs) give [`None`].
    pub fn from_bits(bits: u32) -> (r: Option<Rating>)
        ensures
            r is Some <==> in_rating_range(bits),
            r matches Some(x) ==> x.spec_bits() == bits,
    {
        proof {
            if in_rating_range(bits) {
                lemma_rating_keeps_bits(bits);
            }
        }
        match Rating::try_from_bits(bits) {
            Ok(r) => Some(r),
            Err(_) => None,
        }
    }

    /// The bits of the float value of this rating.
    pub fn to_bits(&self) -> (r: u32)
        ensures
            r == self.spec_bits(),
            in_rating_range(r),
    {
        proof {
            use_type_invariant(self);
        }
        self.bits
    }

    /// The bits with `-0.0` read as `0.0`: for ratings, their order is the order of
    /// the float values.
    pub closed spec fn spec_magnitude(self) -> u32 {
        if self.bits == NEGATIVE_ZERO_BITS {
            0
        } else {
            self.bits
        }
    }

    fn magnitude(&self) -> (r: u32)
        ensures
            r == self.spec_magnitude(),
    {
        if self.bits == NEGATIVE_ZERO_BITS {
            0
        } else {
            self.bits
        }
    }
}

impl Default for Rating {
    fn default() -> (r: Self)
        ensures
            r.spec_bits() == MIN_VALUE_BITS,
    {
        Rating { bits: MIN_VALUE_BITS }
    }
}

impl PartialEq for Rating {
    fn eq(&self, other: &Rating) -> (r: bool) {
        self.magnitude() == other.magnitude()
    }
}

impl vstd::std_specs::cmp::PartialEqSpecImpl for Rating {
    open spec fn obeys_eq_spec() -> bool {
        true
    }

    open spec fn eq_spec(&self, other: &Rating) -> bool {
        self.spec_magnitude() == other.spec_magnitude()
    }
}

/// How two ratings compare: as their float values do.
pub open spec fn rating_order(a: Rating, b: Rating) -> Option<Ordering> {
    if a.spec_magnitude() < b.spec_magnitude() {
        Some(Ordering::Less)
    } else if a.spec_magnitude() == b.spec_magnitude() {
        Some(Ordering::Equal)
    } else {
        Some(Ordering::Greater)
    }
}

impl PartialOrd for Rating {
    fn partial_cmp(&self, other: &Rating) -> (r: Option<Ordering>) {
        let a = self.magnitude();
        let b = other.magnitude();
        if a < b {
            Some(Ordering::Less)
        } else if a == b {
            Some(Ordering::Equal)
        } else {
            Some(Ordering::Greater)
        }
    }
}

impl vstd::std_specs::cmp::PartialOrdSpecImpl for Rating {
    open spec fn obeys_partial_cmp_spec() -> bool {
        true
    }

    open spec fn partial_cmp_spec(&self, other: &Rating) -> Option<Ordering> {
        rating_order(*self, *other)
    }
}

/// A value in range is accepted exactly: the rating made from its bits gives them back.
pub proof fn lemma_rating_keeps_bits(bits: u32)
    requires
        in_rating_range(bits),
    ensures
        !is_nan_bits(bits),
        rating_check(bits) == Ok::<u32, (bool, u32, u32)>(bits),
{
    assert(in_rating_range(bits) ==> (bits & 0x7FFF_FFFFu32) <= 0x7F80_0000u32) by (bit_vector);
}

/// For the bits of ratings, `-0.0` read as `0.0` orders as the exponent field,
/// then the mantissa field, of the float.
proof fn lemma_rating_bits_order(x: u32, y: u32)
    by (bit_vector)
    requires
        x == 0x8000_0000u32 || x <= 0x40A0_0000u32,
        y == 0x8000_0000u32 || y <= 0x40A0_0000u32,
    ensures
        ((if x == 0x8000_0000u32 { 0u32 } else { x }) < (if y == 0x8000_0000u32 { 0u32 } else { y }))
            <==> (((x >> 23u32) & 0xFFu32) < ((y >> 23u32) & 0xFFu32) || (((x >> 23u32) & 0xFFu32)
            == ((y >> 23u32) & 0xFFu32) && (x & 0x7F_FFFFu32) < (y & 0x7F_FFFFu32))),
        ((if x == 0x8000_0000u32 { 0u32 } else { x }) == (if y == 0x8000_0000u32 { 0u32 } else { y }))
            <==> (((x >> 23u32) & 0xFFu32) == ((y >> 23u32) & 0xFFu32) && (x & 0x7F_FFFFu32) == (y
            & 0x7F_FFFFu32)),
{
}

/// Ratings compare as their float values do. A rating is a float from `0.0` to
/// `5.0`, with no sign but for `-0.0`, so its value is ordered by the exponent
/// field of the float and then by its mantissa field: two ratings are equal
/// exactly when both fields are (so `0.0` equals `-0.0`, and ratings with the same
/// exponent but different mantissas, such as `2.0` and `3.5`, differ), and one is
/// less than another exactly when its exponent is less, or the same with a smaller
/// mantissa. Any two ratings compare.
pub proof fn law_ratings_compare_as_their_values(a: Rating, b: Rating)
    requires
        in_rating_range(a.spec_bits()),
        in_rating_range(b.spec_bits()),
    ensures
        a.eq_spec(&b) <==> (((a.spec_bits() >> 23u32) & 0xFFu32) == ((b.spec_bits() >> 23u32)
            & 0xFFu32) && (a.spec_bits() & 0x7F_FFFFu32) == (b.spec_bits() & 0x7F_FFFFu32)),
        (a.partial_cmp_spec(&b) == Some(Ordering::Less)) <==> (((a.spec_bits() >> 23u32) & 0xFFu32)
            < ((b.spec_bits() >> 23u32) & 0xFFu32) || (((a.spec_bits() >> 23u32) & 0xFFu32) == ((
            b.spec_bits() >> 23u32) & 0xFFu32) && (a.spec_bits() & 0x7F_FFFFu32) < (b.spec_bits()
            & 0x7F_FFFFu32))),
        (a.partial_cmp_spec(&b) == Some(Ordering::Greater)) <==> (((b.spec_bits() >> 23u32)
            & 0xFFu32) < ((a.spec_bits() >> 23u32) & 0xFFu32) || (((b.spec_bits() >> 23u32)
            & 0xFFu32) == ((a.spec_bits() >> 23u32) & 0xFFu32) && (b.spec_bits() & 0x7F_FFFFu32)
            < (a.spec_bits() & 0x7F_FFFFu32))),
        a.partial_cmp_spec(&b) is Some,
{
    lemma_rating_bits_order(a.spec_bits(), b.spec_bits());
    lemma_rating_bits_order(b.spec_bits(), a.spec_bits());
}

proof fn lemma_rating_range_fields(x: u32)
    by (bit_vector)
    ensures
        (x == 0x8000_0000u32 || x <= 0x40A0_0000u32) <==> (x == 0x8000_0000u32 || (x >> 31u32 == 0u32
            && (((x >> 23u32) & 0xFFu32) < 129u32 || (((x >> 23u32) & 0xFFu32) == 129u32 && (x
            & 0x7F_FFFFu32) <= 0x20_0000u32)))),
{
}

/// A float is a rating exactly when it lies from `0.0` to `5.0`: it is `-0.0`, or
/// it has no sign and its exponent field is below that of `5.0` (129), or equal to
/// it with a mantissa field no greater than that of `5.0`. A NaN (exponent 255) or
/// a negative value never is. The rating keeps the float's bits.
pub proof fn law_ratings_are_the_floats_from_zero_to_five(bits: u32, r: Option<Rating>)
    requires
        call_ensures(Rating::from_bits, (bits,), r),
    ensures
        r is Some <==> (bits == 0x8000_0000u32 || (bits >> 31u32 == 0u32 && (((bits >> 23u32)
            & 0xFFu32) < 129u32 || (((bits >> 23u32) & 0xFFu32) == 129u32 && (bits & 0x7F_FFFFu32)
            <= 0x20_0000u32)))),
        r matches Some(x) ==> x.spec_bits() == bits,
{
    lemma_rating_range_fields(bits);
}

} // verus!
