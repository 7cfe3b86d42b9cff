//! Coordinates in degrees, held as the bits of a binary64 number.

use vstd::prelude::*;

verus! {

/// The weight of the sign bit.
pub const SIGN_WEIGHT: u64 = 0x8000_0000_0000_0000;

/// The bits of positive infinity; greater magnitudes are not numbers.
pub const INFINITY_BITS: u64 = 0x7ff0_0000_0000_0000;

/// The weight of the lowest exponent bit.
pub const EXPONENT_WEIGHT: u64 = 0x0010_0000_0000_0000;

/// A coordinate in degrees: the bits of the binary64 number that was configured.
#[derive(Clone, Copy, Debug, PartialEq, Eq, Structural)]
pub struct Degrees {
    pub bits: u64,
}

/// The size of a number with these exponent and fraction bits, as a multiple of the smallest
/// positive number, of which `pow2(1074)` make one.
pub open spec fn magnitude_units(magnitude: int) -> int {
    let exponent = magnitude / EXPONENT_WEIGHT as int;
    let fraction = magnitude % EXPONENT_WEIGHT as int;
    if exponent == 0 {
        fraction
    } else {
        (EXPONENT_WEIGHT + fraction) * vstd::arithmetic::power2::pow2((exponent - 1) as nat)
    }
}

impl Degrees {
    /// The exponent and fraction bits.
    pub open spec fn magnitude(self) -> int {
        self.bits as int % SIGN_WEIGHT as int
    }

    /// The bits stand for no number.
    pub open spec fn is_nan(self) -> bool {
        self.magnitude() > INFINITY_BITS
    }

    /// The number, as a multiple of the smallest positive number, of which `pow2(1074)` make one
    /// degree. Infinity counts as larger than every finite number.
    pub open spec fn units(self) -> int {
        if self.bits < SIGN_WEIGHT {
            magnitude_units(self.magnitude())
        } else {
            -magnitude_units(self.magnitude())
        }
    }

    /// The coordinate is a number from `-limit` to `limit` degrees.
    pub open spec fn within(self, limit: int) -> bool {
        &&& !self.is_nan()
        &&& -limit * vstd::arithmetic::power2::pow2(1074) <= self.units()
        &&& self.units() <= limit * vstd::arithmetic::power2::pow2(1074)
    }

    /// Both coordinates are numbers, and the same.
    pub open spec fn same(self, other: Degrees) -> bool {
        !self.is_nan() && !other.is_nan() && self.units() == other.units()
    }

    /// Whether the coordinate lies from -90 to 90 degrees.
    pub fn is_latitude(self) -> (is_latitude: bool)
        ensures
            is_latitude == self.within(90),
    {
        proof {
            vstd::arithmetic::power2::lemma2_to64_rest();
            lemma_limit(0x4056_8000_0000_0000, 90, 46);
            lemma_within(self, 0x4056_8000_0000_0000, 90);
        }
        self.bits % SIGN_WEIGHT <= 0x4056_8000_0000_0000
    }

    /// Whether the coordinate lies from -180 to 180 degrees.
    pub fn is_longitude(self) -> (is_longitude: bool)
        ensures
            is_longitude == self.within(180),
    {
        proof {
            vstd::arithmetic::power2::lemma2_to64_rest();
            lemma_limit(0x4066_8000_0000_0000, 180, 45);
            lemma_within(self, 0x4066_8000_0000_0000, 180);
        }
        self.bits % SIGN_WEIGHT <= 0x4066_8000_0000_0000
    }

    /// Whether both coordinates are numbers, and the same; zero has two signs.
    pub fn equals(self, other: Degrees) -> (equal: bool)
        ensures
            equal == self.same(other),
    {
        let magnitude: u64 = self.bits % SIGN_WEIGHT;
        let other_magnitude: u64 = other.bits % SIGN_WEIGHT;
        proof {
            lemma_units_in_order(magnitude as int, other_magnitude as int);
            lemma_units_in_order(other_magnitude as int, magnitude as int);
            lemma_units_in_order(0, magnitude as int);
            lemma_units_in_order(0, other_magnitude as int);
        }
        magnitude <= INFINITY_BITS && other_magnitude <= INFINITY_BITS && magnitude
            == other_magnitude && (magnitude == 0 || self.bits == other.bits)
    }
}

/// Magnitudes order their numbers.
pub(crate) proof fn lemma_units_in_order(smaller: int, greater: int)
    requires
        0 <= smaller < SIGN_WEIGHT,
        0 <= greater < SIGN_WEIGHT,
    ensures
        smaller < greater ==> magnitude_units(smaller) < magnitude_units(greater),
        magnitude_units(0) == 0,
{
    if smaller < greater {
        let low = smaller / EXPONENT_WEIGHT as int;
        let high = greater / EXPONENT_WEIGHT as int;
        let low_fraction = smaller % EXPONENT_WEIGHT as int;
        let high_fraction = greater % EXPONENT_WEIGHT as int;
        let weight = EXPONENT_WEIGHT as int;
        if high > 0 {
            vstd::arithmetic::power2::lemma_pow2_pos((high - 1) as nat);
        }
        if low == high {
            if low > 0 {
                let scale = vstd::arithmetic::power2::pow2((low - 1) as nat) as int;
                assert((weight + low_fraction) * scale < (weight + high_fraction) * scale)
                    by (nonlinear_arith)
                    requires
                        low_fraction < high_fraction,
                        scale > 0,
                ;
            }
        } else if low == 0 {
            let scale = vstd::arithmetic::power2::pow2((high - 1) as nat) as int;
            assert(low_fraction < (weight + high_fraction) * scale) by (nonlinear_arith)
                requires
                    0 <= low_fraction < weight,
                    0 <= high_fraction,
                    scale > 0,
            ;
        } else {
            let scale = vstd::arithmetic::power2::pow2((low - 1) as nat) as int;
            let step = vstd::arithmetic::power2::pow2((high - low - 1) as nat) as int;
            vstd::arithmetic::power2::lemma_pow2_pos((low - 1) as nat);
            vstd::arithmetic::power2::lemma_pow2_pos((high - low - 1) as nat);
            vstd::arithmetic::power2::lemma_pow2_adds(low as nat, (high - low - 1) as nat);
            vstd::arithmetic::power2::lemma_pow2_unfold(low as nat);
            assert(vstd::arithmetic::power2::pow2((high - 1) as nat) == 2 * scale * step)
                by (nonlinear_arith)
                requires
                    vstd::arithmetic::power2::pow2((high - 1) as nat)
                        == vstd::arithmetic::power2::pow2(low as nat) * step,
                    vstd::arithmetic::power2::pow2(low as nat) == 2 * scale,
            ;
            assert((weight + low_fraction) * scale < (weight + high_fraction) * (2 * scale * step))
                by (nonlinear_arith)
                requires
                    0 <= low_fraction < weight,
                    0 <= high_fraction,
                    scale > 0,
                    step > 0,
            ;
        }
    }
}

/// A limit of at most 52 significant bits has the magnitude that is compared against.
proof fn lemma_limit(bits: u64, limit: int, shift: nat)
    requires
        bits < INFINITY_BITS,
        bits >= EXPONENT_WEIGHT,
        shift <= 1074,
        bits as int / EXPONENT_WEIGHT as int - 1 == 1074 - shift,
        EXPONENT_WEIGHT + bits as int % EXPONENT_WEIGHT as int == limit
            * vstd::arithmetic::power2::pow2(shift),
    ensures
        magnitude_units(bits as int) == limit * vstd::arithmetic::power2::pow2(1074),
{
    let rest = (1074 - shift) as nat;
    let low = vstd::arithmetic::power2::pow2(shift) as int;
    let high = vstd::arithmetic::power2::pow2(rest) as int;
    vstd::arithmetic::power2::lemma_pow2_adds(shift, rest);
    assert(limit * low * high == limit * (low * high)) by (nonlinear_arith);
}

/// A magnitude within that of the limit is a coordinate within the limit.
proof fn lemma_within(degrees: Degrees, bits: u64, limit: int)
    requires
        bits < INFINITY_BITS,
        magnitude_units(bits as int) == limit * vstd::arithmetic::power2::pow2(1074),
    ensures
        degrees.within(limit) <==> degrees.magnitude() <= bits,
{
    lemma_units_in_order(degrees.magnitude(), bits as int);
    lemma_units_in_order(bits as int, degrees.magnitude());
    lemma_units_in_order(0, degrees.magnitude());
    let one = vstd::arithmetic::power2::pow2(1074) as int;
    assert(-limit * one == -(limit * one)) by (nonlinear_arith);
}

/// The default latitude is 35 degrees.
pub(crate) proof fn lemma_default_latitude()
    ensures
        (Degrees { bits: 0x4041_8000_0000_0000 }).units() == 35
            * vstd::arithmetic::power2::pow2(1074),
        (Degrees { bits: 0x4041_8000_0000_0000 }).within(90),
{
    let latitude = Degrees { bits: 0x4041_8000_0000_0000 };
    vstd::arithmetic::power2::lemma2_to64_rest();
    lemma_limit(0x4041_8000_0000_0000, 35, 47);
    lemma_limit(0x4056_8000_0000_0000, 90, 46);
    lemma_within(latitude, 0x4056_8000_0000_0000, 90);
}

/// Being the same coordinate is symmetric and transitive, and coordinates that are the same lie
/// within the same limits.
pub proof fn law_same_coordinates(
    first: Degrees,
    second: Degrees,
    third: Degrees,
    limit: int,
)
    ensures
        first.same(second) ==> second.same(first),
        first.same(second) && second.same(third) ==> first.same(third),
        first.same(second) ==> first.within(limit) == second.within(limit),
{
}

/// The bits mean what binary64 says: small magnitudes count the units themselves, one more in the
/// exponent doubles the number, the sign bit turns it round, and one degree has the bits of one.
pub proof fn law_bits_mean_binary64(degrees: Degrees, magnitude: int)
    requires
        0 <= magnitude,
    ensures
        magnitude < 2 * EXPONENT_WEIGHT ==> magnitude_units(magnitude) == magnitude,
        magnitude >= EXPONENT_WEIGHT ==> magnitude_units(magnitude + EXPONENT_WEIGHT) == 2
            * magnitude_units(magnitude),
        degrees.bits < 0x8000_0000_0000_0000 ==> degrees.units() == magnitude_units(
            degrees.bits as int,
        ),
        degrees.bits >= 0x8000_0000_0000_0000 ==> degrees.units() == -magnitude_units(
            degrees.bits - 0x8000_0000_0000_0000,
        ),
        degrees.is_nan() <==> degrees.bits as int % 0x8000_0000_0000_0000
            > 0x7ff0_0000_0000_0000,
        (Degrees { bits: 0x3ff0_0000_0000_0000 }).units()
            == vstd::arithmetic::power2::pow2(1074),
{
    let weight = EXPONENT_WEIGHT as int;
    vstd::arithmetic::power2::lemma2_to64();
    vstd::arithmetic::power2::lemma2_to64_rest();
    lemma_limit(0x3ff0_0000_0000_0000, 1, 52);
    if magnitude >= weight {
        let exponent = magnitude / weight;
        let fraction = magnitude % weight;
        assert((magnitude + weight) / weight == exponent + 1);
        assert((magnitude + weight) % weight == fraction);
        vstd::arithmetic::power2::lemma_pow2_unfold(exponent as nat);
        let scale = vstd::arithmetic::power2::pow2((exponent - 1) as nat) as int;
        if exponent == 1 {
            assert((weight + fraction) * scale == weight + fraction) by (nonlinear_arith)
                requires
                    scale == 1,
            ;
        }
        assert((weight + fraction) * (2 * scale) == 2 * ((weight + fraction) * scale))
            by (nonlinear_arith);
    }
}

/// A coordinate lies within a limit exactly where it is a number that is no further from zero than
/// the limit: what lies between two coordinates within a limit lies within it too, the limit
/// itself does on either side, and nothing beyond.
pub proof fn law_limits_are_symmetric_intervals(
    low: Degrees,
    middle: Degrees,
    high: Degrees,
    limit: int,
)
    requires
        !middle.is_nan(),
        limit >= 0,
    ensures
        low.within(limit) && high.within(limit) && low.units() <= middle.units() <= high.units()
            ==> middle.within(limit),
        middle.units() == limit * vstd::arithmetic::power2::pow2(1074) ==> middle.within(limit),
        -middle.units() == limit * vstd::arithmetic::power2::pow2(1074) ==> middle.within(limit),
        middle.units() > limit * vstd::arithmetic::power2::pow2(1074) ==> !middle.within(limit),
        -middle.units() > limit * vstd::arithmetic::power2::pow2(1074) ==> !middle.within(limit),
        middle.units() == 0 ==> middle.within(limit),
        low.is_nan() ==> !low.within(limit),
        low.same(middle) <==> !low.is_nan() && low.units() == middle.units(),
{
    let one = vstd::arithmetic::power2::pow2(1074) as int;
    vstd::arithmetic::power2::lemma_pow2_pos(1074);
    assert(-limit * one == -(limit * one)) by (nonlinear_arith);
    assert(limit * one >= 0) by (nonlinear_arith)
        requires
            limit >= 0,
            one > 0,
    ;
}

} // verus!
