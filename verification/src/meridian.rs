//! The clock of a longitude: how many seconds it is ahead of UTC.

use vstd::prelude::*;

use crate::degrees::{Degrees, EXPONENT_WEIGHT, INFINITY_BITS, SIGN_WEIGHT};

verus! {

/// Seconds by which a clock moves on for each degree east.
pub const SECONDS_PER_DEGREE: u64 = 240;

/// The longitude of the observer.
#[derive(Clone, Copy, Debug, PartialEq, Eq, Structural)]
pub enum Longitude {
    /// As configured.
    Configured(Degrees),
    /// The meridian whose clock is this many seconds ahead of UTC, at 240 seconds for a degree.
    StandardMeridian { offset_seconds: i32 },
}

impl Longitude {
    /// Seconds by which the clock of this longitude is ahead of UTC.
    pub open spec fn spec_clock_offset(self) -> i32 {
        match self {
            Longitude::Configured(degrees) => saturated(degrees.seconds_east()),
            Longitude::StandardMeridian { offset_seconds } => offset_seconds,
        }
    }

    /// Seconds by which the clock of this longitude is ahead of UTC.
    pub fn clock_offset(self) -> (offset_seconds: i32)
        ensures
            offset_seconds == self.spec_clock_offset(),
    {
        match self {
            Longitude::Configured(degrees) => degrees.clock_offset(),
            Longitude::StandardMeridian { offset_seconds } => offset_seconds,
        }
    }
}

/// The low bits of a number that binary64, which keeps 53 significant bits, rounds away.
pub open spec fn excess_bits(units: int) -> nat
    decreases units,
{
    if units < 0x20_0000_0000_0000 {
        0
    } else {
        1 + excess_bits(units / 2)
    }
}

/// The number of steps that comes nearest to `value`; a half goes to the even neighbour.
pub open spec fn nearest_multiple(value: int, step: int) -> int {
    let whole = value / step;
    let rest = value % step;
    if 2 * rest < step || (2 * rest == step && whole % 2 == 0) {
        whole
    } else {
        whole + 1
    }
}

/// The binary64 number nearest to `units`.
pub open spec fn nearest_number(units: int) -> int {
    let step = vstd::arithmetic::power2::pow2(excess_bits(units)) as int;
    nearest_multiple(units, step) * step
}

/// The whole number nearest to `units`, of which `pow2(1074)` make one; a half goes up.
pub open spec fn nearest_whole(units: int) -> int {
    (units + vstd::arithmetic::power2::pow2(1073)) / vstd::arithmetic::power2::pow2(1074) as int
}

/// The seconds that belong to so many units of a degree: the product is a binary64 number, which
/// is then rounded to a whole one.
pub open spec fn seconds_of(units: int) -> int {
    nearest_whole(nearest_number(SECONDS_PER_DEGREE * units))
}

/// `seconds` as far as an `i32` reaches.
pub open spec fn saturated(seconds: int) -> i32 {
    if seconds > i32::MAX {
        i32::MAX
    } else if seconds < i32::MIN {
        i32::MIN
    } else {
        seconds as i32
    }
}

impl Degrees {
    /// Seconds by which the clock of this longitude is ahead of UTC; where there is no number it
    /// shows UTC.
    pub open spec fn seconds_east(self) -> int {
        if self.is_nan() {
            0
        } else if self.bits < SIGN_WEIGHT {
            seconds_of(crate::degrees::magnitude_units(self.magnitude()))
        } else {
            -seconds_of(crate::degrees::magnitude_units(self.magnitude()))
        }
    }

    /// Seconds by which the clock of this longitude is ahead of UTC.
    pub fn clock_offset(self) -> (offset_seconds: i32)
        ensures
            offset_seconds == saturated(self.seconds_east()),
    {
        let magnitude: u64 = self.bits % SIGN_WEIGHT;
        if magnitude > INFINITY_BITS {
            return 0;
        }
        let exponent: u64 = magnitude / EXPONENT_WEIGHT;
        let fraction: u64 = magnitude % EXPONENT_WEIGHT;
        let seconds: u64 = if exponent < 1012 {
            proof {
                lemma_small(magnitude as int);
            }
            0
        } else if exponent >= 1048 {
            proof {
                lemma_large(magnitude as int);
            }
            0x8000_0000
        } else {
            rounded_seconds(exponent, fraction)
        };
        if self.bits < SIGN_WEIGHT {
            if seconds > 0x7fff_ffff {
                i32::MAX
            } else {
                seconds as i32
            }
        } else if seconds >= 0x8000_0000 {
            i32::MIN
        } else {
            -(seconds as i32)
        }
    }
}

/// The seconds that belong to a number of middling size, given by its exponent and fraction.
fn rounded_seconds(exponent: u64, fraction: u64) -> (seconds: u64)
    requires
        1012 <= exponent < 1048,
        fraction < EXPONENT_WEIGHT,
    ensures
        seconds == seconds_of(
            (EXPONENT_WEIGHT + fraction) * vstd::arithmetic::power2::pow2((exponent - 1) as nat),
        ),
{
    let product: u64 = (EXPONENT_WEIGHT + fraction) * SECONDS_PER_DEGREE;
    let excess: u64 = if product < 0x1000_0000_0000_0000 {
        7
    } else {
        8
    };
    let step: u64 = if product < 0x1000_0000_0000_0000 {
        128
    } else {
        256
    };
    let whole: u64 = product / step;
    let rest: u64 = product % step;
    let kept: u64 = if 2 * rest < step || (2 * rest == step && whole % 2 == 0) {
        whole
    } else {
        whole + 1
    };
    let places: u64 = 1075 - excess - exponent;
    proof {
        vstd::arithmetic::power2::lemma2_to64();
        vstd::arithmetic::power2::lemma2_to64_rest();
        vstd::arithmetic::power2::lemma_pow2_strictly_increases(places as nat, 57);
        vstd::arithmetic::power2::lemma_pow2_unfold(places as nat);
        vstd::bits::lemma_u64_shl_is_mul(1, places);
        vstd::bits::lemma_u64_shl_is_mul(1, (places - 1) as u64);
        vstd::arithmetic::power2::lemma_pow2_pos(places as nat);
        lemma_product(product as int, excess as nat, (exponent - 1) as nat, places as nat);
        let units = (EXPONENT_WEIGHT + fraction) * vstd::arithmetic::power2::pow2(
            (exponent - 1) as nat,
        );
        let scale = vstd::arithmetic::power2::pow2((exponent - 1) as nat) as int;
        assert(240 * ((EXPONENT_WEIGHT + fraction) * scale) == product * scale)
            by (nonlinear_arith)
            requires
                product == (EXPONENT_WEIGHT + fraction) * 240,
        ;
    }
    (kept + (1u64 << (places - 1))) / (1u64 << places)
}

/// Scaling by a power of two rounds away as many bits more.
proof fn lemma_excess_of_scaled(units: int, scale: nat)
    requires
        units >= 0x20_0000_0000_0000,
    ensures
        excess_bits(units * vstd::arithmetic::power2::pow2(scale)) == excess_bits(units) + scale,
        units * vstd::arithmetic::power2::pow2(scale) >= units,
    decreases scale,
{
    vstd::arithmetic::power2::lemma2_to64();
    if scale > 0 {
        let half = (scale - 1) as nat;
        lemma_excess_of_scaled(units, half);
        vstd::arithmetic::power2::lemma_pow2_unfold(scale);
        let smaller = units * vstd::arithmetic::power2::pow2(half);
        let larger = units * vstd::arithmetic::power2::pow2(scale);
        assert(larger == 2 * smaller) by (nonlinear_arith)
            requires
                larger == units * vstd::arithmetic::power2::pow2(scale),
                smaller == units * vstd::arithmetic::power2::pow2(half),
                vstd::arithmetic::power2::pow2(scale) == 2 * vstd::arithmetic::power2::pow2(half),
        ;
        assert(larger / 2 == smaller);
    }
}

/// Quotient and remainder of two numbers that are scaled alike.
proof fn lemma_scaled_division(value: int, step: int, scale: int)
    requires
        value >= 0,
        step > 0,
        scale > 0,
    ensures
        (value * scale) / (step * scale) == value / step,
        (value * scale) % (step * scale) == (value % step) * scale,
{
    let whole = value / step;
    let rest = value % step;
    vstd::arithmetic::div_mod::lemma_fundamental_div_mod(value, step);
    assert(value * scale == whole * (step * scale) + rest * scale) by (nonlinear_arith)
        requires
            value == step * whole + rest,
    ;
    assert(0 <= rest * scale < step * scale) by (nonlinear_arith)
        requires
            0 <= rest < step,
            scale > 0,
    ;
    assert(step * scale > 0) by (nonlinear_arith)
        requires
            step > 0,
            scale > 0,
    ;
    vstd::arithmetic::div_mod::lemma_fundamental_div_mod_converse(
        value * scale,
        step * scale,
        whole,
        rest * scale,
    );
}

/// Scaling does not change which multiple is nearest.
proof fn lemma_scaled_nearest(value: int, step: int, scale: int)
    requires
        value >= 0,
        step > 0,
        scale > 0,
    ensures
        nearest_multiple(value * scale, step * scale) == nearest_multiple(value, step),
{
    lemma_scaled_division(value, step, scale);
    let rest = value % step;
    assert(2 * (rest * scale) < step * scale <==> 2 * rest < step) by (nonlinear_arith)
        requires
            scale > 0,
    ;
    assert(2 * (rest * scale) == step * scale <==> 2 * rest == step) by (nonlinear_arith)
        requires
            scale > 0,
    ;
}

/// A product of 60 or 61 bits, scaled, in seconds: what is left of it after its excess bits have
/// been rounded away, divided by the places after the point.
proof fn lemma_product(product: int, excess: nat, scale: nat, places: nat)
    requires
        240 * 0x10_0000_0000_0000 <= product < 240 * 0x20_0000_0000_0000,
        excess == if product < 0x1000_0000_0000_0000 {
            7nat
        } else {
            8nat
        },
        excess + scale + places == 1074,
        places > 0,
    ensures
        nearest_whole(nearest_number(product * vstd::arithmetic::power2::pow2(scale))) == (
        nearest_multiple(product, vstd::arithmetic::power2::pow2(excess) as int)
            + vstd::arithmetic::power2::pow2((places - 1) as nat))
            / vstd::arithmetic::power2::pow2(places) as int,
{
    reveal_with_fuel(excess_bits, 10);
    assert(excess_bits(product) == excess);
    lemma_excess_of_scaled(product, scale);
    vstd::arithmetic::power2::lemma_pow2_pos(scale);
    vstd::arithmetic::power2::lemma_pow2_pos(excess);
    vstd::arithmetic::power2::lemma_pow2_pos(places);
    vstd::arithmetic::power2::lemma_pow2_pos(excess + scale);
    vstd::arithmetic::power2::lemma_pow2_adds(excess, scale);
    vstd::arithmetic::power2::lemma_pow2_adds((places - 1) as nat, excess + scale);
    vstd::arithmetic::power2::lemma_pow2_adds(places, excess + scale);
    let step = vstd::arithmetic::power2::pow2(excess) as int;
    let rest = vstd::arithmetic::power2::pow2(excess + scale) as int;
    lemma_scaled_nearest(product, step, vstd::arithmetic::power2::pow2(scale) as int);
    let kept = nearest_multiple(product, step);
    assert(nearest_number(product * vstd::arithmetic::power2::pow2(scale)) == kept * rest);
    let half = vstd::arithmetic::power2::pow2((places - 1) as nat) as int;
    assert((kept + half) * rest == kept * rest + half * rest) by (nonlinear_arith);
    assert(kept >= 0) by {
        assert(product / step >= 0) by (nonlinear_arith)
            requires
                product >= 0,
                step > 0,
        ;
    }
    lemma_scaled_division(kept + half, vstd::arithmetic::power2::pow2(places) as int, rest);
}

/// A number with excess bits is at least 2^52 times as large as the step that it is rounded to.
proof fn lemma_step_is_small(units: int)
    requires
        units >= 0,
    ensures
        excess_bits(units) > 0 ==> 0x10_0000_0000_0000 * vstd::arithmetic::power2::pow2(
            excess_bits(units),
        ) <= units,
    decreases units,
{
    vstd::arithmetic::power2::lemma2_to64();
    if units >= 0x20_0000_0000_0000 {
        lemma_step_is_small(units / 2);
        vstd::arithmetic::power2::lemma_pow2_unfold(excess_bits(units));
    }
}

/// The nearest number is off by at most half a step.
proof fn lemma_nearest_number(units: int)
    requires
        units >= 0,
    ensures
        2 * (nearest_number(units) - units) <= vstd::arithmetic::power2::pow2(excess_bits(units)),
        2 * (units - nearest_number(units)) <= vstd::arithmetic::power2::pow2(excess_bits(units)),
        excess_bits(units) == 0 ==> nearest_number(units) == units,
{
    let step = vstd::arithmetic::power2::pow2(excess_bits(units)) as int;
    vstd::arithmetic::power2::lemma_pow2_pos(excess_bits(units));
    vstd::arithmetic::div_mod::lemma_fundamental_div_mod(units, step);
    let whole = units / step;
    let rest = units % step;
    assert((whole + 1) * step == step * whole + step) by (nonlinear_arith);
    assert(whole * step == step * whole) by (nonlinear_arith);
    if excess_bits(units) == 0 {
        vstd::arithmetic::power2::lemma2_to64();
    }
}

/// A coordinate of less than 2^-11 degrees belongs to no second.
proof fn lemma_small(magnitude: int)
    requires
        0 <= magnitude,
        (magnitude / EXPONENT_WEIGHT as int) < 1012,
    ensures
        seconds_of(crate::degrees::magnitude_units(magnitude)) == 0,
{
    let units = crate::degrees::magnitude_units(magnitude);
    let exponent = magnitude / EXPONENT_WEIGHT as int;
    let fraction = magnitude % EXPONENT_WEIGHT as int;
    let limit = vstd::arithmetic::power2::pow2(1010) as int;
    vstd::arithmetic::power2::lemma_pow2_pos(1010);
    assert(0 <= units < 0x20_0000_0000_0000 * limit) by {
        if exponent == 0 {
            assert(fraction < 0x20_0000_0000_0000 * limit) by (nonlinear_arith)
                requires
                    fraction < 0x20_0000_0000_0000,
                    limit >= 1,
            ;
        } else {
            let scale = vstd::arithmetic::power2::pow2((exponent - 1) as nat) as int;
            vstd::arithmetic::power2::lemma_pow2_pos((exponent - 1) as nat);
            if exponent - 1 < 1010 {
                vstd::arithmetic::power2::lemma_pow2_strictly_increases(
                    (exponent - 1) as nat,
                    1010,
                );
            }
            assert(0 <= (EXPONENT_WEIGHT + fraction) * scale < 0x20_0000_0000_0000 * limit)
                by (nonlinear_arith)
                requires
                    0 <= EXPONENT_WEIGHT + fraction < 0x20_0000_0000_0000,
                    0 < scale <= limit,
            ;
        }
    }
    let product = 240 * units;
    lemma_nearest_number(product);
    lemma_step_is_small(product);
    assert(nearest_number(product) <= 2 * product + 1);
    vstd::arithmetic::power2::lemma2_to64();
    vstd::arithmetic::power2::lemma2_to64_rest();
    vstd::arithmetic::power2::lemma_pow2_adds(63, 1010);
    vstd::arithmetic::power2::lemma_pow2_unfold(1074);
    let half = vstd::arithmetic::power2::pow2(1073) as int;
    assert(half == 0x8000_0000_0000_0000 * limit);
    assert(0 <= nearest_number(product)) by (nonlinear_arith)
        requires
            2 * (product - nearest_number(product)) <= vstd::arithmetic::power2::pow2(
                excess_bits(product),
            ),
            excess_bits(product) == 0 ==> nearest_number(product) == product,
            excess_bits(product) > 0 ==> 0x10_0000_0000_0000 * vstd::arithmetic::power2::pow2(
                excess_bits(product),
            ) <= product,
            product >= 0,
    ;
    assert(nearest_number(product) < half);
    vstd::arithmetic::div_mod::lemma_fundamental_div_mod_converse(
        nearest_number(product) + half,
        2 * half,
        0,
        nearest_number(product) + half,
    );
}

/// A coordinate of at least 2^25 degrees belongs to more seconds than an `i32` holds.
proof fn lemma_large(magnitude: int)
    requires
        (magnitude / EXPONENT_WEIGHT as int) >= 1048,
    ensures
        seconds_of(crate::degrees::magnitude_units(magnitude)) > 0x8000_0000,
{
    let units = crate::degrees::magnitude_units(magnitude);
    let exponent = magnitude / EXPONENT_WEIGHT as int;
    let fraction = magnitude % EXPONENT_WEIGHT as int;
    let least = vstd::arithmetic::power2::pow2(1047) as int;
    let scale = vstd::arithmetic::power2::pow2((exponent - 1) as nat) as int;
    vstd::arithmetic::power2::lemma_pow2_pos(1047);
    if exponent - 1 > 1047 {
        vstd::arithmetic::power2::lemma_pow2_strictly_increases(1047, (exponent - 1) as nat);
    }
    assert(units >= 0x10_0000_0000_0000 * least) by (nonlinear_arith)
        requires
            units == (EXPONENT_WEIGHT + fraction) * scale,
            EXPONENT_WEIGHT + fraction >= 0x10_0000_0000_0000,
            scale >= least,
            least > 0,
    ;
    let product = 240 * units;
    lemma_nearest_number(product);
    lemma_step_is_small(product);
    assert(2 * nearest_number(product) >= product);
    vstd::arithmetic::power2::lemma2_to64();
    vstd::arithmetic::power2::lemma2_to64_rest();
    vstd::arithmetic::power2::lemma_pow2_adds(27, 1047);
    let one = vstd::arithmetic::power2::pow2(1074) as int;
    vstd::arithmetic::power2::lemma_pow2_pos(1073);
    assert(one == 0x800_0000 * least);
    let total = nearest_number(product) + vstd::arithmetic::power2::pow2(1073);
    assert(total >= 0x8000_0001 * one);
    assert(total / one >= 0x8000_0001) by (nonlinear_arith)
        requires
            total >= 0x8000_0001 * one,
            one > 0,
    ;
}

/// Rounding takes no number past a whole number above it, and leaves a whole number as it is: the
/// step is far smaller than one.
proof fn lemma_nearest_up_to_whole(units: int, whole: int)
    requires
        0 <= units <= whole * vstd::arithmetic::power2::pow2(1074),
        0 <= whole < 0x1_0000,
    ensures
        0 <= nearest_number(units) <= whole * vstd::arithmetic::power2::pow2(1074),
        units == whole * vstd::arithmetic::power2::pow2(1074) ==> nearest_number(units) == units,
        0x10_0000_0000 * vstd::arithmetic::power2::pow2(excess_bits(units))
            <= vstd::arithmetic::power2::pow2(1074) || excess_bits(units) == 0,
{
    let one = vstd::arithmetic::power2::pow2(1074) as int;
    let excess = excess_bits(units);
    let step = vstd::arithmetic::power2::pow2(excess) as int;
    vstd::arithmetic::power2::lemma_pow2_pos(1074);
    vstd::arithmetic::power2::lemma_pow2_pos(excess);
    vstd::arithmetic::power2::lemma2_to64();
    lemma_step_is_small(units);
    lemma_nearest_number(units);
    assert(units <= 0x1_0000 * one) by (nonlinear_arith)
        requires
            units <= whole * one,
            whole <= 0x1_0000,
            one > 0,
    ;
    if excess > 0 {
        assert(0x10_0000_0000 * step <= one);
        if excess > 1074 {
            vstd::arithmetic::power2::lemma_pow2_strictly_increases(1074, excess);
        }
        let rest = (1074 - excess) as nat;
        vstd::arithmetic::power2::lemma_pow2_adds(rest, excess);
        let steps = whole * vstd::arithmetic::power2::pow2(rest);
        assert(whole * one == steps * step) by (nonlinear_arith)
            requires
                one == vstd::arithmetic::power2::pow2(rest) * step,
                steps == whole * vstd::arithmetic::power2::pow2(rest),
        ;
        let kept = units / step;
        vstd::arithmetic::div_mod::lemma_fundamental_div_mod(units, step);
        assert(kept <= steps && (kept == steps ==> units % step == 0)) by (nonlinear_arith)
            requires
                units == step * kept + units % step,
                0 <= units % step < step,
                units <= steps * step,
        ;
        assert(kept >= 0) by (nonlinear_arith)
            requires
                units == step * kept + units % step,
                0 <= units,
                0 <= units % step < step,
        ;
        let nearest = nearest_multiple(units, step);
        assert(0 <= nearest <= steps);
        assert(0 <= nearest * step <= steps * step) by (nonlinear_arith)
            requires
                0 <= nearest <= steps,
                step > 0,
        ;
        if units == whole * one {
            vstd::arithmetic::div_mod::lemma_fundamental_div_mod_converse(units, step, steps, 0);
        }
    }
}

/// Clocks run four minutes ahead for each degree east, and behind for each degree west.
pub proof fn law_four_minutes_per_degree(longitude: Degrees, degrees: int)
    requires
        -180 <= degrees <= 180,
        !longitude.is_nan(),
        longitude.units() == degrees * vstd::arithmetic::power2::pow2(1074),
    ensures
        longitude.seconds_east() == 240 * degrees,
        Longitude::Configured(longitude).spec_clock_offset() == 4 * 60 * degrees,
{
    let one = vstd::arithmetic::power2::pow2(1074) as int;
    let size = if longitude.bits < SIGN_WEIGHT {
        degrees
    } else {
        -degrees
    };
    let units = crate::degrees::magnitude_units(longitude.magnitude());
    vstd::arithmetic::power2::lemma_pow2_pos(1074);
    crate::degrees::lemma_units_in_order(0, longitude.magnitude());
    assert(units == size * one && units >= 0) by (nonlinear_arith)
        requires
            units == if longitude.bits < SIGN_WEIGHT {
                longitude.units()
            } else {
                -longitude.units()
            },
            longitude.units() == degrees * one,
            size == if longitude.bits < SIGN_WEIGHT {
                degrees
            } else {
                -degrees
            },
            units >= 0,
    ;
    assert(size >= 0) by (nonlinear_arith)
        requires
            size * one >= 0,
            one > 0,
    ;
    let seconds = 240 * size;
    assert(240 * units == seconds * one) by (nonlinear_arith)
        requires
            units == size * one,
            seconds == 240 * size,
    ;
    lemma_nearest_up_to_whole(240 * units, seconds);
    vstd::arithmetic::power2::lemma_pow2_unfold(1074);
    vstd::arithmetic::div_mod::lemma_fundamental_div_mod_converse(
        240 * units + vstd::arithmetic::power2::pow2(1073),
        one,
        seconds,
        vstd::arithmetic::power2::pow2(1073) as int,
    );
}

/// The clock of every longitude from -180 to 180 degrees is at most half a day ahead of UTC or
/// behind it, and shows the nearest second but for the rounding of the product: it is off by
/// half a second and at most 2^-37 more.
pub proof fn law_clock_shows_the_nearest_second(longitude: Degrees)
    requires
        longitude.within(180),
    ensures
        -43_200 <= longitude.seconds_east() <= 43_200,
        Longitude::Configured(longitude).spec_clock_offset() == longitude.seconds_east(),
        crate::clock::offset_in_range(longitude.seconds_east()),
        ({
            let one = vstd::arithmetic::power2::pow2(1074) as int;
            let error = longitude.seconds_east() * one - 240 * longitude.units();
            0x10_0000_0000 * (2 * error - one) <= one && 0x10_0000_0000 * (-2 * error - one) <= one
        }),
{
    let one = vstd::arithmetic::power2::pow2(1074) as int;
    let half = vstd::arithmetic::power2::pow2(1073) as int;
    let units = crate::degrees::magnitude_units(longitude.magnitude());
    let product = 240 * units;
    vstd::arithmetic::power2::lemma_pow2_pos(1074);
    vstd::arithmetic::power2::lemma_pow2_unfold(1074);
    crate::degrees::lemma_units_in_order(0, longitude.magnitude());
    assert(0 <= units <= 180 * one);
    lemma_nearest_up_to_whole(product, 43_200);
    lemma_nearest_number(product);
    let nearest = nearest_number(product);
    let seconds = seconds_of(units);
    vstd::arithmetic::div_mod::lemma_fundamental_div_mod(nearest + half, one);
    assert(one * seconds <= nearest + half < one * seconds + one);
    assert(0 <= seconds <= 43_200) by (nonlinear_arith)
        requires
            one * seconds <= nearest + half < one * seconds + one,
            0 <= nearest <= 43_200 * one,
            one == 2 * half,
            one > 0,
    ;
    assert(seconds * one == one * seconds) by (nonlinear_arith);
    assert((-seconds) * one == -(one * seconds)) by (nonlinear_arith);
}

/// East and west mirror each other, and bits that are no number show UTC; an offset is cut off only
/// where an `i32` does not hold it, and a meridian given by its offset keeps it.
pub proof fn law_west_mirrors_east(east: Degrees, west: Degrees, offset_seconds: i32)
    requires
        west.bits == east.bits + 0x8000_0000_0000_0000,
    ensures
        west.seconds_east() == -east.seconds_east(),
        east.is_nan() ==> east.seconds_east() == 0,
        i32::MIN <= east.seconds_east() <= i32::MAX ==> Longitude::Configured(
            east,
        ).spec_clock_offset() == east.seconds_east(),
        east.seconds_east() > i32::MAX ==> Longitude::Configured(east).spec_clock_offset()
            == i32::MAX,
        west.seconds_east() < i32::MIN ==> Longitude::Configured(west).spec_clock_offset()
            == i32::MIN,
        (Longitude::StandardMeridian { offset_seconds }).spec_clock_offset() == offset_seconds,
{
    assert(west.magnitude() == east.magnitude());
}

} // verus!
