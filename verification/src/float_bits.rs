//! Conversion of single-precision samples, given by their bit patterns, to
//! signed 16-bit PCM.
//!
//! A sample is clamped to the range from minus one to one, multiplied by
//! 32767 in single precision, and truncated toward zero. The product of a
//! 24-bit significand and 32767 has up to 39 bits, so it is rounded to 24
//! significant bits, ties to even, before it is truncated: this is what the
//! hardware multiplication does, and it is written here in whole numbers.

use vstd::prelude::*;
use vstd::arithmetic::div_mod::{
    lemma_div_denominator, lemma_div_is_ordered, lemma_fundamental_div_mod,
    lemma_mod_multiples_basic,
};
use vstd::arithmetic::power2::{
    lemma2_to64, lemma_pow2_adds, lemma_pow2_pos, lemma_pow2_strictly_increases,
    lemma_pow2_unfold, pow2,
};

verus! {

/// The factor between a sample of magnitude one and its 16-bit value.
pub const SCALE: u32 = 32767;

/// The sign bit of a pattern.
pub open spec fn is_negative(bits: u32) -> bool {
    bits >= 0x8000_0000
}

/// The eight exponent bits of a pattern.
pub open spec fn exponent_field(bits: u32) -> nat {
    ((bits / 0x80_0000) % 256) as nat
}

/// The twenty-three fraction bits of a pattern.
pub open spec fn fraction_field(bits: u32) -> nat {
    (bits % 0x80_0000) as nat
}

/// Whether a pattern is not a number.
pub open spec fn is_nan(bits: u32) -> bool {
    exponent_field(bits) == 255 && fraction_field(bits) != 0
}

/// Whether a pattern is a normal number of magnitude below one.
pub open spec fn is_small_normal(bits: u32) -> bool {
    1 <= exponent_field(bits) <= 126
}

/// The 24-bit significand of a normal number: the number is the
/// significand times two to the power of the exponent field minus 150.
pub open spec fn significand(bits: u32) -> nat {
    0x80_0000 + fraction_field(bits)
}

/// The significand times the scale: the exact product, still to be divided
/// by two to the power of 150 minus the exponent field.
pub open spec fn exact_product(bits: u32) -> nat {
    significand(bits) * 32767
}

/// `value` in units of `unit`, rounded to the nearest unit, a tie to the
/// even one.
pub open spec fn nearest_even(value: nat, unit: nat) -> nat {
    let kept = value / unit;
    let rest = value % unit;
    if 2 * rest > unit || (2 * rest == unit && kept % 2 == 1) {
        kept + 1
    } else {
        kept
    }
}

/// The number of low bits that a product loses when it is rounded to 24
/// significant bits.
pub open spec fn excess_bits(product: nat) -> nat {
    if product < 0x40_0000_0000 {
        14
    } else {
        15
    }
}

/// The magnitude of the 16-bit value of a pattern that is a number.
pub open spec fn scaled_magnitude(bits: u32) -> nat {
    let exponent = exponent_field(bits);
    if exponent >= 127 {
        32767
    } else if exponent == 0 {
        0
    } else {
        let product = exact_product(bits);
        let excess = excess_bits(product);
        let rounded = nearest_even(product, pow2(excess));
        rounded / pow2((150 - exponent - excess) as nat)
    }
}

/// The exact product truncated toward zero, with no rounding before it.
pub open spec fn truncated_exactly(bits: u32) -> nat {
    exact_product(bits) / pow2((150 - exponent_field(bits)) as nat)
}

/// The 16-bit value of a pattern: zero for what is not a number, else the
/// scaled magnitude under the pattern's sign.
pub open spec fn float_to_signed(bits: u32) -> int {
    if is_nan(bits) {
        0
    } else if is_negative(bits) {
        -(scaled_magnitude(bits) as int)
    } else {
        scaled_magnitude(bits) as int
    }
}

/// A chunk of patterns as 16-bit values, in order.
pub open spec fn float_chunk(data: Seq<u32>) -> Seq<i16> {
    Seq::new(data.len(), |i: int| float_to_signed(data[i]) as i16)
}

/// Two to the power of `exponent`.
fn power_of_two(exponent: u32) -> (power: u64)
    requires
        exponent <= 32,
    ensures
        power == pow2(exponent as nat),
        power >= 1,
{
    let mut power: u64 = 1;
    let mut done: u32 = 0;
    proof {
        lemma2_to64();
    }
    while done < exponent
        invariant
            done <= exponent <= 32,
            power == pow2(done as nat),
            power >= 1,
            pow2(32) == 0x1_0000_0000,
        decreases exponent - done,
    {
        proof {
            lemma_pow2_unfold((done + 1) as nat);
            if done + 1 < 32 {
                lemma_pow2_strictly_increases((done + 1) as nat, 32);
            }
        }
        power = power * 2;
        done = done + 1;
    }
    power
}

/// The rounded product of a small normal number stays below two to the
/// power of 24 minus 511 where 15 bits are dropped, and at most two to the
/// power of 24 where 14 are: the scaled magnitude is at most 32767.
proof fn lemma_rounded_bounds(fraction: nat)
    requires
        fraction < 0x80_0000,
    ensures
        ({
            let product = (0x80_0000 + fraction) * 32767;
            let excess = excess_bits(product);
            &&& 0x3F_FF80_0000 <= product <= 0x7F_FEFF_8001
            &&& pow2(14) == 0x4000
            &&& pow2(15) == 0x8000
            &&& excess == 14 ==> nearest_even(product, pow2(excess)) <= 0x100_0000
            &&& excess == 15 ==> nearest_even(product, pow2(excess)) <= 0xFF_FE00
            &&& nearest_even(product, pow2(excess)) >= product / pow2(excess)
            &&& nearest_even(product, pow2(excess)) <= product / pow2(excess) + 1
        }),
{
    lemma2_to64();
}

/// The scaled magnitude never exceeds the scale.
pub proof fn lemma_scaled_magnitude_in_range(bits: u32)
    ensures
        scaled_magnitude(bits) <= 32767,
        -32767 <= float_to_signed(bits) <= 32767,
{
    let exponent = exponent_field(bits);
    if 1 <= exponent <= 126 {
        let product = exact_product(bits);
        let excess = excess_bits(product);
        let rounded = nearest_even(product, pow2(excess));
        let drop = (150 - exponent - excess) as nat;
        lemma_rounded_bounds(fraction_field(bits));
        lemma2_to64();
        if excess == 15 {
            assert(drop >= 9);
            if drop > 9 {
                lemma_pow2_strictly_increases(9, drop);
            }
            assert(pow2(drop) >= 512);
            assert(rounded / pow2(drop) <= 32767) by (nonlinear_arith)
                requires
                    rounded <= 0xFF_FE00,
                    pow2(drop) >= 512,
            ;
        } else {
            assert(drop >= 10);
            if drop > 10 {
                lemma_pow2_strictly_increases(10, drop);
            }
            assert(pow2(drop) >= 1024);
            assert(rounded / pow2(drop) <= 16384) by (nonlinear_arith)
                requires
                    rounded <= 0x100_0000,
                    pow2(drop) >= 1024,
            ;
        }
    }
}

/// Converts one single-precision sample, given by its bit pattern.
pub fn convert_float_bits(bits: u32) -> (out: i16)
    ensures
        out == float_to_signed(bits),
        -32767 <= out <= 32767,
{
    proof {
        lemma_scaled_magnitude_in_range(bits);
    }
    let negative = bits >= 0x8000_0000;
    let exponent: u32 = (bits / 0x80_0000) % 256;
    let fraction: u32 = bits % 0x80_0000;
    if exponent == 255 && fraction != 0 {
        return 0;
    }
    let magnitude: u64 = if exponent >= 127 {
        32767
    } else if exponent == 0 {
        0
    } else {
        proof {
            lemma_rounded_bounds(fraction as nat);
            lemma2_to64();
        }
        let product: u64 = (0x80_0000 + fraction as u64) * 32767;
        let excess: u32 = if product < 0x40_0000_0000 {
            14
        } else {
            15
        };
        let unit: u64 = if excess == 14 {
            0x4000
        } else {
            0x8000
        };
        let kept = product / unit;
        let rest = product % unit;
        let rounded = if 2 * rest > unit || (2 * rest == unit && kept % 2 == 1) {
            kept + 1
        } else {
            kept
        };
        assert(rounded == nearest_even(product as nat, pow2(excess as nat)));
        let drop: u32 = 150 - exponent - excess;
        if drop >= 25 {
            proof {
                if drop > 25 {
                    lemma_pow2_strictly_increases(25, drop as nat);
                }
                assert(pow2(drop as nat) >= 0x200_0000);
                assert(rounded as nat / pow2(drop as nat) == 0) by (nonlinear_arith)
                    requires
                        rounded <= 0x100_0000,
                        pow2(drop as nat) >= 0x200_0000,
                ;
            }
            0
        } else {
            rounded / power_of_two(drop)
        }
    };
    assert(magnitude == scaled_magnitude(bits));
    if negative {
        -(magnitude as i16)
    } else {
        magnitude as i16
    }
}

/// Appends a chunk of single-precision samples, given by their bit
/// patterns, to a buffer, converted.
pub fn extend_with_float_bits(buffer: &mut Vec<i16>, data: &[u32])
    ensures
        final(buffer)@ == old(buffer)@ + float_chunk(data@),
{
    let ghost before = buffer@;
    let mut at: usize = 0;
    while at < data.len()
        invariant
            at <= data.len(),
            buffer@ == before + float_chunk(data@.take(at as int)),
        decreases data.len() - at,
    {
        buffer.push(convert_float_bits(data[at]));
        at = at + 1;
        assert(buffer@ =~= before + float_chunk(data@.take(at as int)));
    }
    assert(data@.take(at as int) =~= data@);
}

/// The sign bit mirrors the result: a number and its negative convert to a
/// value and its negative.
pub proof fn lemma_sign_mirrors(bits: u32)
    requires
        bits < 0x8000_0000,
    ensures
        float_to_signed((bits + 0x8000_0000) as u32) == -float_to_signed(bits),
        float_to_signed(bits) >= 0,
{
    let mirrored = (bits + 0x8000_0000) as u32;
    assert(exponent_field(mirrored) == exponent_field(bits));
    assert(fraction_field(mirrored) == fraction_field(bits));
}

/// Whatever has magnitude one or more, the infinities included, lands on
/// the scale itself: the clamp.
pub proof fn lemma_large_magnitudes_are_clamped(bits: u32)
    requires
        exponent_field(bits) >= 127,
        !is_nan(bits),
    ensures
        float_to_signed(bits) == (if is_negative(bits) {
            -32767int
        } else {
            32767int
        }),
{
}

/// The zeros and the subnormal numbers convert to zero, and so does what
/// is not a number.
pub proof fn lemma_tiny_and_undefined_give_zero(bits: u32)
    requires
        exponent_field(bits) == 0 || is_nan(bits),
    ensures
        float_to_signed(bits) == 0,
{
}

/// The parts of the scaled magnitude of a small normal number: the exact
/// truncation is the kept part of the product divided on, and the scaled
/// magnitude is the rounded product divided on.
proof fn lemma_truncation_splits(bits: u32)
    requires
        is_small_normal(bits),
    ensures
        ({
            let product = exact_product(bits);
            let excess = excess_bits(product);
            let drop = (150 - exponent_field(bits) - excess) as nat;
            &&& pow2(excess) > 0
            &&& pow2(drop) > 0
            &&& pow2((150 - exponent_field(bits)) as nat) == pow2(excess) * pow2(drop)
            &&& truncated_exactly(bits) == (product / pow2(excess)) / pow2(drop)
        }),
{
    let product = exact_product(bits);
    let excess = excess_bits(product);
    let drop = (150 - exponent_field(bits) - excess) as nat;
    lemma_pow2_pos(excess);
    lemma_pow2_pos(drop);
    lemma_pow2_adds(excess, drop);
    lemma_div_denominator(product as int, pow2(excess) as int, pow2(drop) as int);
}

/// Rounding the product before truncating it adds at most one: the result
/// is the exact product truncated toward zero, or one more.
pub proof fn lemma_rounding_adds_at_most_one(bits: u32)
    requires
        is_small_normal(bits),
    ensures
        truncated_exactly(bits) <= scaled_magnitude(bits) <= truncated_exactly(bits) + 1,
{
    let product = exact_product(bits);
    let excess = excess_bits(product);
    let drop = (150 - exponent_field(bits) - excess) as nat;
    let kept = (product / pow2(excess)) as int;
    let rounded = nearest_even(product, pow2(excess)) as int;
    lemma_truncation_splits(bits);
    lemma_rounded_bounds(fraction_field(bits));
    let divisor = pow2(drop) as int;
    lemma_div_is_ordered(kept, rounded, divisor);
    lemma_div_is_ordered(rounded, kept + 1, divisor);
    assert((kept + 1) / divisor <= kept / divisor + 1) by {
        lemma_div_is_ordered(kept + 1, kept + divisor, divisor);
        lemma_fundamental_div_mod(kept, divisor);
        lemma_fundamental_div_mod(kept + divisor, divisor);
        assert((kept + divisor) / divisor == kept / divisor + 1) by (nonlinear_arith)
            requires
                divisor > 0,
                kept >= 0,
        ;
    }
}

/// Where the exact product is a whole number, it is the result: nothing is
/// lost to rounding or truncation.
pub proof fn lemma_whole_products_are_exact(bits: u32)
    requires
        is_small_normal(bits),
        exact_product(bits) % pow2((150 - exponent_field(bits)) as nat) == 0,
    ensures
        scaled_magnitude(bits) == truncated_exactly(bits),
        scaled_magnitude(bits) * pow2((150 - exponent_field(bits)) as nat) == exact_product(bits),
{
    let product = exact_product(bits);
    let excess = excess_bits(product);
    let drop = (150 - exponent_field(bits) - excess) as nat;
    let whole = pow2((150 - exponent_field(bits)) as nat);
    lemma_truncation_splits(bits);
    lemma_rounded_bounds(fraction_field(bits));
    lemma_pow2_pos((150 - exponent_field(bits)) as nat);
    lemma_fundamental_div_mod(product as int, whole as int);
    let quotient = product as int / whole as int;
    assert(product == pow2(excess) * (pow2(drop) * quotient)) by (nonlinear_arith)
        requires
            product == whole * quotient,
            whole == pow2(excess) * pow2(drop),
    ;
    assert(product % pow2(excess) == 0) by {
        lemma_mod_multiples_basic(pow2(drop) * quotient, pow2(excess) as int);
        assert(pow2(excess) * (pow2(drop) * quotient) == (pow2(drop) * quotient) * pow2(excess))
            by (nonlinear_arith);
    }
    assert(nearest_even(product, pow2(excess)) == product / pow2(excess));
    assert(truncated_exactly(bits) * whole == product) by (nonlinear_arith)
        requires
            product == whole * quotient,
            truncated_exactly(bits) == quotient,
    ;
}

} // verus!
