//! IEEE-754 values given by their bit patterns: truncation to a 32-bit
//! integer (saturating, with NaN giving zero), comparison with zero, and the
//! ordering of double-precision values that `<` on `f64` implements.

use vstd::prelude::*;
use vstd::arithmetic::power2::{pow2, lemma2_to64, lemma_pow2_pos, lemma_pow2_strictly_increases};
use vstd::arithmetic::div_mod::lemma_div_is_ordered_by_denominator;

verus! {

/// Biased exponent of a single-precision value.
pub open spec fn f32_exponent(bits: u32) -> nat {
    ((bits as nat) / 0x800000) % 256
}

/// Stored mantissa of a single-precision value.
pub open spec fn f32_mantissa(bits: u32) -> nat {
    (bits as nat) % 0x800000
}

/// Sign of a single-precision value.
pub open spec fn f32_negative(bits: u32) -> bool {
    bits >= 0x80000000
}

/// The integer part of the magnitude of a finite single-precision value of
/// magnitude at least one: the significand scaled by its exponent, truncated.
pub open spec fn f32_trunc_magnitude(bits: u32) -> nat {
    let e = f32_exponent(bits);
    let m = f32_mantissa(bits) + 0x800000;
    if e >= 150 {
        m * pow2((e - 150) as nat)
    } else {
        m / pow2((150 - e) as nat)
    }
}

/// A single-precision value converted to a 32-bit integer: truncated toward
/// zero, saturating at the bounds of the type, and zero for NaN.
pub open spec fn f32_to_i32_spec(bits: u32) -> i32 {
    let e = f32_exponent(bits);
    if e == 255 && f32_mantissa(bits) != 0 {
        0
    } else if e < 127 {
        0
    } else if e >= 158 {
        if f32_negative(bits) {
            i32::MIN
        } else {
            i32::MAX
        }
    } else if f32_negative(bits) {
        (-f32_trunc_magnitude(bits)) as i32
    } else {
        f32_trunc_magnitude(bits) as i32
    }
}

/// Biased exponent of a double-precision value.
pub open spec fn f64_exponent(bits: u64) -> nat {
    ((bits as nat) / 0x10000000000000) % 2048
}

/// Stored mantissa of a double-precision value.
pub open spec fn f64_mantissa(bits: u64) -> nat {
    (bits as nat) % 0x10000000000000
}

/// Sign of a double-precision value.
pub open spec fn f64_negative(bits: u64) -> bool {
    bits >= 0x8000000000000000
}

/// The integer part of the magnitude of a finite double-precision value of
/// magnitude at least one and below 2^52.
pub open spec fn f64_trunc_magnitude(bits: u64) -> nat {
    (f64_mantissa(bits) + 0x10000000000000) / pow2((1075 - f64_exponent(bits)) as nat)
}

/// A double-precision value converted to a 32-bit integer: truncated toward
/// zero, saturating at the bounds of the type, and zero for NaN.
pub open spec fn f64_to_i32_spec(bits: u64) -> i32 {
    let e = f64_exponent(bits);
    if e == 2047 && f64_mantissa(bits) != 0 {
        0
    } else if e < 1023 {
        0
    } else if e >= 1054 {
        if f64_negative(bits) {
            i32::MIN
        } else {
            i32::MAX
        }
    } else if f64_negative(bits) {
        (-f64_trunc_magnitude(bits)) as i32
    } else {
        f64_trunc_magnitude(bits) as i32
    }
}

/// A single-precision value differs from zero: some bit other than the sign is set.
pub open spec fn f32_nonzero(bits: u32) -> bool {
    (bits as nat) % 0x80000000 != 0
}

/// A double-precision value differs from zero: some bit other than the sign is set.
pub open spec fn f64_nonzero(bits: u64) -> bool {
    (bits as nat) % 0x8000000000000000 != 0
}

/// Converts a single-precision value, given by its bits, to a 32-bit integer.
pub fn f32_bits_to_i32(bits: u32) -> (r: i32)
    ensures
        r == f32_to_i32_spec(bits),
{
    let e = (bits >> 23) & 0xff;
    let mant = bits & 0x7fffff;
    let neg = bits >= 0x80000000;
    assert(((bits >> 23) & 0xff) == (bits / 0x800000) % 256) by (bit_vector);
    assert((bits & 0x7fffff) == bits % 0x800000) by (bit_vector);
    if e == 255 && mant != 0 {
        0
    } else if e < 127 {
        0
    } else if e >= 158 {
        if neg {
            i32::MIN
        } else {
            i32::MAX
        }
    } else {
        let m: u64 = (mant as u64) + 0x800000;
        proof {
            lemma2_to64();
        }
        let mag: u64 = if e >= 150 {
            let k: u64 = (e - 150) as u64;
            proof {
                assert(k <= 7);
                assert(pow2(k as nat) <= 128) by {
                    if k < 7 {
                        lemma_pow2_strictly_increases(k as nat, 7);
                    }
                }
                assert(m * pow2(k as nat) < 0x80000000) by (nonlinear_arith)
                    requires
                        m < 0x1000000,
                        pow2(k as nat) <= 128,
                ;
                vstd::bits::lemma_u64_shl_is_mul(m, k);
            }
            m << k
        } else {
            let k: u64 = (150 - e) as u64;
            proof {
                vstd::bits::lemma_u64_shr_is_div(m, k);
                lemma_pow2_pos(k as nat);
                lemma_div_is_ordered_by_denominator(m as int, 1, pow2(k as nat) as int);
            }
            m >> k
        };
        assert(mag < 0x80000000);
        if neg {
            -(mag as i32)
        } else {
            mag as i32
        }
    }
}

/// Converts a double-precision value, given by its bits, to a 32-bit integer.
pub fn f64_bits_to_i32(bits: u64) -> (r: i32)
    ensures
        r == f64_to_i32_spec(bits),
{
    let e = (bits >> 52) & 0x7ff;
    let mant = bits & 0xfffffffffffff;
    let neg = bits >= 0x8000000000000000;
    assert(((bits >> 52) & 0x7ff) == (bits / 0x10000000000000) % 2048) by (bit_vector);
    assert((bits & 0xfffffffffffff) == bits % 0x10000000000000) by (bit_vector);
    if e == 2047 && mant != 0 {
        0
    } else if e < 1023 {
        0
    } else if e >= 1054 {
        if neg {
            i32::MIN
        } else {
            i32::MAX
        }
    } else {
        let m: u64 = mant + 0x10000000000000;
        let k: u64 = 1075 - e;
        proof {
            lemma2_to64();
            vstd::bits::lemma_u64_shr_is_div(m, k);
            assert(pow2(k as nat) >= pow2(22)) by {
                if k > 22 {
                    lemma_pow2_strictly_increases(22, k as nat);
                }
            }
            assert((m as nat) / pow2(k as nat) <= (m as nat) / pow2(22)) by {
                lemma_div_is_ordered_by_denominator(m as int, pow2(22) as int, pow2(k as nat) as int);
            }
        }
        let mag: u64 = m >> k;
        assert(mag < 0x80000000);
        if neg {
            -(mag as i32)
        } else {
            mag as i32
        }
    }
}

/// Whether a single-precision value, given by its bits, differs from zero.
pub fn f32_bits_nonzero(bits: u32) -> (r: bool)
    ensures
        r == f32_nonzero(bits),
{
    let low = bits & 0x7fffffff;
    assert((bits & 0x7fffffff) == bits % 0x80000000) by (bit_vector);
    low != 0
}

/// Whether a double-precision value, given by its bits, differs from zero.
pub fn f64_bits_nonzero(bits: u64) -> (r: bool)
    ensures
        r == f64_nonzero(bits),
{
    let low = bits & 0x7fffffffffffffff;
    assert((bits & 0x7fffffffffffffff) == bits % 0x8000000000000000) by (bit_vector);
    low != 0
}

/// All bits of a double-precision value but its sign.
pub open spec fn f64_magnitude(bits: u64) -> nat {
    (bits as nat) % 0x8000000000000000
}

/// Bits of positive infinity; negative infinity adds the sign bit.
pub const F64_INFINITY_BITS: u64 = 0x7ff0000000000000;

/// Bits of negative infinity.
pub const F64_NEG_INFINITY_BITS: u64 = 0xfff0000000000000;

/// A double-precision value is NaN: all exponent bits set and a nonzero mantissa.
pub open spec fn f64_is_nan(bits: u64) -> bool {
    f64_magnitude(bits) > F64_INFINITY_BITS
}

/// A double-precision value is an infinity of either sign.
pub open spec fn f64_is_infinite(bits: u64) -> bool {
    f64_magnitude(bits) == F64_INFINITY_BITS
}

/// The place of a value that is not NaN on the number line: for values of
/// one sign the magnitude bits grow with the value, so the magnitude, negated
/// for negative values, orders them as their values do (both zeros at 0).
pub open spec fn f64_order_key(bits: u64) -> int {
    if f64_negative(bits) {
        -(f64_magnitude(bits) as int)
    } else {
        f64_magnitude(bits) as int
    }
}

/// `a < b` on double-precision values: false whenever either is NaN.
pub open spec fn f64_lt(a: u64, b: u64) -> bool {
    !f64_is_nan(a) && !f64_is_nan(b) && f64_order_key(a) < f64_order_key(b)
}

/// Whether a double-precision value, given by its bits, is NaN.
pub fn f64_bits_is_nan(bits: u64) -> (r: bool)
    ensures
        r == f64_is_nan(bits),
{
    let low = bits & 0x7fffffffffffffff;
    assert((bits & 0x7fffffffffffffff) == bits % 0x8000000000000000) by (bit_vector);
    low > F64_INFINITY_BITS
}

/// Whether a double-precision value, given by its bits, is infinite.
pub fn f64_bits_is_infinite(bits: u64) -> (r: bool)
    ensures
        r == f64_is_infinite(bits),
{
    let low = bits & 0x7fffffffffffffff;
    assert((bits & 0x7fffffffffffffff) == bits % 0x8000000000000000) by (bit_vector);
    low == F64_INFINITY_BITS
}

/// `a < b` on double-precision values given by their bits.
pub fn f64_bits_lt(a: u64, b: u64) -> (r: bool)
    ensures
        r == f64_lt(a, b),
{
    if f64_bits_is_nan(a) || f64_bits_is_nan(b) {
        return false;
    }
    let ma = a & 0x7fffffffffffffff;
    let mb = b & 0x7fffffffffffffff;
    assert((a & 0x7fffffffffffffff) == a % 0x8000000000000000) by (bit_vector);
    assert((b & 0x7fffffffffffffff) == b % 0x8000000000000000) by (bit_vector);
    let ka: i128 = if a >= 0x8000000000000000 {
        -(ma as i128)
    } else {
        ma as i128
    };
    let kb: i128 = if b >= 0x8000000000000000 {
        -(mb as i128)
    } else {
        mb as i128
    };
    ka < kb
}

/// `a <= b` on double-precision values: false whenever either is NaN.
pub open spec fn f64_le(a: u64, b: u64) -> bool {
    !f64_is_nan(a) && !f64_is_nan(b) && f64_order_key(a) <= f64_order_key(b)
}

/// `a <= b` on double-precision values given by their bits.
pub fn f64_bits_le(a: u64, b: u64) -> (r: bool)
    ensures
        r == f64_le(a, b),
{
    if f64_bits_is_nan(a) || f64_bits_is_nan(b) {
        return false;
    }
    !f64_bits_lt(b, a)
}

/// The absolute value of a double-precision value: its bits without the sign.
pub open spec fn f64_abs(bits: u64) -> u64 {
    f64_magnitude(bits) as u64
}

/// The absolute value of a double-precision value given by its bits.
pub fn f64_bits_abs(bits: u64) -> (r: u64)
    ensures
        r == f64_abs(bits),
{
    assert((bits & 0x7fffffffffffffff) == bits % 0x8000000000000000) by (bit_vector);
    bits & 0x7fffffffffffffff
}

} // verus!
