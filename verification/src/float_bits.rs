//! IEEE-754 binary32 / binary64 numbers handled through their bit patterns.
//!
//! The library never computes with floating-point values: every float that crosses
//! the C boundary travels as its bit pattern (`u32` for single precision, `u64` for
//! double precision), and the decisions of the option parser are taken on those
//! patterns.  The spec functions below give each pattern its exact mathematical
//! meaning, so that the contracts can speak of values rather than of bits.
//!
//! A finite single-precision value is always an integer multiple of 2^-149, so it is
//! modelled exactly by the integer `value * 2^149`; a finite double-precision value is
//! an integer multiple of 2^-1074 and is modelled by `value * 2^1074`.
use vstd::arithmetic::div_mod::*;
use vstd::arithmetic::mul::*;
use vstd::arithmetic::power2::*;
use vstd::prelude::*;

verus! {

/// The mathematical meaning of a floating-point bit pattern.
pub enum FloatValue {
    /// Not a number.
    NaN,
    /// Positive infinity.
    PosInf,
    /// Negative infinity.
    NegInf,
    /// A finite value, scaled by the format's smallest subnormal step
    /// (2^149 for single precision, 2^1074 for double precision).
    Finite(int),
}

/// Sign bit of a single-precision pattern.
pub open spec fn f32_sign(b: u32) -> nat {
    (b / 0x8000_0000) as nat
}

/// Biased exponent field (8 bits) of a single-precision pattern.
pub open spec fn f32_exponent(b: u32) -> nat {
    ((b / 0x80_0000) % 0x100) as nat
}

/// Fraction field (23 bits) of a single-precision pattern.
pub open spec fn f32_fraction(b: u32) -> nat {
    (b % 0x80_0000) as nat
}

/// Absolute value of a finite single-precision pattern, times 2^149.
pub open spec fn f32_magnitude(b: u32) -> nat {
    if f32_exponent(b) == 0 {
        f32_fraction(b)
    } else {
        (f32_fraction(b) + 0x80_0000) * pow2((f32_exponent(b) - 1) as nat)
    }
}

/// The value a single-precision bit pattern denotes.
pub open spec fn f32_value(b: u32) -> FloatValue {
    if f32_exponent(b) == 0xff {
        if f32_fraction(b) != 0 {
            FloatValue::NaN
        } else if f32_sign(b) == 0 {
            FloatValue::PosInf
        } else {
            FloatValue::NegInf
        }
    } else if f32_sign(b) == 0 {
        FloatValue::Finite(f32_magnitude(b) as int)
    } else {
        FloatValue::Finite(-(f32_magnitude(b) as int))
    }
}

/// Sign bit of a double-precision pattern.
pub open spec fn f64_sign(b: u64) -> nat {
    (b / 0x8000_0000_0000_0000) as nat
}

/// Biased exponent field (11 bits) of a double-precision pattern.
pub open spec fn f64_exponent(b: u64) -> nat {
    ((b / 0x10_0000_0000_0000) % 0x800) as nat
}

/// Fraction field (52 bits) of a double-precision pattern.
pub open spec fn f64_fraction(b: u64) -> nat {
    (b % 0x10_0000_0000_0000) as nat
}

/// Absolute value of a finite double-precision pattern, times 2^1074.
pub open spec fn f64_magnitude(b: u64) -> nat {
    if f64_exponent(b) == 0 {
        f64_fraction(b)
    } else {
        (f64_fraction(b) + 0x10_0000_0000_0000) * pow2((f64_exponent(b) - 1) as nat)
    }
}

/// The value a double-precision bit pattern denotes.
pub open spec fn f64_value(b: u64) -> FloatValue {
    if f64_exponent(b) == 0x7ff {
        if f64_fraction(b) != 0 {
            FloatValue::NaN
        } else if f64_sign(b) == 0 {
            FloatValue::PosInf
        } else {
            FloatValue::NegInf
        }
    } else if f64_sign(b) == 0 {
        FloatValue::Finite(f64_magnitude(b) as int)
    } else {
        FloatValue::Finite(-(f64_magnitude(b) as int))
    }
}

/// `value.is_finite()`.
pub open spec fn is_finite(v: FloatValue) -> bool {
    v is Finite
}

/// `value > 0.0` (false for NaN).
pub open spec fn is_greater_than_zero(v: FloatValue) -> bool {
    match v {
        FloatValue::PosInf => true,
        FloatValue::Finite(x) => x > 0,
        _ => false,
    }
}

/// `value < 0.0` (false for NaN).
pub open spec fn is_less_than_zero(v: FloatValue) -> bool {
    match v {
        FloatValue::NegInf => true,
        FloatValue::Finite(x) => x < 0,
        _ => false,
    }
}

/// A finite single-precision value that is strictly positive.
pub open spec fn f32_is_positive_finite(b: u32) -> bool {
    f32_value(b) matches FloatValue::Finite(x) && x > 0
}

/// `(0.0..=1.0).contains(&value)` for a single-precision pattern:
/// the value is finite and lies in the closed unit interval.
pub open spec fn f32_in_unit_interval(b: u32) -> bool {
    f32_value(b) matches FloatValue::Finite(x) && 0 <= x <= pow2(149)
}

/// The value of a single-precision pattern as the same real number measured in
/// double-precision units (an exact widening never changes the value).
pub open spec fn widened_value(v: FloatValue) -> FloatValue {
    match v {
        FloatValue::Finite(x) => FloatValue::Finite(x * pow2(925)),
        other => other,
    }
}

/// The bit patterns split into their fields.
proof fn lemma_f32_fields(b: u32)
    ensures
        f32_sign(b) < 2,
        f32_exponent(b) < 0x100,
        f32_fraction(b) < 0x80_0000,
        b == f32_sign(b) * 0x8000_0000 + f32_exponent(b) * 0x80_0000 + f32_fraction(b),
        b % 0x8000_0000 == f32_exponent(b) * 0x80_0000 + f32_fraction(b),
{
}

/// The magnitude is zero exactly when both the exponent and the fraction are zero.
proof fn lemma_f32_magnitude_zero(b: u32)
    ensures
        (f32_magnitude(b) == 0) <==> (f32_exponent(b) == 0 && f32_fraction(b) == 0),
{
    if f32_exponent(b) != 0 {
        let p = pow2((f32_exponent(b) - 1) as nat);
        lemma_pow2_pos((f32_exponent(b) - 1) as nat);
        lemma_mul_strictly_positive((f32_fraction(b) + 0x80_0000) as int, p as int);
    }
}

/// For a finite pattern, the magnitude is at most one (2^149 in scaled units) exactly
/// when the pattern without its sign bit is at most the pattern of one.
proof fn lemma_f32_magnitude_at_most_one(b: u32)
    requires
        f32_exponent(b) != 0xff,
    ensures
        (f32_magnitude(b) <= pow2(149)) <==> (b % 0x8000_0000 <= 0x3f80_0000),
{
    lemma_f32_fields(b);
    let e = f32_exponent(b);
    let f = f32_fraction(b);
    lemma2_to64();
    if e == 0 {
        lemma_pow2_strictly_increases(23, 149);
    } else {
        let p = pow2((e - 1) as nat);
        lemma_pow2_pos((e - 1) as nat);
        lemma_pow2_adds(23, (e - 1) as nat);
        if e <= 126 {
            // (f + 2^23) * 2^(e-1) < 2^24 * 2^(e-1) = 2^(e+23) <= 2^149
            lemma_mul_strict_inequality((f + 0x80_0000) as int, 0x100_0000int, p as int);
            lemma_pow2_adds(24, (e - 1) as nat);
            if e + 23 < 149 {
                lemma_pow2_strictly_increases((e + 23) as nat, 149);
            }
        } else if e == 127 {
            lemma_pow2_adds(23, 126);
            if f > 0 {
                lemma_mul_strict_inequality(0x80_0000int, (f + 0x80_0000) as int, p as int);
            }
        } else {
            // (f + 2^23) * 2^(e-1) >= 2^23 * 2^127 = 2^150 > 2^149
            lemma_mul_inequality(0x80_0000int, (f + 0x80_0000) as int, p as int);
            if e - 1 > 127 {
                lemma_pow2_strictly_increases(127, (e - 1) as nat);
            }
            lemma_mul_inequality(pow2(127) as int, p as int, 0x80_0000int);
            lemma_pow2_adds(23, 127);
            lemma_pow2_strictly_increases(149, 150);
        }
    }
}

/// The bit patterns of the option defaults and of the color channels zero and one
/// denote: twenty, four, one, three halves and zero.
pub proof fn lemma_f32_constants()
    ensures
        f32_value(0x41a0_0000) == FloatValue::Finite(20 * pow2(149) as int),
        f32_value(0x4080_0000) == FloatValue::Finite(4 * pow2(149) as int),
        f32_value(0x3f80_0000) == FloatValue::Finite(pow2(149) as int),
        f32_value(0x3fc0_0000) == FloatValue::Finite(3 * pow2(148) as int),
        f32_value(0) == FloatValue::Finite(0),
{
    lemma2_to64();
    lemma_pow2_unfold(149);
    lemma_pow2_unfold(150);
    lemma_pow2_unfold(151);
    lemma_pow2_adds(130, 20);
    lemma_pow2_adds(128, 23);
    lemma_pow2_adds(126, 23);
    lemma_pow2_adds(126, 22);
    assert(f32_exponent(0x41a0_0000) == 131 && f32_fraction(0x41a0_0000) == 0x20_0000);
    assert(f32_magnitude(0x41a0_0000) == 0xa0_0000 * pow2(130));
    assert(f32_exponent(0x4080_0000) == 129 && f32_fraction(0x4080_0000) == 0);
    assert(f32_magnitude(0x4080_0000) == 0x80_0000 * pow2(128));
    assert(f32_exponent(0x3f80_0000) == 127 && f32_fraction(0x3f80_0000) == 0);
    assert(f32_magnitude(0x3f80_0000) == 0x80_0000 * pow2(126));
    assert(f32_exponent(0x3fc0_0000) == 127 && f32_fraction(0x3fc0_0000) == 0x40_0000);
    assert(f32_magnitude(0x3fc0_0000) == 0xc0_0000 * pow2(126));
}

/// `value.is_finite()` decided on the bit pattern.
pub fn f32_bits_is_finite(b: u32) -> (r: bool)
    ensures
        r == is_finite(f32_value(b)),
{
    (b / 0x80_0000) % 0x100 != 0xff
}

/// `value > 0.0` decided on the bit pattern.
pub fn f32_bits_greater_than_zero(b: u32) -> (r: bool)
    ensures
        r == is_greater_than_zero(f32_value(b)),
{
    proof {
        lemma_f32_fields(b);
        lemma_f32_magnitude_zero(b);
    }
    let exponent = (b / 0x80_0000) % 0x100;
    let fraction = b % 0x80_0000;
    if b / 0x8000_0000 != 0 {
        false
    } else if exponent == 0xff {
        fraction == 0
    } else {
        exponent != 0 || fraction != 0
    }
}

/// `value < 0.0` decided on the bit pattern.
pub fn f32_bits_less_than_zero(b: u32) -> (r: bool)
    ensures
        r == is_less_than_zero(f32_value(b)),
{
    proof {
        lemma_f32_fields(b);
        lemma_f32_magnitude_zero(b);
    }
    let exponent = (b / 0x80_0000) % 0x100;
    let fraction = b % 0x80_0000;
    if b / 0x8000_0000 == 0 {
        false
    } else if exponent == 0xff {
        fraction == 0
    } else {
        exponent != 0 || fraction != 0
    }
}

/// `value.is_finite() && (0.0..=1.0).contains(&value)` decided on the bit pattern.
pub fn f32_bits_in_unit_interval(b: u32) -> (r: bool)
    ensures
        r == f32_in_unit_interval(b),
{
    proof {
        lemma_f32_fields(b);
        lemma_f32_magnitude_zero(b);
        if f32_exponent(b) != 0xff {
            lemma_f32_magnitude_at_most_one(b);
        }
    }
    let exponent = (b / 0x80_0000) % 0x100;
    let fraction = b % 0x80_0000;
    if exponent == 0xff {
        false
    } else if b / 0x8000_0000 != 0 {
        // only a negative zero lies in the interval
        exponent == 0 && fraction == 0
    } else {
        b <= 0x3f80_0000
    }
}

/// A double-precision pattern assembled from its three fields has those fields.
proof fn lemma_f64_assemble(s: nat, e: nat, m: nat)
    requires
        s < 2,
        e < 0x800,
        m < 0x10_0000_0000_0000,
    ensures
        s * 0x8000_0000_0000_0000 + e * 0x10_0000_0000_0000 + m <= u64::MAX,
        ({
            let r = (s * 0x8000_0000_0000_0000 + e * 0x10_0000_0000_0000 + m) as u64;
            f64_sign(r) == s && f64_exponent(r) == e && f64_fraction(r) == m
        }),
{
    let r: int = (s * 0x8000_0000_0000_0000 + e * 0x10_0000_0000_0000 + m) as int;
    let low: int = (e * 0x10_0000_0000_0000 + m) as int;
    assert(low < 0x8000_0000_0000_0000);
    lemma_fundamental_div_mod_converse(r, 0x8000_0000_0000_0000, s as int, low);
    lemma_fundamental_div_mod_converse(r, 0x10_0000_0000_0000, (s * 0x800 + e) as int, m as int);
    lemma_fundamental_div_mod_converse((s * 0x800 + e) as int, 0x800, s as int, e as int);
}

/// `(a - c) * d + c * d == a * d`
proof fn lemma_mul_split(a: int, c: int, d: int)
    ensures
        (a - c) * d + c * d == a * d,
{
    lemma_mul_is_distributive_sub_other_way(d, a, c);
}


/// The position of the highest set bit of a positive number.
pub open spec fn floor_log2(f: nat) -> nat
    decreases f,
{
    if f < 2 {
        0
    } else {
        1 + floor_log2(f / 2)
    }
}

/// `2^p <= f < 2^(p+1)` pins the highest set bit of `f` at `p`.
proof fn lemma_floor_log2(f: nat, p: nat)
    requires
        pow2(p) <= f < 2 * pow2(p),
    ensures
        floor_log2(f) == p,
    decreases p,
{
    lemma2_to64();
    if p > 0 {
        lemma_pow2_unfold(p);
        lemma_floor_log2(f / 2, (p - 1) as nat);
    }
}

/// The double-precision pattern `value as f64` gives for a single-precision pattern:
/// sign kept; NaN made quiet with its payload kept; infinities and zeros kept;
/// subnormals normalised; normal exponents rebiased and fractions shifted.
pub open spec fn widened_bits(b: u32) -> u64 {
    let s = f32_sign(b);
    let e = f32_exponent(b);
    let f = f32_fraction(b);
    let em: (nat, nat) = if e == 0xff {
        if f == 0 {
            (0x7ffnat, 0nat)
        } else {
            (0x7ffnat, 0x8_0000_0000_0000 + (f % 0x40_0000) * 0x2000_0000)
        }
    } else if e == 0 {
        if f == 0 {
            (0nat, 0nat)
        } else {
            let p = floor_log2(f);
            ((p + 874) as nat, ((f - pow2(p)) * pow2((52 - p) as nat)) as nat)
        }
    } else {
        ((e + 896) as nat, f * 0x2000_0000)
    };
    (s * 0x8000_0000_0000_0000 + em.0 * 0x10_0000_0000_0000 + em.1) as u64
}

/// Assembles the double-precision pattern of the given fields.
fn assemble_f64(sign: u64, exponent: u64, fraction: u64) -> (r: u64)
    requires
        sign < 2,
        exponent < 0x800,
        fraction < 0x10_0000_0000_0000,
    ensures
        f64_sign(r) == sign,
        f64_exponent(r) == exponent,
        f64_fraction(r) == fraction,
        r == sign * 0x8000_0000_0000_0000 + exponent * 0x10_0000_0000_0000 + fraction,
{
    proof {
        lemma_f64_assemble(sign as nat, exponent as nat, fraction as nat);
    }
    sign * 0x8000_0000_0000_0000 + exponent * 0x10_0000_0000_0000 + fraction
}

/// For a subnormal single-precision fraction `f` with `2^p <= f < 2^(p+1)`, the
/// double-precision fields `(p + 874, (f - 2^p) * 2^(52-p))` denote `f * 2^925`.
proof fn lemma_widen_subnormal(f: nat, p: nat)
    requires
        p <= 22,
        pow2(p) <= f < 2 * pow2(p),
    ensures
        (f - pow2(p)) * pow2((52 - p) as nat) < 0x10_0000_0000_0000,
        ((f - pow2(p)) * pow2((52 - p) as nat) + 0x10_0000_0000_0000) * pow2((p + 873) as nat)
            == f * pow2(925),
{
    let pw = pow2(p) as int;
    let step = pow2((52 - p) as nat) as int;
    lemma2_to64();
    lemma2_to64_rest();
    lemma_pow2_adds(p, (52 - p) as nat);
    assert(pw * step == 0x10_0000_0000_0000);
    lemma_mul_strict_inequality(f - pw, pw, step);
    lemma_mul_is_commutative(pw, step);
    lemma_mul_split(f as int, pw, step);
    lemma_pow2_adds((52 - p) as nat, (p + 873) as nat);
    lemma_mul_is_associative(f as int, step, pow2((p + 873) as nat) as int);
}

/// For a normal single-precision pattern with exponent field `e` and fraction `f`, the
/// double-precision fields `(e + 896, f * 2^29)` denote `(f + 2^23) * 2^(e-1) * 2^925`.
proof fn lemma_widen_normal(f: nat, e: nat)
    requires
        1 <= e <= 254,
        f < 0x80_0000,
    ensures
        f * 0x2000_0000 < 0x10_0000_0000_0000,
        (f * 0x2000_0000 + 0x10_0000_0000_0000) * pow2((e + 895) as nat)
            == ((f + 0x80_0000) * pow2((e - 1) as nat)) * pow2(925),
{
    lemma2_to64();
    lemma_pow2_adds(29, (e + 895) as nat);
    lemma_pow2_adds((e - 1) as nat, 925);
    lemma_mul_is_distributive_add_other_way(0x2000_0000, f as int, 0x80_0000);
    lemma_mul_is_associative((f + 0x80_0000) as int, 0x2000_0000, pow2((e + 895) as nat) as int);
    lemma_mul_is_associative(
        (f + 0x80_0000) as int,
        pow2((e - 1) as nat) as int,
        pow2(925) as int,
    );
}

/// Widens a single-precision pattern to the double-precision pattern of the same value
/// (what `value as f64` computes).  A NaN stays a NaN: its payload is kept and it is
/// made quiet, as the hardware conversion does.
pub fn widen_f32_bits(b: u32) -> (r: u64)
    ensures
        f64_value(r) == widened_value(f32_value(b)),
        f64_sign(r) == f32_sign(b),
        f32_value(b) is NaN ==> f64_fraction(r) == 0x8_0000_0000_0000 + (f32_fraction(b)
            % 0x40_0000) * 0x2000_0000,
        r == widened_bits(b),
{
    proof {
        lemma_f32_fields(b);
        lemma2_to64();
        lemma_mul_unary_negation(f32_magnitude(b) as int, pow2(925) as int);
        lemma_mul_basics(pow2(925) as int);
    }
    let sign: u64 = (b / 0x8000_0000) as u64;
    let exponent: u64 = ((b / 0x80_0000) % 0x100) as u64;
    let fraction: u64 = (b % 0x80_0000) as u64;
    if exponent == 0xff {
        if fraction == 0 {
            assemble_f64(sign, 0x7ff, 0)
        } else {
            assemble_f64(sign, 0x7ff, 0x8_0000_0000_0000 + (fraction % 0x40_0000) * 0x2000_0000)
        }
    } else if exponent == 0 {
        if fraction == 0 {
            assemble_f64(sign, 0, 0)
        } else {
            // normalise: find p with 2^p <= fraction < 2^(p+1)
            let mut p: u64 = 22;
            let mut pw: u64 = 0x40_0000;
            while fraction < pw
                invariant
                    p <= 22,
                    pw == pow2(p as nat),
                    1 <= fraction < 2 * pw,
                decreases p,
            {
                proof {
                    lemma2_to64();
                    if p > 0 {
                        lemma_pow2_unfold(p as nat);
                    }
                }
                p = p - 1;
                pw = pw / 2;
            }
            proof {
                lemma_pow2_subtracts(p as nat, 52);
                lemma2_to64_rest();
                lemma_widen_subnormal(fraction as nat, p as nat);
                lemma_floor_log2(fraction as nat, p as nat);
            }
            let step: u64 = 0x10_0000_0000_0000 / pw;
            let r = assemble_f64(sign, p + 874, (fraction - pw) * step);
            proof {
                assert(f64_magnitude(r) == fraction * pow2(925));
            }
            r
        }
    } else {
        proof {
            lemma_widen_normal(fraction as nat, exponent as nat);
        }
        let r = assemble_f64(sign, exponent + 896, fraction * 0x2000_0000);
        proof {
            assert(f64_magnitude(r) == f32_magnitude(b) * pow2(925));
        }
        r
    }
}

} // verus!
