//! JSON numbers, and the IEEE-754 binary64 facts that the keywords read from them.
//!
//! A JSON number is held the way a JSON document model holds it: as a non-negative
//! integer, a negative integer, or a floating-point value. Beside that, each number
//! carries the bit pattern of its binary64 image (what `as_f64` reads), so that
//! the checks that compare numbers as doubles can be decided on integers.
use vstd::arithmetic::div_mod::{
    lemma_fundamental_div_mod, lemma_mod_multiples_basic, lemma_mod_self_0, lemma_mul_mod_noop,
    lemma_small_mod,
};
use vstd::arithmetic::power2::{
    lemma2_to64, lemma2_to64_rest, lemma_pow2_adds, lemma_pow2_pos, lemma_pow2_strictly_increases,
    lemma_pow2_unfold, pow2,
};
use vstd::bits::{
    low_bits_mask, lemma_u64_low_bits_mask_is_mod, lemma_u64_shl_is_mul, lemma_u64_shr_is_div,
};
use vstd::prelude::*;

verus! {

/// The width of the fraction field of a binary64 value.
pub const FRACTION_BITS: u64 = 52;

/// The mask that selects the fraction field of a binary64 value.
pub const FRACTION_MASK: u64 = 0xf_ffff_ffff_ffff;

/// The biased exponent that marks infinities and NaNs.
pub const EXPONENT_SPECIAL: u64 = 0x7ff;

/// The biased exponent field (bits 52..63) of a binary64 bit pattern.
pub open spec fn exponent_field(bits: u64) -> u64 {
    (bits >> 52u64) & 0x7ffu64
}

/// The fraction field (bits 0..52) of a binary64 bit pattern.
pub open spec fn fraction_field(bits: u64) -> u64 {
    bits & 0xf_ffff_ffff_ffffu64
}

/// The bit pattern encodes a finite value (neither an infinity nor a NaN).
pub open spec fn is_finite_bits(bits: u64) -> bool {
    exponent_field(bits) != 0x7ff
}

/// The bit pattern encodes a NaN.
pub open spec fn is_nan_bits(bits: u64) -> bool {
    exponent_field(bits) == 0x7ff && fraction_field(bits) != 0
}

/// The bit pattern encodes `+0.0` or `-0.0`.
pub open spec fn is_zero_bits(bits: u64) -> bool {
    exponent_field(bits) == 0 && fraction_field(bits) == 0
}

/// The integer significand of a finite value: its magnitude is
/// `significand(bits) * 2^binary_exponent(bits)`.
pub open spec fn significand(bits: u64) -> nat {
    if exponent_field(bits) == 0 {
        fraction_field(bits) as nat
    } else {
        fraction_field(bits) as nat + pow2(52)
    }
}

/// The power of two that scales the significand of a finite value.
pub open spec fn binary_exponent(bits: u64) -> int {
    if exponent_field(bits) == 0 {
        -1074
    } else {
        exponent_field(bits) - 1075
    }
}

/// What `x.fract() == 0.0` decides of a double `x`: it is finite and its value,
/// `significand * 2^exponent`, is a whole number.
pub open spec fn is_integral_bits(bits: u64) -> bool {
    &&& is_finite_bits(bits)
    &&& (binary_exponent(bits) >= 0 || significand(bits) % pow2((-binary_exponent(bits)) as nat)
        == 0)
}

/// What `x == y` decides of two doubles: neither is a NaN, and they are the same
/// value, where `+0.0` and `-0.0` are the same value.
pub open spec fn f64_equal_bits(a: u64, b: u64) -> bool {
    &&& !is_nan_bits(a)
    &&& !is_nan_bits(b)
    &&& (a == b || (is_zero_bits(a) && is_zero_bits(b)))
}

/// The form in which a JSON number was given.
#[derive(Clone, Copy, Debug, PartialEq, Eq, Structural)]
pub enum NumberRepr {
    /// A non-negative integer.
    PosInt(u64),
    /// A negative integer.
    NegInt(i64),
    /// A floating-point value; its bits are those of the number's binary64 image.
    Float,
}

/// A JSON number.
#[derive(Clone, Copy, Debug, PartialEq, Eq, Structural)]
pub struct JsonNumber {
    /// The form in which the number was given.
    pub repr: NumberRepr,
    /// The bit pattern of the number's binary64 image.
    pub f64_bits: u64,
}

impl JsonNumber {
    /// A JSON number never is an infinity or a NaN, and a negative integer is
    /// below zero.
    pub open spec fn wf(self) -> bool {
        &&& is_finite_bits(self.f64_bits)
        &&& (self.repr matches NumberRepr::NegInt(n) ==> n < 0)
    }

    /// The number was given as a non-negative integer.
    pub fn is_u64(&self) -> (r: bool)
        ensures
            r == (self.repr is PosInt),
    {
        match self.repr {
            NumberRepr::PosInt(_) => true,
            _ => false,
        }
    }

    /// The number was given as an integer that fits in an `i64`.
    pub fn is_i64(&self) -> (r: bool)
        ensures
            r == match self.repr {
                NumberRepr::PosInt(v) => v <= i64::MAX,
                NumberRepr::NegInt(_) => true,
                NumberRepr::Float => false,
            },
    {
        match self.repr {
            NumberRepr::PosInt(v) => v <= 0x7fff_ffff_ffff_ffffu64,
            NumberRepr::NegInt(_) => true,
            NumberRepr::Float => false,
        }
    }

    /// The number was given as a floating-point value.
    pub fn is_f64(&self) -> (r: bool)
        ensures
            r == (self.repr is Float),
    {
        match self.repr {
            NumberRepr::Float => true,
            _ => false,
        }
    }

    /// The bit pattern of the number's binary64 image.
    pub fn as_f64_bits(&self) -> (r: u64)
        ensures
            r == self.f64_bits,
    {
        self.f64_bits
    }
}

proof fn lemma_fields_of(bits: u64)
    ensures
        exponent_field(bits) <= 0x7ff,
        fraction_field(bits) <= 0xf_ffff_ffff_ffff,
{
    assert((bits >> 52u64) & 0x7ffu64 <= 0x7ff) by (bit_vector);
    assert(bits & 0xf_ffff_ffff_ffffu64 <= 0xf_ffff_ffff_ffff) by (bit_vector);
}

/// Decides `x.fract() == 0.0` for the double whose bit pattern is `bits`, with
/// integer operations only.
pub fn is_integral_f64_bits(bits: u64) -> (r: bool)
    ensures
        r == is_integral_bits(bits),
{
    proof {
        lemma_fields_of(bits);
        lemma2_to64();
        lemma2_to64_rest();
    }
    let exponent: u64 = (bits >> FRACTION_BITS) & EXPONENT_SPECIAL;
    let fraction: u64 = bits & FRACTION_MASK;
    assert(exponent == exponent_field(bits));
    assert(fraction == fraction_field(bits));
    if exponent == EXPONENT_SPECIAL {
        return false;
    }
    if exponent == 0 {
        // A subnormal value is below one: it is whole only when it is zero.
        proof {
            lemma_pow2_strictly_increases(52, 1074);
            lemma_small_mod(fraction as nat, pow2(1074));
        }
        return fraction == 0;
    }
    if exponent >= 1075 {
        return true;
    }
    let shift: u64 = 1075 - exponent;
    let sig: u64 = fraction + 0x10_0000_0000_0000u64;
    assert(sig == significand(bits));
    assert(-binary_exponent(bits) == shift);
    if shift > 52 {
        // The significand lies in [2^52, 2^53), below 2^shift and above zero.
        proof {
            if shift > 53 {
                lemma_pow2_strictly_increases(53, shift as nat);
            }
            lemma_small_mod(sig as nat, pow2(shift as nat));
        }
        return false;
    }
    proof {
        lemma_u64_shl_is_mul(1, shift);
        lemma_pow2_strictly_increases(shift as nat, 64);
    }
    let mask: u64 = (1u64 << shift) - 1;
    proof {
        assert(mask == low_bits_mask(shift as nat) as u64);
        lemma_u64_low_bits_mask_is_mod(sig, shift as nat);
    }
    (sig & mask) == 0
}

/// Decides `x == y` for the doubles whose bit patterns are `a` and `b`.
pub fn f64_bits_equal(a: u64, b: u64) -> (r: bool)
    ensures
        r == f64_equal_bits(a, b),
{
    let a_nan = (a >> FRACTION_BITS) & EXPONENT_SPECIAL == EXPONENT_SPECIAL && a & FRACTION_MASK
        != 0;
    let b_nan = (b >> FRACTION_BITS) & EXPONENT_SPECIAL == EXPONENT_SPECIAL && b & FRACTION_MASK
        != 0;
    if a_nan || b_nan {
        return false;
    }
    if a == b {
        return true;
    }
    let a_zero = (a >> FRACTION_BITS) & EXPONENT_SPECIAL == 0 && a & FRACTION_MASK == 0;
    let b_zero = (b >> FRACTION_BITS) & EXPONENT_SPECIAL == 0 && b & FRACTION_MASK == 0;
    a_zero && b_zero
}

impl JsonNumber {
    /// Decides whether two JSON numbers have the same binary64 image
    /// (`a.as_f64() == b.as_f64()`).
    pub fn f64_equals(&self, other: &JsonNumber) -> (r: bool)
        ensures
            r == f64_equal_bits(self.f64_bits, other.f64_bits),
    {
        f64_bits_equal(self.f64_bits, other.f64_bits)
    }
}

/// Double equality is an equivalence on the doubles that are not NaNs.
pub proof fn lemma_f64_equal_equivalence(a: u64, b: u64, c: u64)
    ensures
        !is_nan_bits(a) ==> f64_equal_bits(a, a),
        f64_equal_bits(a, b) ==> f64_equal_bits(b, a),
        f64_equal_bits(a, b) && f64_equal_bits(b, c) ==> f64_equal_bits(a, c),
{
}

/// The magnitude of a double with no fractional part, as a whole number.
pub open spec fn whole_magnitude(bits: u64) -> nat {
    if binary_exponent(bits) >= 0 {
        significand(bits) * pow2(binary_exponent(bits) as nat)
    } else {
        significand(bits) / pow2((-binary_exponent(bits)) as nat)
    }
}

/// What `x % m == 0.0` decides of two doubles `x` and `m` with no fractional
/// part. The remainder of doubles is computed exactly, so it is zero exactly
/// when `m` is not zero and `x` is a whole multiple of `m`; signs do not change
/// whether one whole number divides another.
pub open spec fn is_whole_multiple(x_bits: u64, m_bits: u64) -> bool {
    whole_magnitude(m_bits) != 0 && whole_magnitude(x_bits) % whole_magnitude(m_bits) == 0
}

/// If `b` is odd and divides `a * 2^d`, it divides `a`.
proof fn lemma_odd_divisor(a: int, b: int, d: nat, k: int)
    requires
        a * pow2(d) == k * b,
        b % 2 == 1,
        b > 0,
    ensures
        a % b == 0,
    decreases d,
{
    if d == 0 {
        assert(pow2(0) == 1) by {
            lemma2_to64();
        }
        assert(a == k * b) by (nonlinear_arith)
            requires
                a * pow2(d) == k * b,
                pow2(d) == 1,
        ;
        lemma_mod_multiples_basic(k, b);
    } else {
        lemma_pow2_unfold(d);
        let e = pow2((d - 1) as nat) as int;
        assert(k * b == 2 * (a * e)) by (nonlinear_arith)
            requires
                a * pow2(d) == k * b,
                pow2(d) == 2 * pow2((d - 1) as nat),
                e == pow2((d - 1) as nat),
        ;
        lemma_mul_mod_noop(k, b, 2);
        lemma_mod_multiples_basic(a * e, 2);
        assert((2 * (a * e)) % 2 == 0) by (nonlinear_arith)
            requires
                ((a * e) * 2) % 2 == 0,
        ;
        assert(k % 2 == 0) by (nonlinear_arith)
            requires
                (k % 2) * (b % 2) % 2 == (k * b) % 2,
                (k * b) % 2 == 0,
                b % 2 == 1,
                0 <= k % 2 < 2,
        ;
        let k2 = k / 2;
        lemma_fundamental_div_mod(k, 2);
        assert(a * e == k2 * b) by (nonlinear_arith)
            requires
                k * b == 2 * (a * e),
                k == 2 * k2 + k % 2,
                k % 2 == 0,
        ;
        lemma_odd_divisor(a, b, (d - 1) as nat, k2);
    }
}

/// For odd `a` and `b`, `b * 2^q` divides `a * 2^p` exactly when `q <= p` and
/// `b` divides `a`.
proof fn lemma_odd_parts_divide(a: int, p: nat, b: int, q: nat)
    requires
        a % 2 == 1,
        b % 2 == 1,
        a > 0,
        b > 0,
    ensures
        (a * pow2(p)) % (b * pow2(q)) == 0 <==> (q <= p && a % b == 0),
{
    lemma_pow2_pos(p);
    lemma_pow2_pos(q);
    let m = b * pow2(q);
    assert(m > 0) by (nonlinear_arith)
        requires
            b > 0,
            pow2(q) > 0,
            m == b * pow2(q),
    ;
    if q <= p && a % b == 0 {
        let d = (p - q) as nat;
        lemma_pow2_adds(q, d);
        assert(pow2(p) == pow2(q) * pow2(d));
        lemma_fundamental_div_mod(a, b);
        let c = a / b;
        assert(a * pow2(p) == (c * pow2(d)) * m) by (nonlinear_arith)
            requires
                a == b * c,
                pow2(p) == pow2(q) * pow2(d),
                m == b * pow2(q),
        ;
        lemma_mod_multiples_basic(c * pow2(d), m);
    }
    if (a * pow2(p)) % m == 0 {
        lemma_fundamental_div_mod(a * pow2(p), m);
        let k = (a * pow2(p)) / m;
        assert(a * pow2(p) == m * k);
        if p < q {
            let d = (q - p) as nat;
            lemma_pow2_adds(p, d);
            lemma_pow2_unfold(d);
            let e = pow2((d - 1) as nat) as int;
            assert(a == 2 * (k * b * e)) by (nonlinear_arith)
                requires
                    a * pow2(p) == m * k,
                    m == b * pow2(q),
                    pow2(q) == pow2(p) * pow2(d),
                    pow2(d) == 2 * e,
                    pow2(p) > 0,
            ;
            lemma_mod_multiples_basic(k * b * e, 2);
            assert((2 * (k * b * e)) % 2 == 0) by (nonlinear_arith)
                requires
                    ((k * b * e) * 2) % 2 == 0,
            ;
            assert(false);
        } else {
            let d = (p - q) as nat;
            lemma_pow2_adds(q, d);
            assert(a * pow2(d) == k * b) by (nonlinear_arith)
                requires
                    a * pow2(p) == m * k,
                    m == b * pow2(q),
                    pow2(p) == pow2(q) * pow2(d),
                    pow2(q) > 0,
            ;
            lemma_odd_divisor(a, b, d, k);
        }
    }
}

/// The odd part and the power of two of the magnitude of a double with no
/// fractional part, when that magnitude is not zero.
fn odd_decomposition(bits: u64) -> (r: (u64, u64))
    requires
        is_integral_bits(bits),
        whole_magnitude(bits) != 0,
    ensures
        r.0 % 2 == 1,
        r.1 < 1100,
        whole_magnitude(bits) == r.0 * pow2(r.1 as nat),
{
    proof {
        lemma_fields_of(bits);
        lemma2_to64();
        lemma2_to64_rest();
    }
    let exponent: u64 = (bits >> FRACTION_BITS) & EXPONENT_SPECIAL;
    let fraction: u64 = bits & FRACTION_MASK;
    assert(exponent == exponent_field(bits));
    assert(fraction == fraction_field(bits));
    if exponent == 0 {
        // A whole subnormal value is zero.
        proof {
            lemma_pow2_strictly_increases(52, 1074);
            lemma_small_mod(fraction as nat, pow2(1074));
            assert(fraction == 0);
            assert(whole_magnitude(bits) == 0) by {
                lemma_pow2_pos(1074);
            }
        }
        assert(false);
        return (1, 0);
    }
    let sig: u64 = fraction + 0x10_0000_0000_0000u64;
    assert(sig == significand(bits));
    let mut odd: u64;
    let mut power: u64;
    if exponent >= 1075 {
        odd = sig;
        power = exponent - 1075;
    } else {
        let shift: u64 = 1075 - exponent;
        if shift > 52 {
            proof {
                if shift > 53 {
                    lemma_pow2_strictly_increases(53, shift as nat);
                }
                lemma_small_mod(sig as nat, pow2(shift as nat));
            }
            assert(false);
            return (1, 0);
        }
        proof {
            lemma_u64_shr_is_div(sig, shift);
        }
        odd = sig >> shift;
        power = 0;
        assert(whole_magnitude(bits) == odd);
        assert(whole_magnitude(bits) == odd * pow2(power as nat)) by (nonlinear_arith)
            requires
                whole_magnitude(bits) == odd,
                pow2(power as nat) == 1,
        ;
    }
    assert(odd > 0) by (nonlinear_arith)
        requires
            whole_magnitude(bits) == odd * pow2(power as nat),
            whole_magnitude(bits) != 0,
    ;
    let ghost start_odd: int = odd as int;
    let ghost start_power: int = power as int;
    let ghost mut steps: nat = 0;
    while odd % 2 == 0
        invariant
            odd > 0,
            start_odd < 0x20_0000_0000_0000,
            start_power <= 971,
            start_odd == odd * pow2(steps),
            power == start_power + steps,
            whole_magnitude(bits) == odd * pow2(power as nat),
        decreases odd,
    {
        proof {
            lemma_pow2_unfold((power + 1) as nat);
            lemma_pow2_unfold(steps + 1);
            lemma_pow2_pos(steps);
            lemma2_to64_rest();
            lemma_fundamental_div_mod(odd as int, 2);
            if steps >= 53 {
                if steps > 53 {
                    lemma_pow2_strictly_increases(53, steps);
                }
                assert(start_odd >= pow2(steps)) by (nonlinear_arith)
                    requires
                        start_odd == odd * pow2(steps),
                        odd > 0,
                        pow2(steps) > 0,
                ;
                assert(false);
            }
        }
        assert(whole_magnitude(bits) == (odd / 2) * pow2((power + 1) as nat)) by (nonlinear_arith)
            requires
                whole_magnitude(bits) == odd * pow2(power as nat),
                odd == 2 * (odd / 2) + odd % 2,
                odd % 2 == 0,
                pow2((power + 1) as nat) == 2 * pow2(power as nat),
        ;
        assert(start_odd == (odd / 2) * pow2(steps + 1)) by (nonlinear_arith)
            requires
                start_odd == odd * pow2(steps),
                odd == 2 * (odd / 2) + odd % 2,
                odd % 2 == 0,
                pow2(steps + 1) == 2 * pow2(steps),
        ;
        odd = odd / 2;
        power = power + 1;
        proof {
            steps = steps + 1;
        }
    }
    proof {
        if steps >= 53 {
            if steps > 53 {
                lemma_pow2_strictly_increases(53, steps);
            }
            lemma_pow2_pos(steps);
            assert(start_odd >= pow2(steps)) by (nonlinear_arith)
                requires
                    start_odd == odd * pow2(steps),
                    odd > 0,
                    pow2(steps) > 0,
            ;
        }
    }
    (odd, power)
}

/// A double with no fractional part has magnitude zero exactly when it is
/// `+0.0` or `-0.0`.
proof fn lemma_whole_magnitude_zero(bits: u64)
    requires
        is_integral_bits(bits),
    ensures
        (whole_magnitude(bits) == 0) == is_zero_bits(bits),
{
    lemma_fields_of(bits);
    lemma2_to64();
    lemma2_to64_rest();
    let e = binary_exponent(bits);
    if exponent_field(bits) == 0 {
        lemma_pow2_strictly_increases(52, 1074);
        lemma_small_mod(fraction_field(bits) as nat, pow2(1074));
        lemma_pow2_pos(1074);
    } else {
        assert(significand(bits) > 0);
        if e >= 0 {
            lemma_pow2_pos(e as nat);
            assert(whole_magnitude(bits) > 0) by (nonlinear_arith)
                requires
                    whole_magnitude(bits) == significand(bits) * pow2(e as nat),
                    significand(bits) > 0,
                    pow2(e as nat) > 0,
            ;
        } else {
            let p = pow2((-e) as nat);
            lemma_pow2_pos((-e) as nat);
            lemma_fundamental_div_mod(significand(bits) as int, p as int);
            assert(whole_magnitude(bits) > 0) by (nonlinear_arith)
                requires
                    significand(bits) == p * (significand(bits) / p) + significand(bits) % p,
                    significand(bits) % p == 0,
                    whole_magnitude(bits) == significand(bits) / p,
                    significand(bits) > 0,
                    p > 0,
            ;
        }
    }
}

/// Decides `is_whole_multiple` of two doubles with no fractional part.
pub fn is_whole_multiple_bits(x_bits: u64, m_bits: u64) -> (r: bool)
    requires
        is_integral_bits(x_bits),
        is_integral_bits(m_bits),
    ensures
        r == is_whole_multiple(x_bits, m_bits),
{
    proof {
        lemma_whole_magnitude_zero(x_bits);
        lemma_whole_magnitude_zero(m_bits);
    }
    let m_zero = (m_bits >> FRACTION_BITS) & EXPONENT_SPECIAL == 0 && m_bits & FRACTION_MASK == 0;
    if m_zero {
        return false;
    }
    let x_zero = (x_bits >> FRACTION_BITS) & EXPONENT_SPECIAL == 0 && x_bits & FRACTION_MASK == 0;
    if x_zero {
        proof {
            lemma_small_mod(0, whole_magnitude(m_bits));
        }
        return true;
    }
    let (a, p) = odd_decomposition(x_bits);
    let (b, q) = odd_decomposition(m_bits);
    proof {
        lemma_odd_parts_divide(a as int, p as nat, b as int, q as nat);
    }
    q <= p && a % b == 0
}

/// Facts of the whole-number `multipleOf` check: nothing is a multiple of zero;
/// zero is a multiple of every other number; every number other than zero is a
/// multiple of itself; and every whole number is a multiple of one.
pub proof fn lemma_whole_multiple_facts(x_bits: u64, m_bits: u64)
    ensures
        whole_magnitude(m_bits) == 0 ==> !is_whole_multiple(x_bits, m_bits),
        whole_magnitude(x_bits) == 0 && whole_magnitude(m_bits) != 0 ==> is_whole_multiple(
            x_bits,
            m_bits,
        ),
        whole_magnitude(x_bits) != 0 ==> is_whole_multiple(x_bits, x_bits),
        whole_magnitude(m_bits) == 1 ==> is_whole_multiple(x_bits, m_bits),
{
    if whole_magnitude(m_bits) != 0 {
        lemma_small_mod(0, whole_magnitude(m_bits));
    }
    if whole_magnitude(x_bits) != 0 {
        lemma_mod_self_0(whole_magnitude(x_bits) as int);
    }
    if whole_magnitude(m_bits) == 1 {
        lemma_mod_multiples_basic(whole_magnitude(x_bits) as int, 1);
    }
}

/// Two doubles compare equal exactly when neither is a NaN and either their bit
/// patterns are identical or both are zeros (`+0.0` or `-0.0`); in particular
/// two equal doubles that are not zero have the same bits.
pub proof fn lemma_f64_equality_by_bits(a: u64, b: u64)
    ensures
        f64_equal_bits(a, b) <==> {
            &&& !((a >> 52u64) & 0x7ffu64 == 0x7ff && a & 0xf_ffff_ffff_ffffu64 != 0)
            &&& !((b >> 52u64) & 0x7ffu64 == 0x7ff && b & 0xf_ffff_ffff_ffffu64 != 0)
            &&& (a == b || (a & 0x7fff_ffff_ffff_ffffu64 == 0 && b & 0x7fff_ffff_ffff_ffffu64
                == 0))
        },
        f64_equal_bits(a, b) && a & 0x7fff_ffff_ffff_ffffu64 != 0 ==> a == b,
{
    assert(((a >> 52u64) & 0x7ffu64 == 0 && a & 0xf_ffff_ffff_ffffu64 == 0) <==> a
        & 0x7fff_ffff_ffff_ffffu64 == 0) by (bit_vector);
    assert(((b >> 52u64) & 0x7ffu64 == 0 && b & 0xf_ffff_ffff_ffffu64 == 0) <==> b
        & 0x7fff_ffff_ffff_ffffu64 == 0) by (bit_vector);
}

/// Flipping the sign bit of a double changes neither whether it is whole nor
/// its magnitude, nor whether it is a whole multiple of another, nor whether
/// another is a whole multiple of it.
pub proof fn lemma_sign_is_irrelevant(x_bits: u64, m_bits: u64)
    ensures
        is_integral_bits(x_bits ^ 0x8000_0000_0000_0000u64) == is_integral_bits(x_bits),
        whole_magnitude(x_bits ^ 0x8000_0000_0000_0000u64) == whole_magnitude(x_bits),
        is_whole_multiple(x_bits ^ 0x8000_0000_0000_0000u64, m_bits) == is_whole_multiple(
            x_bits,
            m_bits,
        ),
        is_whole_multiple(x_bits, m_bits ^ 0x8000_0000_0000_0000u64) == is_whole_multiple(
            x_bits,
            m_bits,
        ),
{
    assert(((x_bits ^ 0x8000_0000_0000_0000u64) >> 52u64) & 0x7ffu64 == (x_bits >> 52u64)
        & 0x7ffu64) by (bit_vector);
    assert((x_bits ^ 0x8000_0000_0000_0000u64) & 0xf_ffff_ffff_ffffu64 == x_bits
        & 0xf_ffff_ffff_ffffu64) by (bit_vector);
    assert(((m_bits ^ 0x8000_0000_0000_0000u64) >> 52u64) & 0x7ffu64 == (m_bits >> 52u64)
        & 0x7ffu64) by (bit_vector);
    assert((m_bits ^ 0x8000_0000_0000_0000u64) & 0xf_ffff_ffff_ffffu64 == m_bits
        & 0xf_ffff_ffff_ffffu64) by (bit_vector);
}

/// The whole-number `multipleOf` check is divisibility: `x` passes against `m`
/// exactly when the magnitude of `m` is positive and the magnitude of `x` is a
/// whole multiple `k` of it.
pub proof fn lemma_whole_multiple_is_divisibility(x_bits: u64, m_bits: u64)
    ensures
        is_whole_multiple(x_bits, m_bits) <==> (whole_magnitude(m_bits) > 0 && exists|k: int|
            k >= 0 && #[trigger] (k * whole_magnitude(m_bits)) == whole_magnitude(x_bits)),
{
    let x = whole_magnitude(x_bits) as int;
    let m = whole_magnitude(m_bits) as int;
    if m > 0 {
        lemma_fundamental_div_mod(x, m);
        if x % m == 0 {
            let k = x / m;
            assert(k * m == x) by (nonlinear_arith)
                requires
                    x == m * (x / m) + x % m,
                    x % m == 0,
                    k == x / m,
            ;
            assert(k >= 0) by (nonlinear_arith)
                requires
                    x >= 0,
                    m > 0,
                    k == x / m,
            ;
        }
        if exists|k: int| k >= 0 && #[trigger] (k * m) == x {
            let k = choose|k: int| k >= 0 && #[trigger] (k * m) == x;
            lemma_mod_multiples_basic(k, m);
        }
    }
}

} // verus!
