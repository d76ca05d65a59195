//! Admission checking for sampled uniform deviates.
//!
//! The Laplace mechanism's inverse-CDF formula takes the logarithm of
//! `1 - 2*|u|`, so the uniform deviate `u` must lie strictly inside the
//! open interval `(-1/2, 1/2)`: at the endpoints the logarithm's argument
//! reaches zero and leaves its domain.  The deviates themselves are drawn
//! by the unverified front end as IEEE-754 binary64 values and handed to
//! this module as their raw bit patterns.
//!
//! For binary64, comparing the magnitudes of two values of the same sign
//! coincides with the unsigned integer order of their bit patterns with
//! the sign bit cleared, and every pattern whose cleared magnitude is
//! below the pattern of one half encodes a finite number.  The predicates
//! here are stated over the bit patterns directly, so the admission check
//! is exact at every representable value: deviates arbitrarily close to
//! the endpoints are admitted, the endpoints themselves, infinities and
//! NaNs are not.

use vstd::prelude::*;

use vstd::arithmetic::mul::lemma_mul_inequality;
use vstd::arithmetic::mul::lemma_mul_strict_inequality;
use vstd::arithmetic::power2::lemma2_to64;
use vstd::arithmetic::power2::lemma2_to64_rest;
use vstd::arithmetic::power2::lemma_pow2_adds;
use vstd::arithmetic::power2::lemma_pow2_pos;
use vstd::arithmetic::power2::lemma_pow2_strictly_increases;
use vstd::arithmetic::power2::pow2;

use crate::error::DpError;

verus! {

/// Mask clearing the sign bit of a binary64 bit pattern.
pub const MAGNITUDE_MASK: u64 = 0x7fff_ffff_ffff_ffff;

/// Bit pattern of one half (`0.5`) in binary64, which is also the least
/// magnitude outside the open interval `(-1/2, 1/2)`.
pub const ONE_HALF_BITS: u64 = 0x3fe0_0000_0000_0000;

/// Least magnitude pattern of a non-finite binary64 value (infinity);
/// every NaN pattern lies above it.
pub const INFINITY_BITS: u64 = 0x7ff0_0000_0000_0000;

/// The bit pattern with the sign bit cleared: the encoded magnitude.
pub open spec fn magnitude_bits(bits: u64) -> u64 {
    bits & MAGNITUDE_MASK
}

/// Whether the pattern encodes a finite number (neither infinity nor NaN).
pub open spec fn is_finite_bits(bits: u64) -> bool {
    magnitude_bits(bits) < INFINITY_BITS
}

/// Whether the pattern encodes a value strictly inside `(-1/2, 1/2)`.
pub open spec fn deviate_in_open_interval(bits: u64) -> bool {
    magnitude_bits(bits) < ONE_HALF_BITS
}

/// An admissible deviate is in particular finite: its magnitude pattern
/// lies strictly below one half's, hence below infinity's.
pub proof fn lemma_admissible_deviate_is_finite(bits: u64)
    requires
        deviate_in_open_interval(bits),
    ensures
        is_finite_bits(bits),
{
}

/// Biased exponent field of a binary64 bit pattern: bits 52 to 62.
pub open spec fn biased_exponent(bits: u64) -> u64 {
    (bits >> 52) & 0x7ff
}

/// Fraction field of a binary64 bit pattern: the low 52 bits.
pub open spec fn fraction_field(bits: u64) -> u64 {
    bits & 0x000f_ffff_ffff_ffff
}

/// Integer significand of a finite binary64 pattern: the fraction field,
/// with the implicit leading bit added for normal numbers.
pub open spec fn significand(bits: u64) -> nat {
    if biased_exponent(bits) == 0 {
        fraction_field(bits) as nat
    } else {
        fraction_field(bits) as nat + pow2(52)
    }
}

/// Binary weight of the significand, shifted to stay non-negative: a
/// finite pattern with biased exponent `b` encodes the magnitude
/// `significand * 2^(max(b, 1) - 1075)`.
pub open spec fn scale_exponent(bits: u64) -> nat {
    if biased_exponent(bits) == 0 {
        1
    } else {
        biased_exponent(bits) as nat
    }
}

/// The exact magnitude a finite pattern encodes, scaled by `2^1075` to an
/// integer: `scaled_magnitude(bits) == |value| * 2^1075`.
pub open spec fn scaled_magnitude(bits: u64) -> nat {
    significand(bits) * pow2(scale_exponent(bits))
}

/// The admission check is exact: a finite deviate passes it if and only
/// if the magnitude it decodes to is strictly below one half, that is,
/// strictly below `2^1074` on the `2^1075` grid.  So every representable
/// value inside the open interval is admitted, however close to the
/// endpoints, and no value at or beyond them is.
pub proof fn lemma_deviate_check_is_exact(bits: u64)
    requires
        is_finite_bits(bits),
    ensures
        deviate_in_open_interval(bits) <==> scaled_magnitude(bits) < pow2(1074),
{
    let b = biased_exponent(bits);
    let f = fraction_field(bits);
    assert(((bits & 0x7fff_ffff_ffff_ffffu64) < 0x3fe0_0000_0000_0000u64) == (((bits >> 52u64)
        & 0x7ffu64) < 1022u64)) by (bit_vector);
    assert((bits & 0x000f_ffff_ffff_ffffu64) < 0x0010_0000_0000_0000u64) by (bit_vector);
    lemma2_to64();
    lemma2_to64_rest();
    assert(f < pow2(52));
    if b == 0 {
        assert(scaled_magnitude(bits) == f as nat * 2);
        lemma_pow2_adds(52, 1);
        lemma_pow2_strictly_increases(53, 1074);
    } else if b < 1022 {
        let s = significand(bits) as int;
        let p = pow2(b as nat) as int;
        assert(s < pow2(53)) by {
            lemma_pow2_adds(52, 1);
        }
        if (b as nat) < 1021 {
            lemma_pow2_strictly_increases(b as nat, 1021);
        }
        lemma_pow2_pos(b as nat);
        lemma_pow2_pos(1021);
        lemma_mul_inequality(p, pow2(1021) as int, s);
        assert(p * s <= pow2(1021) as int * s);
        lemma_mul_strict_inequality(s, pow2(53) as int, pow2(1021) as int);
        assert((s * pow2(1021) as int) < (pow2(53) as int * pow2(1021) as int));
        lemma_pow2_adds(53, 1021);
        assert(scaled_magnitude(bits) == s * p);
        assert(scaled_magnitude(bits) < pow2(1074));
    } else {
        let s = significand(bits) as int;
        let p = pow2(b as nat) as int;
        assert(s >= pow2(52));
        if (b as nat) > 1022 {
            lemma_pow2_strictly_increases(1022, b as nat);
        }
        lemma_pow2_pos(1022);
        lemma_pow2_pos(b as nat);
        lemma_mul_inequality(pow2(1022) as int, p, s);
        assert(pow2(1022) as int * s <= p * s);
        lemma_mul_inequality(pow2(52) as int, s, pow2(1022) as int);
        assert(pow2(52) as int * pow2(1022) as int <= s * pow2(1022) as int);
        lemma_pow2_adds(52, 1022);
        assert(scaled_magnitude(bits) == s * p);
        assert(scaled_magnitude(bits) >= pow2(1074));
    }
}

/// On an admitted deviate the logarithm's argument is strictly positive:
/// scaled to the same `2^1075` grid, `1 - 2*|u|` is the positive integer
/// `2^1075 - 2 * scaled_magnitude(bits)`.
pub proof fn lemma_log_argument_positive(bits: u64)
    requires
        deviate_in_open_interval(bits),
    ensures
        2 * scaled_magnitude(bits) < pow2(1075),
{
    lemma_admissible_deviate_is_finite(bits);
    lemma_deviate_check_is_exact(bits);
    lemma_pow2_adds(1074, 1);
    lemma2_to64();
}

/// Decides whether the bit pattern of a sampled uniform deviate lies
/// strictly inside the open interval `(-1/2, 1/2)`.
pub fn uniform_deviate_in_open_interval(bits: u64) -> (r: bool)
    ensures
        r == deviate_in_open_interval(bits),
{
    (bits & MAGNITUDE_MASK) < ONE_HALF_BITS
}

/// Admits a sampled uniform deviate, or rejects it as a numeric-domain
/// failure: exactly the patterns strictly inside `(-1/2, 1/2)` pass.
pub fn check_uniform_deviate(bits: u64) -> (r: Result<(), DpError>)
    ensures
        match r {
            Ok(()) => deviate_in_open_interval(bits),
            Err(e) => !deviate_in_open_interval(bits) && e == DpError::NumericDomainError,
        },
{
    if uniform_deviate_in_open_interval(bits) {
        Ok(())
    } else {
        Err(DpError::NumericDomainError)
    }
}

} // verus!
