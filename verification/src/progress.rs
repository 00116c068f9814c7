//! Progress readings: from the double that the worker sends to a whole
//! percentage.

use vstd::prelude::*;
use vstd::arithmetic::div_mod::lemma_fundamental_div_mod_converse;
use vstd::arithmetic::power2::{
    lemma2_to64, lemma2_to64_rest, lemma_pow2_pos, lemma_pow2_strictly_increases,
    lemma_pow2_unfold, pow2,
};

verus! {

/// A progress reading as the worker sent it: an IEEE-754 double, held as its
/// 64 bits (sign, 11 bits of exponent, 52 bits of fraction).
#[derive(Debug, Clone, Copy, PartialEq, Eq)]
pub struct Progress {
    pub bits: u64,
}

/// The sign bit of a double: set for every negative value and for `-0`.
pub open spec fn sign_of(bits: u64) -> bool {
    bits >= 0x8000_0000_0000_0000
}

/// The biased exponent of a double.
pub open spec fn exponent_of(bits: u64) -> nat {
    ((bits / 0x10_0000_0000_0000) % 2048) as nat
}

/// The fraction bits of a double.
pub open spec fn fraction_of(bits: u64) -> nat {
    (bits % 0x10_0000_0000_0000) as nat
}

/// Not a number: exponent all ones, fraction not zero.
pub open spec fn is_nan(bits: u64) -> bool {
    exponent_of(bits) == 2047 && fraction_of(bits) != 0
}

/// Plus or minus infinity.
pub open spec fn is_infinite(bits: u64) -> bool {
    exponent_of(bits) == 2047 && fraction_of(bits) == 0
}

/// The size of a finite double as a fraction: numerator and denominator.
pub open spec fn magnitude_of(bits: u64) -> (nat, nat) {
    let e = exponent_of(bits);
    let f = fraction_of(bits);
    if e == 0 {
        (f, pow2(1074))
    } else if e < 1075 {
        (0x10_0000_0000_0000 + f, pow2((1075 - e) as nat))
    } else {
        ((0x10_0000_0000_0000 + f) * pow2((e - 1075) as nat), 1)
    }
}

/// The fraction `num / den`, held to the range from 0 to 100 and then rounded
/// to the nearest whole number, a half going up.
pub open spec fn round_clamped(num: nat, den: nat) -> nat {
    if num >= 100 * den {
        100
    } else {
        ((2 * num + den) / (2 * den)) as nat
    }
}

/// The percentage that a reading stands for: the value held to the range
/// from 0 to 100 and rounded. A negative value gives 0, plus infinity 100, and
/// what is not a number 0.
pub open spec fn percent_of(bits: u64) -> nat {
    if is_nan(bits) || sign_of(bits) {
        0
    } else if is_infinite(bits) {
        100
    } else {
        round_clamped(magnitude_of(bits).0, magnitude_of(bits).1)
    }
}

/// A rounded percentage is never above 100.
pub proof fn lemma_round_clamped_bound(num: nat, den: nat)
    requires
        den > 0,
    ensures
        round_clamped(num, den) <= 100,
{
    if num < 100 * den {
        assert(2 * num + den < 201 * den);
        assert((2 * num + den) / (2 * den) <= 100) by (nonlinear_arith)
            requires
                2 * num + den < 201 * den,
                den > 0,
        ;
    }
}

/// Rounding by quotient and remainder: with `num == q * den + r`, the rounded
/// fraction is `q`, and one more where the remainder is at least half of `den`.
proof fn lemma_round_by_parts(num: nat, den: nat, q: nat, r: nat)
    requires
        den > 0,
        r < den,
        num == q * den + r,
    ensures
        num >= 100 * den <==> q >= 100,
        (2 * num + den) / (2 * den) == if 2 * r >= den {
            q + 1
        } else {
            q
        },
{
    assert(num >= 100 * den <==> q >= 100) by (nonlinear_arith)
        requires
            den > 0,
            r < den,
            num == q * den + r,
    ;
    if 2 * r >= den {
        assert(2 * num + den == (q + 1) * (2 * den) + (2 * r - den)) by (nonlinear_arith)
            requires
                num == q * den + r,
        ;
        lemma_fundamental_div_mod_converse(
            (2 * num + den) as int,
            (2 * den) as int,
            (q + 1) as int,
            2 * r - den,
        );
    } else {
        assert(2 * num + den == q * (2 * den) + (2 * r + den)) by (nonlinear_arith)
            requires
                num == q * den + r,
        ;
        lemma_fundamental_div_mod_converse(
            (2 * num + den) as int,
            (2 * den) as int,
            q as int,
            (2 * r + den) as int,
        );
    }
}

/// Two to the power `k`, for `k` up to 53.
fn power_of_two(k: u64) -> (r: u64)
    requires
        k <= 53,
    ensures
        r == pow2(k as nat),
        r <= 0x20_0000_0000_0000,
{
    let mut r: u64 = 1;
    let mut i: u64 = 0;
    proof {
        lemma2_to64();
        lemma2_to64_rest();
    }
    while i < k
        invariant
            i <= k <= 53,
            r == pow2(i as nat),
            pow2(53) == 0x20_0000_0000_0000,
        decreases k - i,
    {
        proof {
            lemma_pow2_unfold((i + 1) as nat);
            if i + 1 < 53 {
                lemma_pow2_strictly_increases((i + 1) as nat, 53);
            }
        }
        r = r * 2;
        i = i + 1;
    }
    proof {
        if k < 53 {
            lemma_pow2_strictly_increases(k as nat, 53);
        }
    }
    r
}

impl Progress {
    /// The reading with the given bits.
    pub fn from_bits(bits: u64) -> (r: Progress)
        ensures
            r.bits == bits,
    {
        Progress { bits }
    }

    /// The whole percentage of this reading: the value held to the range from
    /// 0 to 100, then rounded.
    pub fn percent(&self) -> (r: u8)
        ensures
            r == percent_of(self.bits),
            r <= 100,
    {
        let bits = self.bits;
        let exponent: u64 = (bits / 0x10_0000_0000_0000) % 2048;
        let fraction: u64 = bits % 0x10_0000_0000_0000;
        if bits >= 0x8000_0000_0000_0000 {
            return 0;
        }
        if exponent == 2047 {
            return if fraction == 0 {
                100
            } else {
                0
            };
        }
        proof {
            lemma2_to64();
            lemma2_to64_rest();
        }
        if exponent == 0 {
            proof {
                lemma_pow2_strictly_increases(53, 1074);
                lemma_round_by_parts(fraction as nat, pow2(1074), 0, fraction as nat);
            }
            return 0;
        }
        let mantissa: u64 = 0x10_0000_0000_0000 + fraction;
        if exponent >= 1075 {
            proof {
                let scale = pow2((exponent - 1075) as nat);
                lemma_pow2_pos((exponent - 1075) as nat);
                assert(mantissa * scale >= 100 * 1) by (nonlinear_arith)
                    requires
                        mantissa >= 100,
                        scale >= 1,
                ;
            }
            return 100;
        }
        let shift: u64 = 1075 - exponent;
        if shift >= 54 {
            proof {
                if shift > 54 {
                    lemma_pow2_strictly_increases(54, shift as nat);
                }
                lemma_round_by_parts(mantissa as nat, pow2(shift as nat), 0, mantissa as nat);
            }
            return 0;
        }
        let den = power_of_two(shift);
        let q: u64 = mantissa / den;
        let r: u64 = mantissa % den;
        proof {
            lemma_pow2_pos(shift as nat);
            assert(mantissa == q * den + r) by (nonlinear_arith)
                requires
                    den > 0,
                    q == mantissa / den,
                    r == mantissa % den,
            ;
            lemma_round_by_parts(mantissa as nat, den as nat, q as nat, r as nat);
        }
        if q >= 100 {
            100
        } else if r >= den - r {
            (q + 1) as u8
        } else {
            q as u8
        }
    }
}

/// Every reading gives a percentage from 0 to 100.
pub proof fn lemma_percent_in_range(bits: u64)
    ensures
        0 <= percent_of(bits) <= 100,
{
    if !is_nan(bits) && !sign_of(bits) && !is_infinite(bits) {
        let e = exponent_of(bits);
        if e == 0 {
            lemma_pow2_pos(1074);
        } else if e < 1075 {
            lemma_pow2_pos((1075 - e) as nat);
        }
        lemma_round_clamped_bound(magnitude_of(bits).0, magnitude_of(bits).1);
    }
}

} // verus!
