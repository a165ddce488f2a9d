//! Magnitude-category coding of quantized DCT coefficients.
//!
//! A signed coefficient `c` is coded as a pair `(s, payload)`: `s` is the bit
//! length of `|c|` and `payload` is an `s`-bit value, `c` itself when `c >= 0`
//! and the low `s` bits of `c - 1` when `c < 0` (the one's complement of the
//! magnitude), so that a decoder can recover `c` exactly.

use vstd::prelude::*;

verus! {

use vstd::arithmetic::power2::pow2;
use vstd::arithmetic::power2::lemma_pow2_unfold;
use vstd::arithmetic::power2::lemma_pow2_strictly_increases;
use vstd::arithmetic::power2::lemma2_to64;
use vstd::bits::lemma_u16_shl_is_mul;

/// The magnitude of an integer, as a natural number.
pub open spec fn nat_abs(c: int) -> nat {
    if c >= 0 {
        c as nat
    } else {
        (-c) as nat
    }
}

/// Number of binary digits of `m` (0 for 0): the position of the highest set bit plus one.
pub open spec fn bit_len(m: nat) -> nat
    decreases m,
{
    if m == 0 {
        0
    } else {
        1 + bit_len(m / 2)
    }
}

/// The magnitude category `s` of a coefficient: the bit length of its magnitude.
pub open spec fn coeff_size(c: int) -> nat {
    bit_len(nat_abs(c))
}

/// The `s`-bit payload of a coefficient: `c` itself when nonnegative, and
/// `2^s - 1 - |c|` (the one's complement of the magnitude in `s` bits,
/// equivalently the low `s` bits of `c - 1`) when negative.
pub open spec fn coeff_payload(c: int) -> nat {
    if c >= 0 {
        c as nat
    } else {
        (pow2(coeff_size(c)) - 1 - nat_abs(c)) as nat
    }
}

/// The decoding rule of the JPEG standard: an `s`-bit payload below `2^(s-1)`
/// denotes a negative value `payload - 2^s + 1`; any other payload denotes itself.
pub open spec fn coeff_decode(s: nat, payload: nat) -> int {
    if s == 0 {
        0
    } else if payload < pow2((s - 1) as nat) {
        payload - pow2(s) + 1
    } else {
        payload as int
    }
}

/// For a positive magnitude, the bit length brackets it between two powers of two.
pub proof fn lemma_bit_len_bounds(m: nat)
    requires
        m > 0,
    ensures
        bit_len(m) >= 1,
        pow2((bit_len(m) - 1) as nat) <= m < pow2(bit_len(m)),
    decreases m,
{
    lemma2_to64();
    if m == 1 {
        assert(bit_len(1nat) == 1) by {
            reveal_with_fuel(bit_len, 2);
        }
        assert(pow2(0) == 1);
        assert(pow2(1) == 2);
    } else {
        lemma_bit_len_bounds(m / 2);
        let k = bit_len(m / 2);
        assert(bit_len(m) == k + 1);
        lemma_pow2_unfold(k);
        lemma_pow2_unfold((k + 1) as nat);
        assert(m == 2 * (m / 2) + m % 2);
        assert(2 * (m / 2) >= 2 * pow2((k - 1) as nat));
        assert(m < 2 * pow2(k));
    }
}

/// A magnitude below `2^b` has bit length at most `b`.
pub proof fn lemma_bit_len_le(m: nat, b: nat)
    requires
        m < pow2(b),
    ensures
        bit_len(m) <= b,
{
    if m > 0 {
        lemma_bit_len_bounds(m);
        if bit_len(m) > b {
            lemma_pow2_strictly_increases(b, (bit_len(m) - 1) as nat);
            if b < bit_len(m) - 1 {
            } else {
                assert(b == bit_len(m) - 1);
            }
            assert(pow2(b) <= pow2((bit_len(m) - 1) as nat));
            assert(false);
        }
    }
}

/// Coding a nonzero coefficient and decoding the result by the JPEG rule
/// gives back the coefficient exactly.
pub proof fn lemma_coeff_round_trip(c: int)
    requires
        c != 0,
        -65535 <= c <= 65535,
    ensures
        coeff_decode(coeff_size(c), coeff_payload(c)) == c,
{
    let m = nat_abs(c);
    let s = coeff_size(c);
    lemma_bit_len_bounds(m);
    lemma_pow2_unfold(s);
    if c > 0 {
        assert(coeff_payload(c) == m);
        assert(pow2((s - 1) as nat) <= m);
    } else {
        assert(coeff_payload(c) == pow2(s) - 1 - m);
        assert(pow2(s) == 2 * pow2((s - 1) as nat));
        assert(pow2(s) - 1 - m < pow2((s - 1) as nat));
    }
}

/// The payload of a negative coefficient equals the low `s` bits of `c - 1`,
/// the form in which the JPEG standard states the rule.
pub proof fn lemma_payload_is_low_bits(c: int)
    requires
        -65535 <= c < 0,
    ensures
        coeff_payload(c) == (c - 1) % (pow2(coeff_size(c)) as int),
{
    let m = nat_abs(c);
    let s = coeff_size(c);
    lemma_bit_len_bounds(m);
    let p = pow2(s) as int;
    let w = p - 1 - m;
    assert(0 <= w < p);
    vstd::arithmetic::div_mod::lemma_small_mod(w as nat, pow2(s));
    assert(c - 1 == (-1) * p + w);
    vstd::arithmetic::div_mod::lemma_mod_multiples_vanish(-1, w, p);
}

/// Codes a signed coefficient as `(s, payload)`: `s` is the bit length of the
/// magnitude and `payload` the `s`-bit value from which a decoder recovers the
/// coefficient. For every input, `s <= 16` and `payload < 2^s`.
pub fn encode_coefficient(coefficient: i32) -> (r: (u8, u16))
    requires
        -65535 <= coefficient <= 65535,
    ensures
        r.0 as nat == coeff_size(coefficient as int),
        r.1 as nat == coeff_payload(coefficient as int),
        r.0 <= 16,
        (r.1 as nat) < pow2(r.0 as nat),
{
    let ghost c = coefficient as int;
    let mag0: u16 = if coefficient < 0 {
        (-coefficient) as u16
    } else {
        coefficient as u16
    };
    assert(mag0 as nat == nat_abs(c));
    proof {
        lemma2_to64();
        lemma_bit_len_le(mag0 as nat, 16);
    }

    let mut magnitude: u16 = mag0;
    let mut num_bits: u8 = 0;
    while magnitude > 0
        invariant
            bit_len(mag0 as nat) == num_bits as nat + bit_len(magnitude as nat),
            num_bits as nat + bit_len(magnitude as nat) <= 16,
        decreases magnitude,
    {
        magnitude = magnitude / 2;
        num_bits = num_bits + 1;
    }
    assert(num_bits as nat == coeff_size(c));

    let mask: u16 = if num_bits == 16 {
        0xFFFF
    } else {
        proof {
            lemma_u16_shl_is_mul(1u16, num_bits as u16);
            lemma_pow2_strictly_increases(num_bits as nat, 16);
            lemma2_to64();
        }
        (1u16 << (num_bits as u16)) - 1
    };
    assert(mask as nat == pow2(num_bits as nat) - 1) by {
        lemma2_to64();
    }

    let val: u16 = if coefficient < 0 {
        proof {
            lemma_bit_len_bounds(mag0 as nat);
        }
        mask - mag0
    } else {
        mag0
    };
    proof {
        if mag0 > 0 {
            lemma_bit_len_bounds(mag0 as nat);
        } else {
            lemma2_to64();
        }
    }
    (num_bits, val)
}

} // verus!
