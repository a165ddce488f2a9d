//! Canonical Huffman table construction (annex C of the JPEG standard).
//!
//! A table is given as sixteen length counts (`counts[l-1]` codes of length
//! `l`) and a list of symbol values in canonical order. Codes of each length
//! are consecutive, starting from the previous length's final code shifted
//! left by one. The builder produces a dense lookup from symbol to
//! (code length, code bits); unassigned symbols get length 17 and must never
//! be looked up.

use vstd::prelude::*;

verus! {

use vstd::arithmetic::power2::pow2;
use vstd::arithmetic::power2::lemma_pow2_unfold;
use vstd::arithmetic::power2::lemma_pow2_adds;
use vstd::arithmetic::power2::lemma_pow2_pos;
use vstd::arithmetic::power2::lemma2_to64;
use vstd::arithmetic::mul::lemma_mul_inequality_converse;

/// Number of codes of length at most `l`.
pub open spec fn count_upto(counts: Seq<u8>, l: int) -> int
    decreases l,
{
    if l <= 0 {
        0
    } else {
        count_upto(counts, l - 1) + counts[l - 1]
    }
}

/// The first canonical code of length `l`: the previous length's final code,
/// shifted left by one.
pub open spec fn first_code(counts: Seq<u8>, l: int) -> int
    decreases l,
{
    if l <= 1 {
        0
    } else {
        (first_code(counts, l - 1) + counts[l - 2]) * 2
    }
}

/// The Kraft sum of the first `l` length classes, scaled by `2^16`: each code
/// of length `len` claims `2^(16-len)` of the `2^16` code points of depth 16.
pub open spec fn kraft_upto(counts: Seq<u8>, l: int) -> int
    decreases l,
{
    if l <= 0 {
        0
    } else {
        kraft_upto(counts, l - 1) + counts[l - 1] * pow2((16 - l) as nat)
    }
}

/// The scaled Kraft sum of a full table of length counts. A prefix-free code
/// of maximal depth 16 exists for the counts exactly when this is at most
/// `2^16`; it fills the whole code space when this equals `2^16`.
pub open spec fn kraft(counts: Seq<u8>) -> int {
    kraft_upto(counts, 16)
}

/// `v` occurs somewhere in the value table.
pub open spec fn value_listed(values: Seq<u8>, v: int) -> bool {
    exists|j: int| 0 <= j < values.len() && #[trigger] values[j] as int == v
}

/// `v` occurs among the first `n` entries of the value table.
pub open spec fn value_listed_upto(values: Seq<u8>, n: int, v: int) -> bool {
    exists|j: int| 0 <= j < n && j < values.len() && #[trigger] values[j] as int == v
}

/// No value occurs twice.
pub open spec fn values_distinct(values: Seq<u8>) -> bool {
    forall|j1: int, j2: int| 0 <= j1 < j2 < values.len() ==> values[j1] != values[j2]
}

/// The index into the value table of the `o`-th code of length `l`.
pub open spec fn canonical_slot(counts: Seq<u8>, l: int, o: int) -> int {
    count_upto(counts, l - 1) + o
}

/// The table `t` is exactly the canonical assignment for `(bits, values)`:
/// the `o`-th value of each length class `l` holds length `l` and the `o`-th
/// consecutive code of that length, and every unlisted symbol holds the
/// invalid marker.
pub open spec fn canonical_assignment(bits: Seq<u8>, values: Seq<u8>, t: Seq<(u8, u16)>) -> bool {
    &&& t.len() == 256
    &&& forall|l: int, o: int|
        1 <= l <= 16 && 0 <= o < bits[l - 1] ==> t[values[#[trigger] canonical_slot(
            bits,
            l,
            o,
        )] as int] == (((l as u8), (first_code(bits, l) + o) as u16))
    &&& forall|s: int| 0 <= s < 256 && !value_listed(values, s) ==> t[s] == ((17u8, 0u16))
}

/// A symbol's lookup entry is usable: an assigned length in 1..=16 and a code
/// that fits in that many bits.
pub open spec fn sym_ok(table: Seq<(u8, u16)>, sym: int) -> bool {
    &&& 0 <= sym < table.len()
    &&& 1 <= table[sym].0 <= 16
    &&& (table[sym].1 as nat) < pow2(table[sym].0 as nat)
}

/// A table usable for coding DC size categories 0 through 11.
pub open spec fn dc_table_ok(t: Seq<(u8, u16)>) -> bool {
    &&& t.len() == 256
    &&& forall|s: int| 0 <= s <= 11 ==> #[trigger] sym_ok(t, s)
}

/// A table usable for coding AC run/size pairs: end-of-block, the zero-run
/// symbol, and every run in 0..=15 with size in 1..=10.
pub open spec fn ac_table_ok(t: Seq<(u8, u16)>) -> bool {
    &&& t.len() == 256
    &&& sym_ok(t, 0)
    &&& sym_ok(t, 0xF0)
    &&& forall|r: int, s: int| 0 <= r < 16 && 1 <= s <= 10 ==> #[trigger] sym_ok(t, r * 16 + s)
}

/// Counting more entries never counts fewer codes.
pub proof fn lemma_count_upto_mono(counts: Seq<u8>, a: int, b: int)
    requires
        a <= b,
    ensures
        count_upto(counts, a) <= count_upto(counts, b),
    decreases b - a,
{
    if a < b {
        lemma_count_upto_mono(counts, a, b - 1);
    }
}

/// The Kraft sum only grows with more length classes.
pub proof fn lemma_kraft_upto_mono(counts: Seq<u8>, a: int, b: int)
    requires
        0 <= a <= b,
    ensures
        kraft_upto(counts, a) <= kraft_upto(counts, b),
    decreases b - a,
{
    if a < b {
        lemma_kraft_upto_mono(counts, a, b - 1);
        lemma_pow2_pos((16 - b) as nat);
        assert(counts[b - 1] * pow2((16 - b) as nat) >= 0);
    }
}

/// The first code of each length, scaled to depth 16, equals the code space
/// claimed by all shorter lengths.
pub proof fn lemma_first_code_kraft(counts: Seq<u8>, l: int)
    requires
        1 <= l <= 16,
    ensures
        first_code(counts, l) >= 0,
        first_code(counts, l) * pow2((16 - l) as nat) == kraft_upto(counts, l - 1),
    decreases l,
{
    if l == 1 {
    } else {
        lemma_first_code_kraft(counts, l - 1);
        let fc = first_code(counts, l - 1);
        let c = counts[l - 2] as int;
        lemma_pow2_unfold((17 - l) as nat);
        assert((fc + c) * 2 * pow2((16 - l) as nat) == fc * (2 * pow2((16 - l) as nat)) + c * (2
            * pow2((16 - l) as nat))) by (nonlinear_arith);
    }
}

/// With a Kraft sum of at most `2^16`, every code of length `l`, and the code
/// position one past the last, fits in `l` bits.
pub proof fn lemma_code_end_bound(counts: Seq<u8>, l: int)
    requires
        1 <= l <= 16,
        kraft(counts) <= 65536,
    ensures
        0 <= first_code(counts, l),
        first_code(counts, l) + counts[l - 1] <= pow2(l as nat),
        pow2(l as nat) <= 65536,
{
    lemma_first_code_kraft(counts, l);
    let fc = first_code(counts, l);
    let c = counts[l - 1] as int;
    let p = pow2((16 - l) as nat) as int;
    lemma_pow2_pos((16 - l) as nat);
    assert((fc + c) * p == fc * p + c * p) by (nonlinear_arith);
    assert((fc + c) * p == kraft_upto(counts, l));
    lemma_kraft_upto_mono(counts, l, 16);
    lemma_pow2_adds(l as nat, (16 - l) as nat);
    lemma2_to64();
    assert(pow2(16) == 65536);
    assert((fc + c) * p <= pow2(l as nat) * p);
    lemma_mul_inequality_converse(fc + c, pow2(l as nat) as int, p);
    assert(pow2(l as nat) * pow2((16 - l) as nat) == pow2(16));
    assert(pow2(l as nat) <= 65536) by {
        if l < 16 {
            vstd::arithmetic::power2::lemma_pow2_strictly_increases(l as nat, 16);
        }
    }
}

/// Builds the dense symbol lookup for a canonical Huffman table: symbol
/// `huffval[j]` receives the `j`-th canonical code. Every listed symbol's
/// entry is usable; unlisted symbols keep the invalid marker length 17.
pub fn build_huff_lut(bits: &[u8], huffval: &[u8]) -> (r: Vec<(u8, u16)>)
    requires
        bits@.len() == 16,
        count_upto(bits@, 16) == huffval@.len(),
        kraft(bits@) <= 65536,
    ensures
        r@.len() == 256,
        forall|j: int| 0 <= j < huffval@.len() ==> #[trigger] sym_ok(r@, huffval@[j] as int),
        forall|s: int| 0 <= s < 256 && !value_listed(huffval@, s) ==> r@[s] == (17u8, 0u16),
        values_distinct(huffval@) ==> forall|l: int, o: int|
            1 <= l <= 16 && 0 <= o < bits@[l - 1] ==> r@[huffval@[#[trigger] canonical_slot(
                bits@,
                l,
                o,
            )] as int] == (((l as u8), (first_code(bits@, l) + o) as u16)),
{
    let mut lut: Vec<(u8, u16)> = Vec::new();
    let mut s: usize = 0;
    while s < 256
        invariant
            s <= 256,
            lut@.len() == s,
            forall|i: int| 0 <= i < s ==> lut@[i] == (17u8, 0u16),
        decreases 256 - s,
    {
        lut.push((17u8, 0u16));
        s = s + 1;
    }

    let mut code: u32 = 0;
    let mut k: usize = 0;
    let mut l: usize = 1;
    while l <= 16
        invariant
            bits@.len() == 16,
            count_upto(bits@, 16) == huffval@.len(),
            kraft(bits@) <= 65536,
            1 <= l <= 17,
            lut@.len() == 256,
            k == count_upto(bits@, l - 1),
            code == first_code(bits@, l as int),
            k <= huffval@.len(),
            forall|j: int| 0 <= j < k ==> #[trigger] sym_ok(lut@, huffval@[j] as int),
            forall|s2: int| 0 <= s2 < 256 && !value_listed_upto(huffval@, k as int, s2)
                ==> lut@[s2] == (17u8, 0u16),
            values_distinct(huffval@) ==> forall|l2: int, o2: int|
                1 <= l2 < l && 0 <= o2 < bits@[l2 - 1] ==> lut@[huffval@[#[trigger] canonical_slot(
                    bits@,
                    l2,
                    o2,
                )] as int] == (((l2 as u8), (first_code(bits@, l2) + o2) as u16)),
        decreases 17 - l,
    {
        proof {
            lemma_code_end_bound(bits@, l as int);
        }
        let c: u8 = bits[l - 1];
        let mut o: usize = 0;
        while o < c as usize
            invariant
                bits@.len() == 16,
                count_upto(bits@, 16) == huffval@.len(),
                kraft(bits@) <= 65536,
                1 <= l <= 16,
                c == bits@[l as int - 1],
                0 <= o <= c,
                lut@.len() == 256,
                k == count_upto(bits@, l as int - 1) + o,
                code == first_code(bits@, l as int) + o,
                k <= huffval@.len(),
                forall|j: int| 0 <= j < k ==> #[trigger] sym_ok(lut@, huffval@[j] as int),
                forall|s2: int| 0 <= s2 < 256 && !value_listed_upto(huffval@, k as int, s2)
                    ==> lut@[s2] == (17u8, 0u16),
                values_distinct(huffval@) ==> forall|l2: int, o2: int|
                    (1 <= l2 < l && 0 <= o2 < bits@[l2 - 1]) || (l2 == l && 0 <= o2 < o)
                        ==> lut@[huffval@[#[trigger] canonical_slot(bits@, l2, o2)] as int] == ((
                        (l2 as u8),
                        (first_code(bits@, l2) + o2) as u16,
                    )),
            decreases c - o,
        {
            proof {
                lemma_code_end_bound(bits@, l as int);
                lemma_count_upto_mono(bits@, l as int, 16);
                assert(k < huffval@.len());
            }
            let ghost old_lut = lut@;
            let v: u8 = huffval[k];
            lut.set(v as usize, (l as u8, code as u16));
            proof {
                assert(code < pow2(l as nat));
                assert(sym_ok(lut@, v as int)) by {
                    assert(lut@[v as int] == ((l as u8), code as u16));
                }
                assert forall|j: int| 0 <= j < k + 1 implies #[trigger] sym_ok(
                    lut@,
                    huffval@[j] as int,
                ) by {
                    if huffval@[j] == v {
                        assert(sym_ok(lut@, v as int));
                    } else {
                        assert(0 <= j < k);
                        assert(sym_ok(old_lut, huffval@[j] as int));
                        assert(lut@[huffval@[j] as int] == old_lut[huffval@[j] as int]);
                    }
                }
                if values_distinct(huffval@) {
                    assert forall|l2: int, o2: int|
                        (1 <= l2 < l && 0 <= o2 < bits@[l2 - 1]) || (l2 == l as int && 0 <= o2 < o
                            + 1) implies lut@[huffval@[#[trigger] canonical_slot(
                        bits@,
                        l2,
                        o2,
                    )] as int] == (((l2 as u8), (first_code(bits@, l2) + o2) as u16)) by {
                        let j2 = canonical_slot(bits@, l2, o2);
                        if l2 == l as int && o2 == o {
                        } else {
                            assert(0 <= j2 < k) by {
                                lemma_count_upto_mono(bits@, 0, l2 - 1);
                                if l2 < l {
                                    lemma_count_upto_mono(bits@, l2, l as int - 1);
                                }
                            }
                            assert(huffval@[j2] != huffval@[k as int]);
                            assert(lut@[huffval@[j2] as int] == old_lut[huffval@[j2] as int]);
                        }
                    }
                }
            }
            code = code + 1;
            k = k + 1;
            o = o + 1;
        }
        proof {
            lemma_code_end_bound(bits@, l as int);
            assert(code <= 65536);
        }
        code = code * 2;
        l = l + 1;
    }
    lut
}

} // verus!
