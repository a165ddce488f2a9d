//! Forward 8x8 discrete cosine transform on integer arithmetic.
//!
//! The classic scaled-integer factorization: fixed-point constants are the
//! cosines scaled by 2^13, a first pass transforms the rows (outputs carry two
//! extra fractional bits), a second pass transforms the columns and removes
//! them. Samples are level-shifted by 128 on the way in, and the final
//! coefficients are the mathematical DCT values scaled up by a factor of 8.

use vstd::prelude::*;

verus! {

use vstd::arithmetic::div_mod::lemma_fundamental_div_mod;
use vstd::arithmetic::div_mod::lemma_fundamental_div_mod_converse;

/// Rounding right shift by `log2(d)` bits: adds half of `d`, then floors.
pub open spec fn sdescale(x: int, half: int, d: int) -> int {
    (x + half) / d
}

/// The integer values of a sequence of machine words.
pub open spec fn ints8(d: Seq<i64>) -> Seq<int> {
    Seq::new(8, |j: int| d[j] as int)
}

/// One row pass of the transform: fixed point with 13 fractional bits, and
/// two extra fractional bits kept in the outputs for the column pass.
#[verifier::opaque]
pub open spec fn dct_pass1(d: Seq<int>) -> Seq<int> {
    let tmp0 = d[0] + d[7];
    let tmp7 = d[0] - d[7];
    let tmp1 = d[1] + d[6];
    let tmp6 = d[1] - d[6];
    let tmp2 = d[2] + d[5];
    let tmp5 = d[2] - d[5];
    let tmp3 = d[3] + d[4];
    let tmp4 = d[3] - d[4];
    let tmp10 = tmp0 + tmp3;
    let tmp13 = tmp0 - tmp3;
    let tmp11 = tmp1 + tmp2;
    let tmp12 = tmp1 - tmp2;
    let z1 = (tmp12 + tmp13) * 4433;
    let z1o = tmp4 + tmp7;
    let z2 = tmp5 + tmp6;
    let z3 = tmp4 + tmp6;
    let z4 = tmp5 + tmp7;
    let z5 = (z3 + z4) * 9633;
    let t4 = tmp4 * 2446;
    let t5 = tmp5 * 16819;
    let t6 = tmp6 * 25172;
    let t7 = tmp7 * 12299;
    let w1 = -(z1o * 7373);
    let w2 = -(z2 * 20995);
    let w3 = z5 - z3 * 16069;
    let w4 = z5 - z4 * 3196;
    seq![
        (tmp10 + tmp11) * 4,
        sdescale(t7 + w1 + w4, 1024, 2048),
        sdescale(z1 + tmp13 * 6270, 1024, 2048),
        sdescale(t6 + w2 + w3, 1024, 2048),
        (tmp10 - tmp11) * 4,
        sdescale(t5 + w2 + w4, 1024, 2048),
        sdescale(z1 - tmp12 * 15137, 1024, 2048),
        sdescale(t4 + w1 + w3, 1024, 2048),
    ]
}

/// One column pass of the transform: the same butterfly, descaled to drop the
/// thirteen fractional constant bits and the two bits of the first pass.
#[verifier::opaque]
pub open spec fn dct_pass2(d: Seq<int>) -> Seq<int> {
    let tmp0 = d[0] + d[7];
    let tmp7 = d[0] - d[7];
    let tmp1 = d[1] + d[6];
    let tmp6 = d[1] - d[6];
    let tmp2 = d[2] + d[5];
    let tmp5 = d[2] - d[5];
    let tmp3 = d[3] + d[4];
    let tmp4 = d[3] - d[4];
    let tmp10 = tmp0 + tmp3;
    let tmp13 = tmp0 - tmp3;
    let tmp11 = tmp1 + tmp2;
    let tmp12 = tmp1 - tmp2;
    let z1 = (tmp12 + tmp13) * 4433;
    let z1o = tmp4 + tmp7;
    let z2 = tmp5 + tmp6;
    let z3 = tmp4 + tmp6;
    let z4 = tmp5 + tmp7;
    let z5 = (z3 + z4) * 9633;
    let t4 = tmp4 * 2446;
    let t5 = tmp5 * 16819;
    let t6 = tmp6 * 25172;
    let t7 = tmp7 * 12299;
    let w1 = -(z1o * 7373);
    let w2 = -(z2 * 20995);
    let w3 = z5 - z3 * 16069;
    let w4 = z5 - z4 * 3196;
    seq![
        sdescale(tmp10 + tmp11, 2, 4),
        sdescale(t7 + w1 + w4, 16384, 32768),
        sdescale(z1 + tmp13 * 6270, 16384, 32768),
        sdescale(t6 + w2 + w3, 16384, 32768),
        sdescale(tmp10 - tmp11, 2, 4),
        sdescale(t5 + w2 + w4, 16384, 32768),
        sdescale(z1 - tmp12 * 15137, 16384, 32768),
        sdescale(t4 + w1 + w3, 16384, 32768),
    ]
}

/// The row-pass image of a 64-sample block, after the level shift by 128.
pub open spec fn fdct_rows(s: Seq<u8>) -> Seq<int> {
    Seq::new(64, |i: int| dct_pass1(Seq::new(8, |j: int| s[8 * (i / 8) + j] - 128))[i % 8])
}

/// The full transform of a 64-sample block, in row-major order, scaled by 8.
pub open spec fn fdct_spec(s: Seq<u8>) -> Seq<int> {
    Seq::new(64, |i: int| dct_pass2(Seq::new(8, |r: int| fdct_rows(s)[8 * r + (i % 8)]))[i / 8])
}

/// Floor division after adding half the (power of two) divisor: the rounding
/// shift of the reference factorization.
#[verifier::rlimit(100)]
fn descale(x: i64, half: i64, d: i64) -> (r: i64)
    requires
        2 <= d <= 65536,
        d == 2 * half,
        -4_000_000_000_000 <= x <= 4_000_000_000_000,
    ensures
        r as int == sdescale(x as int, half as int, d as int),
        d * r <= x + half < d * (r + 1),
{
    let y: i64 = x + half;
    let res: i64;
    if y >= 0 {
        let q: u64 = (y as u64) / (d as u64);
        res = q as i64;
        assert(res as int == (y as int) / (d as int));
    } else {
        let z: i64 = -y;
        let q: u64 = ((z as u64) + (d as u64) - 1) / (d as u64);
        proof {
            let zz = z as int;
            let dd = d as int;
            let qq = (zz + dd - 1) / dd;
            lemma_fundamental_div_mod(zz + dd - 1, dd);
            let rr = (zz + dd - 1) % dd;
            assert(-zz == (-qq) * dd + (dd - 1 - rr)) by (nonlinear_arith)
                requires
                    zz + dd - 1 == dd * qq + rr,
            ;
            lemma_fundamental_div_mod_converse(-zz, dd, -qq, dd - 1 - rr);
            assert(qq >= 0) by {
                vstd::arithmetic::div_mod::lemma_div_pos_is_pos(zz + dd - 1, dd);
            }
        }
        res = -(q as i64);
        assert(res as int == (y as int) / (d as int));
    }
    proof {
        lemma_fundamental_div_mod(y as int, d as int);
        vstd::arithmetic::div_mod::lemma_mod_bound(y as int, d as int);
        assert(d * (res + 1) == d * res + d) by (nonlinear_arith);
    }
    res
}

/// The row pass on eight level-shifted samples.
#[verifier::rlimit(100)]
#[verifier::spinoff_prover]
fn dct1_pass1(d: [i64; 8]) -> (r: [i64; 8])
    requires
        forall|i: int| 0 <= i < 8 ==> -128 <= #[trigger] d@[i] <= 128,
    ensures
        r@[0] as int == dct_pass1(ints8(d@))[0],
        r@[1] as int == dct_pass1(ints8(d@))[1],
        r@[2] as int == dct_pass1(ints8(d@))[2],
        r@[3] as int == dct_pass1(ints8(d@))[3],
        r@[4] as int == dct_pass1(ints8(d@))[4],
        r@[5] as int == dct_pass1(ints8(d@))[5],
        r@[6] as int == dct_pass1(ints8(d@))[6],
        r@[7] as int == dct_pass1(ints8(d@))[7],
        -9500 <= r@[0] <= 9500,
        -9500 <= r@[1] <= 9500,
        -9500 <= r@[2] <= 9500,
        -9500 <= r@[3] <= 9500,
        -9500 <= r@[4] <= 9500,
        -9500 <= r@[5] <= 9500,
        -9500 <= r@[6] <= 9500,
        -9500 <= r@[7] <= 9500,
{
    proof {
        reveal(dct_pass1);
        assert(ints8(d@)[0] == d@[0] as int);
        assert(ints8(d@)[1] == d@[1] as int);
        assert(ints8(d@)[2] == d@[2] as int);
        assert(ints8(d@)[3] == d@[3] as int);
        assert(ints8(d@)[4] == d@[4] as int);
        assert(ints8(d@)[5] == d@[5] as int);
        assert(ints8(d@)[6] == d@[6] as int);
        assert(ints8(d@)[7] == d@[7] as int);
    }
    let tmp0: i64 = d[0] + d[7];
    let tmp7: i64 = d[0] - d[7];
    let tmp1: i64 = d[1] + d[6];
    let tmp6: i64 = d[1] - d[6];
    let tmp2: i64 = d[2] + d[5];
    let tmp5: i64 = d[2] - d[5];
    let tmp3: i64 = d[3] + d[4];
    let tmp4: i64 = d[3] - d[4];
    let tmp10: i64 = tmp0 + tmp3;
    let tmp13: i64 = tmp0 - tmp3;
    let tmp11: i64 = tmp1 + tmp2;
    let tmp12: i64 = tmp1 - tmp2;
    let z1: i64 = (tmp12 + tmp13) * 4433;
    let z1o: i64 = tmp4 + tmp7;
    let z2: i64 = tmp5 + tmp6;
    let z3: i64 = tmp4 + tmp6;
    let z4: i64 = tmp5 + tmp7;
    let z5: i64 = (z3 + z4) * 9633;
    let t4: i64 = tmp4 * 2446;
    let t5: i64 = tmp5 * 16819;
    let t6: i64 = tmp6 * 25172;
    let t7: i64 = tmp7 * 12299;
    let w1: i64 = -(z1o * 7373);
    let w2: i64 = -(z2 * 20995);
    let w3: i64 = z5 - z3 * 16069;
    let w4: i64 = z5 - z4 * 3196;
    let o0: i64 = (tmp10 + tmp11) * 4;
    let o1: i64 = descale(t7 + w1 + w4, 1024, 2048);
    let o2: i64 = descale(z1 + tmp13 * 6270, 1024, 2048);
    let o3: i64 = descale(t6 + w2 + w3, 1024, 2048);
    let o4: i64 = (tmp10 - tmp11) * 4;
    let o5: i64 = descale(t5 + w2 + w4, 1024, 2048);
    let o6: i64 = descale(z1 - tmp12 * 15137, 1024, 2048);
    let o7: i64 = descale(t4 + w1 + w3, 1024, 2048);
    let r: [i64; 8] = [o0, o1, o2, o3, o4, o5, o6, o7];
    r
}

/// The column pass on eight row-transformed values.
#[verifier::rlimit(100)]
#[verifier::spinoff_prover]
fn dct1_pass2(d: [i64; 8]) -> (r: [i64; 8])
    requires
        forall|i: int| 0 <= i < 8 ==> -9500 <= #[trigger] d@[i] <= 9500,
    ensures
        r@[0] as int == dct_pass2(ints8(d@))[0],
        r@[1] as int == dct_pass2(ints8(d@))[1],
        r@[2] as int == dct_pass2(ints8(d@))[2],
        r@[3] as int == dct_pass2(ints8(d@))[3],
        r@[4] as int == dct_pass2(ints8(d@))[4],
        r@[5] as int == dct_pass2(ints8(d@))[5],
        r@[6] as int == dct_pass2(ints8(d@))[6],
        r@[7] as int == dct_pass2(ints8(d@))[7],
        -80000 <= r@[0] <= 80000,
        -80000 <= r@[1] <= 80000,
        -80000 <= r@[2] <= 80000,
        -80000 <= r@[3] <= 80000,
        -80000 <= r@[4] <= 80000,
        -80000 <= r@[5] <= 80000,
        -80000 <= r@[6] <= 80000,
        -80000 <= r@[7] <= 80000,
{
    proof {
        reveal(dct_pass2);
        assert(ints8(d@)[0] == d@[0] as int);
        assert(ints8(d@)[1] == d@[1] as int);
        assert(ints8(d@)[2] == d@[2] as int);
        assert(ints8(d@)[3] == d@[3] as int);
        assert(ints8(d@)[4] == d@[4] as int);
        assert(ints8(d@)[5] == d@[5] as int);
        assert(ints8(d@)[6] == d@[6] as int);
        assert(ints8(d@)[7] == d@[7] as int);
    }
    let tmp0: i64 = d[0] + d[7];
    let tmp7: i64 = d[0] - d[7];
    let tmp1: i64 = d[1] + d[6];
    let tmp6: i64 = d[1] - d[6];
    let tmp2: i64 = d[2] + d[5];
    let tmp5: i64 = d[2] - d[5];
    let tmp3: i64 = d[3] + d[4];
    let tmp4: i64 = d[3] - d[4];
    let tmp10: i64 = tmp0 + tmp3;
    let tmp13: i64 = tmp0 - tmp3;
    let tmp11: i64 = tmp1 + tmp2;
    let tmp12: i64 = tmp1 - tmp2;
    let z1: i64 = (tmp12 + tmp13) * 4433;
    let z1o: i64 = tmp4 + tmp7;
    let z2: i64 = tmp5 + tmp6;
    let z3: i64 = tmp4 + tmp6;
    let z4: i64 = tmp5 + tmp7;
    let z5: i64 = (z3 + z4) * 9633;
    let t4: i64 = tmp4 * 2446;
    let t5: i64 = tmp5 * 16819;
    let t6: i64 = tmp6 * 25172;
    let t7: i64 = tmp7 * 12299;
    let w1: i64 = -(z1o * 7373);
    let w2: i64 = -(z2 * 20995);
    let w3: i64 = z5 - z3 * 16069;
    let w4: i64 = z5 - z4 * 3196;
    let o0: i64 = descale(tmp10 + tmp11, 2, 4);
    let o1: i64 = descale(t7 + w1 + w4, 16384, 32768);
    let o2: i64 = descale(z1 + tmp13 * 6270, 16384, 32768);
    let o3: i64 = descale(t6 + w2 + w3, 16384, 32768);
    let o4: i64 = descale(tmp10 - tmp11, 2, 4);
    let o5: i64 = descale(t5 + w2 + w4, 16384, 32768);
    let o6: i64 = descale(z1 - tmp12 * 15137, 16384, 32768);
    let o7: i64 = descale(t4 + w1 + w3, 16384, 32768);
    let r: [i64; 8] = [o0, o1, o2, o3, o4, o5, o6, o7];
    r
}

/// Transforms a 64-sample block: level shift by 128, row pass, column pass.
/// The result is the discrete cosine transform of the shifted samples,
/// scaled up by a factor of 8, in natural (row-major) order.
#[verifier::rlimit(100)]
pub fn fdct(samples: &[u8]) -> (r: Vec<i32>)
    requires
        samples@.len() == 64,
    ensures
        r@.len() == 64,
        forall|i: int| 0 <= i < 64 ==> #[trigger] r@[i] as int == fdct_spec(samples@)[i],
        forall|i: int| 0 <= i < 64 ==> -80000 <= #[trigger] r@[i] <= 80000,
{
    let mut work: Vec<i64> = Vec::new();
    let mut row: usize = 0;
    while row < 8
        invariant
            samples@.len() == 64,
            row <= 8,
            work@.len() == 8 * row,
            forall|i: int| 0 <= i < 8 * row ==> #[trigger] work@[i] as int == fdct_rows(
                samples@,
            )[i],
            forall|i: int| 0 <= i < 8 * row ==> -9500 <= #[trigger] work@[i] <= 9500,
        decreases 8 - row,
    {
        let base: usize = 8 * row;
        let d: [i64; 8] = [
            samples[base] as i64 - 128,
            samples[base + 1] as i64 - 128,
            samples[base + 2] as i64 - 128,
            samples[base + 3] as i64 - 128,
            samples[base + 4] as i64 - 128,
            samples[base + 5] as i64 - 128,
            samples[base + 6] as i64 - 128,
            samples[base + 7] as i64 - 128,
        ];
        let o = dct1_pass1(d);
        proof {
            assert(ints8(d@) =~= Seq::new(8, |j: int| samples@[8 * (row as int) + j] - 128));
            assert forall|j: int| 0 <= j < 8 implies #[trigger] fdct_rows(samples@)[8 * (
            row as int) + j] == dct_pass1(ints8(d@))[j] by {
                let i = 8 * (row as int) + j;
                assert(i / 8 == row as int && i % 8 == j) by {
                    lemma_fundamental_div_mod_converse(i, 8, row as int, j);
                }
            }
        }
        work.push(o[0]);
        work.push(o[1]);
        work.push(o[2]);
        work.push(o[3]);
        work.push(o[4]);
        work.push(o[5]);
        work.push(o[6]);
        work.push(o[7]);
        row = row + 1;
    }

    let mut out: Vec<i32> = Vec::new();
    let mut i: usize = 0;
    while i < 64
        invariant
            i <= 64,
            out@.len() == i,
        decreases 64 - i,
    {
        out.push(0i32);
        i = i + 1;
    }

    let mut col: usize = 0;
    while col < 8
        invariant
            samples@.len() == 64,
            col <= 8,
            out@.len() == 64,
            work@.len() == 64,
            forall|i2: int| 0 <= i2 < 64 ==> #[trigger] work@[i2] as int == fdct_rows(
                samples@,
            )[i2],
            forall|i2: int| 0 <= i2 < 64 ==> -9500 <= #[trigger] work@[i2] <= 9500,
            forall|i2: int| 0 <= i2 < 64 && i2 % 8 < col ==> #[trigger] out@[i2] as int
                == fdct_spec(samples@)[i2],
            forall|i2: int| 0 <= i2 < 64 && i2 % 8 < col ==> -80000 <= #[trigger] out@[i2]
                <= 80000,
        decreases 8 - col,
    {
        let d: [i64; 8] = [
            work[col],
            work[8 + col],
            work[16 + col],
            work[24 + col],
            work[32 + col],
            work[40 + col],
            work[48 + col],
            work[56 + col],
        ];
        let o = dct1_pass2(d);
        proof {
            assert(ints8(d@) =~= Seq::new(8, |k: int| fdct_rows(samples@)[8 * k + (col as int)]));
            assert forall|k: int| 0 <= k < 8 implies #[trigger] fdct_spec(samples@)[8 * k + (
            col as int)] == dct_pass2(ints8(d@))[k] by {
                let i2 = 8 * k + (col as int);
                assert(i2 / 8 == k && i2 % 8 == col as int) by {
                    lemma_fundamental_div_mod_converse(i2, 8, k, col as int);
                }
            }
        }
        let ghost prev = out@;
        out.set(col, o[0] as i32);
        out.set(8 + col, o[1] as i32);
        out.set(16 + col, o[2] as i32);
        out.set(24 + col, o[3] as i32);
        out.set(32 + col, o[4] as i32);
        out.set(40 + col, o[5] as i32);
        out.set(48 + col, o[6] as i32);
        out.set(56 + col, o[7] as i32);
        proof {
            assert forall|i2: int| 0 <= i2 < 64 && i2 % 8 < col + 1 implies #[trigger] out@[
            i2] as int == fdct_spec(samples@)[i2] by {
                if i2 % 8 == col as int {
                    let k = i2 / 8;
                    lemma_fundamental_div_mod(i2, 8);
                    assert(i2 == 8 * k + (col as int));
                    assert(out@[8 * k + (col as int)] as int == dct_pass2(ints8(d@))[k]);
                } else {
                    assert(out@[i2] == prev[i2]);
                }
            }
        }
        col = col + 1;
    }
    out
}


/// Integer division by 8 truncating toward zero.
pub open spec fn trunc_div8(c: int) -> int {
    if c >= 0 {
        c / 8
    } else {
        -((-c) / 8)
    }
}

/// Quantization of one scaled coefficient: drop the scale factor of 8 with
/// truncating division, then divide by the table entry, rounding half away
/// from zero.
pub open spec fn quant_spec(c: int, q: int) -> int {
    let a = trunc_div8(c);
    if a >= 0 {
        (a + q / 2) / q
    } else {
        -((-a + q / 2) / q)
    }
}

/// Quantizes one scaled coefficient against a table entry of at least 10.
/// Coefficients from `fdct` stay within the range where the result fits the
/// ten AC size categories of the standard Huffman tables.
pub fn quantize(c: i32, q: u8) -> (r: i32)
    requires
        10 <= q,
        -80000 <= c <= 80000,
    ensures
        r as int == quant_spec(c as int, q as int),
        -1023 <= r <= 1023,
{
    let m: u32 = if c < 0 {
        (-c) as u32
    } else {
        c as u32
    };
    let a: u32 = m / 8;
    let qq: u32 = q as u32;
    let v: u32 = (a + qq / 2) / qq;
    proof {
        assert(a <= 10000);
        vstd::arithmetic::div_mod::lemma_multiply_divide_lt(
            a as int + (qq / 2) as int,
            qq as int,
            1024,
        );
        assert(v <= 1023);
        if c >= 0 {
            assert(trunc_div8(c as int) == a as int);
        } else {
            assert(trunc_div8(c as int) == -(a as int));
            if a == 0 {
                assert((0 + (q as int) / 2) / (q as int) == 0) by {
                    vstd::arithmetic::div_mod::lemma_basic_div((q as int) / 2, q as int);
                }
            }
        }
    }
    if c < 0 {
        -(v as i32)
    } else {
        v as i32
    }
}

} // verus!

