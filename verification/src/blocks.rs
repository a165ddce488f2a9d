//! 8x8 block extraction from a raw pixel buffer, and RGB to YCbCr conversion.
//!
//! A block is read at origin (x0, y0) from a row-major buffer of `bpp` bytes
//! per pixel. Reads past the end of the buffer clamp to its last byte, which
//! pads partial edge blocks with the nearest valid sample. Colour conversion
//! uses the JFIF weights in fixed-point decimal, truncating toward zero.

use vstd::prelude::*;

verus! {

use vstd::arithmetic::div_mod::lemma_fundamental_div_mod_converse;

/// The byte at `index`, with reads past the end clamped to the last byte.
pub open spec fn clamped(s: Seq<u8>, index: int) -> u8 {
    if index < s.len() {
        s[index]
    } else {
        s[s.len() - 1]
    }
}

/// Linear index of channel `ch` of the pixel at (x0 + x, y0 + y).
pub open spec fn sample_index(x0: int, y0: int, width: int, bpp: int, x: int, y: int, ch: int) -> int {
    (y0 + y) * bpp * width + (x0 + x) * bpp + ch
}

/// The clamped source byte for channel `ch` at block position (x, y).
pub open spec fn sample_at(s: Seq<u8>, x0: int, y0: int, width: int, bpp: int, x: int, y: int, ch: int) -> u8 {
    clamped(s, sample_index(x0, y0, width, bpp, x, y, ch))
}

/// Luma weight of an RGB pixel: 0.299 R + 0.587 G + 0.114 B, truncated.
pub open spec fn ycc_y(r: int, g: int, b: int) -> int {
    (2990 * r + 5870 * g + 1140 * b) / 10000
}

/// Blue chroma of an RGB pixel: -0.1687 R - 0.3313 G + 0.5 B + 128, truncated.
pub open spec fn ycc_cb(r: int, g: int, b: int) -> int {
    (5000 * b + 1280000 - 1687 * r - 3313 * g) / 10000
}

/// Red chroma of an RGB pixel: 0.5 R - 0.4187 G - 0.0813 B + 128, truncated.
pub open spec fn ycc_cr(r: int, g: int, b: int) -> int {
    (5000 * r + 1280000 - 4187 * g - 813 * b) / 10000
}

/// Reads the byte at `index`, clamping an out-of-range index to the last byte.
pub fn value_at(s: &[u8], index: usize) -> (r: u8)
    requires
        s@.len() > 0,
    ensures
        r == clamped(s@, index as int),
{
    if index < s.len() {
        s[index]
    } else {
        s[s.len() - 1]
    }
}

/// Converts one RGB pixel to YCbCr with the JFIF weights; every channel of
/// the result is the exact fixed-point value, truncated toward zero.
pub fn rgb_to_ycbcr(r: u8, g: u8, b: u8) -> (res: (u8, u8, u8))
    ensures
        res.0 as int == ycc_y(r as int, g as int, b as int),
        res.1 as int == ycc_cb(r as int, g as int, b as int),
        res.2 as int == ycc_cr(r as int, g as int, b as int),
{
    let ri: u32 = r as u32;
    let gi: u32 = g as u32;
    let bi: u32 = b as u32;
    let y: u32 = (2990 * ri + 5870 * gi + 1140 * bi) / 10000;
    let cb: u32 = (5000 * bi + 1280000 - 1687 * ri - 3313 * gi) / 10000;
    let cr: u32 = (5000 * ri + 1280000 - 4187 * gi - 813 * bi) / 10000;
    proof {
        vstd::arithmetic::div_mod::lemma_div_is_ordered(
            (2990 * ri + 5870 * gi + 1140 * bi) as int,
            2550000,
            10000,
        );
        vstd::arithmetic::div_mod::lemma_div_is_ordered(
            (5000 * bi + 1280000 - 1687 * ri - 3313 * gi) as int,
            2555000,
            10000,
        );
        vstd::arithmetic::div_mod::lemma_div_is_ordered(
            (5000 * ri + 1280000 - 4187 * gi - 813 * bi) as int,
            2555000,
            10000,
        );
    }
    (y as u8, cb as u8, cr as u8)
}

/// Extracts the 8x8 luma, blue-chroma and red-chroma blocks at (x0, y0),
/// converting each clamped RGB sample with the JFIF weights. An alpha
/// channel, when `bpp` is 4, is ignored.
pub fn copy_blocks_ycbcr(
    source: &[u8],
    x0: usize,
    y0: usize,
    width: usize,
    bpp: usize,
    yb: &mut Vec<u8>,
    cbb: &mut Vec<u8>,
    crb: &mut Vec<u8>,
)
    requires
        source@.len() > 0,
        x0 <= 65535,
        y0 <= 65535,
        width <= 65535,
        1 <= bpp <= 4,
        old(yb)@.len() == 64,
        old(cbb)@.len() == 64,
        old(crb)@.len() == 64,
    ensures
        final(yb)@.len() == 64,
        final(cbb)@.len() == 64,
        final(crb)@.len() == 64,
        forall|i: int| 0 <= i < 64 ==> #[trigger] final(yb)@[i] as int == ycc_y(
            sample_at(source@, x0 as int, y0 as int, width as int, bpp as int, i % 8, i / 8, 0) as int,
            sample_at(source@, x0 as int, y0 as int, width as int, bpp as int, i % 8, i / 8, 1) as int,
            sample_at(source@, x0 as int, y0 as int, width as int, bpp as int, i % 8, i / 8, 2) as int,
        ),
        forall|i: int| 0 <= i < 64 ==> #[trigger] final(cbb)@[i] as int == ycc_cb(
            sample_at(source@, x0 as int, y0 as int, width as int, bpp as int, i % 8, i / 8, 0) as int,
            sample_at(source@, x0 as int, y0 as int, width as int, bpp as int, i % 8, i / 8, 1) as int,
            sample_at(source@, x0 as int, y0 as int, width as int, bpp as int, i % 8, i / 8, 2) as int,
        ),
        forall|i: int| 0 <= i < 64 ==> #[trigger] final(crb)@[i] as int == ycc_cr(
            sample_at(source@, x0 as int, y0 as int, width as int, bpp as int, i % 8, i / 8, 0) as int,
            sample_at(source@, x0 as int, y0 as int, width as int, bpp as int, i % 8, i / 8, 1) as int,
            sample_at(source@, x0 as int, y0 as int, width as int, bpp as int, i % 8, i / 8, 2) as int,
        ),
{
    let mut y: usize = 0;
    while y < 8
        invariant
            source@.len() > 0,
            x0 <= 65535,
            y0 <= 65535,
            width <= 65535,
            1 <= bpp <= 4,
            y <= 8,
            yb@.len() == 64,
            cbb@.len() == 64,
            crb@.len() == 64,
            forall|i: int| 0 <= i < 8 * y ==> #[trigger] yb@[i] as int == ycc_y(
                sample_at(source@, x0 as int, y0 as int, width as int, bpp as int, i % 8, i / 8, 0) as int,
                sample_at(source@, x0 as int, y0 as int, width as int, bpp as int, i % 8, i / 8, 1) as int,
                sample_at(source@, x0 as int, y0 as int, width as int, bpp as int, i % 8, i / 8, 2) as int,
            ),
            forall|i: int| 0 <= i < 8 * y ==> #[trigger] cbb@[i] as int == ycc_cb(
                sample_at(source@, x0 as int, y0 as int, width as int, bpp as int, i % 8, i / 8, 0) as int,
                sample_at(source@, x0 as int, y0 as int, width as int, bpp as int, i % 8, i / 8, 1) as int,
                sample_at(source@, x0 as int, y0 as int, width as int, bpp as int, i % 8, i / 8, 2) as int,
            ),
            forall|i: int| 0 <= i < 8 * y ==> #[trigger] crb@[i] as int == ycc_cr(
                sample_at(source@, x0 as int, y0 as int, width as int, bpp as int, i % 8, i / 8, 0) as int,
                sample_at(source@, x0 as int, y0 as int, width as int, bpp as int, i % 8, i / 8, 1) as int,
                sample_at(source@, x0 as int, y0 as int, width as int, bpp as int, i % 8, i / 8, 2) as int,
            ),
        decreases 8 - y,
    {
        let mut x: usize = 0;
        while x < 8
            invariant
                source@.len() > 0,
                x0 <= 65535,
                y0 <= 65535,
                width <= 65535,
                1 <= bpp <= 4,
                y < 8,
                x <= 8,
                yb@.len() == 64,
                cbb@.len() == 64,
                crb@.len() == 64,
                forall|i: int| 0 <= i < 8 * y + x ==> #[trigger] yb@[i] as int == ycc_y(
                    sample_at(source@, x0 as int, y0 as int, width as int, bpp as int, i % 8, i / 8, 0) as int,
                    sample_at(source@, x0 as int, y0 as int, width as int, bpp as int, i % 8, i / 8, 1) as int,
                    sample_at(source@, x0 as int, y0 as int, width as int, bpp as int, i % 8, i / 8, 2) as int,
                ),
                forall|i: int| 0 <= i < 8 * y + x ==> #[trigger] cbb@[i] as int == ycc_cb(
                    sample_at(source@, x0 as int, y0 as int, width as int, bpp as int, i % 8, i / 8, 0) as int,
                    sample_at(source@, x0 as int, y0 as int, width as int, bpp as int, i % 8, i / 8, 1) as int,
                    sample_at(source@, x0 as int, y0 as int, width as int, bpp as int, i % 8, i / 8, 2) as int,
                ),
                forall|i: int| 0 <= i < 8 * y + x ==> #[trigger] crb@[i] as int == ycc_cr(
                    sample_at(source@, x0 as int, y0 as int, width as int, bpp as int, i % 8, i / 8, 0) as int,
                    sample_at(source@, x0 as int, y0 as int, width as int, bpp as int, i % 8, i / 8, 1) as int,
                    sample_at(source@, x0 as int, y0 as int, width as int, bpp as int, i % 8, i / 8, 2) as int,
                ),
            decreases 8 - x,
        {
            let r = sample_clamped(source, x0, y0, width, bpp, x, y, 0);
            let g = sample_clamped(source, x0, y0, width, bpp, x, y, 1);
            let b = sample_clamped(source, x0, y0, width, bpp, x, y, 2);
            let (yc, cb, cr) = rgb_to_ycbcr(r, g, b);
            let idx: usize = y * 8 + x;
            let ghost prev_y = yb@;
            let ghost prev_cb = cbb@;
            let ghost prev_cr = crb@;
            yb.set(idx, yc);
            cbb.set(idx, cb);
            crb.set(idx, cr);
            proof {
                lemma_fundamental_div_mod_converse(idx as int, 8, y as int, x as int);
                assert(idx as int % 8 == x as int && idx as int / 8 == y as int);
                assert forall|i: int| 0 <= i < 8 * y + x + 1 implies #[trigger] yb@[i] as int
                    == ycc_y(
                    sample_at(source@, x0 as int, y0 as int, width as int, bpp as int, i % 8, i / 8, 0) as int,
                    sample_at(source@, x0 as int, y0 as int, width as int, bpp as int, i % 8, i / 8, 1) as int,
                    sample_at(source@, x0 as int, y0 as int, width as int, bpp as int, i % 8, i / 8, 2) as int,
                ) && #[trigger] cbb@[i] as int == ycc_cb(
                    sample_at(source@, x0 as int, y0 as int, width as int, bpp as int, i % 8, i / 8, 0) as int,
                    sample_at(source@, x0 as int, y0 as int, width as int, bpp as int, i % 8, i / 8, 1) as int,
                    sample_at(source@, x0 as int, y0 as int, width as int, bpp as int, i % 8, i / 8, 2) as int,
                ) && crb@[i] as int == ycc_cr(
                    sample_at(source@, x0 as int, y0 as int, width as int, bpp as int, i % 8, i / 8, 0) as int,
                    sample_at(source@, x0 as int, y0 as int, width as int, bpp as int, i % 8, i / 8, 1) as int,
                    sample_at(source@, x0 as int, y0 as int, width as int, bpp as int, i % 8, i / 8, 2) as int,
                ) by {
                    if i < idx as int {
                        assert(yb@[i] == prev_y[i]);
                        assert(cbb@[i] == prev_cb[i]);
                        assert(crb@[i] == prev_cr[i]);
                    }
                }
            }
            x = x + 1;
        }
        y = y + 1;
    }
}

/// Extracts the 8x8 gray block at (x0, y0): the sample is channel 0 of each
/// clamped pixel.
pub fn copy_blocks_gray(
    source: &[u8],
    x0: usize,
    y0: usize,
    width: usize,
    bpp: usize,
    gb: &mut Vec<u8>,
)
    requires
        source@.len() > 0,
        x0 <= 65535,
        y0 <= 65535,
        width <= 65535,
        1 <= bpp <= 4,
        old(gb)@.len() == 64,
    ensures
        final(gb)@.len() == 64,
        forall|i: int| 0 <= i < 64 ==> #[trigger] final(gb)@[i] == sample_at(
            source@,
            x0 as int,
            y0 as int,
            width as int,
            bpp as int,
            i % 8,
            i / 8,
            0,
        ),
{
    let mut y: usize = 0;
    while y < 8
        invariant
            source@.len() > 0,
            x0 <= 65535,
            y0 <= 65535,
            width <= 65535,
            1 <= bpp <= 4,
            y <= 8,
            gb@.len() == 64,
            forall|i: int| 0 <= i < 8 * y ==> #[trigger] gb@[i] == sample_at(
                source@,
                x0 as int,
                y0 as int,
                width as int,
                bpp as int,
                i % 8,
                i / 8,
                0,
            ),
        decreases 8 - y,
    {
        let mut x: usize = 0;
        while x < 8
            invariant
                source@.len() > 0,
                x0 <= 65535,
                y0 <= 65535,
                width <= 65535,
                1 <= bpp <= 4,
                y < 8,
                x <= 8,
                gb@.len() == 64,
                forall|i: int| 0 <= i < 8 * y + x ==> #[trigger] gb@[i] == sample_at(
                    source@,
                    x0 as int,
                    y0 as int,
                    width as int,
                    bpp as int,
                    i % 8,
                    i / 8,
                    0,
                ),
            decreases 8 - x,
        {
            let v = sample_clamped(source, x0, y0, width, bpp, x, y, 0);
            let idx: usize = y * 8 + x;
            let ghost prev = gb@;
            gb.set(idx, v);
            proof {
                lemma_fundamental_div_mod_converse(idx as int, 8, y as int, x as int);
                assert forall|i: int| 0 <= i < 8 * y + x + 1 implies #[trigger] gb@[i]
                    == sample_at(
                    source@,
                    x0 as int,
                    y0 as int,
                    width as int,
                    bpp as int,
                    i % 8,
                    i / 8,
                    0,
                ) by {
                    if i < idx as int {
                        assert(gb@[i] == prev[i]);
                    }
                }
            }
            x = x + 1;
        }
        y = y + 1;
    }
}

/// Reads one channel of the pixel at (x0 + x, y0 + y), clamping a read past
/// the end of the buffer to its last byte.
fn sample_clamped(
    source: &[u8],
    x0: usize,
    y0: usize,
    width: usize,
    bpp: usize,
    x: usize,
    y: usize,
    ch: usize,
) -> (r: u8)
    requires
        source@.len() > 0,
        x0 <= 65535,
        y0 <= 65535,
        width <= 65535,
        1 <= bpp <= 4,
        x < 8,
        y < 8,
        ch < 4,
    ensures
        r == sample_at(
            source@,
            x0 as int,
            y0 as int,
            width as int,
            bpp as int,
            x as int,
            y as int,
            ch as int,
        ),
{
    proof {
        assert(((y0 + y) as int) * (bpp as int) <= 262172) by (nonlinear_arith)
            requires
                y0 + y <= 65543,
                0 <= y0 + y,
                1 <= bpp <= 4,
        ;
        assert(0 <= ((y0 + y) as int) * (bpp as int)) by (nonlinear_arith)
            requires
                0 <= y0 + y,
                1 <= bpp,
        ;
        assert(((y0 + y) as int) * (bpp as int) * (width as int) <= 262172 * 65535)
            by (nonlinear_arith)
            requires
                0 <= ((y0 + y) as int) * (bpp as int) <= 262172,
                0 <= width <= 65535,
        ;
        assert(0 <= ((y0 + y) as int) * (bpp as int) * (width as int)) by (nonlinear_arith)
            requires
                0 <= ((y0 + y) as int) * (bpp as int),
                0 <= width,
        ;
        assert(0 <= ((x0 + x) as int) * (bpp as int) <= 262172) by (nonlinear_arith)
            requires
                0 <= x0 + x <= 65543,
                1 <= bpp <= 4,
        ;
    }
    let idx: u64 = ((y0 + y) as u64) * (bpp as u64) * (width as u64) + ((x0 + x) as u64) * (
    bpp as u64) + (ch as u64);
    let iu: usize = if idx < source.len() as u64 {
        idx as usize
    } else {
        source.len() - 1
    };
    value_at(source, iu)
}

} // verus!
