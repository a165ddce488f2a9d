//! The JPEG encoder: a byte sink with a bit accumulator, the standard table
//! setup, and the entropy coding of quantized coefficient blocks.
//!
//! The encoder owns its output buffer. Marker segments are written as plain
//! bytes; entropy-coded data goes through a 32-bit accumulator that emits
//! whole bytes, inserting a 0x00 stuffing byte after every 0xFF. The byte
//! and bit effect of every write is pinned by the `push_bytes` / `push_rem`
//! model of the bit stream.

use vstd::prelude::*;

verus! {

use vstd::arithmetic::power2::pow2;
use vstd::arithmetic::power2::lemma_pow2_pos;
use vstd::arithmetic::power2::lemma2_to64;
use vstd::arithmetic::power2::lemma_pow2_strictly_increases;
use vstd::bits::lemma_u32_shl_is_mul;
use vstd::bits::lemma_u16_shl_is_mul;
use crate::bitstream::BitStr;
use crate::bitstream::bs_bytes;
use crate::bitstream::bs_tail;
use crate::bitstream::stuff;
use crate::bitstream::push_bytes;
use crate::bitstream::push_rem;
use crate::bitstream::lemma_acc_split;
use crate::bitstream::lemma_acc_insert;
use crate::bitstream::lemma_acc_aligned;
use crate::bitstream::lemma_concat_wf;
use crate::bitstream::lemma_concat_empty;
use crate::bitstream::lemma_rem_tail;
use crate::bitstream::lemma_stuff_app;
use crate::bitstream::lemma_push_empty;
use crate::huffman::build_huff_lut;
use crate::huffman::sym_ok;
use crate::huffman::dc_table_ok;
use crate::huffman::ac_table_ok;
use crate::huffman::value_listed;
use crate::coeff::encode_coefficient;
use crate::coeff::coeff_size;
use crate::coeff::coeff_payload;
use crate::coeff::nat_abs;
use crate::coeff::bit_len;
use crate::coeff::lemma_bit_len_le;
use crate::tables::UNZIGZAG;
use crate::tables::lemma_unzigzag_bounds;
use crate::bitstream::lemma_push_split;
use crate::bitstream::lemma_concat_assoc;
use crate::bitstream::stuffed_ok;
use crate::segments::Component;
use crate::segments::seg_bytes;
use crate::segments::jfif_payload;
use crate::segments::frame_payload;
use crate::segments::scan_payload;
use crate::segments::dht_payload;
use crate::segments::dqt_payload;
use crate::segments::build_jfif_header;
use crate::segments::build_frame_header;
use crate::segments::build_scan_header;
use crate::segments::build_huffman_segment;
use crate::segments::build_quantization_segment;
use crate::tables::SOF0;
use crate::tables::DHT;
use crate::tables::SOI;
use crate::tables::EOI;
use crate::tables::SOS;
use crate::tables::DQT;
use crate::tables::APP0;
use crate::tables::DCCLASS;
use crate::tables::ACCLASS;
use crate::tables::LUMADESTINATION;
use crate::tables::CHROMADESTINATION;
use crate::tables::LUMAID;
use crate::tables::CHROMABLUEID;
use crate::tables::CHROMAREDID;
use crate::tables::STD_LUMA_QTABLE;
use crate::tables::STD_CHROMA_QTABLE;
use crate::tables::STD_LUMA_DC_CODE_LENGTHS;
use crate::tables::STD_LUMA_DC_VALUES;
use crate::tables::STD_CHROMA_DC_CODE_LENGTHS;
use crate::tables::STD_CHROMA_DC_VALUES;
use crate::tables::STD_LUMA_AC_CODE_LENGTHS;
use crate::tables::STD_LUMA_AC_VALUES;
use crate::tables::STD_CHROMA_AC_CODE_LENGTHS;
use crate::tables::STD_CHROMA_AC_VALUES;
use crate::tables::lemma_std_luma_dc_wf;
use crate::tables::lemma_std_chroma_dc_wf;
use crate::tables::lemma_std_luma_ac_wf;
use crate::tables::lemma_std_chroma_ac_wf;
use crate::tables::lemma_std_dc_values_cover;
use crate::tables::lemma_std_luma_ac_values_cover;
use crate::tables::lemma_std_chroma_ac_values_cover;

/// The colour layout of an input pixel buffer, with its bit depth per channel.
#[derive(Clone, Copy, Debug, PartialEq, Eq, Structural)]
pub enum ColorType {
    Gray(u8),
    RGB(u8),
    Palette(u8),
    GrayA(u8),
    RGBA(u8),
}

/// Why encoding was refused.
#[derive(Clone, Copy, Debug, PartialEq, Eq, Structural)]
pub enum JpegError {
    /// The colour type is not one of the four supported 8-bit layouts.
    UnsupportedColorType(ColorType),
}

/// The encoder accepts exactly the four 8-bit-per-channel layouts.
pub open spec fn supported(c: ColorType) -> bool {
    ||| c == ColorType::RGB(8)
    ||| c == ColorType::RGBA(8)
    ||| c == ColorType::Gray(8)
    ||| c == ColorType::GrayA(8)
}

/// Bytes per pixel of a colour layout (its channel count at 8 bits).
pub open spec fn bpp_of(c: ColorType) -> int {
    match c {
        ColorType::Gray(_) => 1,
        ColorType::GrayA(_) => 2,
        ColorType::RGB(_) => 3,
        ColorType::RGBA(_) => 4,
        ColorType::Palette(_) => 3,
    }
}

/// Number of frame components written for a colour layout: one for the gray
/// layouts, three otherwise.
pub open spec fn ncomp_of(c: ColorType) -> int {
    if bpp_of(c) <= 2 {
        1
    } else {
        3
    }
}

/// The three standard components: luma with table selectors 0, the two
/// chroma components with table selectors 1, all without subsampling.
pub open spec fn std_components() -> Seq<Component> {
    seq![
        Component { id: LUMAID, h: 1, v: 1, tq: 0, dc_table: 0, ac_table: 0, dc_pred: 0 },
        Component { id: CHROMABLUEID, h: 1, v: 1, tq: 1, dc_table: 1, ac_table: 1, dc_pred: 0 },
        Component { id: CHROMAREDID, h: 1, v: 1, tq: 1, dc_table: 1, ac_table: 1, dc_pred: 0 },
    ]
}

/// The active components for a colour layout: the luma component alone, or
/// all three.
pub open spec fn active_components(c: ColorType) -> Seq<Component> {
    if ncomp_of(c) == 1 {
        std_components().take(1)
    } else {
        std_components()
    }
}

/// Every byte of the stream before the entropy-coded data, for an image of
/// the given dimensions and colour layout: SOI, APP0/JFIF, SOF0, the active
/// DQT and DHT segments, and SOS.
pub open spec fn header_bytes(width: int, height: int, c: ColorType) -> Seq<u8> {
    seq![0xFFu8, SOI] + seg_bytes(APP0, jfif_payload()) + seg_bytes(
        SOF0,
        frame_payload(8, width, height, active_components(c)),
    ) + seg_bytes(DQT, dqt_payload(8, 0, STD_LUMA_QTABLE@)) + (if ncomp_of(c) == 3 {
        seg_bytes(DQT, dqt_payload(8, 1, STD_CHROMA_QTABLE@))
    } else {
        Seq::<u8>::empty()
    }) + seg_bytes(
        DHT,
        dht_payload(DCCLASS, LUMADESTINATION, STD_LUMA_DC_CODE_LENGTHS@, STD_LUMA_DC_VALUES@),
    ) + seg_bytes(
        DHT,
        dht_payload(ACCLASS, LUMADESTINATION, STD_LUMA_AC_CODE_LENGTHS@, STD_LUMA_AC_VALUES@),
    ) + (if ncomp_of(c) == 3 {
        seg_bytes(
            DHT,
            dht_payload(
                DCCLASS,
                CHROMADESTINATION,
                STD_CHROMA_DC_CODE_LENGTHS@,
                STD_CHROMA_DC_VALUES@,
            ),
        ) + seg_bytes(
            DHT,
            dht_payload(
                ACCLASS,
                CHROMADESTINATION,
                STD_CHROMA_AC_CODE_LENGTHS@,
                STD_CHROMA_AC_VALUES@,
            ),
        )
    } else {
        Seq::<u8>::empty()
    }) + seg_bytes(SOS, scan_payload(active_components(c)))
}

/// The code of symbol `sym` in a lookup table, as a bit string.
pub open spec fn huff_bits(table: Seq<(u8, u16)>, sym: int) -> BitStr {
    BitStr { val: table[sym].1 as nat, len: table[sym].0 as nat }
}

/// The fill written by `pad_byte` when `n` bits are buffered: enough one
/// bits to reach the next byte boundary.
pub open spec fn pad_bits(n: nat) -> BitStr {
    if n == 0 {
        BitStr::empty()
    } else {
        BitStr { val: (pow2((8 - n) as nat) - 1) as nat, len: (8 - n) as nat }
    }
}


/// The payload bits of one coded coefficient.
pub open spec fn coeff_bits(c: int) -> BitStr {
    BitStr { val: coeff_payload(c), len: coeff_size(c) }
}

/// The entropy bits of the AC coefficients of a block from zig-zag position
/// `k` on, with `run` zeros not yet coded: runs longer than 15 are split off
/// as zero-run symbols, a nonzero coefficient is coded as a run/size symbol
/// with its payload, and a run reaching position 63 becomes end-of-block.
pub open spec fn ac_bits(block: Seq<i32>, k: int, run: int, act: Seq<(u8, u16)>) -> BitStr
    decreases 64 - k, run,
{
    if k < 1 || k > 63 || run < 0 {
        BitStr::empty()
    } else {
        let v = block[UNZIGZAG@[k] as int] as int;
        if v == 0 {
            if k == 63 {
                huff_bits(act, 0)
            } else {
                ac_bits(block, k + 1, run + 1, act)
            }
        } else {
            if run > 15 {
                huff_bits(act, 0xF0).concat(ac_bits(block, k, run - 16, act))
            } else {
                huff_bits(act, run * 16 + coeff_size(v)).concat(coeff_bits(v)).concat(
                    if k == 63 {
                        BitStr::empty()
                    } else {
                        ac_bits(block, k + 1, 0, act)
                    },
                )
            }
        }
    }
}

/// All entropy bits of one quantized block: the differential DC symbol and
/// payload, then the AC coefficients in zig-zag order.
pub open spec fn block_bits(block: Seq<i32>, prevdc: int, dct: Seq<(u8, u16)>, act: Seq<(u8, u16)>) -> BitStr {
    let diff = block[0] - prevdc;
    huff_bits(dct, coeff_size(diff) as int).concat(coeff_bits(diff)).concat(
        ac_bits(block, 1, 0, act),
    )
}


/// The 64 clamped gray samples of the macroblock at block position (bx, by).
pub open spec fn gray_block(image: Seq<u8>, width: int, bpp: int, bx: int, by: int) -> Seq<u8> {
    Seq::new(
        64,
        |i: int|
            crate::blocks::sample_at(image, 8 * bx, 8 * by, width, bpp, i % 8, i / 8, 0),
    )
}

/// The quantized transform of one gray macroblock.
pub open spec fn gray_qblock(image: Seq<u8>, width: int, bpp: int, bx: int, by: int) -> Seq<i32> {
    Seq::new(
        64,
        |i: int|
            crate::fdct::quant_spec(
                crate::fdct::fdct_spec(gray_block(image, width, bpp, bx, by))[i],
                STD_LUMA_QTABLE@[i] as int,
            ) as i32,
    )
}

/// The whole entropy bit stream of a gray image from block position
/// (bx, by) on: macroblocks in raster order, the DC predictor chaining from
/// block to block.
pub open spec fn gray_bits(
    image: Seq<u8>,
    width: int,
    height: int,
    bpp: int,
    bx: int,
    by: int,
    prevdc: int,
    ld: Seq<(u8, u16)>,
    la: Seq<(u8, u16)>,
) -> BitStr
    decreases (height + 7) / 8 - by, (width + 7) / 8 - bx,
{
    if by < 0 || bx < 0 || by >= (height + 7) / 8 {
        BitStr::empty()
    } else if bx >= (width + 7) / 8 {
        gray_bits(image, width, height, bpp, 0, by + 1, prevdc, ld, la)
    } else {
        let qb = gray_qblock(image, width, bpp, bx, by);
        block_bits(qb, prevdc, ld, la).concat(
            gray_bits(image, width, height, bpp, bx + 1, by, qb[0] as int, ld, la),
        )
    }
}

/// One converted chroma-or-luma channel of the macroblock at (bx, by) of an
/// RGB image: `ch` selects the conversion, 0 for luma, 1 for blue chroma,
/// 2 for red chroma.
pub open spec fn rgb_block(image: Seq<u8>, width: int, bpp: int, bx: int, by: int, ch: int) -> Seq<u8> {
    Seq::new(
        64,
        |i: int|
            {
                let r = crate::blocks::sample_at(
                    image,
                    8 * bx,
                    8 * by,
                    width,
                    bpp,
                    i % 8,
                    i / 8,
                    0,
                ) as int;
                let g = crate::blocks::sample_at(
                    image,
                    8 * bx,
                    8 * by,
                    width,
                    bpp,
                    i % 8,
                    i / 8,
                    1,
                ) as int;
                let b = crate::blocks::sample_at(
                    image,
                    8 * bx,
                    8 * by,
                    width,
                    bpp,
                    i % 8,
                    i / 8,
                    2,
                ) as int;
                if ch == 0 {
                    crate::blocks::ycc_y(r, g, b) as u8
                } else if ch == 1 {
                    crate::blocks::ycc_cb(r, g, b) as u8
                } else {
                    crate::blocks::ycc_cr(r, g, b) as u8
                }
            },
    )
}

/// The quantized transform of one channel of an RGB macroblock: the luma
/// channel uses the luma quantization table, the chroma channels the chroma
/// table.
pub open spec fn rgb_qblock(image: Seq<u8>, width: int, bpp: int, bx: int, by: int, ch: int) -> Seq<i32> {
    Seq::new(
        64,
        |i: int|
            crate::fdct::quant_spec(
                crate::fdct::fdct_spec(rgb_block(image, width, bpp, bx, by, ch))[i],
                (if ch == 0 {
                    STD_LUMA_QTABLE@[i]
                } else {
                    STD_CHROMA_QTABLE@[i]
                }) as int,
            ) as i32,
    )
}

/// The whole entropy bit stream of an RGB image from block position (bx, by)
/// on: per macroblock the luma, blue chroma and red chroma blocks in turn,
/// each with its own chained DC predictor.
pub open spec fn rgb_bits(
    image: Seq<u8>,
    width: int,
    height: int,
    bpp: int,
    bx: int,
    by: int,
    dcs: (int, int, int),
    ld: Seq<(u8, u16)>,
    la: Seq<(u8, u16)>,
    cd: Seq<(u8, u16)>,
    ca: Seq<(u8, u16)>,
) -> BitStr
    decreases (height + 7) / 8 - by, (width + 7) / 8 - bx,
{
    if by < 0 || bx < 0 || by >= (height + 7) / 8 {
        BitStr::empty()
    } else if bx >= (width + 7) / 8 {
        rgb_bits(image, width, height, bpp, 0, by + 1, dcs, ld, la, cd, ca)
    } else {
        let qy = rgb_qblock(image, width, bpp, bx, by, 0);
        let qcb = rgb_qblock(image, width, bpp, bx, by, 1);
        let qcr = rgb_qblock(image, width, bpp, bx, by, 2);
        block_bits(qy, dcs.0, ld, la).concat(block_bits(qcb, dcs.1, cd, ca)).concat(
            block_bits(qcr, dcs.2, cd, ca),
        ).concat(
            rgb_bits(
                image,
                width,
                height,
                bpp,
                bx + 1,
                by,
                (qy[0] as int, qcb[0] as int, qcr[0] as int),
                ld,
                la,
                cd,
                ca,
            ),
        )
    }
}

/// The bytes of the entropy-coded scan for a stream of bits `b`: the bits
/// are pushed through an empty accumulator with 0xFF stuffing, and the
/// leftover bits are flushed with a 1-padded final byte.
pub open spec fn scan_bytes(b: BitStr) -> Seq<u8> {
    push_bytes(BitStr::empty(), b) + push_bytes(
        push_rem(BitStr::empty(), b),
        pad_bits(push_rem(BitStr::empty(), b).len),
    )
}

/// The representation of a JPEG encoder: output buffer, frame components,
/// quantization tables, bit accumulator, and the four Huffman lookups.
pub struct JPEGEncoder {
    out: Vec<u8>,
    components: Vec<Component>,
    tables: Vec<u8>,
    accumulator: u32,
    nbits: u8,
    luma_dctable: Vec<(u8, u16)>,
    luma_actable: Vec<(u8, u16)>,
    chroma_dctable: Vec<(u8, u16)>,
    chroma_actable: Vec<(u8, u16)>,
}

impl JPEGEncoder {
    /// The bytes written so far.
    pub closed spec fn output(self) -> Seq<u8> {
        self.out@
    }

    /// The bits buffered in the accumulator, most significant first.
    pub closed spec fn pending(self) -> BitStr {
        BitStr {
            val: (self.accumulator as nat) / pow2((32 - self.nbits) as nat),
            len: self.nbits as nat,
        }
    }

    /// The sink invariant between writes: fewer than eight buffered bits,
    /// aligned to the top of the accumulator with zeros below.
    pub closed spec fn bits_wf(self) -> bool {
        &&& self.nbits < 8
        &&& (self.accumulator as nat) % pow2((32 - self.nbits) as nat) == 0
    }

    /// The luma DC Huffman lookup.
    pub closed spec fn luma_dc(self) -> Seq<(u8, u16)> {
        self.luma_dctable@
    }

    /// The luma AC Huffman lookup.
    pub closed spec fn luma_ac(self) -> Seq<(u8, u16)> {
        self.luma_actable@
    }

    /// The chroma DC Huffman lookup.
    pub closed spec fn chroma_dc(self) -> Seq<(u8, u16)> {
        self.chroma_dctable@
    }

    /// The chroma AC Huffman lookup.
    pub closed spec fn chroma_ac(self) -> Seq<(u8, u16)> {
        self.chroma_actable@
    }

    /// The table configuration, which no write changes.
    pub closed spec fn cfg(self) -> (
        Seq<Component>,
        Seq<u8>,
        Seq<(u8, u16)>,
        Seq<(u8, u16)>,
        Seq<(u8, u16)>,
        Seq<(u8, u16)>,
    ) {
        (
            self.components@,
            self.tables@,
            self.luma_dctable@,
            self.luma_actable@,
            self.chroma_dctable@,
            self.chroma_actable@,
        )
    }

    /// The encoder carries the standard tables: the three components, the
    /// two annex quantization tables, and usable Huffman lookups.
    pub closed spec fn standard_setup(self) -> bool {
        &&& self.components@ == std_components()
        &&& self.tables@ == STD_LUMA_QTABLE@ + STD_CHROMA_QTABLE@
        &&& dc_table_ok(self.luma_dctable@)
        &&& ac_table_ok(self.luma_actable@)
        &&& dc_table_ok(self.chroma_dctable@)
        &&& ac_table_ok(self.chroma_actable@)
    }

    /// The buffered bits are a well-formed bit string.
    pub proof fn lemma_pending_wf(self)
        requires
            self.bits_wf(),
        ensures
            self.pending().wf(),
            self.pending().len < 8,
    {
        lemma_pow2_pos((32 - self.nbits) as nat);
        vstd::arithmetic::power2::lemma_pow2_adds(
            self.nbits as nat,
            (32 - self.nbits) as nat,
        );
        lemma2_to64();
        vstd::arithmetic::div_mod::lemma_multiply_divide_lt(
            self.accumulator as int,
            pow2((32 - self.nbits) as nat) as int,
            pow2(self.nbits as nat) as int,
        );
    }

    /// Creates an encoder with an empty output buffer, an empty accumulator,
    /// and the standard annex tables.
    pub fn new() -> (r: JPEGEncoder)
        ensures
            r.standard_setup(),
            r.bits_wf(),
            r.pending() == BitStr::empty(),
            r.output() == Seq::<u8>::empty(),
            crate::huffman::canonical_assignment(
                STD_LUMA_DC_CODE_LENGTHS@,
                STD_LUMA_DC_VALUES@,
                r.luma_dc(),
            ),
            crate::huffman::canonical_assignment(
                STD_LUMA_AC_CODE_LENGTHS@,
                STD_LUMA_AC_VALUES@,
                r.luma_ac(),
            ),
            crate::huffman::canonical_assignment(
                STD_CHROMA_DC_CODE_LENGTHS@,
                STD_CHROMA_DC_VALUES@,
                r.chroma_dc(),
            ),
            crate::huffman::canonical_assignment(
                STD_CHROMA_AC_CODE_LENGTHS@,
                STD_CHROMA_AC_VALUES@,
                r.chroma_ac(),
            ),
    {
        proof {
            crate::tables::lemma_std_luma_ac_values_distinct();
            crate::tables::lemma_std_other_values_distinct();
            lemma_std_luma_dc_wf();
            lemma_std_chroma_dc_wf();
            lemma_std_luma_ac_wf();
            lemma_std_chroma_ac_wf();
        }
        let ld = build_huff_lut(
            STD_LUMA_DC_CODE_LENGTHS.as_slice(),
            STD_LUMA_DC_VALUES.as_slice(),
        );
        let la = build_huff_lut(
            STD_LUMA_AC_CODE_LENGTHS.as_slice(),
            STD_LUMA_AC_VALUES.as_slice(),
        );
        let cd = build_huff_lut(
            STD_CHROMA_DC_CODE_LENGTHS.as_slice(),
            STD_CHROMA_DC_VALUES.as_slice(),
        );
        let ca = build_huff_lut(
            STD_CHROMA_AC_CODE_LENGTHS.as_slice(),
            STD_CHROMA_AC_VALUES.as_slice(),
        );
        proof {
            lemma_std_dc_values_cover();
            lemma_std_luma_ac_values_cover();
            lemma_std_chroma_ac_values_cover();
            assert forall|s: int| 0 <= s <= 11 implies #[trigger] sym_ok(ld@, s) && sym_ok(
                cd@,
                s,
            ) by {
                assert(value_listed(STD_LUMA_DC_VALUES@, s));
                assert(value_listed(STD_CHROMA_DC_VALUES@, s));
            }
            assert forall|r2: int, s: int| 0 <= r2 < 16 && 1 <= s <= 10 implies #[trigger] sym_ok(
                la@,
                r2 * 16 + s,
            ) && sym_ok(ca@, r2 * 16 + s) by {
                assert(value_listed(STD_LUMA_AC_VALUES@, r2 * 16 + s));
                assert(value_listed(STD_CHROMA_AC_VALUES@, r2 * 16 + s));
            }
            assert(sym_ok(la@, 0) && sym_ok(la@, 0xF0)) by {
                assert(value_listed(STD_LUMA_AC_VALUES@, 0));
                assert(value_listed(STD_LUMA_AC_VALUES@, 0xF0));
            }
            assert(sym_ok(ca@, 0) && sym_ok(ca@, 0xF0)) by {
                assert(value_listed(STD_CHROMA_AC_VALUES@, 0));
                assert(value_listed(STD_CHROMA_AC_VALUES@, 0xF0));
            }
        }

        let mut components: Vec<Component> = Vec::new();
        components.push(
            Component { id: LUMAID, h: 1, v: 1, tq: 0, dc_table: 0, ac_table: 0, dc_pred: 0 },
        );
        components.push(
            Component {
                id: CHROMABLUEID,
                h: 1,
                v: 1,
                tq: 1,
                dc_table: 1,
                ac_table: 1,
                dc_pred: 0,
            },
        );
        components.push(
            Component {
                id: CHROMAREDID,
                h: 1,
                v: 1,
                tq: 1,
                dc_table: 1,
                ac_table: 1,
                dc_pred: 0,
            },
        );
        proof {
            assert(components@ =~= std_components());
        }

        let mut tables: Vec<u8> = Vec::new();
        let mut i: usize = 0;
        while i < 64
            invariant
                i <= 64,
                tables@ == STD_LUMA_QTABLE@.take(i as int),
            decreases 64 - i,
        {
            tables.push(STD_LUMA_QTABLE[i]);
            proof {
                assert(tables@ =~= STD_LUMA_QTABLE@.take(i + 1));
            }
            i = i + 1;
        }
        let mut j: usize = 0;
        while j < 64
            invariant
                j <= 64,
                tables@ == STD_LUMA_QTABLE@.take(64) + STD_CHROMA_QTABLE@.take(j as int),
            decreases 64 - j,
        {
            tables.push(STD_CHROMA_QTABLE[j]);
            proof {
                assert(tables@ =~= STD_LUMA_QTABLE@.take(64) + STD_CHROMA_QTABLE@.take(j + 1));
            }
            j = j + 1;
        }
        proof {
            assert(tables@ =~= STD_LUMA_QTABLE@ + STD_CHROMA_QTABLE@);
        }

        let r = JPEGEncoder {
            out: Vec::new(),
            components,
            tables,
            accumulator: 0,
            nbits: 0,
            luma_dctable: ld,
            luma_actable: la,
            chroma_dctable: cd,
            chroma_actable: ca,
        };
        proof {
            lemma_pow2_pos(32);
            assert(r.pending() == BitStr::empty()) by {
                assert((0nat) / pow2(32) == 0 && (0nat) % pow2(32) == 0) by {
                    vstd::arithmetic::div_mod::lemma_div_of0(pow2(32) as int);
                    vstd::arithmetic::div_mod::lemma_small_mod(0nat, pow2(32));
                }
            }
        }
        r
    }

    /// Hands back every byte written.
    pub fn into_bytes(self) -> (r: Vec<u8>)
        ensures
            r@ == self.output(),
    {
        self.out
    }

    /// Writes a marker, and for a framed segment its big-endian length
    /// (counting the two length bytes) followed by the payload.
    pub fn write_segment(&mut self, marker: u8, data: Option<Vec<u8>>)
        requires
            data.is_some() ==> data.unwrap()@.len() + 2 <= 65535,
        ensures
            final(self).output() == old(self).output() + (if data.is_some() {
                seg_bytes(marker, data.unwrap()@)
            } else {
                seq![0xFFu8, marker]
            }),
            final(self).pending() == old(self).pending(),
            final(self).bits_wf() == old(self).bits_wf(),
            final(self).cfg() == old(self).cfg(),
    {
        self.out.push(0xFF);
        self.out.push(marker);
        if data.is_some() {
            let mut b = data.unwrap();
            let len: u16 = b.len() as u16 + 2;
            self.out.push((len / 256) as u8);
            self.out.push((len % 256) as u8);
            let ghost payload = b@;
            self.out.append(&mut b);
            proof {
                assert(final(self).output() =~= old(self).output() + seg_bytes(marker, payload));
            }
        } else {
            proof {
                assert(final(self).output() =~= old(self).output() + seq![0xFFu8, marker]);
            }
        }
    }

    /// Writes the low `size` bits of `bits`, most significant first, into
    /// the accumulator, emitting every completed byte with 0xFF stuffing.
    pub fn write_bits(&mut self, bits: u16, size: u8)
        requires
            old(self).bits_wf(),
            size <= 16,
            (bits as nat) < pow2(size as nat),
        ensures
            final(self).bits_wf(),
            final(self).output() == old(self).output() + push_bytes(
                old(self).pending(),
                BitStr { val: bits as nat, len: size as nat },
            ),
            final(self).pending() == push_rem(
                old(self).pending(),
                BitStr { val: bits as nat, len: size as nat },
            ),
            final(self).cfg() == old(self).cfg(),
    {
        let ghost b = BitStr { val: bits as nat, len: size as nat };
        let ghost p0 = old(self).pending();
        proof {
            old(self).lemma_pending_wf();
        }
        if size == 0 {
            proof {
                lemma2_to64();
                assert(b == BitStr::empty());
                lemma_push_empty(p0);
                assert(old(self).output() + push_bytes(p0, b) =~= old(self).output());
            }
            return ;
        }
        let ghost n0 = self.nbits as nat;
        proof {
            lemma_acc_insert(p0.val, n0, bits as nat, size as nat);
            lemma_acc_aligned(p0.val, n0);
            assert(self.accumulator as nat == p0.val * pow2((32 - n0) as nat)) by {
                vstd::arithmetic::div_mod::lemma_fundamental_div_mod(
                    self.accumulator as int,
                    pow2((32 - n0) as nat) as int,
                );
            }
            lemma2_to64();
            assert(pow2(32) == 0x100000000);
            if n0 > 0 {
                lemma_pow2_strictly_increases((32 - n0) as nat, 32);
            }
            assert((bits as nat) * pow2((32 - n0 - size) as nat) < pow2(32));
            lemma_u32_shl_is_mul(bits as u32, (32 - self.nbits - size) as u32);
        }
        let shift: u32 = 32 - (self.nbits as u32) - (size as u32);
        let add: u32 = (bits as u32) << shift;
        self.accumulator = self.accumulator + add;
        self.nbits = self.nbits + size;
        let ghost t = p0.concat(b);
        proof {
            lemma_concat_wf(p0, b);
            assert(self.accumulator as nat == t.val * pow2((32 - self.nbits) as nat));
            lemma_acc_aligned(t.val, self.nbits as nat);
        }

        let ghost mut emitted = Seq::<u8>::empty();
        let ghost mut cur = t;
        proof {
            assert(stuff(emitted) =~= Seq::<u8>::empty());
            assert(self.out@ =~= old(self).output() + stuff(emitted));
            assert(bs_bytes(t) =~= emitted + bs_bytes(cur));
        }
        while self.nbits >= 8
            invariant
                self.nbits <= 23,
                cur.len == self.nbits as nat,
                cur.wf(),
                self.accumulator as nat == cur.val * pow2((32 - self.nbits) as nat),
                bs_bytes(t) == emitted + bs_bytes(cur),
                t.rem() == cur.rem(),
                self.out@ == old(self).output() + stuff(emitted),
                self.cfg() == old(self).cfg(),
            decreases self.nbits,
        {
            proof {
                lemma_acc_split(cur.val, cur.len);
                let q: nat = cur.val / pow2((cur.len - 8) as nat);
                let rr: nat = (cur.val % pow2((cur.len - 8) as nat)) * pow2(
                    (32 - cur.len) as nat,
                );
                assert(cur.len == self.nbits as nat);
                assert(cur.val * pow2((32 - cur.len) as nat) == q * 0x1000000 + rr);
                assert(self.accumulator as nat == cur.val * pow2((32 - cur.len) as nat));
                assert(self.accumulator as nat == q * 0x1000000 + rr);
                assert(rr < 0x1000000);
                assert(self.accumulator as int == (q as int) * 0x1000000 + (rr as int))
                    by (nonlinear_arith)
                    requires
                        self.accumulator as nat == q * 0x1000000 + rr,
                ;
                vstd::arithmetic::div_mod::lemma_fundamental_div_mod_converse(
                    self.accumulator as int,
                    0x1000000,
                    q as int,
                    rr as int,
                );
            }
            let byte: u8 = (self.accumulator / 0x0100_0000) as u8;
            self.out.push(byte);
            if byte == 0xFF {
                self.out.push(0x00);
            }
            self.accumulator = (self.accumulator % 0x0100_0000) * 256;
            self.nbits = self.nbits - 8;
            proof {
                let ghost head = seq![byte];
                assert(stuff(head) == if byte == 0xFF { seq![0xFFu8, 0x00u8] } else {
                    seq![byte]
                }) by {
                    assert(head.drop_first() =~= Seq::<u8>::empty());
                    assert(stuff(head.drop_first()) =~= Seq::<u8>::empty());
                    assert(stuff(head) =~= if byte == 0xFF { seq![0xFFu8, 0x00u8] } else {
                        seq![byte]
                    });
                }
                lemma_stuff_app(emitted, head);
                assert(emitted + head + stuff(Seq::<u8>::empty()) =~= emitted + head);
                assert(self.out@ =~= old(self).output() + stuff(emitted + head));
                lemma_rem_tail(cur);
                assert(bs_bytes(cur) == head + bs_bytes(bs_tail(cur)));
                assert(bs_bytes(t) =~= (emitted + head) + bs_bytes(bs_tail(cur)));
                emitted = emitted + head;
                cur = bs_tail(cur);
            }
        }
        proof {
            assert(bs_bytes(cur) =~= Seq::<u8>::empty());
            assert(bs_bytes(t) =~= emitted);
            assert(push_bytes(p0, b) == stuff(bs_bytes(t)));
            lemma_acc_aligned(cur.val, cur.len);
            assert(final(self).pending() == cur);
            assert(cur.rem() == cur) by {
                lemma_pow2_pos(cur.len);
                vstd::arithmetic::div_mod::lemma_small_mod(cur.val, pow2(cur.len));
            }
        }
    }

    /// Pads the buffered bits with ones up to the next byte boundary; after
    /// the call no bits are buffered.
    pub fn pad_byte(&mut self)
        requires
            old(self).bits_wf(),
        ensures
            final(self).bits_wf(),
            final(self).pending() == BitStr::empty(),
            final(self).output() == old(self).output() + push_bytes(
                old(self).pending(),
                pad_bits(old(self).pending().len),
            ),
            final(self).cfg() == old(self).cfg(),
    {
        proof {
            old(self).lemma_pending_wf();
        }
        if self.nbits == 0 {
            proof {
                lemma_push_empty(old(self).pending());
                assert(old(self).pending() == BitStr::empty()) by {
                    lemma2_to64();
                    assert(pow2(32) == 0x100000000);
                    vstd::arithmetic::div_mod::lemma_basic_div(
                        old(self).accumulator as int,
                        pow2(32) as int,
                    );
                }
                assert(old(self).output() + push_bytes(
                    old(self).pending(),
                    pad_bits(old(self).pending().len),
                ) =~= old(self).output());
            }
            return ;
        }
        let fill: u8 = 8 - self.nbits;
        proof {
            lemma_pow2_strictly_increases(fill as nat, 16);
            lemma2_to64();
            lemma_u16_shl_is_mul(1u16, fill as u16);
        }
        let val: u16 = (1u16 << (fill as u16)) - 1;
        self.write_bits(val, fill);
        proof {
            let t = old(self).pending().concat(pad_bits(old(self).pending().len));
            assert(t.len == 8);
            assert(t.rem() == BitStr::empty()) by {
                lemma2_to64();
                assert(t.len % 8 == 0);
                assert(pow2(0) == 1);
                vstd::arithmetic::div_mod::lemma_mod_bound(t.val as int, 1);
            }
        }
    }

    /// Looks a symbol up in a table and writes its code. The symbol must
    /// have an assigned code of length 1 through 16.
    pub fn huffman_encode(&mut self, val: u8, table: &[(u8, u16)])
        requires
            old(self).bits_wf(),
            sym_ok(table@, val as int),
        ensures
            final(self).bits_wf(),
            final(self).output() == old(self).output() + push_bytes(
                old(self).pending(),
                huff_bits(table@, val as int),
            ),
            final(self).pending() == push_rem(
                old(self).pending(),
                huff_bits(table@, val as int),
            ),
            final(self).cfg() == old(self).cfg(),
    {
        let (size, code) = table[val as usize];
        self.write_bits(code, size);
    }

    /// Writes one quantized 64-coefficient block: the DC difference against
    /// `prevdc`, then the AC run/size symbols in zig-zag order. Returns the
    /// block's DC value for chaining.
    #[verifier::rlimit(100)]
    pub fn write_block(
        &mut self,
        block: &[i32],
        prevdc: i32,
        dctable: &[(u8, u16)],
        actable: &[(u8, u16)],
    ) -> (r: i32)
        requires
            old(self).bits_wf(),
            block@.len() == 64,
            forall|i: int| 0 <= i < 64 ==> -1023 <= #[trigger] block@[i] <= 1023,
            -1023 <= prevdc <= 1023,
            dc_table_ok(dctable@),
            ac_table_ok(actable@),
        ensures
            final(self).bits_wf(),
            r == block@[0],
            final(self).output() == old(self).output() + push_bytes(
                old(self).pending(),
                block_bits(block@, prevdc as int, dctable@, actable@),
            ),
            final(self).pending() == push_rem(
                old(self).pending(),
                block_bits(block@, prevdc as int, dctable@, actable@),
            ),
            final(self).cfg() == old(self).cfg(),
    {
        proof {
            old(self).lemma_pending_wf();
            lemma_unzigzag_bounds();
            lemma2_to64();
        }
        let ghost p0 = old(self).pending();
        let ghost total = block_bits(block@, prevdc as int, dctable@, actable@);

        let dcval = block[0];
        let diff = dcval - prevdc;
        let (size, value) = encode_coefficient(diff);
        proof {
            lemma_bit_len_le(nat_abs(diff as int), 11);
            assert(sym_ok(dctable@, size as int));
        }
        let ghost hdc = huff_bits(dctable@, size as int);
        let ghost cdc = coeff_bits(diff as int);
        self.huffman_encode(size, dctable);
        self.write_bits(value, size);
        let ghost mut done = hdc.concat(cdc);
        proof {
            lemma_push_split(p0, hdc, cdc);
            assert(self.output() =~= old(self).output() + push_bytes(p0, done));
            lemma_concat_wf(hdc, cdc);
            lemma_concat_assoc(hdc, cdc, ac_bits(block@, 1, 0, actable@));
            assert(total == done.concat(ac_bits(block@, 1, 0, actable@)));
        }

        let mut zero_run: u8 = 0;
        let mut k: usize = 1;
        while k <= 63
            invariant
                old(self).bits_wf(),
                block@.len() == 64,
                forall|i: int| 0 <= i < 64 ==> -1023 <= #[trigger] block@[i] <= 1023,
                dc_table_ok(dctable@),
                ac_table_ok(actable@),
                forall|i: int| 0 <= i < 64 ==> #[trigger] UNZIGZAG@[i] < 64,
                1 <= k <= 64,
                zero_run < k,
                p0 == old(self).pending(),
                p0.wf(),
                p0.len < 8,
                done.wf(),
                self.bits_wf(),
                self.cfg() == old(self).cfg(),
                self.output() == old(self).output() + push_bytes(p0, done),
                self.pending() == push_rem(p0, done),
                total == done.concat(ac_bits(block@, k as int, zero_run as int, actable@)),
            decreases 64 - k,
        {
            let z: usize = UNZIGZAG[k] as usize;
            let v: i32 = block[z];
            if v != 0 {
                while zero_run > 15
                    invariant
                        old(self).bits_wf(),
                        block@.len() == 64,
                        ac_table_ok(actable@),
                        forall|i: int| 0 <= i < 64 ==> #[trigger] UNZIGZAG@[i] < 64,
                        1 <= k <= 63,
                        z == UNZIGZAG@[k as int] as int,
                        z < 64,
                        v == block@[z as int],
                        v != 0,
                        zero_run <= 62,
                        p0 == old(self).pending(),
                        p0.wf(),
                        p0.len < 8,
                        done.wf(),
                        self.bits_wf(),
                        self.cfg() == old(self).cfg(),
                        self.output() == old(self).output() + push_bytes(p0, done),
                        self.pending() == push_rem(p0, done),
                        total == done.concat(
                            ac_bits(block@, k as int, zero_run as int, actable@),
                        ),
                    decreases zero_run,
                {
                    let ghost hz = huff_bits(actable@, 0xF0);
                    let ghost tail = ac_bits(block@, k as int, zero_run as int - 16, actable@);
                    proof {
                        assert(sym_ok(actable@, 0xF0));
                        assert(ac_bits(block@, k as int, zero_run as int, actable@)
                            == hz.concat(tail));
                        lemma_push_split(p0, done, hz);
                        lemma_concat_assoc(done, hz, tail);
                    }
                    self.huffman_encode(0xF0, actable);
                    proof {
                        assert(self.output() =~= old(self).output() + push_bytes(
                            p0,
                            done.concat(hz),
                        ));
                        lemma_concat_wf(done, hz);
                        done = done.concat(hz);
                    }
                    zero_run = zero_run - 16;
                }
                let (size2, value2) = encode_coefficient(v);
                proof {
                    lemma2_to64();
                    lemma_bit_len_le(nat_abs(v as int), 10);
                    assert(nat_abs(v as int) >= 1);
                    assert(coeff_size(v as int) >= 1) by {
                        assert(bit_len(nat_abs(v as int)) >= 1);
                    }
                    assert(sym_ok(actable@, (zero_run as int) * 16 + size2 as int));
                }
                let symbol: u8 = (zero_run * 16) + size2;
                let ghost hs = huff_bits(actable@, symbol as int);
                let ghost cb = coeff_bits(v as int);
                let ghost tail = if k == 63 {
                    BitStr::empty()
                } else {
                    ac_bits(block@, k as int + 1, 0, actable@)
                };
                proof {
                    assert(ac_bits(block@, k as int, zero_run as int, actable@)
                        == hs.concat(cb).concat(tail));
                    lemma_push_split(p0, done, hs);
                    lemma_concat_wf(done, hs);
                    lemma_push_split(p0, done.concat(hs), cb);
                    lemma_concat_wf(done.concat(hs), cb);
                    lemma_concat_assoc(done, hs, cb.concat(tail));
                    lemma_concat_assoc(hs, cb, tail);
                    lemma_concat_assoc(done.concat(hs), cb, tail);
                }
                self.huffman_encode(symbol, actable);
                self.write_bits(value2, size2);
                proof {
                    assert(self.output() =~= old(self).output() + push_bytes(
                        p0,
                        done.concat(hs).concat(cb),
                    ));
                    done = done.concat(hs).concat(cb);
                    if k == 63 {
                        lemma_concat_empty(done);
                    }
                }
                zero_run = 0;
            } else {
                if k == 63 {
                    let ghost he = huff_bits(actable@, 0);
                    proof {
                        assert(sym_ok(actable@, 0));
                        assert(ac_bits(block@, 63, zero_run as int, actable@) == he);
                        lemma_push_split(p0, done, he);
                    }
                    self.huffman_encode(0x00, actable);
                    proof {
                        assert(self.output() =~= old(self).output() + push_bytes(
                            p0,
                            done.concat(he),
                        ));
                        lemma_concat_wf(done, he);
                        done = done.concat(he);
                        lemma_concat_empty(done);
                        assert(total == done.concat(ac_bits(block@, 64, 0, actable@)));
                    }
                } else {
                    zero_run = zero_run + 1;
                }
            }
            k = k + 1;
        }
        proof {
            lemma_concat_empty(done);
            assert(total == done);
        }
        dcval
    }

    /// Encodes every 8x8 macroblock of a grayscale image in raster order:
    /// block extraction with edge clamping, the transform, quantization with
    /// the luma table, and entropy coding with the luma Huffman tables. The
    /// bits pushed into the sink are exactly `gray_bits` of the image.
    pub fn encode_gray(&mut self, image: &[u8], width: usize, height: usize, bpp: usize)
        requires
            old(self).bits_wf(),
            old(self).standard_setup(),
            image@.len() > 0,
            1 <= width <= 65535,
            1 <= height <= 65535,
            1 <= bpp <= 4,
        ensures
            final(self).bits_wf(),
            final(self).cfg() == old(self).cfg(),
            final(self).output() == old(self).output() + push_bytes(
                old(self).pending(),
                gray_bits(
                    image@,
                    width as int,
                    height as int,
                    bpp as int,
                    0,
                    0,
                    0,
                    old(self).luma_dc(),
                    old(self).luma_ac(),
                ),
            ),
            final(self).pending() == push_rem(
                old(self).pending(),
                gray_bits(
                    image@,
                    width as int,
                    height as int,
                    bpp as int,
                    0,
                    0,
                    0,
                    old(self).luma_dc(),
                    old(self).luma_ac(),
                ),
            ),
            exists|b: BitStr| #[trigger] b.wf() && final(self).output() == old(self).output()
                + push_bytes(old(self).pending(), b) && final(self).pending() == push_rem(
                old(self).pending(),
                b,
            ),
    {
        proof {
            old(self).lemma_pending_wf();
        }
        let ghost p0 = old(self).pending();
        let ghost total = gray_bits(
            image@,
            width as int,
            height as int,
            bpp as int,
            0,
            0,
            0,
            old(self).luma_dctable@,
            old(self).luma_actable@,
        );
        let ld = clone_table(&self.luma_dctable);
        let la = clone_table(&self.luma_actable);
        let mut yblock: Vec<u8> = Vec::new();
        let mut i: usize = 0;
        while i < 64
            invariant
                i <= 64,
                yblock@.len() == i,
            decreases 64 - i,
        {
            yblock.push(0);
            i = i + 1;
        }

        let mut y_dcprev: i32 = 0;
        let ghost mut done = BitStr::empty();
        proof {
            lemma2_to64();
            assert(pow2(0) == 1);
            assert(done.wf());
            lemma_concat_empty(p0);
            lemma_push_empty(p0);
            assert(self.output() =~= old(self).output() + push_bytes(p0, done));
            assert(total == done.concat(
                gray_bits(
                    image@,
                    width as int,
                    height as int,
                    bpp as int,
                    0,
                    0,
                    y_dcprev as int,
                    ld@,
                    la@,
                ),
            ));
        }
        let mut y: usize = 0;
        while y < height
            invariant
                old(self).bits_wf(),
                old(self).standard_setup(),
                image@.len() > 0,
                1 <= width <= 65535,
                1 <= height <= 65535,
                1 <= bpp <= 4,
                ld@ == old(self).luma_dctable@,
                la@ == old(self).luma_actable@,
                yblock@.len() == 64,
                -1023 <= y_dcprev <= 1023,
                p0 == old(self).pending(),
                p0.wf(),
                p0.len < 8,
                done.wf(),
                self.bits_wf(),
                self.cfg() == old(self).cfg(),
                self.output() == old(self).output() + push_bytes(p0, done),
                self.pending() == push_rem(p0, done),
                y <= height + 7,
                y % 8 == 0,
                total == done.concat(
                    gray_bits(
                        image@,
                        width as int,
                        height as int,
                        bpp as int,
                        0,
                        y as int / 8,
                        y_dcprev as int,
                        ld@,
                        la@,
                    ),
                ),
            decreases 65543 - y,
        {
            let mut x: usize = 0;
            while x < width
                invariant
                    old(self).bits_wf(),
                    old(self).standard_setup(),
                    image@.len() > 0,
                    1 <= width <= 65535,
                    1 <= height <= 65535,
                    1 <= bpp <= 4,
                    y < height,
                    ld@ == old(self).luma_dctable@,
                    la@ == old(self).luma_actable@,
                    yblock@.len() == 64,
                    -1023 <= y_dcprev <= 1023,
                    p0 == old(self).pending(),
                    p0.wf(),
                    p0.len < 8,
                    done.wf(),
                    self.bits_wf(),
                    self.cfg() == old(self).cfg(),
                    self.output() == old(self).output() + push_bytes(p0, done),
                    self.pending() == push_rem(p0, done),
                    x <= width + 7,
                    x % 8 == 0,
                    y % 8 == 0,
                    total == done.concat(
                        gray_bits(
                            image@,
                            width as int,
                            height as int,
                            bpp as int,
                            x as int / 8,
                            y as int / 8,
                            y_dcprev as int,
                            ld@,
                            la@,
                        ),
                    ),
                decreases 65543 - x,
            {
                proof {
                    crate::tables::lemma_qtable_min();
                }
                crate::blocks::copy_blocks_gray(image, x, y, width, bpp, &mut yblock);
                let dct = crate::fdct::fdct(yblock.as_slice());
                let mut qblock: Vec<i32> = Vec::new();
                let mut qi: usize = 0;
                while qi < 64
                    invariant
                        qi <= 64,
                        qblock@.len() == qi,
                        dct@.len() == 64,
                        forall|j: int| 0 <= j < 64 ==> -80000 <= #[trigger] dct@[j] <= 80000,
                        self.tables@ == STD_LUMA_QTABLE@ + STD_CHROMA_QTABLE@,
                        forall|j: int| 0 <= j < 64 ==> 10 <= #[trigger] STD_LUMA_QTABLE@[j],
                        forall|j: int| 0 <= j < qi ==> -1023 <= #[trigger] qblock@[j] <= 1023,
                        forall|j: int| 0 <= j < qi ==> #[trigger] qblock@[j] as int
                            == crate::fdct::quant_spec(
                            dct@[j] as int,
                            STD_LUMA_QTABLE@[j] as int,
                        ),
                    decreases 64 - qi,
                {
                    let q: u8 = self.tables[qi];
                    qblock.push(crate::fdct::quantize(dct[qi], q));
                    qi = qi + 1;
                }
                let ghost bx = x as int / 8;
                let ghost by = y as int / 8;
                proof {
                    assert(8 * bx == x as int && 8 * by == y as int);
                    assert(yblock@ =~= gray_block(
                        image@,
                        width as int,
                        bpp as int,
                        bx,
                        by,
                    ));
                    assert(qblock@ =~= gray_qblock(
                        image@,
                        width as int,
                        bpp as int,
                        bx,
                        by,
                    ));
                    assert(bx < (width as int + 7) / 8);
                    assert(by < (height as int + 7) / 8);
                }
                let ghost bb = block_bits(qblock@, y_dcprev as int, ld@, la@);
                let ghost tail = gray_bits(
                    image@,
                    width as int,
                    height as int,
                    bpp as int,
                    bx + 1,
                    by,
                    qblock@[0] as int,
                    ld@,
                    la@,
                );
                proof {
                    assert(gray_bits(
                        image@,
                        width as int,
                        height as int,
                        bpp as int,
                        bx,
                        by,
                        y_dcprev as int,
                        ld@,
                        la@,
                    ) == bb.concat(tail));
                    assert(dc_table_ok(ld@) && ac_table_ok(la@));
                    lemma_block_bits_wf(qblock@, y_dcprev as int, ld@, la@);
                    lemma_push_split(p0, done, bb);
                    lemma_concat_assoc(done, bb, tail);
                }
                let ghost prev_done = done;
                y_dcprev = self.write_block(qblock.as_slice(), y_dcprev, ld.as_slice(), la.as_slice());
                proof {
                    assert(self.output() =~= old(self).output() + push_bytes(
                        p0,
                        prev_done.concat(bb),
                    ));
                    lemma_concat_wf(prev_done, bb);
                    done = prev_done.concat(bb);
                    assert((x as int + 8) / 8 == bx + 1);
                }
                x = x + 8;
            }
            proof {
                assert(x as int / 8 >= (width as int + 7) / 8);
                assert(gray_bits(
                    image@,
                    width as int,
                    height as int,
                    bpp as int,
                    x as int / 8,
                    y as int / 8,
                    y_dcprev as int,
                    ld@,
                    la@,
                ) == gray_bits(
                    image@,
                    width as int,
                    height as int,
                    bpp as int,
                    0,
                    y as int / 8 + 1,
                    y_dcprev as int,
                    ld@,
                    la@,
                ));
                assert((y as int + 8) / 8 == y as int / 8 + 1);
            }
            y = y + 8;
        }
        proof {
            assert(y as int / 8 >= (height as int + 7) / 8);
            assert(gray_bits(
                image@,
                width as int,
                height as int,
                bpp as int,
                0,
                y as int / 8,
                y_dcprev as int,
                ld@,
                la@,
            ) == BitStr::empty());
            lemma_concat_empty(done);
            assert(total == done);
            assert(done.wf() && self.output() == old(self).output() + push_bytes(p0, done)
                && self.pending() == push_rem(p0, done));
        }
    }

    /// Encodes every 8x8 macroblock of an RGB image in raster order: colour
    /// conversion, the transform, quantization with the luma table for luma
    /// and the chroma table for both chroma components, and entropy coding
    /// with the matching Huffman tables. The three DC predictors chain
    /// independently, and the bits pushed into the sink are exactly
    /// `rgb_bits` of the image.
    pub fn encode_rgb(&mut self, image: &[u8], width: usize, height: usize, bpp: usize)
        requires
            old(self).bits_wf(),
            old(self).standard_setup(),
            image@.len() > 0,
            1 <= width <= 65535,
            1 <= height <= 65535,
            1 <= bpp <= 4,
        ensures
            final(self).bits_wf(),
            final(self).cfg() == old(self).cfg(),
            final(self).output() == old(self).output() + push_bytes(
                old(self).pending(),
                rgb_bits(
                    image@,
                    width as int,
                    height as int,
                    bpp as int,
                    0,
                    0,
                    (0, 0, 0),
                    old(self).luma_dc(),
                    old(self).luma_ac(),
                    old(self).chroma_dc(),
                    old(self).chroma_ac(),
                ),
            ),
            final(self).pending() == push_rem(
                old(self).pending(),
                rgb_bits(
                    image@,
                    width as int,
                    height as int,
                    bpp as int,
                    0,
                    0,
                    (0, 0, 0),
                    old(self).luma_dc(),
                    old(self).luma_ac(),
                    old(self).chroma_dc(),
                    old(self).chroma_ac(),
                ),
            ),
            exists|b: BitStr| #[trigger] b.wf() && final(self).output() == old(self).output()
                + push_bytes(old(self).pending(), b) && final(self).pending() == push_rem(
                old(self).pending(),
                b,
            ),
    {
        proof {
            old(self).lemma_pending_wf();
        }
        let ghost p0 = old(self).pending();
        let ghost total = rgb_bits(
            image@,
            width as int,
            height as int,
            bpp as int,
            0,
            0,
            (0, 0, 0),
            old(self).luma_dctable@,
            old(self).luma_actable@,
            old(self).chroma_dctable@,
            old(self).chroma_actable@,
        );
        let ld = clone_table(&self.luma_dctable);
        let la = clone_table(&self.luma_actable);
        let cd = clone_table(&self.chroma_dctable);
        let ca = clone_table(&self.chroma_actable);
        let mut yblock: Vec<u8> = Vec::new();
        let mut cb_block: Vec<u8> = Vec::new();
        let mut cr_block: Vec<u8> = Vec::new();
        let mut i: usize = 0;
        while i < 64
            invariant
                i <= 64,
                yblock@.len() == i,
                cb_block@.len() == i,
                cr_block@.len() == i,
            decreases 64 - i,
        {
            yblock.push(0);
            cb_block.push(0);
            cr_block.push(0);
            i = i + 1;
        }

        let mut y_dcprev: i32 = 0;
        let mut cb_dcprev: i32 = 0;
        let mut cr_dcprev: i32 = 0;
        let ghost mut done = BitStr::empty();
        proof {
            lemma2_to64();
            assert(pow2(0) == 1);
            assert(done.wf());
            lemma_concat_empty(p0);
            lemma_push_empty(p0);
            assert(self.output() =~= old(self).output() + push_bytes(p0, done));
        }
        let mut y: usize = 0;
        while y < height
            invariant
                old(self).bits_wf(),
                old(self).standard_setup(),
                image@.len() > 0,
                1 <= width <= 65535,
                1 <= height <= 65535,
                1 <= bpp <= 4,
                ld@ == old(self).luma_dctable@,
                la@ == old(self).luma_actable@,
                cd@ == old(self).chroma_dctable@,
                ca@ == old(self).chroma_actable@,
                yblock@.len() == 64,
                cb_block@.len() == 64,
                cr_block@.len() == 64,
                -1023 <= y_dcprev <= 1023,
                -1023 <= cb_dcprev <= 1023,
                -1023 <= cr_dcprev <= 1023,
                p0 == old(self).pending(),
                p0.wf(),
                p0.len < 8,
                done.wf(),
                self.bits_wf(),
                self.cfg() == old(self).cfg(),
                self.output() == old(self).output() + push_bytes(p0, done),
                self.pending() == push_rem(p0, done),
                y <= height + 7,
                y % 8 == 0,
                total == done.concat(
                    rgb_bits(
                        image@,
                        width as int,
                        height as int,
                        bpp as int,
                        0,
                        y as int / 8,
                        (y_dcprev as int, cb_dcprev as int, cr_dcprev as int),
                        ld@,
                        la@,
                        cd@,
                        ca@,
                    ),
                ),
            decreases 65543 - y,
        {
            let mut x: usize = 0;
            while x < width
                invariant
                    old(self).bits_wf(),
                    old(self).standard_setup(),
                    image@.len() > 0,
                    1 <= width <= 65535,
                    1 <= height <= 65535,
                    1 <= bpp <= 4,
                    y < height,
                    ld@ == old(self).luma_dctable@,
                    la@ == old(self).luma_actable@,
                    cd@ == old(self).chroma_dctable@,
                    ca@ == old(self).chroma_actable@,
                    yblock@.len() == 64,
                    cb_block@.len() == 64,
                    cr_block@.len() == 64,
                    -1023 <= y_dcprev <= 1023,
                    -1023 <= cb_dcprev <= 1023,
                    -1023 <= cr_dcprev <= 1023,
                    p0 == old(self).pending(),
                    p0.wf(),
                    p0.len < 8,
                    done.wf(),
                    self.bits_wf(),
                    self.cfg() == old(self).cfg(),
                    self.output() == old(self).output() + push_bytes(p0, done),
                    self.pending() == push_rem(p0, done),
                    x <= width + 7,
                    x % 8 == 0,
                    y % 8 == 0,
                    total == done.concat(
                        rgb_bits(
                            image@,
                            width as int,
                            height as int,
                            bpp as int,
                            x as int / 8,
                            y as int / 8,
                            (y_dcprev as int, cb_dcprev as int, cr_dcprev as int),
                            ld@,
                            la@,
                            cd@,
                            ca@,
                        ),
                    ),
                decreases 65543 - x,
            {
                proof {
                    crate::tables::lemma_qtable_min();
                }
                crate::blocks::copy_blocks_ycbcr(
                    image,
                    x,
                    y,
                    width,
                    bpp,
                    &mut yblock,
                    &mut cb_block,
                    &mut cr_block,
                );
                let dct_y = crate::fdct::fdct(yblock.as_slice());
                let dct_cb = crate::fdct::fdct(cb_block.as_slice());
                let dct_cr = crate::fdct::fdct(cr_block.as_slice());
                let mut q_y: Vec<i32> = Vec::new();
                let mut q_cb: Vec<i32> = Vec::new();
                let mut q_cr: Vec<i32> = Vec::new();
                let mut qi: usize = 0;
                while qi < 64
                    invariant
                        qi <= 64,
                        q_y@.len() == qi,
                        q_cb@.len() == qi,
                        q_cr@.len() == qi,
                        dct_y@.len() == 64,
                        dct_cb@.len() == 64,
                        dct_cr@.len() == 64,
                        forall|j: int| 0 <= j < 64 ==> -80000 <= #[trigger] dct_y@[j] <= 80000,
                        forall|j: int| 0 <= j < 64 ==> -80000 <= #[trigger] dct_cb@[j] <= 80000,
                        forall|j: int| 0 <= j < 64 ==> -80000 <= #[trigger] dct_cr@[j] <= 80000,
                        self.tables@ == STD_LUMA_QTABLE@ + STD_CHROMA_QTABLE@,
                        forall|j: int| 0 <= j < 64 ==> 10 <= #[trigger] STD_LUMA_QTABLE@[j],
                        forall|j: int| 0 <= j < 64 ==> 10 <= #[trigger] STD_CHROMA_QTABLE@[j],
                        forall|j: int| 0 <= j < qi ==> -1023 <= #[trigger] q_y@[j] <= 1023,
                        forall|j: int| 0 <= j < qi ==> -1023 <= #[trigger] q_cb@[j] <= 1023,
                        forall|j: int| 0 <= j < qi ==> -1023 <= #[trigger] q_cr@[j] <= 1023,
                        forall|j: int| 0 <= j < qi ==> #[trigger] q_y@[j] as int
                            == crate::fdct::quant_spec(
                            dct_y@[j] as int,
                            STD_LUMA_QTABLE@[j] as int,
                        ),
                        forall|j: int| 0 <= j < qi ==> #[trigger] q_cb@[j] as int
                            == crate::fdct::quant_spec(
                            dct_cb@[j] as int,
                            STD_CHROMA_QTABLE@[j] as int,
                        ),
                        forall|j: int| 0 <= j < qi ==> #[trigger] q_cr@[j] as int
                            == crate::fdct::quant_spec(
                            dct_cr@[j] as int,
                            STD_CHROMA_QTABLE@[j] as int,
                        ),
                    decreases 64 - qi,
                {
                    let q: u8 = self.tables[qi];
                    let qc: u8 = self.tables[64 + qi];
                    q_y.push(crate::fdct::quantize(dct_y[qi], q));
                    q_cb.push(crate::fdct::quantize(dct_cb[qi], qc));
                    q_cr.push(crate::fdct::quantize(dct_cr[qi], qc));
                    qi = qi + 1;
                }
                let ghost bx = x as int / 8;
                let ghost by = y as int / 8;
                let ghost bb_y = block_bits(q_y@, y_dcprev as int, ld@, la@);
                let ghost bb_cb = block_bits(q_cb@, cb_dcprev as int, cd@, ca@);
                let ghost bb_cr = block_bits(q_cr@, cr_dcprev as int, cd@, ca@);
                let ghost tail = rgb_bits(
                    image@,
                    width as int,
                    height as int,
                    bpp as int,
                    bx + 1,
                    by,
                    (q_y@[0] as int, q_cb@[0] as int, q_cr@[0] as int),
                    ld@,
                    la@,
                    cd@,
                    ca@,
                );
                proof {
                    assert(8 * bx == x as int && 8 * by == y as int);
                    assert(yblock@ =~= rgb_block(image@, width as int, bpp as int, bx, by, 0));
                    assert(cb_block@ =~= rgb_block(image@, width as int, bpp as int, bx, by, 1));
                    assert(cr_block@ =~= rgb_block(image@, width as int, bpp as int, bx, by, 2));
                    assert(q_y@ =~= rgb_qblock(image@, width as int, bpp as int, bx, by, 0));
                    assert(q_cb@ =~= rgb_qblock(image@, width as int, bpp as int, bx, by, 1));
                    assert(q_cr@ =~= rgb_qblock(image@, width as int, bpp as int, bx, by, 2));
                    assert(bx < (width as int + 7) / 8);
                    assert(by < (height as int + 7) / 8);
                    assert(rgb_bits(
                        image@,
                        width as int,
                        height as int,
                        bpp as int,
                        bx,
                        by,
                        (y_dcprev as int, cb_dcprev as int, cr_dcprev as int),
                        ld@,
                        la@,
                        cd@,
                        ca@,
                    ) == bb_y.concat(bb_cb).concat(bb_cr).concat(tail));
                    lemma_block_bits_wf(q_y@, y_dcprev as int, ld@, la@);
                    lemma_block_bits_wf(q_cb@, cb_dcprev as int, cd@, ca@);
                    lemma_block_bits_wf(q_cr@, cr_dcprev as int, cd@, ca@);
                    lemma_push_split(p0, done, bb_y);
                }
                let ghost d0 = done;
                y_dcprev = self.write_block(q_y.as_slice(), y_dcprev, ld.as_slice(), la.as_slice());
                proof {
                    assert(self.output() =~= old(self).output() + push_bytes(
                        p0,
                        d0.concat(bb_y),
                    ));
                    lemma_concat_wf(d0, bb_y);
                    done = d0.concat(bb_y);
                    lemma_push_split(p0, done, bb_cb);
                }
                let ghost d1 = done;
                cb_dcprev = self.write_block(q_cb.as_slice(), cb_dcprev, cd.as_slice(), ca.as_slice());
                proof {
                    assert(self.output() =~= old(self).output() + push_bytes(
                        p0,
                        d1.concat(bb_cb),
                    ));
                    lemma_concat_wf(d1, bb_cb);
                    done = d1.concat(bb_cb);
                    lemma_push_split(p0, done, bb_cr);
                }
                let ghost d2 = done;
                cr_dcprev = self.write_block(q_cr.as_slice(), cr_dcprev, cd.as_slice(), ca.as_slice());
                proof {
                    assert(self.output() =~= old(self).output() + push_bytes(
                        p0,
                        d2.concat(bb_cr),
                    ));
                    lemma_concat_wf(d2, bb_cr);
                    done = d2.concat(bb_cr);
                    // Reassociate the three block strings onto the finished prefix.
                    lemma_concat_assoc(d0, bb_y, bb_cb);
                    lemma_concat_assoc(d0, bb_y.concat(bb_cb), bb_cr);
                    lemma_concat_assoc(bb_y, bb_cb, bb_cr);
                    lemma_concat_assoc(d0, bb_y.concat(bb_cb).concat(bb_cr), tail);
                    assert(done == d0.concat(bb_y.concat(bb_cb).concat(bb_cr)));
                    assert(total == done.concat(tail));
                    assert((x as int + 8) / 8 == bx + 1);
                }
                x = x + 8;
            }
            proof {
                assert(x as int / 8 >= (width as int + 7) / 8);
                assert((y as int + 8) / 8 == y as int / 8 + 1);
            }
            y = y + 8;
        }
        proof {
            assert(y as int / 8 >= (height as int + 7) / 8);
            lemma_concat_empty(done);
            assert(total == done);
            assert(done.wf() && self.output() == old(self).output() + push_bytes(p0, done)
                && self.pending() == push_rem(p0, done));
        }
    }

    /// Encodes an image: emits SOI, the JFIF APP0 segment, the frame header,
    /// the active quantization and Huffman table segments and the scan
    /// header, then the entropy-coded data, padding, and EOI. An unsupported
    /// colour type is refused after the headers, with nothing of the entropy
    /// data written.
    #[verifier::rlimit(100)]
    pub fn encode(&mut self, image: &[u8], width: u32, height: u32, c: ColorType) -> (r: Result<
        (),
        JpegError,
    >)
        requires
            old(self).bits_wf(),
            old(self).standard_setup(),
            old(self).pending() == BitStr::empty(),
            width <= 65535,
            height <= 65535,
            supported(c) ==> 1 <= width && 1 <= height && image@.len() >= width * height * bpp_of(
                c,
            ),
        ensures
            final(self).bits_wf(),
            final(self).standard_setup(),
            final(self).pending() == BitStr::empty(),
            r.is_ok() <==> supported(c),
            !supported(c) ==> final(self).output() == old(self).output() + header_bytes(
                width as int,
                height as int,
                c,
            ) && r == Err::<(), JpegError>(JpegError::UnsupportedColorType(c)),
            supported(c) ==> exists|e: Seq<u8>|
                #[trigger] stuffed_ok(e) && final(self).output() == old(self).output()
                    + header_bytes(width as int, height as int, c) + e + seq![0xFFu8, 0xD9u8],
            supported(c) && ncomp_of(c) == 1 ==> final(self).output() == old(self).output()
                + header_bytes(width as int, height as int, c) + scan_bytes(
                gray_bits(
                    image@,
                    width as int,
                    height as int,
                    bpp_of(c),
                    0,
                    0,
                    0,
                    old(self).luma_dc(),
                    old(self).luma_ac(),
                ),
            ) + seq![0xFFu8, 0xD9u8],
            supported(c) && ncomp_of(c) == 3 ==> final(self).output() == old(self).output()
                + header_bytes(width as int, height as int, c) + scan_bytes(
                rgb_bits(
                    image@,
                    width as int,
                    height as int,
                    bpp_of(c),
                    0,
                    0,
                    (0, 0, 0),
                    old(self).luma_dc(),
                    old(self).luma_ac(),
                    old(self).chroma_dc(),
                    old(self).chroma_ac(),
                ),
            ) + seq![0xFFu8, 0xD9u8],
            supported(c) ==> ({
                let o = final(self).output();
                o.len() >= 2 && o[o.len() - 2] == 0xFF && o[o.len() - 1] == 0xD9
            }),
    {
        let n = num_components(c);
        let ncomp: usize = if n == 1 || n == 2 {
            1
        } else {
            3
        };
        proof {
            assert(ncomp == ncomp_of(c));
        }

        let ghost mut h = Seq::<u8>::empty();
        self.write_segment(SOI, None);
        proof {
            h = seq![0xFFu8, SOI];
            assert(self.output() =~= old(self).output() + h);
        }

        let buf = build_jfif_header();
        self.write_segment(APP0, Some(buf));
        proof {
            h = h + seg_bytes(APP0, jfif_payload());
            assert(self.output() =~= old(self).output() + h);
        }

        let mut active: Vec<Component> = Vec::new();
        active.push(self.components[0]);
        if ncomp == 3 {
            active.push(self.components[1]);
            active.push(self.components[2]);
        }
        proof {
            assert(active@ =~= active_components(c));
        }
        let buf = build_frame_header(8, width as u16, height as u16, active.as_slice());
        proof {
            crate::segments::lemma_frame_components_len(active_components(c), 0);
        }
        self.write_segment(SOF0, Some(buf));
        proof {
            h = h + seg_bytes(
                SOF0,
                frame_payload(8, width as int, height as int, active_components(c)),
            );
            assert(self.output() =~= old(self).output() + h);
        }

        let mut qt: Vec<u8> = Vec::new();
        let mut i: usize = 0;
        while i < 64
            invariant
                i <= 64,
                self.tables@ == STD_LUMA_QTABLE@ + STD_CHROMA_QTABLE@,
                qt@ == STD_LUMA_QTABLE@.take(i as int),
            decreases 64 - i,
        {
            qt.push(self.tables[i]);
            proof {
                assert(qt@ =~= STD_LUMA_QTABLE@.take(i + 1));
            }
            i = i + 1;
        }
        proof {
            assert(qt@ =~= STD_LUMA_QTABLE@);
        }
        let buf = build_quantization_segment(8, 0, qt.as_slice());
        self.write_segment(DQT, Some(buf));
        proof {
            h = h + seg_bytes(DQT, dqt_payload(8, 0, STD_LUMA_QTABLE@));
            assert(self.output() =~= old(self).output() + h);
        }
        if ncomp == 3 {
            let mut qt2: Vec<u8> = Vec::new();
            let mut j: usize = 0;
            while j < 64
                invariant
                    j <= 64,
                    self.tables@ == STD_LUMA_QTABLE@ + STD_CHROMA_QTABLE@,
                    qt2@ == STD_CHROMA_QTABLE@.take(j as int),
                decreases 64 - j,
            {
                qt2.push(self.tables[64 + j]);
                proof {
                    assert(qt2@ =~= STD_CHROMA_QTABLE@.take(j + 1));
                }
                j = j + 1;
            }
            proof {
                assert(qt2@ =~= STD_CHROMA_QTABLE@);
            }
            let buf = build_quantization_segment(8, 1, qt2.as_slice());
            self.write_segment(DQT, Some(buf));
            proof {
                h = h + seg_bytes(DQT, dqt_payload(8, 1, STD_CHROMA_QTABLE@));
                assert(self.output() =~= old(self).output() + h);
            }
        }

        proof {
            lemma_std_luma_dc_wf();
            lemma_std_luma_ac_wf();
            lemma_std_chroma_dc_wf();
            lemma_std_chroma_ac_wf();
        }
        let buf = build_huffman_segment(
            DCCLASS,
            LUMADESTINATION,
            STD_LUMA_DC_CODE_LENGTHS.as_slice(),
            STD_LUMA_DC_VALUES.as_slice(),
        );
        self.write_segment(DHT, Some(buf));
        proof {
            h = h + seg_bytes(
                DHT,
                dht_payload(
                    DCCLASS,
                    LUMADESTINATION,
                    STD_LUMA_DC_CODE_LENGTHS@,
                    STD_LUMA_DC_VALUES@,
                ),
            );
            assert(self.output() =~= old(self).output() + h);
        }
        let buf = build_huffman_segment(
            ACCLASS,
            LUMADESTINATION,
            STD_LUMA_AC_CODE_LENGTHS.as_slice(),
            STD_LUMA_AC_VALUES.as_slice(),
        );
        self.write_segment(DHT, Some(buf));
        proof {
            h = h + seg_bytes(
                DHT,
                dht_payload(
                    ACCLASS,
                    LUMADESTINATION,
                    STD_LUMA_AC_CODE_LENGTHS@,
                    STD_LUMA_AC_VALUES@,
                ),
            );
            assert(self.output() =~= old(self).output() + h);
        }
        if ncomp == 3 {
            let buf = build_huffman_segment(
                DCCLASS,
                CHROMADESTINATION,
                STD_CHROMA_DC_CODE_LENGTHS.as_slice(),
                STD_CHROMA_DC_VALUES.as_slice(),
            );
            self.write_segment(DHT, Some(buf));
            proof {
                h = h + seg_bytes(
                    DHT,
                    dht_payload(
                        DCCLASS,
                        CHROMADESTINATION,
                        STD_CHROMA_DC_CODE_LENGTHS@,
                        STD_CHROMA_DC_VALUES@,
                    ),
                );
                assert(self.output() =~= old(self).output() + h);
            }
            let buf = build_huffman_segment(
                ACCLASS,
                CHROMADESTINATION,
                STD_CHROMA_AC_CODE_LENGTHS.as_slice(),
                STD_CHROMA_AC_VALUES.as_slice(),
            );
            self.write_segment(DHT, Some(buf));
            proof {
                h = h + seg_bytes(
                    DHT,
                    dht_payload(
                        ACCLASS,
                        CHROMADESTINATION,
                        STD_CHROMA_AC_CODE_LENGTHS@,
                        STD_CHROMA_AC_VALUES@,
                    ),
                );
                assert(self.output() =~= old(self).output() + h);
            }
        }

        let buf = build_scan_header(active.as_slice());
        proof {
            crate::segments::lemma_scan_components_len(active_components(c), 0);
        }
        self.write_segment(SOS, Some(buf));
        proof {
            h = h + seg_bytes(SOS, scan_payload(active_components(c)));
            assert(self.output() =~= old(self).output() + h);
            assert(h =~= header_bytes(width as int, height as int, c));
        }
        let ghost after_headers = self.output();
        let ghost p_empty = self.pending();

        proof {
            if supported(c) {
                assert((width as int) * (height as int) * bpp_of(c) >= 1) by (nonlinear_arith)
                    requires
                        1 <= width as int,
                        1 <= height as int,
                        1 <= bpp_of(c),
                ;
            }
        }
        match c {
            ColorType::RGB(8) => {
                self.encode_rgb(image, width as usize, height as usize, 3);
            },
            ColorType::RGBA(8) => {
                self.encode_rgb(image, width as usize, height as usize, 4);
            },
            ColorType::Gray(8) => {
                self.encode_gray(image, width as usize, height as usize, 1);
            },
            ColorType::GrayA(8) => {
                self.encode_gray(image, width as usize, height as usize, 2);
            },
            _ => {
                return Err(JpegError::UnsupportedColorType(c));
            },
        }

        let ghost sb = if ncomp_of(c) == 1 {
            gray_bits(
                image@,
                width as int,
                height as int,
                bpp_of(c),
                0,
                0,
                0,
                old(self).luma_dc(),
                old(self).luma_ac(),
            )
        } else {
            rgb_bits(
                image@,
                width as int,
                height as int,
                bpp_of(c),
                0,
                0,
                (0, 0, 0),
                old(self).luma_dc(),
                old(self).luma_ac(),
                old(self).chroma_dc(),
                old(self).chroma_ac(),
            )
        };
        proof {
            assert(self.output() == after_headers + push_bytes(p_empty, sb));
            assert(self.pending() == push_rem(p_empty, sb));
        }
        let ghost e1 = self.output().skip(after_headers.len() as int);
        proof {
            assert(after_headers + e1 =~= self.output());
            crate::bitstream::lemma_stuff_ok(bs_bytes(p_empty.concat(choose|b: BitStr|
                b.wf() && self.output() == after_headers + push_bytes(p_empty, b)
                    && self.pending() == push_rem(p_empty, b))));
            assert(stuffed_ok(e1));
        }
        let ghost before_pad_out = self.output();
        let ghost before_pad_pend = self.pending();
        self.pad_byte();
        let ghost pad_push = push_bytes(before_pad_pend, pad_bits(before_pad_pend.len));
        let ghost e2 = self.output().skip(after_headers.len() as int);
        proof {
            assert(self.output() == before_pad_out + pad_push);
            crate::bitstream::lemma_stuff_ok(
                bs_bytes(before_pad_pend.concat(pad_bits(before_pad_pend.len))),
            );
            assert(stuffed_ok(pad_push));
            crate::bitstream::lemma_stuffed_ok_app(e1, pad_push);
            assert(e2 =~= e1 + pad_push);
            assert(after_headers + e2 =~= self.output());
        }
        proof {
            assert(p_empty == BitStr::empty());
            assert(e2 =~= scan_bytes(sb));
            assert(self.output() =~= old(self).output() + header_bytes(
                width as int,
                height as int,
                c,
            ) + scan_bytes(sb));
        }
        self.write_segment(EOI, None);
        proof {
            assert(self.output() =~= old(self).output() + header_bytes(
                width as int,
                height as int,
                c,
            ) + scan_bytes(sb) + seq![0xFFu8, 0xD9u8]);
        }
        Ok(())
    }
}

/// Channel count of a colour layout.
pub fn num_components(c: ColorType) -> (n: usize)
    ensures
        n as int == bpp_of(c),
{
    match c {
        ColorType::Gray(_) => 1,
        ColorType::GrayA(_) => 2,
        ColorType::RGB(_) => 3,
        ColorType::RGBA(_) => 4,
        ColorType::Palette(_) => 3,
    }
}

/// A coded coefficient's payload fits its size category.
pub proof fn lemma_coeff_bits_wf(c: int)
    requires
        -65535 <= c <= 65535,
    ensures
        coeff_bits(c).wf(),
{
    lemma2_to64();
    if c == 0 {
        assert(bit_len(0nat) == 0);
        assert(pow2(0) == 1);
    } else {
        crate::coeff::lemma_bit_len_bounds(nat_abs(c));
    }
}

/// The AC bit string of a bounded block is well formed.
pub proof fn lemma_ac_bits_wf(block: Seq<i32>, k: int, run: int, act: Seq<(u8, u16)>)
    requires
        block.len() == 64,
        forall|i: int| 0 <= i < 64 ==> -1023 <= #[trigger] block[i] <= 1023,
        ac_table_ok(act),
    ensures
        ac_bits(block, k, run, act).wf(),
    decreases 64 - k, run,
{
    lemma2_to64();
    lemma_unzigzag_bounds();
    if k < 1 || k > 63 || run < 0 {
        assert(pow2(0) == 1);
    } else {
        let v = block[UNZIGZAG@[k] as int] as int;
        if v == 0 {
            if k == 63 {
                assert(sym_ok(act, 0));
            } else {
                lemma_ac_bits_wf(block, k + 1, run + 1, act);
            }
        } else {
            if run > 15 {
                assert(sym_ok(act, 0xF0));
                lemma_ac_bits_wf(block, k, run - 16, act);
                lemma_concat_wf(huff_bits(act, 0xF0), ac_bits(block, k, run - 16, act));
            } else {
                lemma_bit_len_le(nat_abs(v), 10);
                crate::coeff::lemma_bit_len_bounds(nat_abs(v));
                assert(sym_ok(act, run * 16 + coeff_size(v)));
                lemma_coeff_bits_wf(v);
                let tail = if k == 63 {
                    BitStr::empty()
                } else {
                    ac_bits(block, k + 1, 0, act)
                };
                if k < 63 {
                    lemma_ac_bits_wf(block, k + 1, 0, act);
                } else {
                    assert(tail.wf());
                }
                lemma_concat_wf(huff_bits(act, run * 16 + coeff_size(v)), coeff_bits(v));
                lemma_concat_wf(
                    huff_bits(act, run * 16 + coeff_size(v)).concat(coeff_bits(v)),
                    tail,
                );
            }
        }
    }
}

/// A coded block's whole bit string is well formed.
pub proof fn lemma_block_bits_wf(block: Seq<i32>, prevdc: int, dct: Seq<(u8, u16)>, act: Seq<(u8, u16)>)
    requires
        block.len() == 64,
        forall|i: int| 0 <= i < 64 ==> -1023 <= #[trigger] block[i] <= 1023,
        -1023 <= prevdc <= 1023,
        dc_table_ok(dct),
        ac_table_ok(act),
    ensures
        block_bits(block, prevdc, dct, act).wf(),
{
    lemma2_to64();
    let diff = block[0] - prevdc;
    lemma_bit_len_le(nat_abs(diff), 11);
    assert(sym_ok(dct, coeff_size(diff) as int));
    lemma_coeff_bits_wf(diff);
    lemma_ac_bits_wf(block, 1, 0, act);
    lemma_concat_wf(huff_bits(dct, coeff_size(diff) as int), coeff_bits(diff));
    lemma_concat_wf(
        huff_bits(dct, coeff_size(diff) as int).concat(coeff_bits(diff)),
        ac_bits(block, 1, 0, act),
    );
}

/// Copies a Huffman lookup table.
fn clone_table(t: &Vec<(u8, u16)>) -> (r: Vec<(u8, u16)>)
    ensures
        r@ == t@,
{
    let mut r: Vec<(u8, u16)> = Vec::new();
    let mut i: usize = 0;
    while i < t.len()
        invariant
            i <= t@.len(),
            r@ == t@.take(i as int),
        decreases t@.len() - i,
    {
        r.push(t[i]);
        proof {
            assert(r@ =~= t@.take(i + 1));
        }
        i = i + 1;
    }
    proof {
        assert(t@.take(t@.len() as int) =~= t@);
    }
    r
}

} // verus!

