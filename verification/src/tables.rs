//! The fixed tables of the JPEG standard: quantization tables K.1 and K.2,
//! the four baseline Huffman tables K.3 through K.6, the zig-zag traversal
//! order, and the marker bytes of the segments the encoder emits.

use vstd::prelude::*;

verus! {

use vstd::arithmetic::power2::lemma2_to64;
use vstd::arithmetic::power2::pow2;
use crate::huffman::count_upto;
use crate::huffman::kraft_upto;
use crate::huffman::kraft;
use crate::huffman::value_listed;

// Marker codes (the byte after 0xFF).
pub const SOF0: u8 = 0xC0;
pub const DHT: u8 = 0xC4;
pub const SOI: u8 = 0xD8;
pub const EOI: u8 = 0xD9;
pub const SOS: u8 = 0xDA;
pub const DQT: u8 = 0xDB;
pub const APP0: u8 = 0xE0;

// Huffman table classes and destinations, and component identifiers.
pub const DCCLASS: u8 = 0;
pub const ACCLASS: u8 = 1;
pub const LUMADESTINATION: u8 = 0;
pub const CHROMADESTINATION: u8 = 1;
pub const LUMAID: u8 = 1;
pub const CHROMABLUEID: u8 = 2;
pub const CHROMAREDID: u8 = 3;

/// Luma quantization table, annex K.1, in natural (row-major) order.
pub const STD_LUMA_QTABLE: [u8; 64] = [
    16, 11, 10, 16, 24, 40, 51, 61,
    12, 12, 14, 19, 26, 58, 60, 55,
    14, 13, 16, 24, 40, 57, 69, 56,
    14, 17, 22, 29, 51, 87, 80, 62,
    18, 22, 37, 56, 68, 109, 103, 77,
    24, 35, 55, 64, 81, 104, 113, 92,
    49, 64, 78, 87, 103, 121, 120, 101,
    72, 92, 95, 98, 112, 100, 103, 99,
];

/// Chroma quantization table, annex K.2, in natural (row-major) order.
pub const STD_CHROMA_QTABLE: [u8; 64] = [
    17, 18, 24, 47, 99, 99, 99, 99,
    18, 21, 26, 66, 99, 99, 99, 99,
    24, 26, 56, 99, 99, 99, 99, 99,
    47, 66, 99, 99, 99, 99, 99, 99,
    99, 99, 99, 99, 99, 99, 99, 99,
    99, 99, 99, 99, 99, 99, 99, 99,
    99, 99, 99, 99, 99, 99, 99, 99,
    99, 99, 99, 99, 99, 99, 99, 99,
];

/// Code length counts of the luma DC table, annex K.3.
pub const STD_LUMA_DC_CODE_LENGTHS: [u8; 16] = [
    0, 1, 5, 1, 1, 1, 1, 1,
    1, 0, 0, 0, 0, 0, 0, 0,
];

/// Symbol values of the luma DC table, annex K.3.
pub const STD_LUMA_DC_VALUES: [u8; 12] = [
    0, 1, 2, 3, 4, 5, 6, 7,
    8, 9, 10, 11,
];

/// Code length counts of the chroma DC table, annex K.4.
pub const STD_CHROMA_DC_CODE_LENGTHS: [u8; 16] = [
    0, 3, 1, 1, 1, 1, 1, 1,
    1, 1, 1, 0, 0, 0, 0, 0,
];

/// Symbol values of the chroma DC table, annex K.4.
pub const STD_CHROMA_DC_VALUES: [u8; 12] = [
    0, 1, 2, 3, 4, 5, 6, 7,
    8, 9, 10, 11,
];

/// Code length counts of the luma AC table, annex K.5.
pub const STD_LUMA_AC_CODE_LENGTHS: [u8; 16] = [
    0, 2, 1, 3, 3, 2, 4, 3,
    5, 5, 4, 4, 0, 0, 1, 125,
];

/// Symbol values of the luma AC table, annex K.5.
pub const STD_LUMA_AC_VALUES: [u8; 162] = [
    1, 2, 3, 0, 4, 17, 5, 18,
    33, 49, 65, 6, 19, 81, 97, 7,
    34, 113, 20, 50, 129, 145, 161, 8,
    35, 66, 177, 193, 21, 82, 209, 240,
    36, 51, 98, 114, 130, 9, 10, 22,
    23, 24, 25, 26, 37, 38, 39, 40,
    41, 42, 52, 53, 54, 55, 56, 57,
    58, 67, 68, 69, 70, 71, 72, 73,
    74, 83, 84, 85, 86, 87, 88, 89,
    90, 99, 100, 101, 102, 103, 104, 105,
    106, 115, 116, 117, 118, 119, 120, 121,
    122, 131, 132, 133, 134, 135, 136, 137,
    138, 146, 147, 148, 149, 150, 151, 152,
    153, 154, 162, 163, 164, 165, 166, 167,
    168, 169, 170, 178, 179, 180, 181, 182,
    183, 184, 185, 186, 194, 195, 196, 197,
    198, 199, 200, 201, 202, 210, 211, 212,
    213, 214, 215, 216, 217, 218, 225, 226,
    227, 228, 229, 230, 231, 232, 233, 234,
    241, 242, 243, 244, 245, 246, 247, 248,
    249, 250,
];

/// Code length counts of the chroma AC table, annex K.6.
pub const STD_CHROMA_AC_CODE_LENGTHS: [u8; 16] = [
    0, 2, 1, 2, 4, 4, 3, 4,
    7, 5, 4, 4, 0, 1, 2, 119,
];

/// Symbol values of the chroma AC table, annex K.6.
pub const STD_CHROMA_AC_VALUES: [u8; 162] = [
    0, 1, 2, 3, 17, 4, 5, 33,
    49, 6, 18, 65, 81, 7, 97, 113,
    19, 34, 50, 129, 8, 20, 66, 145,
    161, 177, 193, 9, 35, 51, 82, 240,
    21, 98, 114, 209, 10, 22, 36, 52,
    225, 37, 241, 23, 24, 25, 26, 38,
    39, 40, 41, 42, 53, 54, 55, 56,
    57, 58, 67, 68, 69, 70, 71, 72,
    73, 74, 83, 84, 85, 86, 87, 88,
    89, 90, 99, 100, 101, 102, 103, 104,
    105, 106, 115, 116, 117, 118, 119, 120,
    121, 122, 130, 131, 132, 133, 134, 135,
    136, 137, 138, 146, 147, 148, 149, 150,
    151, 152, 153, 154, 162, 163, 164, 165,
    166, 167, 168, 169, 170, 178, 179, 180,
    181, 182, 183, 184, 185, 186, 194, 195,
    196, 197, 198, 199, 200, 201, 202, 210,
    211, 212, 213, 214, 215, 216, 217, 218,
    226, 227, 228, 229, 230, 231, 232, 233,
    234, 242, 243, 244, 245, 246, 247, 248,
    249, 250,
];

/// Zig-zag order: entry `k` is the natural (row-major) index of the `k`-th
/// coefficient in zig-zag traversal.
pub const UNZIGZAG: [u8; 64] = [
    0, 1, 8, 16, 9, 2, 3, 10,
    17, 24, 32, 25, 18, 11, 4, 5,
    12, 19, 26, 33, 40, 48, 41, 34,
    27, 20, 13, 6, 7, 14, 21, 28,
    35, 42, 49, 56, 57, 50, 43, 36,
    29, 22, 15, 23, 30, 37, 44, 51,
    58, 59, 52, 45, 38, 31, 39, 46,
    53, 60, 61, 54, 47, 55, 62, 63,
];

/// Every zig-zag entry is a valid index into a 64-coefficient block.
pub proof fn lemma_unzigzag_bounds()
    ensures
        forall|i: int| 0 <= i < 64 ==> #[trigger] UNZIGZAG@[i] < 64,
{
    assert(UNZIGZAG@[0] == 0u8);
    assert(UNZIGZAG@[1] == 1u8);
    assert(UNZIGZAG@[2] == 8u8);
    assert(UNZIGZAG@[3] == 16u8);
    assert(UNZIGZAG@[4] == 9u8);
    assert(UNZIGZAG@[5] == 2u8);
    assert(UNZIGZAG@[6] == 3u8);
    assert(UNZIGZAG@[7] == 10u8);
    assert(UNZIGZAG@[8] == 17u8);
    assert(UNZIGZAG@[9] == 24u8);
    assert(UNZIGZAG@[10] == 32u8);
    assert(UNZIGZAG@[11] == 25u8);
    assert(UNZIGZAG@[12] == 18u8);
    assert(UNZIGZAG@[13] == 11u8);
    assert(UNZIGZAG@[14] == 4u8);
    assert(UNZIGZAG@[15] == 5u8);
    assert(UNZIGZAG@[16] == 12u8);
    assert(UNZIGZAG@[17] == 19u8);
    assert(UNZIGZAG@[18] == 26u8);
    assert(UNZIGZAG@[19] == 33u8);
    assert(UNZIGZAG@[20] == 40u8);
    assert(UNZIGZAG@[21] == 48u8);
    assert(UNZIGZAG@[22] == 41u8);
    assert(UNZIGZAG@[23] == 34u8);
    assert(UNZIGZAG@[24] == 27u8);
    assert(UNZIGZAG@[25] == 20u8);
    assert(UNZIGZAG@[26] == 13u8);
    assert(UNZIGZAG@[27] == 6u8);
    assert(UNZIGZAG@[28] == 7u8);
    assert(UNZIGZAG@[29] == 14u8);
    assert(UNZIGZAG@[30] == 21u8);
    assert(UNZIGZAG@[31] == 28u8);
    assert(UNZIGZAG@[32] == 35u8);
    assert(UNZIGZAG@[33] == 42u8);
    assert(UNZIGZAG@[34] == 49u8);
    assert(UNZIGZAG@[35] == 56u8);
    assert(UNZIGZAG@[36] == 57u8);
    assert(UNZIGZAG@[37] == 50u8);
    assert(UNZIGZAG@[38] == 43u8);
    assert(UNZIGZAG@[39] == 36u8);
    assert(UNZIGZAG@[40] == 29u8);
    assert(UNZIGZAG@[41] == 22u8);
    assert(UNZIGZAG@[42] == 15u8);
    assert(UNZIGZAG@[43] == 23u8);
    assert(UNZIGZAG@[44] == 30u8);
    assert(UNZIGZAG@[45] == 37u8);
    assert(UNZIGZAG@[46] == 44u8);
    assert(UNZIGZAG@[47] == 51u8);
    assert(UNZIGZAG@[48] == 58u8);
    assert(UNZIGZAG@[49] == 59u8);
    assert(UNZIGZAG@[50] == 52u8);
    assert(UNZIGZAG@[51] == 45u8);
    assert(UNZIGZAG@[52] == 38u8);
    assert(UNZIGZAG@[53] == 31u8);
    assert(UNZIGZAG@[54] == 39u8);
    assert(UNZIGZAG@[55] == 46u8);
    assert(UNZIGZAG@[56] == 53u8);
    assert(UNZIGZAG@[57] == 60u8);
    assert(UNZIGZAG@[58] == 61u8);
    assert(UNZIGZAG@[59] == 54u8);
    assert(UNZIGZAG@[60] == 47u8);
    assert(UNZIGZAG@[61] == 55u8);
    assert(UNZIGZAG@[62] == 62u8);
    assert(UNZIGZAG@[63] == 63u8);
}

/// Concrete evaluation of the length counts of this table: 12 codes in
/// all, with a scaled Kraft sum of 65408.
#[verifier::rlimit(60)]
pub proof fn lemma_std_luma_dc_wf()
    ensures
        count_upto(STD_LUMA_DC_CODE_LENGTHS@, 16) == 12,
        kraft(STD_LUMA_DC_CODE_LENGTHS@) == 65408,
{
    lemma2_to64();
    assert(STD_LUMA_DC_CODE_LENGTHS@[0] == 0u8);
    assert(STD_LUMA_DC_CODE_LENGTHS@[1] == 1u8);
    assert(STD_LUMA_DC_CODE_LENGTHS@[2] == 5u8);
    assert(STD_LUMA_DC_CODE_LENGTHS@[3] == 1u8);
    assert(STD_LUMA_DC_CODE_LENGTHS@[4] == 1u8);
    assert(STD_LUMA_DC_CODE_LENGTHS@[5] == 1u8);
    assert(STD_LUMA_DC_CODE_LENGTHS@[6] == 1u8);
    assert(STD_LUMA_DC_CODE_LENGTHS@[7] == 1u8);
    assert(STD_LUMA_DC_CODE_LENGTHS@[8] == 1u8);
    assert(STD_LUMA_DC_CODE_LENGTHS@[9] == 0u8);
    assert(STD_LUMA_DC_CODE_LENGTHS@[10] == 0u8);
    assert(STD_LUMA_DC_CODE_LENGTHS@[11] == 0u8);
    assert(STD_LUMA_DC_CODE_LENGTHS@[12] == 0u8);
    assert(STD_LUMA_DC_CODE_LENGTHS@[13] == 0u8);
    assert(STD_LUMA_DC_CODE_LENGTHS@[14] == 0u8);
    assert(STD_LUMA_DC_CODE_LENGTHS@[15] == 0u8);
    assert(count_upto(STD_LUMA_DC_CODE_LENGTHS@, 0) == 0);
    assert(kraft_upto(STD_LUMA_DC_CODE_LENGTHS@, 0) == 0);
    assert(count_upto(STD_LUMA_DC_CODE_LENGTHS@, 1) == 0);
    assert(kraft_upto(STD_LUMA_DC_CODE_LENGTHS@, 1) == kraft_upto(STD_LUMA_DC_CODE_LENGTHS@, 0) + STD_LUMA_DC_CODE_LENGTHS@[0] * pow2(15));
    assert(kraft_upto(STD_LUMA_DC_CODE_LENGTHS@, 1) == 0);
    assert(count_upto(STD_LUMA_DC_CODE_LENGTHS@, 2) == 1);
    assert(kraft_upto(STD_LUMA_DC_CODE_LENGTHS@, 2) == kraft_upto(STD_LUMA_DC_CODE_LENGTHS@, 1) + STD_LUMA_DC_CODE_LENGTHS@[1] * pow2(14));
    assert(kraft_upto(STD_LUMA_DC_CODE_LENGTHS@, 2) == 16384);
    assert(count_upto(STD_LUMA_DC_CODE_LENGTHS@, 3) == 6);
    assert(kraft_upto(STD_LUMA_DC_CODE_LENGTHS@, 3) == kraft_upto(STD_LUMA_DC_CODE_LENGTHS@, 2) + STD_LUMA_DC_CODE_LENGTHS@[2] * pow2(13));
    assert(kraft_upto(STD_LUMA_DC_CODE_LENGTHS@, 3) == 57344);
    assert(count_upto(STD_LUMA_DC_CODE_LENGTHS@, 4) == 7);
    assert(kraft_upto(STD_LUMA_DC_CODE_LENGTHS@, 4) == kraft_upto(STD_LUMA_DC_CODE_LENGTHS@, 3) + STD_LUMA_DC_CODE_LENGTHS@[3] * pow2(12));
    assert(kraft_upto(STD_LUMA_DC_CODE_LENGTHS@, 4) == 61440);
    assert(count_upto(STD_LUMA_DC_CODE_LENGTHS@, 5) == 8);
    assert(kraft_upto(STD_LUMA_DC_CODE_LENGTHS@, 5) == kraft_upto(STD_LUMA_DC_CODE_LENGTHS@, 4) + STD_LUMA_DC_CODE_LENGTHS@[4] * pow2(11));
    assert(kraft_upto(STD_LUMA_DC_CODE_LENGTHS@, 5) == 63488);
    assert(count_upto(STD_LUMA_DC_CODE_LENGTHS@, 6) == 9);
    assert(kraft_upto(STD_LUMA_DC_CODE_LENGTHS@, 6) == kraft_upto(STD_LUMA_DC_CODE_LENGTHS@, 5) + STD_LUMA_DC_CODE_LENGTHS@[5] * pow2(10));
    assert(kraft_upto(STD_LUMA_DC_CODE_LENGTHS@, 6) == 64512);
    assert(count_upto(STD_LUMA_DC_CODE_LENGTHS@, 7) == 10);
    assert(kraft_upto(STD_LUMA_DC_CODE_LENGTHS@, 7) == kraft_upto(STD_LUMA_DC_CODE_LENGTHS@, 6) + STD_LUMA_DC_CODE_LENGTHS@[6] * pow2(9));
    assert(kraft_upto(STD_LUMA_DC_CODE_LENGTHS@, 7) == 65024);
    assert(count_upto(STD_LUMA_DC_CODE_LENGTHS@, 8) == 11);
    assert(kraft_upto(STD_LUMA_DC_CODE_LENGTHS@, 8) == kraft_upto(STD_LUMA_DC_CODE_LENGTHS@, 7) + STD_LUMA_DC_CODE_LENGTHS@[7] * pow2(8));
    assert(kraft_upto(STD_LUMA_DC_CODE_LENGTHS@, 8) == 65280);
    assert(count_upto(STD_LUMA_DC_CODE_LENGTHS@, 9) == 12);
    assert(kraft_upto(STD_LUMA_DC_CODE_LENGTHS@, 9) == kraft_upto(STD_LUMA_DC_CODE_LENGTHS@, 8) + STD_LUMA_DC_CODE_LENGTHS@[8] * pow2(7));
    assert(kraft_upto(STD_LUMA_DC_CODE_LENGTHS@, 9) == 65408);
    assert(count_upto(STD_LUMA_DC_CODE_LENGTHS@, 10) == 12);
    assert(kraft_upto(STD_LUMA_DC_CODE_LENGTHS@, 10) == kraft_upto(STD_LUMA_DC_CODE_LENGTHS@, 9) + STD_LUMA_DC_CODE_LENGTHS@[9] * pow2(6));
    assert(kraft_upto(STD_LUMA_DC_CODE_LENGTHS@, 10) == 65408);
    assert(count_upto(STD_LUMA_DC_CODE_LENGTHS@, 11) == 12);
    assert(kraft_upto(STD_LUMA_DC_CODE_LENGTHS@, 11) == kraft_upto(STD_LUMA_DC_CODE_LENGTHS@, 10) + STD_LUMA_DC_CODE_LENGTHS@[10] * pow2(5));
    assert(kraft_upto(STD_LUMA_DC_CODE_LENGTHS@, 11) == 65408);
    assert(count_upto(STD_LUMA_DC_CODE_LENGTHS@, 12) == 12);
    assert(kraft_upto(STD_LUMA_DC_CODE_LENGTHS@, 12) == kraft_upto(STD_LUMA_DC_CODE_LENGTHS@, 11) + STD_LUMA_DC_CODE_LENGTHS@[11] * pow2(4));
    assert(kraft_upto(STD_LUMA_DC_CODE_LENGTHS@, 12) == 65408);
    assert(count_upto(STD_LUMA_DC_CODE_LENGTHS@, 13) == 12);
    assert(kraft_upto(STD_LUMA_DC_CODE_LENGTHS@, 13) == kraft_upto(STD_LUMA_DC_CODE_LENGTHS@, 12) + STD_LUMA_DC_CODE_LENGTHS@[12] * pow2(3));
    assert(kraft_upto(STD_LUMA_DC_CODE_LENGTHS@, 13) == 65408);
    assert(count_upto(STD_LUMA_DC_CODE_LENGTHS@, 14) == 12);
    assert(kraft_upto(STD_LUMA_DC_CODE_LENGTHS@, 14) == kraft_upto(STD_LUMA_DC_CODE_LENGTHS@, 13) + STD_LUMA_DC_CODE_LENGTHS@[13] * pow2(2));
    assert(kraft_upto(STD_LUMA_DC_CODE_LENGTHS@, 14) == 65408);
    assert(count_upto(STD_LUMA_DC_CODE_LENGTHS@, 15) == 12);
    assert(kraft_upto(STD_LUMA_DC_CODE_LENGTHS@, 15) == kraft_upto(STD_LUMA_DC_CODE_LENGTHS@, 14) + STD_LUMA_DC_CODE_LENGTHS@[14] * pow2(1));
    assert(kraft_upto(STD_LUMA_DC_CODE_LENGTHS@, 15) == 65408);
    assert(count_upto(STD_LUMA_DC_CODE_LENGTHS@, 16) == 12);
    assert(kraft_upto(STD_LUMA_DC_CODE_LENGTHS@, 16) == kraft_upto(STD_LUMA_DC_CODE_LENGTHS@, 15) + STD_LUMA_DC_CODE_LENGTHS@[15] * pow2(0));
    assert(kraft_upto(STD_LUMA_DC_CODE_LENGTHS@, 16) == 65408);
}

/// Concrete evaluation of the length counts of this table: 12 codes in
/// all, with a scaled Kraft sum of 65504.
#[verifier::rlimit(60)]
pub proof fn lemma_std_chroma_dc_wf()
    ensures
        count_upto(STD_CHROMA_DC_CODE_LENGTHS@, 16) == 12,
        kraft(STD_CHROMA_DC_CODE_LENGTHS@) == 65504,
{
    lemma2_to64();
    assert(STD_CHROMA_DC_CODE_LENGTHS@[0] == 0u8);
    assert(STD_CHROMA_DC_CODE_LENGTHS@[1] == 3u8);
    assert(STD_CHROMA_DC_CODE_LENGTHS@[2] == 1u8);
    assert(STD_CHROMA_DC_CODE_LENGTHS@[3] == 1u8);
    assert(STD_CHROMA_DC_CODE_LENGTHS@[4] == 1u8);
    assert(STD_CHROMA_DC_CODE_LENGTHS@[5] == 1u8);
    assert(STD_CHROMA_DC_CODE_LENGTHS@[6] == 1u8);
    assert(STD_CHROMA_DC_CODE_LENGTHS@[7] == 1u8);
    assert(STD_CHROMA_DC_CODE_LENGTHS@[8] == 1u8);
    assert(STD_CHROMA_DC_CODE_LENGTHS@[9] == 1u8);
    assert(STD_CHROMA_DC_CODE_LENGTHS@[10] == 1u8);
    assert(STD_CHROMA_DC_CODE_LENGTHS@[11] == 0u8);
    assert(STD_CHROMA_DC_CODE_LENGTHS@[12] == 0u8);
    assert(STD_CHROMA_DC_CODE_LENGTHS@[13] == 0u8);
    assert(STD_CHROMA_DC_CODE_LENGTHS@[14] == 0u8);
    assert(STD_CHROMA_DC_CODE_LENGTHS@[15] == 0u8);
    assert(count_upto(STD_CHROMA_DC_CODE_LENGTHS@, 0) == 0);
    assert(kraft_upto(STD_CHROMA_DC_CODE_LENGTHS@, 0) == 0);
    assert(count_upto(STD_CHROMA_DC_CODE_LENGTHS@, 1) == 0);
    assert(kraft_upto(STD_CHROMA_DC_CODE_LENGTHS@, 1) == kraft_upto(STD_CHROMA_DC_CODE_LENGTHS@, 0) + STD_CHROMA_DC_CODE_LENGTHS@[0] * pow2(15));
    assert(kraft_upto(STD_CHROMA_DC_CODE_LENGTHS@, 1) == 0);
    assert(count_upto(STD_CHROMA_DC_CODE_LENGTHS@, 2) == 3);
    assert(kraft_upto(STD_CHROMA_DC_CODE_LENGTHS@, 2) == kraft_upto(STD_CHROMA_DC_CODE_LENGTHS@, 1) + STD_CHROMA_DC_CODE_LENGTHS@[1] * pow2(14));
    assert(kraft_upto(STD_CHROMA_DC_CODE_LENGTHS@, 2) == 49152);
    assert(count_upto(STD_CHROMA_DC_CODE_LENGTHS@, 3) == 4);
    assert(kraft_upto(STD_CHROMA_DC_CODE_LENGTHS@, 3) == kraft_upto(STD_CHROMA_DC_CODE_LENGTHS@, 2) + STD_CHROMA_DC_CODE_LENGTHS@[2] * pow2(13));
    assert(kraft_upto(STD_CHROMA_DC_CODE_LENGTHS@, 3) == 57344);
    assert(count_upto(STD_CHROMA_DC_CODE_LENGTHS@, 4) == 5);
    assert(kraft_upto(STD_CHROMA_DC_CODE_LENGTHS@, 4) == kraft_upto(STD_CHROMA_DC_CODE_LENGTHS@, 3) + STD_CHROMA_DC_CODE_LENGTHS@[3] * pow2(12));
    assert(kraft_upto(STD_CHROMA_DC_CODE_LENGTHS@, 4) == 61440);
    assert(count_upto(STD_CHROMA_DC_CODE_LENGTHS@, 5) == 6);
    assert(kraft_upto(STD_CHROMA_DC_CODE_LENGTHS@, 5) == kraft_upto(STD_CHROMA_DC_CODE_LENGTHS@, 4) + STD_CHROMA_DC_CODE_LENGTHS@[4] * pow2(11));
    assert(kraft_upto(STD_CHROMA_DC_CODE_LENGTHS@, 5) == 63488);
    assert(count_upto(STD_CHROMA_DC_CODE_LENGTHS@, 6) == 7);
    assert(kraft_upto(STD_CHROMA_DC_CODE_LENGTHS@, 6) == kraft_upto(STD_CHROMA_DC_CODE_LENGTHS@, 5) + STD_CHROMA_DC_CODE_LENGTHS@[5] * pow2(10));
    assert(kraft_upto(STD_CHROMA_DC_CODE_LENGTHS@, 6) == 64512);
    assert(count_upto(STD_CHROMA_DC_CODE_LENGTHS@, 7) == 8);
    assert(kraft_upto(STD_CHROMA_DC_CODE_LENGTHS@, 7) == kraft_upto(STD_CHROMA_DC_CODE_LENGTHS@, 6) + STD_CHROMA_DC_CODE_LENGTHS@[6] * pow2(9));
    assert(kraft_upto(STD_CHROMA_DC_CODE_LENGTHS@, 7) == 65024);
    assert(count_upto(STD_CHROMA_DC_CODE_LENGTHS@, 8) == 9);
    assert(kraft_upto(STD_CHROMA_DC_CODE_LENGTHS@, 8) == kraft_upto(STD_CHROMA_DC_CODE_LENGTHS@, 7) + STD_CHROMA_DC_CODE_LENGTHS@[7] * pow2(8));
    assert(kraft_upto(STD_CHROMA_DC_CODE_LENGTHS@, 8) == 65280);
    assert(count_upto(STD_CHROMA_DC_CODE_LENGTHS@, 9) == 10);
    assert(kraft_upto(STD_CHROMA_DC_CODE_LENGTHS@, 9) == kraft_upto(STD_CHROMA_DC_CODE_LENGTHS@, 8) + STD_CHROMA_DC_CODE_LENGTHS@[8] * pow2(7));
    assert(kraft_upto(STD_CHROMA_DC_CODE_LENGTHS@, 9) == 65408);
    assert(count_upto(STD_CHROMA_DC_CODE_LENGTHS@, 10) == 11);
    assert(kraft_upto(STD_CHROMA_DC_CODE_LENGTHS@, 10) == kraft_upto(STD_CHROMA_DC_CODE_LENGTHS@, 9) + STD_CHROMA_DC_CODE_LENGTHS@[9] * pow2(6));
    assert(kraft_upto(STD_CHROMA_DC_CODE_LENGTHS@, 10) == 65472);
    assert(count_upto(STD_CHROMA_DC_CODE_LENGTHS@, 11) == 12);
    assert(kraft_upto(STD_CHROMA_DC_CODE_LENGTHS@, 11) == kraft_upto(STD_CHROMA_DC_CODE_LENGTHS@, 10) + STD_CHROMA_DC_CODE_LENGTHS@[10] * pow2(5));
    assert(kraft_upto(STD_CHROMA_DC_CODE_LENGTHS@, 11) == 65504);
    assert(count_upto(STD_CHROMA_DC_CODE_LENGTHS@, 12) == 12);
    assert(kraft_upto(STD_CHROMA_DC_CODE_LENGTHS@, 12) == kraft_upto(STD_CHROMA_DC_CODE_LENGTHS@, 11) + STD_CHROMA_DC_CODE_LENGTHS@[11] * pow2(4));
    assert(kraft_upto(STD_CHROMA_DC_CODE_LENGTHS@, 12) == 65504);
    assert(count_upto(STD_CHROMA_DC_CODE_LENGTHS@, 13) == 12);
    assert(kraft_upto(STD_CHROMA_DC_CODE_LENGTHS@, 13) == kraft_upto(STD_CHROMA_DC_CODE_LENGTHS@, 12) + STD_CHROMA_DC_CODE_LENGTHS@[12] * pow2(3));
    assert(kraft_upto(STD_CHROMA_DC_CODE_LENGTHS@, 13) == 65504);
    assert(count_upto(STD_CHROMA_DC_CODE_LENGTHS@, 14) == 12);
    assert(kraft_upto(STD_CHROMA_DC_CODE_LENGTHS@, 14) == kraft_upto(STD_CHROMA_DC_CODE_LENGTHS@, 13) + STD_CHROMA_DC_CODE_LENGTHS@[13] * pow2(2));
    assert(kraft_upto(STD_CHROMA_DC_CODE_LENGTHS@, 14) == 65504);
    assert(count_upto(STD_CHROMA_DC_CODE_LENGTHS@, 15) == 12);
    assert(kraft_upto(STD_CHROMA_DC_CODE_LENGTHS@, 15) == kraft_upto(STD_CHROMA_DC_CODE_LENGTHS@, 14) + STD_CHROMA_DC_CODE_LENGTHS@[14] * pow2(1));
    assert(kraft_upto(STD_CHROMA_DC_CODE_LENGTHS@, 15) == 65504);
    assert(count_upto(STD_CHROMA_DC_CODE_LENGTHS@, 16) == 12);
    assert(kraft_upto(STD_CHROMA_DC_CODE_LENGTHS@, 16) == kraft_upto(STD_CHROMA_DC_CODE_LENGTHS@, 15) + STD_CHROMA_DC_CODE_LENGTHS@[15] * pow2(0));
    assert(kraft_upto(STD_CHROMA_DC_CODE_LENGTHS@, 16) == 65504);
}

/// Concrete evaluation of the length counts of this table: 162 codes in
/// all, with a scaled Kraft sum of 65535.
#[verifier::rlimit(60)]
pub proof fn lemma_std_luma_ac_wf()
    ensures
        count_upto(STD_LUMA_AC_CODE_LENGTHS@, 16) == 162,
        kraft(STD_LUMA_AC_CODE_LENGTHS@) == 65535,
{
    lemma2_to64();
    assert(STD_LUMA_AC_CODE_LENGTHS@[0] == 0u8);
    assert(STD_LUMA_AC_CODE_LENGTHS@[1] == 2u8);
    assert(STD_LUMA_AC_CODE_LENGTHS@[2] == 1u8);
    assert(STD_LUMA_AC_CODE_LENGTHS@[3] == 3u8);
    assert(STD_LUMA_AC_CODE_LENGTHS@[4] == 3u8);
    assert(STD_LUMA_AC_CODE_LENGTHS@[5] == 2u8);
    assert(STD_LUMA_AC_CODE_LENGTHS@[6] == 4u8);
    assert(STD_LUMA_AC_CODE_LENGTHS@[7] == 3u8);
    assert(STD_LUMA_AC_CODE_LENGTHS@[8] == 5u8);
    assert(STD_LUMA_AC_CODE_LENGTHS@[9] == 5u8);
    assert(STD_LUMA_AC_CODE_LENGTHS@[10] == 4u8);
    assert(STD_LUMA_AC_CODE_LENGTHS@[11] == 4u8);
    assert(STD_LUMA_AC_CODE_LENGTHS@[12] == 0u8);
    assert(STD_LUMA_AC_CODE_LENGTHS@[13] == 0u8);
    assert(STD_LUMA_AC_CODE_LENGTHS@[14] == 1u8);
    assert(STD_LUMA_AC_CODE_LENGTHS@[15] == 125u8);
    assert(count_upto(STD_LUMA_AC_CODE_LENGTHS@, 0) == 0);
    assert(kraft_upto(STD_LUMA_AC_CODE_LENGTHS@, 0) == 0);
    assert(count_upto(STD_LUMA_AC_CODE_LENGTHS@, 1) == 0);
    assert(kraft_upto(STD_LUMA_AC_CODE_LENGTHS@, 1) == kraft_upto(STD_LUMA_AC_CODE_LENGTHS@, 0) + STD_LUMA_AC_CODE_LENGTHS@[0] * pow2(15));
    assert(kraft_upto(STD_LUMA_AC_CODE_LENGTHS@, 1) == 0);
    assert(count_upto(STD_LUMA_AC_CODE_LENGTHS@, 2) == 2);
    assert(kraft_upto(STD_LUMA_AC_CODE_LENGTHS@, 2) == kraft_upto(STD_LUMA_AC_CODE_LENGTHS@, 1) + STD_LUMA_AC_CODE_LENGTHS@[1] * pow2(14));
    assert(kraft_upto(STD_LUMA_AC_CODE_LENGTHS@, 2) == 32768);
    assert(count_upto(STD_LUMA_AC_CODE_LENGTHS@, 3) == 3);
    assert(kraft_upto(STD_LUMA_AC_CODE_LENGTHS@, 3) == kraft_upto(STD_LUMA_AC_CODE_LENGTHS@, 2) + STD_LUMA_AC_CODE_LENGTHS@[2] * pow2(13));
    assert(kraft_upto(STD_LUMA_AC_CODE_LENGTHS@, 3) == 40960);
    assert(count_upto(STD_LUMA_AC_CODE_LENGTHS@, 4) == 6);
    assert(kraft_upto(STD_LUMA_AC_CODE_LENGTHS@, 4) == kraft_upto(STD_LUMA_AC_CODE_LENGTHS@, 3) + STD_LUMA_AC_CODE_LENGTHS@[3] * pow2(12));
    assert(kraft_upto(STD_LUMA_AC_CODE_LENGTHS@, 4) == 53248);
    assert(count_upto(STD_LUMA_AC_CODE_LENGTHS@, 5) == 9);
    assert(kraft_upto(STD_LUMA_AC_CODE_LENGTHS@, 5) == kraft_upto(STD_LUMA_AC_CODE_LENGTHS@, 4) + STD_LUMA_AC_CODE_LENGTHS@[4] * pow2(11));
    assert(kraft_upto(STD_LUMA_AC_CODE_LENGTHS@, 5) == 59392);
    assert(count_upto(STD_LUMA_AC_CODE_LENGTHS@, 6) == 11);
    assert(kraft_upto(STD_LUMA_AC_CODE_LENGTHS@, 6) == kraft_upto(STD_LUMA_AC_CODE_LENGTHS@, 5) + STD_LUMA_AC_CODE_LENGTHS@[5] * pow2(10));
    assert(kraft_upto(STD_LUMA_AC_CODE_LENGTHS@, 6) == 61440);
    assert(count_upto(STD_LUMA_AC_CODE_LENGTHS@, 7) == 15);
    assert(kraft_upto(STD_LUMA_AC_CODE_LENGTHS@, 7) == kraft_upto(STD_LUMA_AC_CODE_LENGTHS@, 6) + STD_LUMA_AC_CODE_LENGTHS@[6] * pow2(9));
    assert(kraft_upto(STD_LUMA_AC_CODE_LENGTHS@, 7) == 63488);
    assert(count_upto(STD_LUMA_AC_CODE_LENGTHS@, 8) == 18);
    assert(kraft_upto(STD_LUMA_AC_CODE_LENGTHS@, 8) == kraft_upto(STD_LUMA_AC_CODE_LENGTHS@, 7) + STD_LUMA_AC_CODE_LENGTHS@[7] * pow2(8));
    assert(kraft_upto(STD_LUMA_AC_CODE_LENGTHS@, 8) == 64256);
    assert(count_upto(STD_LUMA_AC_CODE_LENGTHS@, 9) == 23);
    assert(kraft_upto(STD_LUMA_AC_CODE_LENGTHS@, 9) == kraft_upto(STD_LUMA_AC_CODE_LENGTHS@, 8) + STD_LUMA_AC_CODE_LENGTHS@[8] * pow2(7));
    assert(kraft_upto(STD_LUMA_AC_CODE_LENGTHS@, 9) == 64896);
    assert(count_upto(STD_LUMA_AC_CODE_LENGTHS@, 10) == 28);
    assert(kraft_upto(STD_LUMA_AC_CODE_LENGTHS@, 10) == kraft_upto(STD_LUMA_AC_CODE_LENGTHS@, 9) + STD_LUMA_AC_CODE_LENGTHS@[9] * pow2(6));
    assert(kraft_upto(STD_LUMA_AC_CODE_LENGTHS@, 10) == 65216);
    assert(count_upto(STD_LUMA_AC_CODE_LENGTHS@, 11) == 32);
    assert(kraft_upto(STD_LUMA_AC_CODE_LENGTHS@, 11) == kraft_upto(STD_LUMA_AC_CODE_LENGTHS@, 10) + STD_LUMA_AC_CODE_LENGTHS@[10] * pow2(5));
    assert(kraft_upto(STD_LUMA_AC_CODE_LENGTHS@, 11) == 65344);
    assert(count_upto(STD_LUMA_AC_CODE_LENGTHS@, 12) == 36);
    assert(kraft_upto(STD_LUMA_AC_CODE_LENGTHS@, 12) == kraft_upto(STD_LUMA_AC_CODE_LENGTHS@, 11) + STD_LUMA_AC_CODE_LENGTHS@[11] * pow2(4));
    assert(kraft_upto(STD_LUMA_AC_CODE_LENGTHS@, 12) == 65408);
    assert(count_upto(STD_LUMA_AC_CODE_LENGTHS@, 13) == 36);
    assert(kraft_upto(STD_LUMA_AC_CODE_LENGTHS@, 13) == kraft_upto(STD_LUMA_AC_CODE_LENGTHS@, 12) + STD_LUMA_AC_CODE_LENGTHS@[12] * pow2(3));
    assert(kraft_upto(STD_LUMA_AC_CODE_LENGTHS@, 13) == 65408);
    assert(count_upto(STD_LUMA_AC_CODE_LENGTHS@, 14) == 36);
    assert(kraft_upto(STD_LUMA_AC_CODE_LENGTHS@, 14) == kraft_upto(STD_LUMA_AC_CODE_LENGTHS@, 13) + STD_LUMA_AC_CODE_LENGTHS@[13] * pow2(2));
    assert(kraft_upto(STD_LUMA_AC_CODE_LENGTHS@, 14) == 65408);
    assert(count_upto(STD_LUMA_AC_CODE_LENGTHS@, 15) == 37);
    assert(kraft_upto(STD_LUMA_AC_CODE_LENGTHS@, 15) == kraft_upto(STD_LUMA_AC_CODE_LENGTHS@, 14) + STD_LUMA_AC_CODE_LENGTHS@[14] * pow2(1));
    assert(kraft_upto(STD_LUMA_AC_CODE_LENGTHS@, 15) == 65410);
    assert(count_upto(STD_LUMA_AC_CODE_LENGTHS@, 16) == 162);
    assert(kraft_upto(STD_LUMA_AC_CODE_LENGTHS@, 16) == kraft_upto(STD_LUMA_AC_CODE_LENGTHS@, 15) + STD_LUMA_AC_CODE_LENGTHS@[15] * pow2(0));
    assert(kraft_upto(STD_LUMA_AC_CODE_LENGTHS@, 16) == 65535);
}

/// Concrete evaluation of the length counts of this table: 162 codes in
/// all, with a scaled Kraft sum of 65535.
#[verifier::rlimit(60)]
pub proof fn lemma_std_chroma_ac_wf()
    ensures
        count_upto(STD_CHROMA_AC_CODE_LENGTHS@, 16) == 162,
        kraft(STD_CHROMA_AC_CODE_LENGTHS@) == 65535,
{
    lemma2_to64();
    assert(STD_CHROMA_AC_CODE_LENGTHS@[0] == 0u8);
    assert(STD_CHROMA_AC_CODE_LENGTHS@[1] == 2u8);
    assert(STD_CHROMA_AC_CODE_LENGTHS@[2] == 1u8);
    assert(STD_CHROMA_AC_CODE_LENGTHS@[3] == 2u8);
    assert(STD_CHROMA_AC_CODE_LENGTHS@[4] == 4u8);
    assert(STD_CHROMA_AC_CODE_LENGTHS@[5] == 4u8);
    assert(STD_CHROMA_AC_CODE_LENGTHS@[6] == 3u8);
    assert(STD_CHROMA_AC_CODE_LENGTHS@[7] == 4u8);
    assert(STD_CHROMA_AC_CODE_LENGTHS@[8] == 7u8);
    assert(STD_CHROMA_AC_CODE_LENGTHS@[9] == 5u8);
    assert(STD_CHROMA_AC_CODE_LENGTHS@[10] == 4u8);
    assert(STD_CHROMA_AC_CODE_LENGTHS@[11] == 4u8);
    assert(STD_CHROMA_AC_CODE_LENGTHS@[12] == 0u8);
    assert(STD_CHROMA_AC_CODE_LENGTHS@[13] == 1u8);
    assert(STD_CHROMA_AC_CODE_LENGTHS@[14] == 2u8);
    assert(STD_CHROMA_AC_CODE_LENGTHS@[15] == 119u8);
    assert(count_upto(STD_CHROMA_AC_CODE_LENGTHS@, 0) == 0);
    assert(kraft_upto(STD_CHROMA_AC_CODE_LENGTHS@, 0) == 0);
    assert(count_upto(STD_CHROMA_AC_CODE_LENGTHS@, 1) == 0);
    assert(kraft_upto(STD_CHROMA_AC_CODE_LENGTHS@, 1) == kraft_upto(STD_CHROMA_AC_CODE_LENGTHS@, 0) + STD_CHROMA_AC_CODE_LENGTHS@[0] * pow2(15));
    assert(kraft_upto(STD_CHROMA_AC_CODE_LENGTHS@, 1) == 0);
    assert(count_upto(STD_CHROMA_AC_CODE_LENGTHS@, 2) == 2);
    assert(kraft_upto(STD_CHROMA_AC_CODE_LENGTHS@, 2) == kraft_upto(STD_CHROMA_AC_CODE_LENGTHS@, 1) + STD_CHROMA_AC_CODE_LENGTHS@[1] * pow2(14));
    assert(kraft_upto(STD_CHROMA_AC_CODE_LENGTHS@, 2) == 32768);
    assert(count_upto(STD_CHROMA_AC_CODE_LENGTHS@, 3) == 3);
    assert(kraft_upto(STD_CHROMA_AC_CODE_LENGTHS@, 3) == kraft_upto(STD_CHROMA_AC_CODE_LENGTHS@, 2) + STD_CHROMA_AC_CODE_LENGTHS@[2] * pow2(13));
    assert(kraft_upto(STD_CHROMA_AC_CODE_LENGTHS@, 3) == 40960);
    assert(count_upto(STD_CHROMA_AC_CODE_LENGTHS@, 4) == 5);
    assert(kraft_upto(STD_CHROMA_AC_CODE_LENGTHS@, 4) == kraft_upto(STD_CHROMA_AC_CODE_LENGTHS@, 3) + STD_CHROMA_AC_CODE_LENGTHS@[3] * pow2(12));
    assert(kraft_upto(STD_CHROMA_AC_CODE_LENGTHS@, 4) == 49152);
    assert(count_upto(STD_CHROMA_AC_CODE_LENGTHS@, 5) == 9);
    assert(kraft_upto(STD_CHROMA_AC_CODE_LENGTHS@, 5) == kraft_upto(STD_CHROMA_AC_CODE_LENGTHS@, 4) + STD_CHROMA_AC_CODE_LENGTHS@[4] * pow2(11));
    assert(kraft_upto(STD_CHROMA_AC_CODE_LENGTHS@, 5) == 57344);
    assert(count_upto(STD_CHROMA_AC_CODE_LENGTHS@, 6) == 13);
    assert(kraft_upto(STD_CHROMA_AC_CODE_LENGTHS@, 6) == kraft_upto(STD_CHROMA_AC_CODE_LENGTHS@, 5) + STD_CHROMA_AC_CODE_LENGTHS@[5] * pow2(10));
    assert(kraft_upto(STD_CHROMA_AC_CODE_LENGTHS@, 6) == 61440);
    assert(count_upto(STD_CHROMA_AC_CODE_LENGTHS@, 7) == 16);
    assert(kraft_upto(STD_CHROMA_AC_CODE_LENGTHS@, 7) == kraft_upto(STD_CHROMA_AC_CODE_LENGTHS@, 6) + STD_CHROMA_AC_CODE_LENGTHS@[6] * pow2(9));
    assert(kraft_upto(STD_CHROMA_AC_CODE_LENGTHS@, 7) == 62976);
    assert(count_upto(STD_CHROMA_AC_CODE_LENGTHS@, 8) == 20);
    assert(kraft_upto(STD_CHROMA_AC_CODE_LENGTHS@, 8) == kraft_upto(STD_CHROMA_AC_CODE_LENGTHS@, 7) + STD_CHROMA_AC_CODE_LENGTHS@[7] * pow2(8));
    assert(kraft_upto(STD_CHROMA_AC_CODE_LENGTHS@, 8) == 64000);
    assert(count_upto(STD_CHROMA_AC_CODE_LENGTHS@, 9) == 27);
    assert(kraft_upto(STD_CHROMA_AC_CODE_LENGTHS@, 9) == kraft_upto(STD_CHROMA_AC_CODE_LENGTHS@, 8) + STD_CHROMA_AC_CODE_LENGTHS@[8] * pow2(7));
    assert(kraft_upto(STD_CHROMA_AC_CODE_LENGTHS@, 9) == 64896);
    assert(count_upto(STD_CHROMA_AC_CODE_LENGTHS@, 10) == 32);
    assert(kraft_upto(STD_CHROMA_AC_CODE_LENGTHS@, 10) == kraft_upto(STD_CHROMA_AC_CODE_LENGTHS@, 9) + STD_CHROMA_AC_CODE_LENGTHS@[9] * pow2(6));
    assert(kraft_upto(STD_CHROMA_AC_CODE_LENGTHS@, 10) == 65216);
    assert(count_upto(STD_CHROMA_AC_CODE_LENGTHS@, 11) == 36);
    assert(kraft_upto(STD_CHROMA_AC_CODE_LENGTHS@, 11) == kraft_upto(STD_CHROMA_AC_CODE_LENGTHS@, 10) + STD_CHROMA_AC_CODE_LENGTHS@[10] * pow2(5));
    assert(kraft_upto(STD_CHROMA_AC_CODE_LENGTHS@, 11) == 65344);
    assert(count_upto(STD_CHROMA_AC_CODE_LENGTHS@, 12) == 40);
    assert(kraft_upto(STD_CHROMA_AC_CODE_LENGTHS@, 12) == kraft_upto(STD_CHROMA_AC_CODE_LENGTHS@, 11) + STD_CHROMA_AC_CODE_LENGTHS@[11] * pow2(4));
    assert(kraft_upto(STD_CHROMA_AC_CODE_LENGTHS@, 12) == 65408);
    assert(count_upto(STD_CHROMA_AC_CODE_LENGTHS@, 13) == 40);
    assert(kraft_upto(STD_CHROMA_AC_CODE_LENGTHS@, 13) == kraft_upto(STD_CHROMA_AC_CODE_LENGTHS@, 12) + STD_CHROMA_AC_CODE_LENGTHS@[12] * pow2(3));
    assert(kraft_upto(STD_CHROMA_AC_CODE_LENGTHS@, 13) == 65408);
    assert(count_upto(STD_CHROMA_AC_CODE_LENGTHS@, 14) == 41);
    assert(kraft_upto(STD_CHROMA_AC_CODE_LENGTHS@, 14) == kraft_upto(STD_CHROMA_AC_CODE_LENGTHS@, 13) + STD_CHROMA_AC_CODE_LENGTHS@[13] * pow2(2));
    assert(kraft_upto(STD_CHROMA_AC_CODE_LENGTHS@, 14) == 65412);
    assert(count_upto(STD_CHROMA_AC_CODE_LENGTHS@, 15) == 43);
    assert(kraft_upto(STD_CHROMA_AC_CODE_LENGTHS@, 15) == kraft_upto(STD_CHROMA_AC_CODE_LENGTHS@, 14) + STD_CHROMA_AC_CODE_LENGTHS@[14] * pow2(1));
    assert(kraft_upto(STD_CHROMA_AC_CODE_LENGTHS@, 15) == 65416);
    assert(count_upto(STD_CHROMA_AC_CODE_LENGTHS@, 16) == 162);
    assert(kraft_upto(STD_CHROMA_AC_CODE_LENGTHS@, 16) == kraft_upto(STD_CHROMA_AC_CODE_LENGTHS@, 15) + STD_CHROMA_AC_CODE_LENGTHS@[15] * pow2(0));
    assert(kraft_upto(STD_CHROMA_AC_CODE_LENGTHS@, 16) == 65535);
}

/// The DC value tables list every size category 0 through 11.
pub proof fn lemma_std_dc_values_cover()
    ensures
        forall|s: int| 0 <= s <= 11 ==> #[trigger] value_listed(STD_LUMA_DC_VALUES@, s),
        forall|s: int| 0 <= s <= 11 ==> #[trigger] value_listed(STD_CHROMA_DC_VALUES@, s),
{
    assert(STD_LUMA_DC_VALUES@[0] == 0u8);
    assert(STD_LUMA_DC_VALUES@[1] == 1u8);
    assert(STD_LUMA_DC_VALUES@[2] == 2u8);
    assert(STD_LUMA_DC_VALUES@[3] == 3u8);
    assert(STD_LUMA_DC_VALUES@[4] == 4u8);
    assert(STD_LUMA_DC_VALUES@[5] == 5u8);
    assert(STD_LUMA_DC_VALUES@[6] == 6u8);
    assert(STD_LUMA_DC_VALUES@[7] == 7u8);
    assert(STD_LUMA_DC_VALUES@[8] == 8u8);
    assert(STD_LUMA_DC_VALUES@[9] == 9u8);
    assert(STD_LUMA_DC_VALUES@[10] == 10u8);
    assert(STD_LUMA_DC_VALUES@[11] == 11u8);
    assert(STD_CHROMA_DC_VALUES@[0] == 0u8);
    assert(STD_CHROMA_DC_VALUES@[1] == 1u8);
    assert(STD_CHROMA_DC_VALUES@[2] == 2u8);
    assert(STD_CHROMA_DC_VALUES@[3] == 3u8);
    assert(STD_CHROMA_DC_VALUES@[4] == 4u8);
    assert(STD_CHROMA_DC_VALUES@[5] == 5u8);
    assert(STD_CHROMA_DC_VALUES@[6] == 6u8);
    assert(STD_CHROMA_DC_VALUES@[7] == 7u8);
    assert(STD_CHROMA_DC_VALUES@[8] == 8u8);
    assert(STD_CHROMA_DC_VALUES@[9] == 9u8);
    assert(STD_CHROMA_DC_VALUES@[10] == 10u8);
    assert(STD_CHROMA_DC_VALUES@[11] == 11u8);
    assert forall|s: int| 0 <= s <= 11 implies #[trigger] value_listed(
        STD_LUMA_DC_VALUES@,
        s,
    ) && value_listed(STD_CHROMA_DC_VALUES@, s) by {
    }
}

/// The luma AC value table lists end-of-block, the zero-run symbol, and every
/// run/size pair with run 0..=15 and size 1..=10.
#[verifier::rlimit(100)]
pub proof fn lemma_std_luma_ac_values_cover()
    ensures
        value_listed(STD_LUMA_AC_VALUES@, 0),
        value_listed(STD_LUMA_AC_VALUES@, 0xF0),
        forall|r: int, s: int| 0 <= r < 16 && 1 <= s <= 10 ==> #[trigger] value_listed(
            STD_LUMA_AC_VALUES@,
            r * 16 + s,
        ),
{
    assert(STD_LUMA_AC_VALUES@[0] == 1u8);
    assert(STD_LUMA_AC_VALUES@[1] == 2u8);
    assert(STD_LUMA_AC_VALUES@[2] == 3u8);
    assert(STD_LUMA_AC_VALUES@[3] == 0u8);
    assert(STD_LUMA_AC_VALUES@[4] == 4u8);
    assert(STD_LUMA_AC_VALUES@[5] == 17u8);
    assert(STD_LUMA_AC_VALUES@[6] == 5u8);
    assert(STD_LUMA_AC_VALUES@[7] == 18u8);
    assert(STD_LUMA_AC_VALUES@[8] == 33u8);
    assert(STD_LUMA_AC_VALUES@[9] == 49u8);
    assert(STD_LUMA_AC_VALUES@[10] == 65u8);
    assert(STD_LUMA_AC_VALUES@[11] == 6u8);
    assert(STD_LUMA_AC_VALUES@[12] == 19u8);
    assert(STD_LUMA_AC_VALUES@[13] == 81u8);
    assert(STD_LUMA_AC_VALUES@[14] == 97u8);
    assert(STD_LUMA_AC_VALUES@[15] == 7u8);
    assert(STD_LUMA_AC_VALUES@[16] == 34u8);
    assert(STD_LUMA_AC_VALUES@[17] == 113u8);
    assert(STD_LUMA_AC_VALUES@[18] == 20u8);
    assert(STD_LUMA_AC_VALUES@[19] == 50u8);
    assert(STD_LUMA_AC_VALUES@[20] == 129u8);
    assert(STD_LUMA_AC_VALUES@[21] == 145u8);
    assert(STD_LUMA_AC_VALUES@[22] == 161u8);
    assert(STD_LUMA_AC_VALUES@[23] == 8u8);
    assert(STD_LUMA_AC_VALUES@[24] == 35u8);
    assert(STD_LUMA_AC_VALUES@[25] == 66u8);
    assert(STD_LUMA_AC_VALUES@[26] == 177u8);
    assert(STD_LUMA_AC_VALUES@[27] == 193u8);
    assert(STD_LUMA_AC_VALUES@[28] == 21u8);
    assert(STD_LUMA_AC_VALUES@[29] == 82u8);
    assert(STD_LUMA_AC_VALUES@[30] == 209u8);
    assert(STD_LUMA_AC_VALUES@[31] == 240u8);
    assert(STD_LUMA_AC_VALUES@[32] == 36u8);
    assert(STD_LUMA_AC_VALUES@[33] == 51u8);
    assert(STD_LUMA_AC_VALUES@[34] == 98u8);
    assert(STD_LUMA_AC_VALUES@[35] == 114u8);
    assert(STD_LUMA_AC_VALUES@[36] == 130u8);
    assert(STD_LUMA_AC_VALUES@[37] == 9u8);
    assert(STD_LUMA_AC_VALUES@[38] == 10u8);
    assert(STD_LUMA_AC_VALUES@[39] == 22u8);
    assert(STD_LUMA_AC_VALUES@[40] == 23u8);
    assert(STD_LUMA_AC_VALUES@[41] == 24u8);
    assert(STD_LUMA_AC_VALUES@[42] == 25u8);
    assert(STD_LUMA_AC_VALUES@[43] == 26u8);
    assert(STD_LUMA_AC_VALUES@[44] == 37u8);
    assert(STD_LUMA_AC_VALUES@[45] == 38u8);
    assert(STD_LUMA_AC_VALUES@[46] == 39u8);
    assert(STD_LUMA_AC_VALUES@[47] == 40u8);
    assert(STD_LUMA_AC_VALUES@[48] == 41u8);
    assert(STD_LUMA_AC_VALUES@[49] == 42u8);
    assert(STD_LUMA_AC_VALUES@[50] == 52u8);
    assert(STD_LUMA_AC_VALUES@[51] == 53u8);
    assert(STD_LUMA_AC_VALUES@[52] == 54u8);
    assert(STD_LUMA_AC_VALUES@[53] == 55u8);
    assert(STD_LUMA_AC_VALUES@[54] == 56u8);
    assert(STD_LUMA_AC_VALUES@[55] == 57u8);
    assert(STD_LUMA_AC_VALUES@[56] == 58u8);
    assert(STD_LUMA_AC_VALUES@[57] == 67u8);
    assert(STD_LUMA_AC_VALUES@[58] == 68u8);
    assert(STD_LUMA_AC_VALUES@[59] == 69u8);
    assert(STD_LUMA_AC_VALUES@[60] == 70u8);
    assert(STD_LUMA_AC_VALUES@[61] == 71u8);
    assert(STD_LUMA_AC_VALUES@[62] == 72u8);
    assert(STD_LUMA_AC_VALUES@[63] == 73u8);
    assert(STD_LUMA_AC_VALUES@[64] == 74u8);
    assert(STD_LUMA_AC_VALUES@[65] == 83u8);
    assert(STD_LUMA_AC_VALUES@[66] == 84u8);
    assert(STD_LUMA_AC_VALUES@[67] == 85u8);
    assert(STD_LUMA_AC_VALUES@[68] == 86u8);
    assert(STD_LUMA_AC_VALUES@[69] == 87u8);
    assert(STD_LUMA_AC_VALUES@[70] == 88u8);
    assert(STD_LUMA_AC_VALUES@[71] == 89u8);
    assert(STD_LUMA_AC_VALUES@[72] == 90u8);
    assert(STD_LUMA_AC_VALUES@[73] == 99u8);
    assert(STD_LUMA_AC_VALUES@[74] == 100u8);
    assert(STD_LUMA_AC_VALUES@[75] == 101u8);
    assert(STD_LUMA_AC_VALUES@[76] == 102u8);
    assert(STD_LUMA_AC_VALUES@[77] == 103u8);
    assert(STD_LUMA_AC_VALUES@[78] == 104u8);
    assert(STD_LUMA_AC_VALUES@[79] == 105u8);
    assert(STD_LUMA_AC_VALUES@[80] == 106u8);
    assert(STD_LUMA_AC_VALUES@[81] == 115u8);
    assert(STD_LUMA_AC_VALUES@[82] == 116u8);
    assert(STD_LUMA_AC_VALUES@[83] == 117u8);
    assert(STD_LUMA_AC_VALUES@[84] == 118u8);
    assert(STD_LUMA_AC_VALUES@[85] == 119u8);
    assert(STD_LUMA_AC_VALUES@[86] == 120u8);
    assert(STD_LUMA_AC_VALUES@[87] == 121u8);
    assert(STD_LUMA_AC_VALUES@[88] == 122u8);
    assert(STD_LUMA_AC_VALUES@[89] == 131u8);
    assert(STD_LUMA_AC_VALUES@[90] == 132u8);
    assert(STD_LUMA_AC_VALUES@[91] == 133u8);
    assert(STD_LUMA_AC_VALUES@[92] == 134u8);
    assert(STD_LUMA_AC_VALUES@[93] == 135u8);
    assert(STD_LUMA_AC_VALUES@[94] == 136u8);
    assert(STD_LUMA_AC_VALUES@[95] == 137u8);
    assert(STD_LUMA_AC_VALUES@[96] == 138u8);
    assert(STD_LUMA_AC_VALUES@[97] == 146u8);
    assert(STD_LUMA_AC_VALUES@[98] == 147u8);
    assert(STD_LUMA_AC_VALUES@[99] == 148u8);
    assert(STD_LUMA_AC_VALUES@[100] == 149u8);
    assert(STD_LUMA_AC_VALUES@[101] == 150u8);
    assert(STD_LUMA_AC_VALUES@[102] == 151u8);
    assert(STD_LUMA_AC_VALUES@[103] == 152u8);
    assert(STD_LUMA_AC_VALUES@[104] == 153u8);
    assert(STD_LUMA_AC_VALUES@[105] == 154u8);
    assert(STD_LUMA_AC_VALUES@[106] == 162u8);
    assert(STD_LUMA_AC_VALUES@[107] == 163u8);
    assert(STD_LUMA_AC_VALUES@[108] == 164u8);
    assert(STD_LUMA_AC_VALUES@[109] == 165u8);
    assert(STD_LUMA_AC_VALUES@[110] == 166u8);
    assert(STD_LUMA_AC_VALUES@[111] == 167u8);
    assert(STD_LUMA_AC_VALUES@[112] == 168u8);
    assert(STD_LUMA_AC_VALUES@[113] == 169u8);
    assert(STD_LUMA_AC_VALUES@[114] == 170u8);
    assert(STD_LUMA_AC_VALUES@[115] == 178u8);
    assert(STD_LUMA_AC_VALUES@[116] == 179u8);
    assert(STD_LUMA_AC_VALUES@[117] == 180u8);
    assert(STD_LUMA_AC_VALUES@[118] == 181u8);
    assert(STD_LUMA_AC_VALUES@[119] == 182u8);
    assert(STD_LUMA_AC_VALUES@[120] == 183u8);
    assert(STD_LUMA_AC_VALUES@[121] == 184u8);
    assert(STD_LUMA_AC_VALUES@[122] == 185u8);
    assert(STD_LUMA_AC_VALUES@[123] == 186u8);
    assert(STD_LUMA_AC_VALUES@[124] == 194u8);
    assert(STD_LUMA_AC_VALUES@[125] == 195u8);
    assert(STD_LUMA_AC_VALUES@[126] == 196u8);
    assert(STD_LUMA_AC_VALUES@[127] == 197u8);
    assert(STD_LUMA_AC_VALUES@[128] == 198u8);
    assert(STD_LUMA_AC_VALUES@[129] == 199u8);
    assert(STD_LUMA_AC_VALUES@[130] == 200u8);
    assert(STD_LUMA_AC_VALUES@[131] == 201u8);
    assert(STD_LUMA_AC_VALUES@[132] == 202u8);
    assert(STD_LUMA_AC_VALUES@[133] == 210u8);
    assert(STD_LUMA_AC_VALUES@[134] == 211u8);
    assert(STD_LUMA_AC_VALUES@[135] == 212u8);
    assert(STD_LUMA_AC_VALUES@[136] == 213u8);
    assert(STD_LUMA_AC_VALUES@[137] == 214u8);
    assert(STD_LUMA_AC_VALUES@[138] == 215u8);
    assert(STD_LUMA_AC_VALUES@[139] == 216u8);
    assert(STD_LUMA_AC_VALUES@[140] == 217u8);
    assert(STD_LUMA_AC_VALUES@[141] == 218u8);
    assert(STD_LUMA_AC_VALUES@[142] == 225u8);
    assert(STD_LUMA_AC_VALUES@[143] == 226u8);
    assert(STD_LUMA_AC_VALUES@[144] == 227u8);
    assert(STD_LUMA_AC_VALUES@[145] == 228u8);
    assert(STD_LUMA_AC_VALUES@[146] == 229u8);
    assert(STD_LUMA_AC_VALUES@[147] == 230u8);
    assert(STD_LUMA_AC_VALUES@[148] == 231u8);
    assert(STD_LUMA_AC_VALUES@[149] == 232u8);
    assert(STD_LUMA_AC_VALUES@[150] == 233u8);
    assert(STD_LUMA_AC_VALUES@[151] == 234u8);
    assert(STD_LUMA_AC_VALUES@[152] == 241u8);
    assert(STD_LUMA_AC_VALUES@[153] == 242u8);
    assert(STD_LUMA_AC_VALUES@[154] == 243u8);
    assert(STD_LUMA_AC_VALUES@[155] == 244u8);
    assert(STD_LUMA_AC_VALUES@[156] == 245u8);
    assert(STD_LUMA_AC_VALUES@[157] == 246u8);
    assert(STD_LUMA_AC_VALUES@[158] == 247u8);
    assert(STD_LUMA_AC_VALUES@[159] == 248u8);
    assert(STD_LUMA_AC_VALUES@[160] == 249u8);
    assert(STD_LUMA_AC_VALUES@[161] == 250u8);
    assert forall|r: int, s: int| 0 <= r < 16 && 1 <= s <= 10 implies #[trigger] value_listed(
        STD_LUMA_AC_VALUES@,
        r * 16 + s,
    ) by {
    }
}

/// The chroma AC value table lists end-of-block, the zero-run symbol, and
/// every run/size pair with run 0..=15 and size 1..=10.
#[verifier::rlimit(100)]
pub proof fn lemma_std_chroma_ac_values_cover()
    ensures
        value_listed(STD_CHROMA_AC_VALUES@, 0),
        value_listed(STD_CHROMA_AC_VALUES@, 0xF0),
        forall|r: int, s: int| 0 <= r < 16 && 1 <= s <= 10 ==> #[trigger] value_listed(
            STD_CHROMA_AC_VALUES@,
            r * 16 + s,
        ),
{
    assert(STD_CHROMA_AC_VALUES@[0] == 0u8);
    assert(STD_CHROMA_AC_VALUES@[1] == 1u8);
    assert(STD_CHROMA_AC_VALUES@[2] == 2u8);
    assert(STD_CHROMA_AC_VALUES@[3] == 3u8);
    assert(STD_CHROMA_AC_VALUES@[4] == 17u8);
    assert(STD_CHROMA_AC_VALUES@[5] == 4u8);
    assert(STD_CHROMA_AC_VALUES@[6] == 5u8);
    assert(STD_CHROMA_AC_VALUES@[7] == 33u8);
    assert(STD_CHROMA_AC_VALUES@[8] == 49u8);
    assert(STD_CHROMA_AC_VALUES@[9] == 6u8);
    assert(STD_CHROMA_AC_VALUES@[10] == 18u8);
    assert(STD_CHROMA_AC_VALUES@[11] == 65u8);
    assert(STD_CHROMA_AC_VALUES@[12] == 81u8);
    assert(STD_CHROMA_AC_VALUES@[13] == 7u8);
    assert(STD_CHROMA_AC_VALUES@[14] == 97u8);
    assert(STD_CHROMA_AC_VALUES@[15] == 113u8);
    assert(STD_CHROMA_AC_VALUES@[16] == 19u8);
    assert(STD_CHROMA_AC_VALUES@[17] == 34u8);
    assert(STD_CHROMA_AC_VALUES@[18] == 50u8);
    assert(STD_CHROMA_AC_VALUES@[19] == 129u8);
    assert(STD_CHROMA_AC_VALUES@[20] == 8u8);
    assert(STD_CHROMA_AC_VALUES@[21] == 20u8);
    assert(STD_CHROMA_AC_VALUES@[22] == 66u8);
    assert(STD_CHROMA_AC_VALUES@[23] == 145u8);
    assert(STD_CHROMA_AC_VALUES@[24] == 161u8);
    assert(STD_CHROMA_AC_VALUES@[25] == 177u8);
    assert(STD_CHROMA_AC_VALUES@[26] == 193u8);
    assert(STD_CHROMA_AC_VALUES@[27] == 9u8);
    assert(STD_CHROMA_AC_VALUES@[28] == 35u8);
    assert(STD_CHROMA_AC_VALUES@[29] == 51u8);
    assert(STD_CHROMA_AC_VALUES@[30] == 82u8);
    assert(STD_CHROMA_AC_VALUES@[31] == 240u8);
    assert(STD_CHROMA_AC_VALUES@[32] == 21u8);
    assert(STD_CHROMA_AC_VALUES@[33] == 98u8);
    assert(STD_CHROMA_AC_VALUES@[34] == 114u8);
    assert(STD_CHROMA_AC_VALUES@[35] == 209u8);
    assert(STD_CHROMA_AC_VALUES@[36] == 10u8);
    assert(STD_CHROMA_AC_VALUES@[37] == 22u8);
    assert(STD_CHROMA_AC_VALUES@[38] == 36u8);
    assert(STD_CHROMA_AC_VALUES@[39] == 52u8);
    assert(STD_CHROMA_AC_VALUES@[40] == 225u8);
    assert(STD_CHROMA_AC_VALUES@[41] == 37u8);
    assert(STD_CHROMA_AC_VALUES@[42] == 241u8);
    assert(STD_CHROMA_AC_VALUES@[43] == 23u8);
    assert(STD_CHROMA_AC_VALUES@[44] == 24u8);
    assert(STD_CHROMA_AC_VALUES@[45] == 25u8);
    assert(STD_CHROMA_AC_VALUES@[46] == 26u8);
    assert(STD_CHROMA_AC_VALUES@[47] == 38u8);
    assert(STD_CHROMA_AC_VALUES@[48] == 39u8);
    assert(STD_CHROMA_AC_VALUES@[49] == 40u8);
    assert(STD_CHROMA_AC_VALUES@[50] == 41u8);
    assert(STD_CHROMA_AC_VALUES@[51] == 42u8);
    assert(STD_CHROMA_AC_VALUES@[52] == 53u8);
    assert(STD_CHROMA_AC_VALUES@[53] == 54u8);
    assert(STD_CHROMA_AC_VALUES@[54] == 55u8);
    assert(STD_CHROMA_AC_VALUES@[55] == 56u8);
    assert(STD_CHROMA_AC_VALUES@[56] == 57u8);
    assert(STD_CHROMA_AC_VALUES@[57] == 58u8);
    assert(STD_CHROMA_AC_VALUES@[58] == 67u8);
    assert(STD_CHROMA_AC_VALUES@[59] == 68u8);
    assert(STD_CHROMA_AC_VALUES@[60] == 69u8);
    assert(STD_CHROMA_AC_VALUES@[61] == 70u8);
    assert(STD_CHROMA_AC_VALUES@[62] == 71u8);
    assert(STD_CHROMA_AC_VALUES@[63] == 72u8);
    assert(STD_CHROMA_AC_VALUES@[64] == 73u8);
    assert(STD_CHROMA_AC_VALUES@[65] == 74u8);
    assert(STD_CHROMA_AC_VALUES@[66] == 83u8);
    assert(STD_CHROMA_AC_VALUES@[67] == 84u8);
    assert(STD_CHROMA_AC_VALUES@[68] == 85u8);
    assert(STD_CHROMA_AC_VALUES@[69] == 86u8);
    assert(STD_CHROMA_AC_VALUES@[70] == 87u8);
    assert(STD_CHROMA_AC_VALUES@[71] == 88u8);
    assert(STD_CHROMA_AC_VALUES@[72] == 89u8);
    assert(STD_CHROMA_AC_VALUES@[73] == 90u8);
    assert(STD_CHROMA_AC_VALUES@[74] == 99u8);
    assert(STD_CHROMA_AC_VALUES@[75] == 100u8);
    assert(STD_CHROMA_AC_VALUES@[76] == 101u8);
    assert(STD_CHROMA_AC_VALUES@[77] == 102u8);
    assert(STD_CHROMA_AC_VALUES@[78] == 103u8);
    assert(STD_CHROMA_AC_VALUES@[79] == 104u8);
    assert(STD_CHROMA_AC_VALUES@[80] == 105u8);
    assert(STD_CHROMA_AC_VALUES@[81] == 106u8);
    assert(STD_CHROMA_AC_VALUES@[82] == 115u8);
    assert(STD_CHROMA_AC_VALUES@[83] == 116u8);
    assert(STD_CHROMA_AC_VALUES@[84] == 117u8);
    assert(STD_CHROMA_AC_VALUES@[85] == 118u8);
    assert(STD_CHROMA_AC_VALUES@[86] == 119u8);
    assert(STD_CHROMA_AC_VALUES@[87] == 120u8);
    assert(STD_CHROMA_AC_VALUES@[88] == 121u8);
    assert(STD_CHROMA_AC_VALUES@[89] == 122u8);
    assert(STD_CHROMA_AC_VALUES@[90] == 130u8);
    assert(STD_CHROMA_AC_VALUES@[91] == 131u8);
    assert(STD_CHROMA_AC_VALUES@[92] == 132u8);
    assert(STD_CHROMA_AC_VALUES@[93] == 133u8);
    assert(STD_CHROMA_AC_VALUES@[94] == 134u8);
    assert(STD_CHROMA_AC_VALUES@[95] == 135u8);
    assert(STD_CHROMA_AC_VALUES@[96] == 136u8);
    assert(STD_CHROMA_AC_VALUES@[97] == 137u8);
    assert(STD_CHROMA_AC_VALUES@[98] == 138u8);
    assert(STD_CHROMA_AC_VALUES@[99] == 146u8);
    assert(STD_CHROMA_AC_VALUES@[100] == 147u8);
    assert(STD_CHROMA_AC_VALUES@[101] == 148u8);
    assert(STD_CHROMA_AC_VALUES@[102] == 149u8);
    assert(STD_CHROMA_AC_VALUES@[103] == 150u8);
    assert(STD_CHROMA_AC_VALUES@[104] == 151u8);
    assert(STD_CHROMA_AC_VALUES@[105] == 152u8);
    assert(STD_CHROMA_AC_VALUES@[106] == 153u8);
    assert(STD_CHROMA_AC_VALUES@[107] == 154u8);
    assert(STD_CHROMA_AC_VALUES@[108] == 162u8);
    assert(STD_CHROMA_AC_VALUES@[109] == 163u8);
    assert(STD_CHROMA_AC_VALUES@[110] == 164u8);
    assert(STD_CHROMA_AC_VALUES@[111] == 165u8);
    assert(STD_CHROMA_AC_VALUES@[112] == 166u8);
    assert(STD_CHROMA_AC_VALUES@[113] == 167u8);
    assert(STD_CHROMA_AC_VALUES@[114] == 168u8);
    assert(STD_CHROMA_AC_VALUES@[115] == 169u8);
    assert(STD_CHROMA_AC_VALUES@[116] == 170u8);
    assert(STD_CHROMA_AC_VALUES@[117] == 178u8);
    assert(STD_CHROMA_AC_VALUES@[118] == 179u8);
    assert(STD_CHROMA_AC_VALUES@[119] == 180u8);
    assert(STD_CHROMA_AC_VALUES@[120] == 181u8);
    assert(STD_CHROMA_AC_VALUES@[121] == 182u8);
    assert(STD_CHROMA_AC_VALUES@[122] == 183u8);
    assert(STD_CHROMA_AC_VALUES@[123] == 184u8);
    assert(STD_CHROMA_AC_VALUES@[124] == 185u8);
    assert(STD_CHROMA_AC_VALUES@[125] == 186u8);
    assert(STD_CHROMA_AC_VALUES@[126] == 194u8);
    assert(STD_CHROMA_AC_VALUES@[127] == 195u8);
    assert(STD_CHROMA_AC_VALUES@[128] == 196u8);
    assert(STD_CHROMA_AC_VALUES@[129] == 197u8);
    assert(STD_CHROMA_AC_VALUES@[130] == 198u8);
    assert(STD_CHROMA_AC_VALUES@[131] == 199u8);
    assert(STD_CHROMA_AC_VALUES@[132] == 200u8);
    assert(STD_CHROMA_AC_VALUES@[133] == 201u8);
    assert(STD_CHROMA_AC_VALUES@[134] == 202u8);
    assert(STD_CHROMA_AC_VALUES@[135] == 210u8);
    assert(STD_CHROMA_AC_VALUES@[136] == 211u8);
    assert(STD_CHROMA_AC_VALUES@[137] == 212u8);
    assert(STD_CHROMA_AC_VALUES@[138] == 213u8);
    assert(STD_CHROMA_AC_VALUES@[139] == 214u8);
    assert(STD_CHROMA_AC_VALUES@[140] == 215u8);
    assert(STD_CHROMA_AC_VALUES@[141] == 216u8);
    assert(STD_CHROMA_AC_VALUES@[142] == 217u8);
    assert(STD_CHROMA_AC_VALUES@[143] == 218u8);
    assert(STD_CHROMA_AC_VALUES@[144] == 226u8);
    assert(STD_CHROMA_AC_VALUES@[145] == 227u8);
    assert(STD_CHROMA_AC_VALUES@[146] == 228u8);
    assert(STD_CHROMA_AC_VALUES@[147] == 229u8);
    assert(STD_CHROMA_AC_VALUES@[148] == 230u8);
    assert(STD_CHROMA_AC_VALUES@[149] == 231u8);
    assert(STD_CHROMA_AC_VALUES@[150] == 232u8);
    assert(STD_CHROMA_AC_VALUES@[151] == 233u8);
    assert(STD_CHROMA_AC_VALUES@[152] == 234u8);
    assert(STD_CHROMA_AC_VALUES@[153] == 242u8);
    assert(STD_CHROMA_AC_VALUES@[154] == 243u8);
    assert(STD_CHROMA_AC_VALUES@[155] == 244u8);
    assert(STD_CHROMA_AC_VALUES@[156] == 245u8);
    assert(STD_CHROMA_AC_VALUES@[157] == 246u8);
    assert(STD_CHROMA_AC_VALUES@[158] == 247u8);
    assert(STD_CHROMA_AC_VALUES@[159] == 248u8);
    assert(STD_CHROMA_AC_VALUES@[160] == 249u8);
    assert(STD_CHROMA_AC_VALUES@[161] == 250u8);
    assert forall|r: int, s: int| 0 <= r < 16 && 1 <= s <= 10 implies #[trigger] value_listed(
        STD_CHROMA_AC_VALUES@,
        r * 16 + s,
    ) by {
    }
}

/// The canonical builder assigns `counts[l-1]` symbols at each code length
/// `l`, so the sum of `2^(16 - length)` over all assigned symbols equals the
/// scaled Kraft sum of the length counts. For the four standard tables that
/// sum stays at or below `2^16`, so each is a valid prefix code; none reaches
/// `2^16` exactly: the AC tables leave one code point unused and the sparse
/// DC tables leave more.
pub proof fn lemma_standard_tables_kraft()
    ensures
        kraft(STD_LUMA_DC_CODE_LENGTHS@) == 65408,
        kraft(STD_CHROMA_DC_CODE_LENGTHS@) == 65504,
        kraft(STD_LUMA_AC_CODE_LENGTHS@) == 65535,
        kraft(STD_CHROMA_AC_CODE_LENGTHS@) == 65535,
{
    lemma_std_luma_dc_wf();
    lemma_std_chroma_dc_wf();
    lemma_std_luma_ac_wf();
    lemma_std_chroma_ac_wf();
}


/// No entry of either standard quantization table is below 10, so every
/// quantized coefficient fits the size categories of the standard Huffman
/// tables.
#[verifier::rlimit(60)]
pub proof fn lemma_qtable_min()
    ensures
        forall|i: int| 0 <= i < 64 ==> 10 <= #[trigger] STD_LUMA_QTABLE@[i],
        forall|i: int| 0 <= i < 64 ==> 10 <= #[trigger] STD_CHROMA_QTABLE@[i],
{
    assert(STD_LUMA_QTABLE@[0] == 16u8);
    assert(STD_LUMA_QTABLE@[1] == 11u8);
    assert(STD_LUMA_QTABLE@[2] == 10u8);
    assert(STD_LUMA_QTABLE@[3] == 16u8);
    assert(STD_LUMA_QTABLE@[4] == 24u8);
    assert(STD_LUMA_QTABLE@[5] == 40u8);
    assert(STD_LUMA_QTABLE@[6] == 51u8);
    assert(STD_LUMA_QTABLE@[7] == 61u8);
    assert(STD_LUMA_QTABLE@[8] == 12u8);
    assert(STD_LUMA_QTABLE@[9] == 12u8);
    assert(STD_LUMA_QTABLE@[10] == 14u8);
    assert(STD_LUMA_QTABLE@[11] == 19u8);
    assert(STD_LUMA_QTABLE@[12] == 26u8);
    assert(STD_LUMA_QTABLE@[13] == 58u8);
    assert(STD_LUMA_QTABLE@[14] == 60u8);
    assert(STD_LUMA_QTABLE@[15] == 55u8);
    assert(STD_LUMA_QTABLE@[16] == 14u8);
    assert(STD_LUMA_QTABLE@[17] == 13u8);
    assert(STD_LUMA_QTABLE@[18] == 16u8);
    assert(STD_LUMA_QTABLE@[19] == 24u8);
    assert(STD_LUMA_QTABLE@[20] == 40u8);
    assert(STD_LUMA_QTABLE@[21] == 57u8);
    assert(STD_LUMA_QTABLE@[22] == 69u8);
    assert(STD_LUMA_QTABLE@[23] == 56u8);
    assert(STD_LUMA_QTABLE@[24] == 14u8);
    assert(STD_LUMA_QTABLE@[25] == 17u8);
    assert(STD_LUMA_QTABLE@[26] == 22u8);
    assert(STD_LUMA_QTABLE@[27] == 29u8);
    assert(STD_LUMA_QTABLE@[28] == 51u8);
    assert(STD_LUMA_QTABLE@[29] == 87u8);
    assert(STD_LUMA_QTABLE@[30] == 80u8);
    assert(STD_LUMA_QTABLE@[31] == 62u8);
    assert(STD_LUMA_QTABLE@[32] == 18u8);
    assert(STD_LUMA_QTABLE@[33] == 22u8);
    assert(STD_LUMA_QTABLE@[34] == 37u8);
    assert(STD_LUMA_QTABLE@[35] == 56u8);
    assert(STD_LUMA_QTABLE@[36] == 68u8);
    assert(STD_LUMA_QTABLE@[37] == 109u8);
    assert(STD_LUMA_QTABLE@[38] == 103u8);
    assert(STD_LUMA_QTABLE@[39] == 77u8);
    assert(STD_LUMA_QTABLE@[40] == 24u8);
    assert(STD_LUMA_QTABLE@[41] == 35u8);
    assert(STD_LUMA_QTABLE@[42] == 55u8);
    assert(STD_LUMA_QTABLE@[43] == 64u8);
    assert(STD_LUMA_QTABLE@[44] == 81u8);
    assert(STD_LUMA_QTABLE@[45] == 104u8);
    assert(STD_LUMA_QTABLE@[46] == 113u8);
    assert(STD_LUMA_QTABLE@[47] == 92u8);
    assert(STD_LUMA_QTABLE@[48] == 49u8);
    assert(STD_LUMA_QTABLE@[49] == 64u8);
    assert(STD_LUMA_QTABLE@[50] == 78u8);
    assert(STD_LUMA_QTABLE@[51] == 87u8);
    assert(STD_LUMA_QTABLE@[52] == 103u8);
    assert(STD_LUMA_QTABLE@[53] == 121u8);
    assert(STD_LUMA_QTABLE@[54] == 120u8);
    assert(STD_LUMA_QTABLE@[55] == 101u8);
    assert(STD_LUMA_QTABLE@[56] == 72u8);
    assert(STD_LUMA_QTABLE@[57] == 92u8);
    assert(STD_LUMA_QTABLE@[58] == 95u8);
    assert(STD_LUMA_QTABLE@[59] == 98u8);
    assert(STD_LUMA_QTABLE@[60] == 112u8);
    assert(STD_LUMA_QTABLE@[61] == 100u8);
    assert(STD_LUMA_QTABLE@[62] == 103u8);
    assert(STD_LUMA_QTABLE@[63] == 99u8);
    assert(STD_CHROMA_QTABLE@[0] == 17u8);
    assert(STD_CHROMA_QTABLE@[1] == 18u8);
    assert(STD_CHROMA_QTABLE@[2] == 24u8);
    assert(STD_CHROMA_QTABLE@[3] == 47u8);
    assert(STD_CHROMA_QTABLE@[4] == 99u8);
    assert(STD_CHROMA_QTABLE@[5] == 99u8);
    assert(STD_CHROMA_QTABLE@[6] == 99u8);
    assert(STD_CHROMA_QTABLE@[7] == 99u8);
    assert(STD_CHROMA_QTABLE@[8] == 18u8);
    assert(STD_CHROMA_QTABLE@[9] == 21u8);
    assert(STD_CHROMA_QTABLE@[10] == 26u8);
    assert(STD_CHROMA_QTABLE@[11] == 66u8);
    assert(STD_CHROMA_QTABLE@[12] == 99u8);
    assert(STD_CHROMA_QTABLE@[13] == 99u8);
    assert(STD_CHROMA_QTABLE@[14] == 99u8);
    assert(STD_CHROMA_QTABLE@[15] == 99u8);
    assert(STD_CHROMA_QTABLE@[16] == 24u8);
    assert(STD_CHROMA_QTABLE@[17] == 26u8);
    assert(STD_CHROMA_QTABLE@[18] == 56u8);
    assert(STD_CHROMA_QTABLE@[19] == 99u8);
    assert(STD_CHROMA_QTABLE@[20] == 99u8);
    assert(STD_CHROMA_QTABLE@[21] == 99u8);
    assert(STD_CHROMA_QTABLE@[22] == 99u8);
    assert(STD_CHROMA_QTABLE@[23] == 99u8);
    assert(STD_CHROMA_QTABLE@[24] == 47u8);
    assert(STD_CHROMA_QTABLE@[25] == 66u8);
    assert(STD_CHROMA_QTABLE@[26] == 99u8);
    assert(STD_CHROMA_QTABLE@[27] == 99u8);
    assert(STD_CHROMA_QTABLE@[28] == 99u8);
    assert(STD_CHROMA_QTABLE@[29] == 99u8);
    assert(STD_CHROMA_QTABLE@[30] == 99u8);
    assert(STD_CHROMA_QTABLE@[31] == 99u8);
    assert(STD_CHROMA_QTABLE@[32] == 99u8);
    assert(STD_CHROMA_QTABLE@[33] == 99u8);
    assert(STD_CHROMA_QTABLE@[34] == 99u8);
    assert(STD_CHROMA_QTABLE@[35] == 99u8);
    assert(STD_CHROMA_QTABLE@[36] == 99u8);
    assert(STD_CHROMA_QTABLE@[37] == 99u8);
    assert(STD_CHROMA_QTABLE@[38] == 99u8);
    assert(STD_CHROMA_QTABLE@[39] == 99u8);
    assert(STD_CHROMA_QTABLE@[40] == 99u8);
    assert(STD_CHROMA_QTABLE@[41] == 99u8);
    assert(STD_CHROMA_QTABLE@[42] == 99u8);
    assert(STD_CHROMA_QTABLE@[43] == 99u8);
    assert(STD_CHROMA_QTABLE@[44] == 99u8);
    assert(STD_CHROMA_QTABLE@[45] == 99u8);
    assert(STD_CHROMA_QTABLE@[46] == 99u8);
    assert(STD_CHROMA_QTABLE@[47] == 99u8);
    assert(STD_CHROMA_QTABLE@[48] == 99u8);
    assert(STD_CHROMA_QTABLE@[49] == 99u8);
    assert(STD_CHROMA_QTABLE@[50] == 99u8);
    assert(STD_CHROMA_QTABLE@[51] == 99u8);
    assert(STD_CHROMA_QTABLE@[52] == 99u8);
    assert(STD_CHROMA_QTABLE@[53] == 99u8);
    assert(STD_CHROMA_QTABLE@[54] == 99u8);
    assert(STD_CHROMA_QTABLE@[55] == 99u8);
    assert(STD_CHROMA_QTABLE@[56] == 99u8);
    assert(STD_CHROMA_QTABLE@[57] == 99u8);
    assert(STD_CHROMA_QTABLE@[58] == 99u8);
    assert(STD_CHROMA_QTABLE@[59] == 99u8);
    assert(STD_CHROMA_QTABLE@[60] == 99u8);
    assert(STD_CHROMA_QTABLE@[61] == 99u8);
    assert(STD_CHROMA_QTABLE@[62] == 99u8);
    assert(STD_CHROMA_QTABLE@[63] == 99u8);
}


/// No symbol appears twice in the luma AC value table.
#[verifier::rlimit(100)]
pub proof fn lemma_std_luma_ac_values_distinct()
    ensures
        crate::huffman::values_distinct(STD_LUMA_AC_VALUES@),
{
    assert(STD_LUMA_AC_VALUES@[0] == 1u8);
    assert(STD_LUMA_AC_VALUES@[1] == 2u8);
    assert(STD_LUMA_AC_VALUES@[2] == 3u8);
    assert(STD_LUMA_AC_VALUES@[3] == 0u8);
    assert(STD_LUMA_AC_VALUES@[4] == 4u8);
    assert(STD_LUMA_AC_VALUES@[5] == 17u8);
    assert(STD_LUMA_AC_VALUES@[6] == 5u8);
    assert(STD_LUMA_AC_VALUES@[7] == 18u8);
    assert(STD_LUMA_AC_VALUES@[8] == 33u8);
    assert(STD_LUMA_AC_VALUES@[9] == 49u8);
    assert(STD_LUMA_AC_VALUES@[10] == 65u8);
    assert(STD_LUMA_AC_VALUES@[11] == 6u8);
    assert(STD_LUMA_AC_VALUES@[12] == 19u8);
    assert(STD_LUMA_AC_VALUES@[13] == 81u8);
    assert(STD_LUMA_AC_VALUES@[14] == 97u8);
    assert(STD_LUMA_AC_VALUES@[15] == 7u8);
    assert(STD_LUMA_AC_VALUES@[16] == 34u8);
    assert(STD_LUMA_AC_VALUES@[17] == 113u8);
    assert(STD_LUMA_AC_VALUES@[18] == 20u8);
    assert(STD_LUMA_AC_VALUES@[19] == 50u8);
    assert(STD_LUMA_AC_VALUES@[20] == 129u8);
    assert(STD_LUMA_AC_VALUES@[21] == 145u8);
    assert(STD_LUMA_AC_VALUES@[22] == 161u8);
    assert(STD_LUMA_AC_VALUES@[23] == 8u8);
    assert(STD_LUMA_AC_VALUES@[24] == 35u8);
    assert(STD_LUMA_AC_VALUES@[25] == 66u8);
    assert(STD_LUMA_AC_VALUES@[26] == 177u8);
    assert(STD_LUMA_AC_VALUES@[27] == 193u8);
    assert(STD_LUMA_AC_VALUES@[28] == 21u8);
    assert(STD_LUMA_AC_VALUES@[29] == 82u8);
    assert(STD_LUMA_AC_VALUES@[30] == 209u8);
    assert(STD_LUMA_AC_VALUES@[31] == 240u8);
    assert(STD_LUMA_AC_VALUES@[32] == 36u8);
    assert(STD_LUMA_AC_VALUES@[33] == 51u8);
    assert(STD_LUMA_AC_VALUES@[34] == 98u8);
    assert(STD_LUMA_AC_VALUES@[35] == 114u8);
    assert(STD_LUMA_AC_VALUES@[36] == 130u8);
    assert(STD_LUMA_AC_VALUES@[37] == 9u8);
    assert(STD_LUMA_AC_VALUES@[38] == 10u8);
    assert(STD_LUMA_AC_VALUES@[39] == 22u8);
    assert(STD_LUMA_AC_VALUES@[40] == 23u8);
    assert(STD_LUMA_AC_VALUES@[41] == 24u8);
    assert(STD_LUMA_AC_VALUES@[42] == 25u8);
    assert(STD_LUMA_AC_VALUES@[43] == 26u8);
    assert(STD_LUMA_AC_VALUES@[44] == 37u8);
    assert(STD_LUMA_AC_VALUES@[45] == 38u8);
    assert(STD_LUMA_AC_VALUES@[46] == 39u8);
    assert(STD_LUMA_AC_VALUES@[47] == 40u8);
    assert(STD_LUMA_AC_VALUES@[48] == 41u8);
    assert(STD_LUMA_AC_VALUES@[49] == 42u8);
    assert(STD_LUMA_AC_VALUES@[50] == 52u8);
    assert(STD_LUMA_AC_VALUES@[51] == 53u8);
    assert(STD_LUMA_AC_VALUES@[52] == 54u8);
    assert(STD_LUMA_AC_VALUES@[53] == 55u8);
    assert(STD_LUMA_AC_VALUES@[54] == 56u8);
    assert(STD_LUMA_AC_VALUES@[55] == 57u8);
    assert(STD_LUMA_AC_VALUES@[56] == 58u8);
    assert(STD_LUMA_AC_VALUES@[57] == 67u8);
    assert(STD_LUMA_AC_VALUES@[58] == 68u8);
    assert(STD_LUMA_AC_VALUES@[59] == 69u8);
    assert(STD_LUMA_AC_VALUES@[60] == 70u8);
    assert(STD_LUMA_AC_VALUES@[61] == 71u8);
    assert(STD_LUMA_AC_VALUES@[62] == 72u8);
    assert(STD_LUMA_AC_VALUES@[63] == 73u8);
    assert(STD_LUMA_AC_VALUES@[64] == 74u8);
    assert(STD_LUMA_AC_VALUES@[65] == 83u8);
    assert(STD_LUMA_AC_VALUES@[66] == 84u8);
    assert(STD_LUMA_AC_VALUES@[67] == 85u8);
    assert(STD_LUMA_AC_VALUES@[68] == 86u8);
    assert(STD_LUMA_AC_VALUES@[69] == 87u8);
    assert(STD_LUMA_AC_VALUES@[70] == 88u8);
    assert(STD_LUMA_AC_VALUES@[71] == 89u8);
    assert(STD_LUMA_AC_VALUES@[72] == 90u8);
    assert(STD_LUMA_AC_VALUES@[73] == 99u8);
    assert(STD_LUMA_AC_VALUES@[74] == 100u8);
    assert(STD_LUMA_AC_VALUES@[75] == 101u8);
    assert(STD_LUMA_AC_VALUES@[76] == 102u8);
    assert(STD_LUMA_AC_VALUES@[77] == 103u8);
    assert(STD_LUMA_AC_VALUES@[78] == 104u8);
    assert(STD_LUMA_AC_VALUES@[79] == 105u8);
    assert(STD_LUMA_AC_VALUES@[80] == 106u8);
    assert(STD_LUMA_AC_VALUES@[81] == 115u8);
    assert(STD_LUMA_AC_VALUES@[82] == 116u8);
    assert(STD_LUMA_AC_VALUES@[83] == 117u8);
    assert(STD_LUMA_AC_VALUES@[84] == 118u8);
    assert(STD_LUMA_AC_VALUES@[85] == 119u8);
    assert(STD_LUMA_AC_VALUES@[86] == 120u8);
    assert(STD_LUMA_AC_VALUES@[87] == 121u8);
    assert(STD_LUMA_AC_VALUES@[88] == 122u8);
    assert(STD_LUMA_AC_VALUES@[89] == 131u8);
    assert(STD_LUMA_AC_VALUES@[90] == 132u8);
    assert(STD_LUMA_AC_VALUES@[91] == 133u8);
    assert(STD_LUMA_AC_VALUES@[92] == 134u8);
    assert(STD_LUMA_AC_VALUES@[93] == 135u8);
    assert(STD_LUMA_AC_VALUES@[94] == 136u8);
    assert(STD_LUMA_AC_VALUES@[95] == 137u8);
    assert(STD_LUMA_AC_VALUES@[96] == 138u8);
    assert(STD_LUMA_AC_VALUES@[97] == 146u8);
    assert(STD_LUMA_AC_VALUES@[98] == 147u8);
    assert(STD_LUMA_AC_VALUES@[99] == 148u8);
    assert(STD_LUMA_AC_VALUES@[100] == 149u8);
    assert(STD_LUMA_AC_VALUES@[101] == 150u8);
    assert(STD_LUMA_AC_VALUES@[102] == 151u8);
    assert(STD_LUMA_AC_VALUES@[103] == 152u8);
    assert(STD_LUMA_AC_VALUES@[104] == 153u8);
    assert(STD_LUMA_AC_VALUES@[105] == 154u8);
    assert(STD_LUMA_AC_VALUES@[106] == 162u8);
    assert(STD_LUMA_AC_VALUES@[107] == 163u8);
    assert(STD_LUMA_AC_VALUES@[108] == 164u8);
    assert(STD_LUMA_AC_VALUES@[109] == 165u8);
    assert(STD_LUMA_AC_VALUES@[110] == 166u8);
    assert(STD_LUMA_AC_VALUES@[111] == 167u8);
    assert(STD_LUMA_AC_VALUES@[112] == 168u8);
    assert(STD_LUMA_AC_VALUES@[113] == 169u8);
    assert(STD_LUMA_AC_VALUES@[114] == 170u8);
    assert(STD_LUMA_AC_VALUES@[115] == 178u8);
    assert(STD_LUMA_AC_VALUES@[116] == 179u8);
    assert(STD_LUMA_AC_VALUES@[117] == 180u8);
    assert(STD_LUMA_AC_VALUES@[118] == 181u8);
    assert(STD_LUMA_AC_VALUES@[119] == 182u8);
    assert(STD_LUMA_AC_VALUES@[120] == 183u8);
    assert(STD_LUMA_AC_VALUES@[121] == 184u8);
    assert(STD_LUMA_AC_VALUES@[122] == 185u8);
    assert(STD_LUMA_AC_VALUES@[123] == 186u8);
    assert(STD_LUMA_AC_VALUES@[124] == 194u8);
    assert(STD_LUMA_AC_VALUES@[125] == 195u8);
    assert(STD_LUMA_AC_VALUES@[126] == 196u8);
    assert(STD_LUMA_AC_VALUES@[127] == 197u8);
    assert(STD_LUMA_AC_VALUES@[128] == 198u8);
    assert(STD_LUMA_AC_VALUES@[129] == 199u8);
    assert(STD_LUMA_AC_VALUES@[130] == 200u8);
    assert(STD_LUMA_AC_VALUES@[131] == 201u8);
    assert(STD_LUMA_AC_VALUES@[132] == 202u8);
    assert(STD_LUMA_AC_VALUES@[133] == 210u8);
    assert(STD_LUMA_AC_VALUES@[134] == 211u8);
    assert(STD_LUMA_AC_VALUES@[135] == 212u8);
    assert(STD_LUMA_AC_VALUES@[136] == 213u8);
    assert(STD_LUMA_AC_VALUES@[137] == 214u8);
    assert(STD_LUMA_AC_VALUES@[138] == 215u8);
    assert(STD_LUMA_AC_VALUES@[139] == 216u8);
    assert(STD_LUMA_AC_VALUES@[140] == 217u8);
    assert(STD_LUMA_AC_VALUES@[141] == 218u8);
    assert(STD_LUMA_AC_VALUES@[142] == 225u8);
    assert(STD_LUMA_AC_VALUES@[143] == 226u8);
    assert(STD_LUMA_AC_VALUES@[144] == 227u8);
    assert(STD_LUMA_AC_VALUES@[145] == 228u8);
    assert(STD_LUMA_AC_VALUES@[146] == 229u8);
    assert(STD_LUMA_AC_VALUES@[147] == 230u8);
    assert(STD_LUMA_AC_VALUES@[148] == 231u8);
    assert(STD_LUMA_AC_VALUES@[149] == 232u8);
    assert(STD_LUMA_AC_VALUES@[150] == 233u8);
    assert(STD_LUMA_AC_VALUES@[151] == 234u8);
    assert(STD_LUMA_AC_VALUES@[152] == 241u8);
    assert(STD_LUMA_AC_VALUES@[153] == 242u8);
    assert(STD_LUMA_AC_VALUES@[154] == 243u8);
    assert(STD_LUMA_AC_VALUES@[155] == 244u8);
    assert(STD_LUMA_AC_VALUES@[156] == 245u8);
    assert(STD_LUMA_AC_VALUES@[157] == 246u8);
    assert(STD_LUMA_AC_VALUES@[158] == 247u8);
    assert(STD_LUMA_AC_VALUES@[159] == 248u8);
    assert(STD_LUMA_AC_VALUES@[160] == 249u8);
    assert(STD_LUMA_AC_VALUES@[161] == 250u8);
    assert forall|j1: int, j2: int| 0 <= j1 < j2 < 162 implies STD_LUMA_AC_VALUES@[j1]
        != STD_LUMA_AC_VALUES@[j2] by {
    }
}


/// No symbol appears twice in the DC value tables or in the chroma AC value
/// table.
#[verifier::rlimit(100)]
pub proof fn lemma_std_other_values_distinct()
    ensures
        crate::huffman::values_distinct(STD_LUMA_DC_VALUES@),
        crate::huffman::values_distinct(STD_CHROMA_DC_VALUES@),
        crate::huffman::values_distinct(STD_CHROMA_AC_VALUES@),
{
    assert(STD_LUMA_DC_VALUES@[0] == 0u8);
    assert(STD_LUMA_DC_VALUES@[1] == 1u8);
    assert(STD_LUMA_DC_VALUES@[2] == 2u8);
    assert(STD_LUMA_DC_VALUES@[3] == 3u8);
    assert(STD_LUMA_DC_VALUES@[4] == 4u8);
    assert(STD_LUMA_DC_VALUES@[5] == 5u8);
    assert(STD_LUMA_DC_VALUES@[6] == 6u8);
    assert(STD_LUMA_DC_VALUES@[7] == 7u8);
    assert(STD_LUMA_DC_VALUES@[8] == 8u8);
    assert(STD_LUMA_DC_VALUES@[9] == 9u8);
    assert(STD_LUMA_DC_VALUES@[10] == 10u8);
    assert(STD_LUMA_DC_VALUES@[11] == 11u8);
    assert(STD_CHROMA_DC_VALUES@[0] == 0u8);
    assert(STD_CHROMA_DC_VALUES@[1] == 1u8);
    assert(STD_CHROMA_DC_VALUES@[2] == 2u8);
    assert(STD_CHROMA_DC_VALUES@[3] == 3u8);
    assert(STD_CHROMA_DC_VALUES@[4] == 4u8);
    assert(STD_CHROMA_DC_VALUES@[5] == 5u8);
    assert(STD_CHROMA_DC_VALUES@[6] == 6u8);
    assert(STD_CHROMA_DC_VALUES@[7] == 7u8);
    assert(STD_CHROMA_DC_VALUES@[8] == 8u8);
    assert(STD_CHROMA_DC_VALUES@[9] == 9u8);
    assert(STD_CHROMA_DC_VALUES@[10] == 10u8);
    assert(STD_CHROMA_DC_VALUES@[11] == 11u8);
    assert(STD_CHROMA_AC_VALUES@[0] == 0u8);
    assert(STD_CHROMA_AC_VALUES@[1] == 1u8);
    assert(STD_CHROMA_AC_VALUES@[2] == 2u8);
    assert(STD_CHROMA_AC_VALUES@[3] == 3u8);
    assert(STD_CHROMA_AC_VALUES@[4] == 17u8);
    assert(STD_CHROMA_AC_VALUES@[5] == 4u8);
    assert(STD_CHROMA_AC_VALUES@[6] == 5u8);
    assert(STD_CHROMA_AC_VALUES@[7] == 33u8);
    assert(STD_CHROMA_AC_VALUES@[8] == 49u8);
    assert(STD_CHROMA_AC_VALUES@[9] == 6u8);
    assert(STD_CHROMA_AC_VALUES@[10] == 18u8);
    assert(STD_CHROMA_AC_VALUES@[11] == 65u8);
    assert(STD_CHROMA_AC_VALUES@[12] == 81u8);
    assert(STD_CHROMA_AC_VALUES@[13] == 7u8);
    assert(STD_CHROMA_AC_VALUES@[14] == 97u8);
    assert(STD_CHROMA_AC_VALUES@[15] == 113u8);
    assert(STD_CHROMA_AC_VALUES@[16] == 19u8);
    assert(STD_CHROMA_AC_VALUES@[17] == 34u8);
    assert(STD_CHROMA_AC_VALUES@[18] == 50u8);
    assert(STD_CHROMA_AC_VALUES@[19] == 129u8);
    assert(STD_CHROMA_AC_VALUES@[20] == 8u8);
    assert(STD_CHROMA_AC_VALUES@[21] == 20u8);
    assert(STD_CHROMA_AC_VALUES@[22] == 66u8);
    assert(STD_CHROMA_AC_VALUES@[23] == 145u8);
    assert(STD_CHROMA_AC_VALUES@[24] == 161u8);
    assert(STD_CHROMA_AC_VALUES@[25] == 177u8);
    assert(STD_CHROMA_AC_VALUES@[26] == 193u8);
    assert(STD_CHROMA_AC_VALUES@[27] == 9u8);
    assert(STD_CHROMA_AC_VALUES@[28] == 35u8);
    assert(STD_CHROMA_AC_VALUES@[29] == 51u8);
    assert(STD_CHROMA_AC_VALUES@[30] == 82u8);
    assert(STD_CHROMA_AC_VALUES@[31] == 240u8);
    assert(STD_CHROMA_AC_VALUES@[32] == 21u8);
    assert(STD_CHROMA_AC_VALUES@[33] == 98u8);
    assert(STD_CHROMA_AC_VALUES@[34] == 114u8);
    assert(STD_CHROMA_AC_VALUES@[35] == 209u8);
    assert(STD_CHROMA_AC_VALUES@[36] == 10u8);
    assert(STD_CHROMA_AC_VALUES@[37] == 22u8);
    assert(STD_CHROMA_AC_VALUES@[38] == 36u8);
    assert(STD_CHROMA_AC_VALUES@[39] == 52u8);
    assert(STD_CHROMA_AC_VALUES@[40] == 225u8);
    assert(STD_CHROMA_AC_VALUES@[41] == 37u8);
    assert(STD_CHROMA_AC_VALUES@[42] == 241u8);
    assert(STD_CHROMA_AC_VALUES@[43] == 23u8);
    assert(STD_CHROMA_AC_VALUES@[44] == 24u8);
    assert(STD_CHROMA_AC_VALUES@[45] == 25u8);
    assert(STD_CHROMA_AC_VALUES@[46] == 26u8);
    assert(STD_CHROMA_AC_VALUES@[47] == 38u8);
    assert(STD_CHROMA_AC_VALUES@[48] == 39u8);
    assert(STD_CHROMA_AC_VALUES@[49] == 40u8);
    assert(STD_CHROMA_AC_VALUES@[50] == 41u8);
    assert(STD_CHROMA_AC_VALUES@[51] == 42u8);
    assert(STD_CHROMA_AC_VALUES@[52] == 53u8);
    assert(STD_CHROMA_AC_VALUES@[53] == 54u8);
    assert(STD_CHROMA_AC_VALUES@[54] == 55u8);
    assert(STD_CHROMA_AC_VALUES@[55] == 56u8);
    assert(STD_CHROMA_AC_VALUES@[56] == 57u8);
    assert(STD_CHROMA_AC_VALUES@[57] == 58u8);
    assert(STD_CHROMA_AC_VALUES@[58] == 67u8);
    assert(STD_CHROMA_AC_VALUES@[59] == 68u8);
    assert(STD_CHROMA_AC_VALUES@[60] == 69u8);
    assert(STD_CHROMA_AC_VALUES@[61] == 70u8);
    assert(STD_CHROMA_AC_VALUES@[62] == 71u8);
    assert(STD_CHROMA_AC_VALUES@[63] == 72u8);
    assert(STD_CHROMA_AC_VALUES@[64] == 73u8);
    assert(STD_CHROMA_AC_VALUES@[65] == 74u8);
    assert(STD_CHROMA_AC_VALUES@[66] == 83u8);
    assert(STD_CHROMA_AC_VALUES@[67] == 84u8);
    assert(STD_CHROMA_AC_VALUES@[68] == 85u8);
    assert(STD_CHROMA_AC_VALUES@[69] == 86u8);
    assert(STD_CHROMA_AC_VALUES@[70] == 87u8);
    assert(STD_CHROMA_AC_VALUES@[71] == 88u8);
    assert(STD_CHROMA_AC_VALUES@[72] == 89u8);
    assert(STD_CHROMA_AC_VALUES@[73] == 90u8);
    assert(STD_CHROMA_AC_VALUES@[74] == 99u8);
    assert(STD_CHROMA_AC_VALUES@[75] == 100u8);
    assert(STD_CHROMA_AC_VALUES@[76] == 101u8);
    assert(STD_CHROMA_AC_VALUES@[77] == 102u8);
    assert(STD_CHROMA_AC_VALUES@[78] == 103u8);
    assert(STD_CHROMA_AC_VALUES@[79] == 104u8);
    assert(STD_CHROMA_AC_VALUES@[80] == 105u8);
    assert(STD_CHROMA_AC_VALUES@[81] == 106u8);
    assert(STD_CHROMA_AC_VALUES@[82] == 115u8);
    assert(STD_CHROMA_AC_VALUES@[83] == 116u8);
    assert(STD_CHROMA_AC_VALUES@[84] == 117u8);
    assert(STD_CHROMA_AC_VALUES@[85] == 118u8);
    assert(STD_CHROMA_AC_VALUES@[86] == 119u8);
    assert(STD_CHROMA_AC_VALUES@[87] == 120u8);
    assert(STD_CHROMA_AC_VALUES@[88] == 121u8);
    assert(STD_CHROMA_AC_VALUES@[89] == 122u8);
    assert(STD_CHROMA_AC_VALUES@[90] == 130u8);
    assert(STD_CHROMA_AC_VALUES@[91] == 131u8);
    assert(STD_CHROMA_AC_VALUES@[92] == 132u8);
    assert(STD_CHROMA_AC_VALUES@[93] == 133u8);
    assert(STD_CHROMA_AC_VALUES@[94] == 134u8);
    assert(STD_CHROMA_AC_VALUES@[95] == 135u8);
    assert(STD_CHROMA_AC_VALUES@[96] == 136u8);
    assert(STD_CHROMA_AC_VALUES@[97] == 137u8);
    assert(STD_CHROMA_AC_VALUES@[98] == 138u8);
    assert(STD_CHROMA_AC_VALUES@[99] == 146u8);
    assert(STD_CHROMA_AC_VALUES@[100] == 147u8);
    assert(STD_CHROMA_AC_VALUES@[101] == 148u8);
    assert(STD_CHROMA_AC_VALUES@[102] == 149u8);
    assert(STD_CHROMA_AC_VALUES@[103] == 150u8);
    assert(STD_CHROMA_AC_VALUES@[104] == 151u8);
    assert(STD_CHROMA_AC_VALUES@[105] == 152u8);
    assert(STD_CHROMA_AC_VALUES@[106] == 153u8);
    assert(STD_CHROMA_AC_VALUES@[107] == 154u8);
    assert(STD_CHROMA_AC_VALUES@[108] == 162u8);
    assert(STD_CHROMA_AC_VALUES@[109] == 163u8);
    assert(STD_CHROMA_AC_VALUES@[110] == 164u8);
    assert(STD_CHROMA_AC_VALUES@[111] == 165u8);
    assert(STD_CHROMA_AC_VALUES@[112] == 166u8);
    assert(STD_CHROMA_AC_VALUES@[113] == 167u8);
    assert(STD_CHROMA_AC_VALUES@[114] == 168u8);
    assert(STD_CHROMA_AC_VALUES@[115] == 169u8);
    assert(STD_CHROMA_AC_VALUES@[116] == 170u8);
    assert(STD_CHROMA_AC_VALUES@[117] == 178u8);
    assert(STD_CHROMA_AC_VALUES@[118] == 179u8);
    assert(STD_CHROMA_AC_VALUES@[119] == 180u8);
    assert(STD_CHROMA_AC_VALUES@[120] == 181u8);
    assert(STD_CHROMA_AC_VALUES@[121] == 182u8);
    assert(STD_CHROMA_AC_VALUES@[122] == 183u8);
    assert(STD_CHROMA_AC_VALUES@[123] == 184u8);
    assert(STD_CHROMA_AC_VALUES@[124] == 185u8);
    assert(STD_CHROMA_AC_VALUES@[125] == 186u8);
    assert(STD_CHROMA_AC_VALUES@[126] == 194u8);
    assert(STD_CHROMA_AC_VALUES@[127] == 195u8);
    assert(STD_CHROMA_AC_VALUES@[128] == 196u8);
    assert(STD_CHROMA_AC_VALUES@[129] == 197u8);
    assert(STD_CHROMA_AC_VALUES@[130] == 198u8);
    assert(STD_CHROMA_AC_VALUES@[131] == 199u8);
    assert(STD_CHROMA_AC_VALUES@[132] == 200u8);
    assert(STD_CHROMA_AC_VALUES@[133] == 201u8);
    assert(STD_CHROMA_AC_VALUES@[134] == 202u8);
    assert(STD_CHROMA_AC_VALUES@[135] == 210u8);
    assert(STD_CHROMA_AC_VALUES@[136] == 211u8);
    assert(STD_CHROMA_AC_VALUES@[137] == 212u8);
    assert(STD_CHROMA_AC_VALUES@[138] == 213u8);
    assert(STD_CHROMA_AC_VALUES@[139] == 214u8);
    assert(STD_CHROMA_AC_VALUES@[140] == 215u8);
    assert(STD_CHROMA_AC_VALUES@[141] == 216u8);
    assert(STD_CHROMA_AC_VALUES@[142] == 217u8);
    assert(STD_CHROMA_AC_VALUES@[143] == 218u8);
    assert(STD_CHROMA_AC_VALUES@[144] == 226u8);
    assert(STD_CHROMA_AC_VALUES@[145] == 227u8);
    assert(STD_CHROMA_AC_VALUES@[146] == 228u8);
    assert(STD_CHROMA_AC_VALUES@[147] == 229u8);
    assert(STD_CHROMA_AC_VALUES@[148] == 230u8);
    assert(STD_CHROMA_AC_VALUES@[149] == 231u8);
    assert(STD_CHROMA_AC_VALUES@[150] == 232u8);
    assert(STD_CHROMA_AC_VALUES@[151] == 233u8);
    assert(STD_CHROMA_AC_VALUES@[152] == 234u8);
    assert(STD_CHROMA_AC_VALUES@[153] == 242u8);
    assert(STD_CHROMA_AC_VALUES@[154] == 243u8);
    assert(STD_CHROMA_AC_VALUES@[155] == 244u8);
    assert(STD_CHROMA_AC_VALUES@[156] == 245u8);
    assert(STD_CHROMA_AC_VALUES@[157] == 246u8);
    assert(STD_CHROMA_AC_VALUES@[158] == 247u8);
    assert(STD_CHROMA_AC_VALUES@[159] == 248u8);
    assert(STD_CHROMA_AC_VALUES@[160] == 249u8);
    assert(STD_CHROMA_AC_VALUES@[161] == 250u8);
    assert forall|j1: int, j2: int| 0 <= j1 < j2 < 12 implies STD_LUMA_DC_VALUES@[j1]
        != STD_LUMA_DC_VALUES@[j2] && STD_CHROMA_DC_VALUES@[j1] != STD_CHROMA_DC_VALUES@[j2] by {
    }
    assert forall|j1: int, j2: int| 0 <= j1 < j2 < 162 implies STD_CHROMA_AC_VALUES@[j1]
        != STD_CHROMA_AC_VALUES@[j2] by {
    }
}

} // verus!



