//! A verified baseline JPEG (JFIF) encoder.
//!
//! The encoder turns raw 8-bit pixel buffers (gray, gray+alpha, RGB, RGB+alpha)
//! into a conformant JFIF-wrapped baseline JPEG byte stream: colour conversion,
//! 8x8 block extraction with edge clamping, an integer forward DCT, quantization
//! with the standard annex tables, differential-DC / run-length-AC coefficient
//! coding, canonical Huffman entropy coding, and bit-level packing with 0xFF
//! byte stuffing inside the entropy-coded segment.

pub mod bitstream;
pub mod blocks;
pub mod coeff;
pub mod encoder;
pub mod fdct;
pub mod huffman;
pub mod segments;
pub mod tables;
