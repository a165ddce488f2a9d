//! Builders for the payloads of the marker segments the encoder emits:
//! APP0/JFIF, SOF0 frame header, SOS scan header, DHT Huffman tables and DQT
//! quantization tables. Each builder's result is pinned byte for byte.

use vstd::prelude::*;

verus! {

use crate::huffman::count_upto;
use crate::tables::UNZIGZAG;
use crate::tables::lemma_unzigzag_bounds;

/// One frame component: identifier, sampling factors, quantization table
/// selector, entropy table selectors, and the initial DC predictor.
#[derive(Clone, Copy, PartialEq, Eq, Structural)]
pub struct Component {
    pub id: u8,
    pub h: u8,
    pub v: u8,
    pub tq: u8,
    pub dc_table: u8,
    pub ac_table: u8,
    pub dc_pred: i32,
}

/// Big-endian bytes of a 16-bit value.
pub open spec fn be16(v: int) -> Seq<u8> {
    seq![(v / 256) as u8, (v % 256) as u8]
}

/// The APP0 payload: "JFIF\0", version 1.02, density unit 0, density 1x1,
/// no thumbnail.
pub open spec fn jfif_payload() -> Seq<u8> {
    seq![0x4Au8, 0x46, 0x49, 0x46, 0x00, 0x01, 0x02, 0x00, 0x00, 0x01, 0x00, 0x01, 0x00, 0x00]
}

/// The per-component bytes of a SOF0 payload, from component `i` on.
pub open spec fn frame_components(comps: Seq<Component>, i: int) -> Seq<u8>
    decreases comps.len() - i,
{
    if i < 0 || i >= comps.len() {
        Seq::<u8>::empty()
    } else {
        seq![comps[i].id, (comps[i].h * 16 + comps[i].v) as u8, comps[i].tq]
            + frame_components(comps, i + 1)
    }
}

/// The SOF0 payload: precision, height, width, then per component its
/// identifier, packed sampling factors, and quantization table selector.
pub open spec fn frame_payload(precision: u8, width: int, height: int, comps: Seq<Component>) -> Seq<u8> {
    seq![precision] + be16(height) + be16(width) + seq![comps.len() as u8] + frame_components(
        comps,
        0,
    )
}

/// The per-component bytes of a SOS payload, from component `i` on.
pub open spec fn scan_components(comps: Seq<Component>, i: int) -> Seq<u8>
    decreases comps.len() - i,
{
    if i < 0 || i >= comps.len() {
        Seq::<u8>::empty()
    } else {
        seq![comps[i].id, (comps[i].dc_table * 16 + comps[i].ac_table) as u8] + scan_components(
            comps,
            i + 1,
        )
    }
}

/// The SOS payload: component count, per component its identifier and packed
/// table selectors, then spectral start 0, spectral end 63, approximation 0.
pub open spec fn scan_payload(comps: Seq<Component>) -> Seq<u8> {
    seq![comps.len() as u8] + scan_components(comps, 0) + seq![0u8, 63u8, 0u8]
}

/// The DHT payload: packed class and destination, the sixteen length counts,
/// then the symbol values.
pub open spec fn dht_payload(class: u8, destination: u8, numcodes: Seq<u8>, values: Seq<u8>) -> Seq<u8> {
    seq![(class * 16 + destination) as u8] + numcodes + values
}

/// The DQT payload: packed precision (0 for 8-bit) and identifier, then the
/// 64 table bytes in zig-zag order.
pub open spec fn dqt_payload(precision: u8, identifier: u8, qtable: Seq<u8>) -> Seq<u8> {
    let p: u8 = if precision == 8 { 0u8 } else { 1u8 };
    seq![(p * 16 + identifier) as u8] + Seq::new(64, |i: int| qtable[UNZIGZAG@[i] as int])
}

/// A whole marker segment: 0xFF, the marker, the big-endian length (counting
/// its own two bytes), and the payload.
pub open spec fn seg_bytes(marker: u8, payload: Seq<u8>) -> Seq<u8> {
    seq![0xFFu8, marker] + be16(payload.len() as int + 2) + payload
}

/// The per-component frame bytes have three bytes per component.
pub proof fn lemma_frame_components_len(comps: Seq<Component>, i: int)
    requires
        0 <= i <= comps.len(),
    ensures
        frame_components(comps, i).len() == 3 * (comps.len() - i),
    decreases comps.len() - i,
{
    if i < comps.len() {
        lemma_frame_components_len(comps, i + 1);
    }
}

/// The per-component scan bytes have two bytes per component.
pub proof fn lemma_scan_components_len(comps: Seq<Component>, i: int)
    requires
        0 <= i <= comps.len(),
    ensures
        scan_components(comps, i).len() == 2 * (comps.len() - i),
    decreases comps.len() - i,
{
    if i < comps.len() {
        lemma_scan_components_len(comps, i + 1);
    }
}

/// Builds the APP0/JFIF payload.
pub fn build_jfif_header() -> (r: Vec<u8>)
    ensures
        r@ == jfif_payload(),
{
    let mut m: Vec<u8> = Vec::new();
    m.push(0x4A);
    m.push(0x46);
    m.push(0x49);
    m.push(0x46);
    m.push(0x00);
    m.push(0x01);
    m.push(0x02);
    m.push(0x00);
    m.push(0x00);
    m.push(0x01);
    m.push(0x00);
    m.push(0x01);
    m.push(0x00);
    m.push(0x00);
    proof {
        assert(m@ =~= jfif_payload());
    }
    m
}

/// Builds the SOF0 payload for the given dimensions and components.
pub fn build_frame_header(precision: u8, width: u16, height: u16, components: &[Component]) -> (r:
    Vec<u8>)
    requires
        components@.len() <= 255,
        forall|i: int| 0 <= i < components@.len() ==> (#[trigger] components@[i].h) <= 15
            && components@[i].v <= 15,
    ensures
        r@ == frame_payload(precision, width as int, height as int, components@),
{
    let mut m: Vec<u8> = Vec::new();
    m.push(precision);
    m.push((height / 256) as u8);
    m.push((height % 256) as u8);
    m.push((width / 256) as u8);
    m.push((width % 256) as u8);
    m.push(components.len() as u8);
    proof {
        assert(m@ + frame_components(components@, 0) =~= frame_payload(
            precision,
            width as int,
            height as int,
            components@,
        ));
    }
    let mut i: usize = 0;
    while i < components.len()
        invariant
            components@.len() <= 255,
            forall|j: int| 0 <= j < components@.len() ==> (#[trigger] components@[j].h) <= 15
                && components@[j].v <= 15,
            i <= components@.len(),
            m@ + frame_components(components@, i as int) == frame_payload(
                precision,
                width as int,
                height as int,
                components@,
            ),
        decreases components@.len() - i,
    {
        let comp = components[i];
        let ghost prev = m@;
        m.push(comp.id);
        m.push(comp.h * 16 + comp.v);
        m.push(comp.tq);
        proof {
            assert(m@ + frame_components(components@, i + 1) =~= prev + frame_components(
                components@,
                i as int,
            ));
        }
        i = i + 1;
    }
    proof {
        assert(m@ + frame_components(components@, components@.len() as int) =~= m@);
    }
    m
}

/// Builds the SOS payload for the given components.
pub fn build_scan_header(components: &[Component]) -> (r: Vec<u8>)
    requires
        components@.len() <= 255,
        forall|i: int| 0 <= i < components@.len() ==> (#[trigger] components@[i].dc_table) <= 15
            && components@[i].ac_table <= 15,
    ensures
        r@ == scan_payload(components@),
{
    let mut m: Vec<u8> = Vec::new();
    m.push(components.len() as u8);
    let mut i: usize = 0;
    while i < components.len()
        invariant
            components@.len() <= 255,
            forall|j: int| 0 <= j < components@.len() ==> (#[trigger] components@[j].dc_table)
                <= 15 && components@[j].ac_table <= 15,
            i <= components@.len(),
            m@ + scan_components(components@, i as int) == seq![components@.len() as u8]
                + scan_components(components@, 0),
        decreases components@.len() - i,
    {
        let comp = components[i];
        let ghost prev = m@;
        m.push(comp.id);
        m.push(comp.dc_table * 16 + comp.ac_table);
        proof {
            assert(m@ + scan_components(components@, i + 1) =~= prev + scan_components(
                components@,
                i as int,
            ));
        }
        i = i + 1;
    }
    proof {
        assert(m@ + scan_components(components@, components@.len() as int) =~= m@);
    }
    m.push(0);
    m.push(63);
    m.push(0);
    proof {
        assert(m@ =~= scan_payload(components@));
    }
    m
}

/// Builds a DHT payload from a table's length counts and values.
pub fn build_huffman_segment(class: u8, destination: u8, numcodes: &[u8], values: &[u8]) -> (r:
    Vec<u8>)
    requires
        class <= 15,
        destination <= 15,
        numcodes@.len() == 16,
        count_upto(numcodes@, 16) == values@.len(),
    ensures
        r@ == dht_payload(class, destination, numcodes@, values@),
{
    let mut m: Vec<u8> = Vec::new();
    m.push(class * 16 + destination);
    let mut i: usize = 0;
    while i < numcodes.len()
        invariant
            numcodes@.len() == 16,
            i <= 16,
            m@ == seq![(class * 16 + destination) as u8] + numcodes@.take(i as int),
        decreases numcodes@.len() - i,
    {
        m.push(numcodes[i]);
        proof {
            assert(m@ =~= seq![(class * 16 + destination) as u8] + numcodes@.take(i + 1));
        }
        i = i + 1;
    }
    let mut j: usize = 0;
    while j < values.len()
        invariant
            numcodes@.len() == 16,
            j <= values@.len(),
            m@ == seq![(class * 16 + destination) as u8] + numcodes@.take(16) + values@.take(
                j as int,
            ),
        decreases values@.len() - j,
    {
        m.push(values[j]);
        proof {
            assert(m@ =~= seq![(class * 16 + destination) as u8] + numcodes@.take(16)
                + values@.take(j + 1));
        }
        j = j + 1;
    }
    proof {
        assert(numcodes@.take(16) =~= numcodes@);
        assert(values@.take(values@.len() as int) =~= values@);
        assert(m@ =~= dht_payload(class, destination, numcodes@, values@));
    }
    m
}

/// Builds a DQT payload: the 64 table bytes are written in zig-zag order.
pub fn build_quantization_segment(precision: u8, identifier: u8, qtable: &[u8]) -> (r: Vec<u8>)
    requires
        identifier <= 15,
        qtable@.len() == 64,
    ensures
        r@ == dqt_payload(precision, identifier, qtable@),
{
    proof {
        lemma_unzigzag_bounds();
    }
    let p: u8 = if precision == 8 {
        0
    } else {
        1
    };
    let mut m: Vec<u8> = Vec::new();
    m.push(p * 16 + identifier);
    let mut i: usize = 0;
    while i < 64
        invariant
            qtable@.len() == 64,
            i <= 64,
            p == (if precision == 8 { 0u8 } else { 1u8 }),
            forall|k: int| 0 <= k < 64 ==> #[trigger] UNZIGZAG@[k] < 64,
            m@ == seq![(p * 16 + identifier) as u8] + Seq::new(64, |k: int| qtable@[UNZIGZAG@[k] as int]).take(i as int),
        decreases 64 - i,
    {
        let z: usize = UNZIGZAG[i] as usize;
        m.push(qtable[z]);
        proof {
            assert(m@ =~= seq![(p * 16 + identifier) as u8] + Seq::new(
                64,
                |k: int| qtable@[UNZIGZAG@[k] as int],
            ).take(i + 1));
        }
        i = i + 1;
    }
    proof {
        assert(Seq::new(64, |k: int| qtable@[UNZIGZAG@[k] as int]).take(64) =~= Seq::new(
            64,
            |k: int| qtable@[UNZIGZAG@[k] as int],
        ));
        assert(m@ =~= dqt_payload(precision, identifier, qtable@));
    }
    m
}

} // verus!
