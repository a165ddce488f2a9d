//! Ghost model of the entropy-coded bit stream.
//!
//! A `BitStr` is a mathematical string of bits: `len` bits whose value, read
//! most-significant bit first, is `val`. The encoder's sink turns a stream of
//! bits into bytes, inserting a 0x00 stuffing byte after every 0xFF byte so
//! that no marker can appear inside the entropy-coded segment. `push_bytes`
//! and `push_rem` describe one write against that sink: the whole bytes that
//! leave the accumulator and the bits that stay behind.

use vstd::prelude::*;

verus! {

use vstd::arithmetic::power2::pow2;
use vstd::arithmetic::power2::lemma_pow2_adds;
use vstd::arithmetic::power2::lemma_pow2_pos;
use vstd::arithmetic::power2::lemma2_to64;
use vstd::arithmetic::div_mod::lemma_small_mod;
use vstd::arithmetic::div_mod::lemma_fundamental_div_mod_converse;
use vstd::arithmetic::mul::lemma_mul_inequality;

/// A string of bits: `len` bits whose MSB-first value is `val`.
pub ghost struct BitStr {
    pub val: nat,
    pub len: nat,
}

impl BitStr {
    /// The value fits in the stated number of bits.
    pub open spec fn wf(self) -> bool {
        self.val < pow2(self.len)
    }

    /// The empty bit string.
    pub open spec fn empty() -> BitStr {
        BitStr { val: 0, len: 0 }
    }

    /// `self` followed by `other`.
    pub open spec fn concat(self, other: BitStr) -> BitStr {
        BitStr { val: self.val * pow2(other.len) + other.val, len: self.len + other.len }
    }

    /// The bits left over after the whole leading bytes are removed.
    pub open spec fn rem(self) -> BitStr {
        BitStr { val: self.val % pow2(self.len % 8), len: self.len % 8 }
    }
}

/// The whole bytes at the front of a bit string, most significant first;
/// trailing bits that do not fill a byte are dropped.
pub open spec fn bs_bytes(b: BitStr) -> Seq<u8>
    decreases b.len,
{
    if b.len < 8 {
        Seq::<u8>::empty()
    } else {
        seq![(b.val / pow2((b.len - 8) as nat)) as u8] + bs_bytes(bs_tail(b))
    }
}

/// A bit string without its first byte.
pub open spec fn bs_tail(b: BitStr) -> BitStr {
    BitStr { val: b.val % pow2((b.len - 8) as nat), len: (b.len - 8) as nat }
}

/// Byte stuffing: a 0x00 byte is inserted after every 0xFF byte.
pub open spec fn stuff(s: Seq<u8>) -> Seq<u8>
    decreases s.len(),
{
    if s.len() == 0 {
        Seq::<u8>::empty()
    } else if s[0] == 0xFF {
        seq![0xFFu8, 0x00u8] + stuff(s.drop_first())
    } else {
        seq![s[0]] + stuff(s.drop_first())
    }
}

/// Every 0xFF byte is followed, within the sequence, by a 0x00 byte.
pub open spec fn stuffed_ok(s: Seq<u8>) -> bool {
    forall|i: int| 0 <= i < s.len() && #[trigger] s[i] == 0xFF ==> i + 1 < s.len() && s[i + 1]
        == 0x00
}

/// The bytes the sink emits when bit string `b` is written while `pend` is buffered.
pub open spec fn push_bytes(pend: BitStr, b: BitStr) -> Seq<u8> {
    stuff(bs_bytes(pend.concat(b)))
}

/// The bits still buffered after bit string `b` is written while `pend` was buffered.
pub open spec fn push_rem(pend: BitStr, b: BitStr) -> BitStr {
    pend.concat(b).rem()
}

/// Concatenation of well-formed bit strings is well formed.
pub proof fn lemma_concat_wf(a: BitStr, b: BitStr)
    requires
        a.wf(),
        b.wf(),
    ensures
        a.concat(b).wf(),
{
    lemma_pow2_adds(a.len, b.len);
    lemma_pow2_pos(b.len);
    lemma_mul_inequality(a.val as int, (pow2(a.len) - 1) as int, pow2(b.len) as int);
    assert((pow2(a.len) - 1) * pow2(b.len) == pow2(a.len) * pow2(b.len) - pow2(b.len))
        by (nonlinear_arith);
}

/// Concatenating the empty bit string changes nothing.
pub proof fn lemma_concat_empty(a: BitStr)
    ensures
        a.concat(BitStr::empty()) == a,
        BitStr::empty().concat(a) == a,
{
    lemma2_to64();
    assert(a.val * pow2(0) + 0 == a.val);
}

/// Concatenation of bit strings is associative.
pub proof fn lemma_concat_assoc(a: BitStr, b: BitStr, c: BitStr)
    ensures
        a.concat(b).concat(c) == a.concat(b.concat(c)),
{
    lemma_pow2_adds(b.len, c.len);
    assert((a.val * pow2(b.len) + b.val) * pow2(c.len) == a.val * pow2(b.len) * pow2(c.len)
        + b.val * pow2(c.len)) by (nonlinear_arith);
    assert(a.val * pow2(b.len) * pow2(c.len) == a.val * (pow2(b.len) * pow2(c.len)))
        by (nonlinear_arith);
}

/// Stuffed output never holds a 0xFF byte that is not followed by 0x00.
pub proof fn lemma_stuff_ok(s: Seq<u8>)
    ensures
        stuffed_ok(stuff(s)),
    decreases s.len(),
{
    if s.len() == 0 {
    } else {
        lemma_stuff_ok(s.drop_first());
        let head: Seq<u8> = if s[0] == 0xFF { seq![0xFFu8, 0x00u8] } else { seq![s[0]] };
        let rest = stuff(s.drop_first());
        assert(stuff(s) == head + rest);
        assert forall|i: int|
            0 <= i < stuff(s).len() && #[trigger] stuff(s)[i] == 0xFF implies i + 1 < stuff(
                s,
            ).len() && stuff(s)[i + 1] == 0x00 by {
            if i >= head.len() {
                assert(stuff(s)[i] == rest[i - head.len()]);
                assert(rest[i - head.len() + 1] == stuff(s)[i + 1]);
            }
        }
    }
}

/// Stuffing distributes over concatenation.
pub proof fn lemma_stuff_app(a: Seq<u8>, b: Seq<u8>)
    ensures
        stuff(a + b) == stuff(a) + stuff(b),
    decreases a.len(),
{
    if a.len() == 0 {
        assert(a + b =~= b);
        assert(stuff(a) + stuff(b) =~= stuff(b));
    } else {
        lemma_stuff_app(a.drop_first(), b);
        assert((a + b).drop_first() =~= a.drop_first() + b);
        let head: Seq<u8> = if a[0] == 0xFF { seq![0xFFu8, 0x00u8] } else { seq![a[0]] };
        assert((a + b)[0] == a[0]);
        assert(stuff(a + b) == head + stuff(a.drop_first() + b));
        assert(head + (stuff(a.drop_first()) + stuff(b)) =~= (head + stuff(a.drop_first()))
            + stuff(b));
    }
}

/// A sequence that satisfies the stuffing property never ends in 0xFF,
/// so gluing two such sequences keeps the property.
pub proof fn lemma_stuffed_ok_app(a: Seq<u8>, b: Seq<u8>)
    requires
        stuffed_ok(a),
        stuffed_ok(b),
    ensures
        stuffed_ok(a + b),
{
    assert forall|i: int| 0 <= i < (a + b).len() && #[trigger] (a + b)[i] == 0xFF implies i + 1 < (
        a + b).len() && (a + b)[i + 1] == 0x00 by {
        if i < a.len() {
            assert((a + b)[i] == a[i]);
            assert(a[i + 1] == (a + b)[i + 1]);
        } else {
            assert((a + b)[i] == b[i - a.len()]);
            assert(b[i - a.len() + 1] == (a + b)[i + 1]);
        }
    }
}

/// Dropping whole bytes from the front does not change the byte-boundary remainder.
pub proof fn lemma_rem_tail(z: BitStr)
    requires
        z.wf(),
        z.len >= 8,
    ensures
        bs_tail(z).wf(),
        bs_tail(z).rem() == z.rem(),
{
    let n = (z.len - 8) as nat;
    let r = z.len % 8;
    lemma_pow2_pos(n);
    assert(bs_tail(z).val < pow2(n)) by {
        vstd::arithmetic::div_mod::lemma_mod_bound(z.val as int, pow2(n) as int);
    }
    assert(n % 8 == r);
    // (z.val % 2^n) % 2^r == z.val % 2^r, because 2^r divides 2^n.
    lemma_pow2_adds(r, (n - r) as nat);
    lemma_pow2_pos(r);
    lemma_pow2_pos((n - r) as nat);
    assert(pow2(r) * pow2((n - r) as nat) == pow2(n));
    vstd::arithmetic::div_mod::lemma_mod_mod(z.val as int, pow2(r) as int, pow2((n - r) as nat) as int);
}

/// Splitting a concatenation at the first byte boundary: the first byte of
/// `x.concat(y)` is the first byte of `x` and the rest re-associates.
pub proof fn lemma_concat_tail(x: BitStr, y: BitStr)
    requires
        x.wf(),
        y.wf(),
        x.len >= 8,
    ensures
        x.concat(y).len >= 8,
        bs_tail(x.concat(y)) == bs_tail(x).concat(y),
        x.concat(y).val / pow2((x.concat(y).len - 8) as nat) == x.val / pow2((x.len - 8) as nat),
{
    let n = (x.len - 8) as nat;
    let d = pow2(n);
    let e = pow2(y.len);
    lemma_pow2_pos(n);
    lemma_pow2_pos(y.len);
    lemma_pow2_adds(n, y.len);
    let q = x.val / d;
    let r = x.val % d;
    vstd::arithmetic::div_mod::lemma_fundamental_div_mod(x.val as int, d as int);
    // x.concat(y).val == q * (d * e) + (r * e + y.val), with the remainder in range.
    assert(x.val * e + y.val == q * (d * e) + (r * e + y.val)) by (nonlinear_arith)
        requires x.val == q * d + r;
    assert(r * e + y.val < d * e) by (nonlinear_arith)
        requires r < d, y.val < e, d > 0, e > 0;
    assert(0 <= r * e + y.val) by (nonlinear_arith)
        requires r >= 0, e > 0, y.val >= 0;
    lemma_fundamental_div_mod_converse(
        (x.val * e + y.val) as int,
        (d * e) as int,
        q as int,
        (r * e + y.val) as int,
    );
    assert(pow2((x.concat(y).len - 8) as nat) == d * e);
}

/// Writing `x` and then `y` against the byte sink emits the same bytes and
/// leaves the same remainder as writing `x.concat(y)` at once.
pub proof fn lemma_bytes_split(x: BitStr, y: BitStr)
    requires
        x.wf(),
        y.wf(),
    ensures
        x.concat(y).wf(),
        bs_bytes(x.concat(y)) == bs_bytes(x) + bs_bytes(x.rem().concat(y)),
        x.concat(y).rem() == x.rem().concat(y).rem(),
    decreases x.len,
{
    lemma_concat_wf(x, y);
    if x.len < 8 {
        assert(x.rem() == x) by {
            lemma_small_mod(x.val, pow2(x.len));
        }
        assert(bs_bytes(x.concat(y)) =~= bs_bytes(x) + bs_bytes(x.rem().concat(y)));
    } else {
        lemma_rem_tail(x);
        lemma_concat_tail(x, y);
        lemma_bytes_split(bs_tail(x), y);
        let z = x.concat(y);
        assert(bs_bytes(z) == seq![(z.val / pow2((z.len - 8) as nat)) as u8] + bs_bytes(
            bs_tail(z),
        ));
        assert(bs_bytes(x) == seq![(x.val / pow2((x.len - 8) as nat)) as u8] + bs_bytes(
            bs_tail(x),
        ));
        assert(seq![(x.val / pow2((x.len - 8) as nat)) as u8] + (bs_bytes(bs_tail(x)) + bs_bytes(
            bs_tail(x).rem().concat(y),
        )) =~= (seq![(x.val / pow2((x.len - 8) as nat)) as u8] + bs_bytes(bs_tail(x))) + bs_bytes(
            x.rem().concat(y),
        ));
        // Remainders agree through the tail.
        if z.len >= 8 {
            lemma_rem_tail(z);
        }
    }
}

/// Pushing `a.concat(b)` equals pushing `a`, then pushing `b` against the
/// remainder that `a` left behind.
pub proof fn lemma_push_split(p: BitStr, a: BitStr, b: BitStr)
    requires
        p.wf(),
        a.wf(),
        b.wf(),
    ensures
        p.concat(a).wf(),
        push_rem(p, a).wf(),
        push_bytes(p, a.concat(b)) == push_bytes(p, a) + push_bytes(push_rem(p, a), b),
        push_rem(p, a.concat(b)) == push_rem(push_rem(p, a), b),
{
    lemma_concat_wf(p, a);
    let x = p.concat(a);
    assert(push_rem(p, a).wf()) by {
        lemma_pow2_pos(x.len % 8);
        vstd::arithmetic::div_mod::lemma_mod_bound(x.val as int, pow2(x.len % 8) as int);
    }
    lemma_concat_assoc(p, a, b);
    lemma_bytes_split(x, b);
    lemma_stuff_app(bs_bytes(x), bs_bytes(x.rem().concat(b)));
}

/// Pushing the empty bit string emits nothing and keeps the remainder, as
/// long as fewer than eight bits are buffered.
pub proof fn lemma_push_empty(p: BitStr)
    requires
        p.wf(),
        p.len < 8,
    ensures
        push_bytes(p, BitStr::empty()) == Seq::<u8>::empty(),
        push_rem(p, BitStr::empty()) == p,
{
    lemma_concat_empty(p);
    lemma_small_mod(p.val, pow2(p.len));
}


/// Splitting an accumulator that holds `n` buffered bits at its top: the top
/// byte and what is left below it.
pub proof fn lemma_acc_split(v: nat, n: nat)
    requires
        8 <= n <= 32,
        v < pow2(n),
    ensures
        v / pow2((n - 8) as nat) < 256,
        v * pow2((32 - n) as nat) == (v / pow2((n - 8) as nat)) * 0x1000000 + (v % pow2(
            (n - 8) as nat,
        )) * pow2((32 - n) as nat),
        (v % pow2((n - 8) as nat)) * pow2((32 - n) as nat) < 0x1000000,
        ((v % pow2((n - 8) as nat)) * pow2((32 - n) as nat)) * 256 == (v % pow2((n - 8) as nat))
            * pow2((32 - (n - 8)) as nat),
        v * pow2((32 - n) as nat) < pow2(32),
{
    let m = (n - 8) as nat;
    let q = v / pow2(m);
    let r = v % pow2(m);
    lemma_pow2_pos(m);
    lemma_pow2_pos((32 - n) as nat);
    vstd::arithmetic::div_mod::lemma_fundamental_div_mod(v as int, pow2(m) as int);
    vstd::arithmetic::div_mod::lemma_mod_bound(v as int, pow2(m) as int);
    lemma_pow2_adds(m, 8);
    lemma2_to64();
    assert(pow2(8) == 256);
    vstd::arithmetic::div_mod::lemma_multiply_divide_lt(v as int, pow2(m) as int, 256);
    lemma_pow2_adds(m, (32 - n) as nat);
    assert((pow2(m) * q + r) * pow2((32 - n) as nat) == q * (pow2(m) * pow2((32 - n) as nat)) + r
        * pow2((32 - n) as nat)) by (nonlinear_arith);
    assert(pow2(m) * pow2((32 - n) as nat) == pow2((24) as nat));
    assert(pow2(24) == 0x1000000);
    assert(r * pow2((32 - n) as nat) < pow2(m) * pow2((32 - n) as nat)) by (nonlinear_arith)
        requires
            r < pow2(m),
            pow2((32 - n) as nat) > 0,
    ;
    lemma_pow2_adds((32 - n) as nat, 8);
    assert((r * pow2((32 - n) as nat)) * 256 == r * (pow2((32 - n) as nat) * pow2(8)))
        by (nonlinear_arith)
        requires
            pow2(8) == 256,
    ;
    lemma_concat_wf(BitStr { val: q, len: 8 }, BitStr { val: r, len: m });
    assert(v * pow2((32 - n) as nat) == q * 0x1000000 + r * pow2((32 - n) as nat));
    assert(q * 0x1000000 + r * pow2((32 - n) as nat) < 256 * 0x1000000) by (nonlinear_arith)
        requires
            q < 256,
            r * pow2((32 - n) as nat) < 0x1000000,
            q >= 0,
    ;
    assert(pow2(32) == 0x100000000);
}

/// Inserting `s` fresh bits below `n` buffered bits at the top of a 32-bit
/// accumulator: the sum is the concatenated value, still top-aligned.
pub proof fn lemma_acc_insert(p: nat, n: nat, b: nat, s: nat)
    requires
        n < 8,
        1 <= s <= 16,
        p < pow2(n),
        b < pow2(s),
    ensures
        p * pow2(s) + b < pow2((n + s) as nat),
        p * pow2((32 - n) as nat) + b * pow2((32 - n - s) as nat) == (p * pow2(s) + b) * pow2(
            (32 - (n + s)) as nat,
        ),
        b * pow2((32 - n - s) as nat) < pow2((32 - n) as nat),
        p * pow2((32 - n) as nat) + b * pow2((32 - n - s) as nat) < pow2(32),
        (p * pow2((32 - n) as nat)) % pow2((32 - n) as nat) == 0,
        ((p * pow2(s) + b) * pow2((32 - (n + s)) as nat)) % pow2((32 - (n + s)) as nat) == 0,
{
    lemma_concat_wf(BitStr { val: p, len: n }, BitStr { val: b, len: s });
    lemma_pow2_pos(s);
    lemma_pow2_pos((32 - n) as nat);
    lemma_pow2_pos((32 - n - s) as nat);
    lemma_pow2_adds(s, (32 - n - s) as nat);
    assert((p * pow2(s) + b) * pow2((32 - (n + s)) as nat) == p * (pow2(s) * pow2(
        (32 - n - s) as nat,
    )) + b * pow2((32 - n - s) as nat)) by (nonlinear_arith);
    assert(b * pow2((32 - n - s) as nat) < pow2(s) * pow2((32 - n - s) as nat))
        by (nonlinear_arith)
        requires
            b < pow2(s),
            pow2((32 - n - s) as nat) > 0,
    ;
    lemma_pow2_adds((n + s) as nat, (32 - (n + s)) as nat);
    assert((p * pow2(s) + b) * pow2((32 - (n + s)) as nat) < pow2((n + s) as nat) * pow2(
        (32 - (n + s)) as nat,
    )) by (nonlinear_arith)
        requires
            p * pow2(s) + b < pow2((n + s) as nat),
            pow2((32 - (n + s)) as nat) > 0,
    ;
    vstd::arithmetic::div_mod::lemma_mod_multiples_vanish(p as int, 0, pow2((32 - n) as nat) as int);
    vstd::arithmetic::div_mod::lemma_mod_multiples_vanish(
        (p * pow2(s) + b) as int,
        0,
        pow2((32 - (n + s)) as nat) as int,
    );
    assert(pow2((32 - n) as nat) * p == p * pow2((32 - n) as nat)) by (nonlinear_arith);
    assert(pow2((32 - (n + s)) as nat) * (p * pow2(s) + b) == (p * pow2(s) + b) * pow2(
        (32 - (n + s)) as nat,
    )) by (nonlinear_arith);
}

/// A value aligned at the top of the accumulator is recovered by the
/// division that `pending` performs.
pub proof fn lemma_acc_aligned(v: nat, n: nat)
    requires
        n <= 32,
        v < pow2(n),
    ensures
        (v * pow2((32 - n) as nat)) / pow2((32 - n) as nat) == v,
        (v * pow2((32 - n) as nat)) % pow2((32 - n) as nat) == 0,
{
    lemma_pow2_pos((32 - n) as nat);
    lemma_fundamental_div_mod_converse(
        (v * pow2((32 - n) as nat)) as int,
        pow2((32 - n) as nat) as int,
        v as int,
        0,
    );
}

} // verus!

