//! Byte-order and address-width context.
//!
//! A [`Context`] is one of the four closed combinations of class
//! (32/64 bit) and data encoding (little/big endian), version fixed at
//! one.  It is selected once from a buffer's identification bytes and then
//! drives every multi-byte integer decode for that buffer, so a single
//! code path serves all four physical layouts.

use crate::{Class, Data, Version};
use vstd::arithmetic::div_mod::lemma_fundamental_div_mod;
use vstd::prelude::*;
use vstd::slice::slice_subrange;

verus! {

/// A parsing context: address width and byte order, version one.
#[derive(Debug, Clone, Copy, PartialEq, Eq, Structural)]
pub enum Context {
    /// Little endian, 32 bit, version 1.
    Little32,
    /// Little endian, 64 bit, version 1.
    Little64,
    /// Big endian, 32 bit, version 1.
    Big32,
    /// Big endian, 64 bit, version 1.
    Big64,
}

impl Context {
    /// The class of this context.
    pub open spec fn spec_class(self) -> Class {
        match self {
            Context::Little32 | Context::Big32 => Class::Class32,
            Context::Little64 | Context::Big64 => Class::Class64,
        }
    }

    /// The data encoding of this context.
    pub open spec fn spec_data(self) -> Data {
        match self {
            Context::Little32 | Context::Little64 => Data::Little,
            Context::Big32 | Context::Big64 => Data::Big,
        }
    }

    /// The class of this context.
    pub fn class(self) -> (r: Class)
        ensures
            r == self.spec_class(),
    {
        match self {
            Context::Little32 | Context::Big32 => Class::Class32,
            Context::Little64 | Context::Big64 => Class::Class64,
        }
    }

    /// The data encoding of this context.
    pub fn data(self) -> (r: Data)
        ensures
            r == self.spec_data(),
    {
        match self {
            Context::Little32 | Context::Little64 => Data::Little,
            Context::Big32 | Context::Big64 => Data::Big,
        }
    }

    /// The version of this context; every context is version one.
    pub fn version(self) -> (r: Version)
        ensures
            r == Version::One,
    {
        Version::One
    }

    /// The physical width in bytes of an address-sized field.
    pub open spec fn spec_usize_bytes(self) -> int {
        if self.spec_class() == Class::Class32 {
            4
        } else {
            8
        }
    }

    /// The physical width in bytes of an address-sized field.
    pub fn usize_bytes(self) -> (r: usize)
        ensures
            r == self.spec_usize_bytes(),
    {
        match self {
            Context::Little32 | Context::Big32 => 4,
            Context::Little64 | Context::Big64 => 8,
        }
    }

    /// The context a class and a data encoding select.
    pub fn from_class_data(class: Class, data: Data) -> (r: Context)
        ensures
            r.spec_class() == class,
            r.spec_data() == data,
    {
        match (class, data) {
            (Class::Class32, Data::Little) => Context::Little32,
            (Class::Class64, Data::Little) => Context::Little64,
            (Class::Class32, Data::Big) => Context::Big32,
            (Class::Class64, Data::Big) => Context::Big64,
        }
    }
}

/// `256^n`: the number of values a field of `n` bytes can carry.
pub open spec fn pow256(n: nat) -> int
    decreases n,
{
    if n == 0 {
        1
    } else {
        256 * pow256((n - 1) as nat)
    }
}

/// The unsigned integer the bytes `b` spell in little-endian order.
pub open spec fn dec_le(b: Seq<u8>) -> int
    decreases b.len(),
{
    if b.len() == 0 {
        0
    } else {
        b[0] + 256 * dec_le(b.drop_first())
    }
}

/// The unsigned integer the bytes `b` spell in big-endian order.
pub open spec fn dec_be(b: Seq<u8>) -> int
    decreases b.len(),
{
    if b.len() == 0 {
        0
    } else {
        b.last() + 256 * dec_be(b.drop_last())
    }
}

/// The unsigned integer the bytes `b` spell under the data encoding `d`.
pub open spec fn spec_uint(d: Data, b: Seq<u8>) -> int {
    if d == Data::Little {
        dec_le(b)
    } else {
        dec_be(b)
    }
}

/// The integer decoded from `n` bytes of `b` starting at `off`.
pub open spec fn uint_at(d: Data, b: Seq<u8>, off: int, n: int) -> int {
    spec_uint(d, b.subrange(off, off + n))
}

/// The address-sized integer decoded from `b` at `off` under context `c`.
pub open spec fn usize_at(c: Context, b: Seq<u8>, off: int) -> int {
    uint_at(c.spec_data(), b, off, c.spec_usize_bytes())
}

/// The `n` bytes that spell `v` in little-endian order.
pub open spec fn enc_le(v: int, n: nat) -> Seq<u8>
    decreases n,
{
    if n == 0 {
        Seq::empty()
    } else {
        seq![(v % 256) as u8] + enc_le(v / 256, (n - 1) as nat)
    }
}

/// The `n` bytes that spell `v` under the data encoding `d`.
pub open spec fn spec_uint_bytes(d: Data, v: int, n: nat) -> Seq<u8> {
    if d == Data::Little {
        enc_le(v, n)
    } else {
        enc_le(v, n).reverse()
    }
}

/// `n` bytes decode to a value below `256^n`.
pub proof fn lemma_dec_le_bound(b: Seq<u8>)
    ensures
        0 <= dec_le(b) < pow256(b.len()),
    decreases b.len(),
{
    if b.len() > 0 {
        lemma_dec_le_bound(b.drop_first());
    }
}

/// `n` bytes decode to a value below `256^n`.
pub proof fn lemma_dec_be_bound(b: Seq<u8>)
    ensures
        0 <= dec_be(b) < pow256(b.len()),
    decreases b.len(),
{
    if b.len() > 0 {
        lemma_dec_be_bound(b.drop_last());
    }
}

/// `n` bytes decode to a value below `256^n`, whatever the byte order.
pub proof fn lemma_uint_bound(d: Data, b: Seq<u8>)
    ensures
        0 <= spec_uint(d, b) < pow256(b.len()),
{
    lemma_dec_le_bound(b);
    lemma_dec_be_bound(b);
}

/// A field of any width can carry at least one value.
pub proof fn lemma_pow256_pos(n: nat)
    ensures
        pow256(n) >= 1,
    decreases n,
{
    if n > 0 {
        lemma_pow256_pos((n - 1) as nat);
    }
}

/// Wider fields can carry every narrower field's value.
pub proof fn lemma_pow256_mono(m: nat, n: nat)
    requires
        m <= n,
    ensures
        pow256(m) <= pow256(n),
    decreases n,
{
    if m < n && n > 0 {
        lemma_pow256_mono(m, (n - 1) as nat);
        lemma_pow256_pos((n - 1) as nat);
    }
}

/// The field widths this format uses, as plain numbers.
pub proof fn lemma_pow256_values()
    ensures
        pow256(0) == 1,
        pow256(1) == 0x100,
        pow256(2) == 0x10000,
        pow256(4) == 0x1_0000_0000,
        pow256(8) == 0x1_0000_0000_0000_0000,
{
    reveal_with_fuel(pow256, 9);
}

/// Encoding yields exactly `n` bytes.
pub proof fn lemma_enc_le_len(v: int, n: nat)
    ensures
        enc_le(v, n).len() == n,
    decreases n,
{
    if n > 0 {
        lemma_enc_le_len(v / 256, (n - 1) as nat);
    }
}

/// Little-endian round trip: decoding the encoding of an in-range value
/// gives the value back.
pub proof fn lemma_dec_enc_le(v: int, n: nat)
    requires
        0 <= v < pow256(n),
    ensures
        dec_le(enc_le(v, n)) == v,
    decreases n,
{
    if n > 0 {
        let b = enc_le(v, n);
        lemma_fundamental_div_mod(v, 256);
        let q = v / 256;
        let p = pow256((n - 1) as nat);
        assert(q < p) by (nonlinear_arith)
            requires
                256 * q + v % 256 < 256 * p,
                v % 256 >= 0,
        ;
        lemma_dec_enc_le(q, (n - 1) as nat);
        assert(b.drop_first() =~= enc_le(q, (n - 1) as nat));
        assert(b[0] == (v % 256) as u8);
    }
}

/// Reading bytes back to front in big-endian order mirrors the
/// little-endian reading.
pub proof fn lemma_dec_be_reverse(b: Seq<u8>)
    ensures
        dec_be(b.reverse()) == dec_le(b),
    decreases b.len(),
{
    if b.len() == 0 {
        assert(b.reverse() =~= Seq::<u8>::empty());
    } else {
        lemma_dec_be_reverse(b.drop_first());
        assert(b.reverse().len() == b.len());
        assert(b.reverse().last() == b[0]);
        assert(b.reverse().drop_last() =~= b.drop_first().reverse());
    }
}

/// Round trip under either byte order: decoding the encoding of an
/// in-range value gives the value back.
pub proof fn lemma_uint_round_trip(d: Data, v: int, n: nat)
    requires
        0 <= v < pow256(n),
    ensures
        spec_uint(d, spec_uint_bytes(d, v, n)) == v,
        spec_uint_bytes(d, v, n).len() == n,
{
    lemma_enc_le_len(v, n);
    lemma_dec_enc_le(v, n);
    if d != Data::Little {
        lemma_dec_be_reverse(enc_le(v, n));
    }
}

/// Decodes up to eight bytes as one unsigned integer under the data
/// encoding `d`.
pub fn interpret_uint(d: Data, b: &[u8]) -> (r: u64)
    requires
        1 <= b@.len() <= 8,
    ensures
        r == spec_uint(d, b@),
{
    proof {
        lemma_pow256_values();
    }
    match d {
        Data::Little => {
            let mut r: u64 = 0;
            let mut i: usize = b.len();
            while i > 0
                invariant
                    0 <= i <= b@.len() <= 8,
                    r == dec_le(b@.subrange(i as int, b@.len() as int)),
                    r < pow256((b@.len() - i) as nat),
                    pow256(8) == 0x1_0000_0000_0000_0000,
                decreases i,
            {
                proof {
                    lemma_pow256_mono((b@.len() - i + 1) as nat, 8);
                    assert(b@.subrange(i - 1, b@.len() as int).drop_first() =~= b@.subrange(
                        i as int,
                        b@.len() as int,
                    ));
                }
                i = i - 1;
                r = r * 256 + (*vstd::slice::slice_index_get(b, i)) as u64;
            }
            proof {
                assert(b@.subrange(0, b@.len() as int) =~= b@);
            }
            r
        },
        Data::Big => {
            let mut r: u64 = 0;
            let mut i: usize = 0;
            while i < b.len()
                invariant
                    0 <= i <= b@.len() <= 8,
                    r == dec_be(b@.subrange(0, i as int)),
                    r < pow256(i as nat),
                    pow256(8) == 0x1_0000_0000_0000_0000,
                decreases b@.len() - i,
            {
                proof {
                    lemma_pow256_mono((i + 1) as nat, 8);
                    assert(b@.subrange(0, i + 1).drop_last() =~= b@.subrange(0, i as int));
                    assert(b@.subrange(0, i + 1).last() == b@[i as int]);
                }
                r = r * 256 + (*vstd::slice::slice_index_get(b, i)) as u64;
                i = i + 1;
            }
            proof {
                assert(b@.subrange(0, b@.len() as int) =~= b@);
            }
            r
        },
    }
}

/// Decodes a two-byte field under the data encoding `d`.
pub fn interpret_u16(d: Data, b: &[u8]) -> (r: u16)
    requires
        b@.len() == 2,
    ensures
        r == spec_uint(d, b@),
{
    proof {
        lemma_uint_bound(d, b@);
        lemma_pow256_values();
    }
    interpret_uint(d, b) as u16
}

/// Decodes a four-byte field under the data encoding `d`.
pub fn interpret_u32(d: Data, b: &[u8]) -> (r: u32)
    requires
        b@.len() == 4,
    ensures
        r == spec_uint(d, b@),
{
    proof {
        lemma_uint_bound(d, b@);
        lemma_pow256_values();
    }
    interpret_uint(d, b) as u32
}

/// Decodes an eight-byte field under the data encoding `d`.
pub fn interpret_u64(d: Data, b: &[u8]) -> (r: u64)
    requires
        b@.len() == 8,
    ensures
        r == spec_uint(d, b@),
{
    interpret_uint(d, b)
}

/// Reads the two-byte field at `off` of the record `rec`.
pub fn interpret_u16_at(d: Data, rec: &[u8], off: usize) -> (r: u16)
    requires
        off + 2 <= rec@.len(),
    ensures
        r == uint_at(d, rec@, off as int, 2),
{
    proof {
        vstd::slice::axiom_spec_len(rec);
    }
    interpret_u16(d, slice_subrange(rec, off, off + 2))
}

/// Reads the four-byte field at `off` of the record `rec`.
pub fn interpret_u32_at(d: Data, rec: &[u8], off: usize) -> (r: u32)
    requires
        off + 4 <= rec@.len(),
    ensures
        r == uint_at(d, rec@, off as int, 4),
{
    proof {
        vstd::slice::axiom_spec_len(rec);
    }
    interpret_u32(d, slice_subrange(rec, off, off + 4))
}

/// Reads the eight-byte field at `off` of the record `rec`.
pub fn interpret_u64_at(d: Data, rec: &[u8], off: usize) -> (r: u64)
    requires
        off + 8 <= rec@.len(),
    ensures
        r == uint_at(d, rec@, off as int, 8),
{
    proof {
        vstd::slice::axiom_spec_len(rec);
    }
    interpret_u64(d, slice_subrange(rec, off, off + 8))
}

/// Reads the address-sized field at `off` of the record `rec`; under a
/// 32-bit context the value always fits 32 bits.
pub fn interpret_usize_at(c: Context, rec: &[u8], off: usize) -> (r: u64)
    requires
        off + c.spec_usize_bytes() <= rec@.len(),
    ensures
        r == usize_at(c, rec@, off as int),
        c.spec_class() == Class::Class32 ==> r < 0x1_0000_0000,
{
    proof {
        lemma_pow256_values();
    }
    if c.usize_bytes() == 4 {
        proof {
            lemma_uint_bound(c.spec_data(), rec@.subrange(off as int, off + 4));
        }
        interpret_u32_at(c.data(), rec, off) as u64
    } else {
        interpret_u64_at(c.data(), rec, off)
    }
}

} // verus!
