//! Hash section: a bucket array and a chain array sized by a small
//! header.
//!
//! Trailing bytes after the two arrays are accepted deliberately: real
//! producers disagree on whether the section is trimmed to exactly the
//! consumed length, and this decoder takes the tolerant reading.

use crate::context::{uint_at, Context};
use crate::utils::read_n;
use vstd::prelude::*;

verus! {

/// Why a hash section was rejected.
#[derive(Debug, Clone, PartialEq, Eq, Structural)]
pub enum ParseHashError {
    /// The content does not hold the two-field header.
    BrokenHeader,
    /// The bucket array lies outside the content.
    BrokenBuckets,
    /// The chain array lies outside the content.
    BrokenChains,
}

/// The decoded hash-section header: the two array lengths.
#[derive(Debug, Clone, Copy, PartialEq, Eq, Structural)]
pub struct HashHeader {
    /// Number of bucket entries.
    pub nbuckets: u32,
    /// Number of chain entries.
    pub nchains: u32,
}

impl HashHeader {
    /// Number of bucket entries.
    pub fn nbuckets(&self) -> (r: u32)
        ensures
            r == self.nbuckets,
    {
        self.nbuckets
    }

    /// Number of chain entries.
    pub fn nchains(&self) -> (r: u32)
        ensures
            r == self.nchains,
    {
        self.nchains
    }
}

/// One bucket entry: a symbol table index.
#[derive(Debug, Clone, Copy, PartialEq, Eq, Structural)]
pub struct HashBucketEntry {
    /// The entry's value.
    pub value: u32,
}

impl HashBucketEntry {
    /// The entry's value.
    pub fn value(&self) -> (r: u32)
        ensures
            r == self.value,
    {
        self.value
    }
}

/// One chain entry: the next symbol table index of the chain.
#[derive(Debug, Clone, Copy, PartialEq, Eq, Structural)]
pub struct HashChainEntry {
    /// The entry's value.
    pub value: u32,
}

impl HashChainEntry {
    /// The entry's value.
    pub fn value(&self) -> (r: u32)
        ensures
            r == self.value,
    {
        self.value
    }
}

/// The outcome hash-section decoding owes the content `b`: the two array
/// lengths, or the first failing bounds check.
pub open spec fn spec_parse_hash(c: Context, b: Seq<u8>) -> Result<HashHeader, ParseHashError> {
    let d = c.spec_data();
    if b.len() < 8 {
        Err(ParseHashError::BrokenHeader)
    } else {
        let nb = uint_at(d, b, 0, 4);
        let nc = uint_at(d, b, 4, 4);
        if 8 + 4 * nb > b.len() {
            Err(ParseHashError::BrokenBuckets)
        } else if 8 + 4 * nb + 4 * nc > b.len() {
            Err(ParseHashError::BrokenChains)
        } else {
            Ok(HashHeader { nbuckets: nb as u32, nchains: nc as u32 })
        }
    }
}

/// A hash section's decoded view.
#[derive(Debug, Clone, Copy)]
pub struct Hash<'a> {
    /// The context the entries are decoded under.
    pub ctx: Context,
    /// The bucket array's bytes.
    pub buckets: &'a [u8],
    /// The chain array's bytes.
    pub chains: &'a [u8],
}

impl<'a> Hash<'a> {
    /// Both views hold a whole number of 32-bit entries.
    pub open spec fn wf(self) -> bool {
        &&& self.buckets@.len() as int % 4 == 0
        &&& self.chains@.len() as int % 4 == 0
    }

    /// Decodes a content slice as a hash section: the header's two
    /// counts size the bucket and chain arrays that follow it; trailing
    /// bytes are accepted.
    pub fn parse(c: Context, content: &'a [u8]) -> (r: Result<Hash<'a>, ParseHashError>)
        ensures
            match r {
                Ok(h) => {
                    &&& spec_parse_hash(c, content@) matches Ok(hdr)
                    &&& h.ctx == c
                    &&& h.buckets@ == content@.subrange(
                        8,
                        8 + 4 * uint_at(c.spec_data(), content@, 0, 4),
                    )
                    &&& h.chains@ == content@.subrange(
                        8 + 4 * uint_at(c.spec_data(), content@, 0, 4),
                        8 + 4 * uint_at(c.spec_data(), content@, 0, 4) + 4 * uint_at(
                            c.spec_data(),
                            content@,
                            4,
                            4,
                        ),
                    )
                    &&& h.wf()
                },
                Err(e) => spec_parse_hash(c, content@) == Err::<HashHeader, ParseHashError>(e),
            },
    {
        let d = c.data();
        if content.len() < 8 {
            return Err(ParseHashError::BrokenHeader);
        }
        let nb: u32 = crate::context::interpret_u32_at(d, content, 0);
        let nc: u32 = crate::context::interpret_u32_at(d, content, 4);
        let buckets = match read_n(content, 8, 4, nb as usize) {
            Some(s) => s,
            None => {
                return Err(ParseHashError::BrokenBuckets);
            },
        };
        let chains = match read_n(content, 8 + buckets.len(), 4, nc as usize) {
            Some(s) => s,
            None => {
                return Err(ParseHashError::BrokenChains);
            },
        };
        proof {
            vstd::arithmetic::div_mod::lemma_mod_multiples_basic(nb as int, 4);
            vstd::arithmetic::div_mod::lemma_mod_multiples_basic(nc as int, 4);
            assert(buckets@.len() as int % 4 == 0);
            assert(chains@.len() as int % 4 == 0);
        }
        Ok(Hash { ctx: c, buckets, chains })
    }

    /// All bucket entries, in order.
    pub fn buckets(&self) -> (r: Vec<HashBucketEntry>)
        requires
            self.wf(),
        ensures
            r@.len() == self.buckets@.len() as int / 4,
            forall|i: int|
                0 <= i < r@.len() ==> r@[i].value == uint_at(
                    self.ctx.spec_data(),
                    self.buckets@,
                    4 * i,
                    4,
                ),
    {
        let values = decode_u32_array(self.ctx, self.buckets);
        let mut r: Vec<HashBucketEntry> = Vec::new();
        let mut i: usize = 0;
        while i < values.len()
            invariant
                0 <= i <= values@.len(),
                r@.len() == i,
                forall|j: int| 0 <= j < i ==> r@[j].value == values@[j],
            decreases values@.len() - i,
        {
            r.push(HashBucketEntry { value: values[i] });
            i = i + 1;
        }
        proof {
            assert forall|k: int| 0 <= k < r@.len() implies r@[k].value == uint_at(
                self.ctx.spec_data(),
                self.buckets@,
                4 * k,
                4,
            ) by {
                assert(r@[k].value == values@[k]);
            }
        }
        r
    }

    /// All chain entries, in order.
    pub fn chains(&self) -> (r: Vec<HashChainEntry>)
        requires
            self.wf(),
        ensures
            r@.len() == self.chains@.len() as int / 4,
            forall|i: int|
                0 <= i < r@.len() ==> r@[i].value == uint_at(
                    self.ctx.spec_data(),
                    self.chains@,
                    4 * i,
                    4,
                ),
    {
        let values = decode_u32_array(self.ctx, self.chains);
        let mut r: Vec<HashChainEntry> = Vec::new();
        let mut i: usize = 0;
        while i < values.len()
            invariant
                0 <= i <= values@.len(),
                r@.len() == i,
                forall|j: int| 0 <= j < i ==> r@[j].value == values@[j],
            decreases values@.len() - i,
        {
            r.push(HashChainEntry { value: values[i] });
            i = i + 1;
        }
        proof {
            assert forall|k: int| 0 <= k < r@.len() implies r@[k].value == uint_at(
                self.ctx.spec_data(),
                self.chains@,
                4 * k,
                4,
            ) by {
                assert(r@[k].value == values@[k]);
            }
        }
        r
    }
}

/// Decodes a whole slice of 32-bit entries.
fn decode_u32_array(c: Context, data: &[u8]) -> (r: Vec<u32>)
    requires
        data@.len() as int % 4 == 0,
    ensures
        r@.len() == data@.len() as int / 4,
        forall|i: int|
            0 <= i < r@.len() ==> r@[i] == uint_at(c.spec_data(), data@, 4 * i, 4),
{
    let d = c.data();
    let n: usize = data.len() / 4;
    proof {
        vstd::slice::axiom_spec_len(data);
        vstd::arithmetic::div_mod::lemma_fundamental_div_mod(data@.len() as int, 4);
    }
    let mut r: Vec<u32> = Vec::new();
    let mut i: usize = 0;
    while i < n
        invariant
            0 <= i <= n,
            n == data@.len() as int / 4,
            data@.len() == 4 * n,
            r@.len() == i,
            forall|j: int| 0 <= j < i ==> r@[j] == uint_at(c.spec_data(), data@, 4 * j, 4),
            d == c.spec_data(),
            data@.len() <= usize::MAX,
        decreases n - i,
    {
        proof {
            assert(4 * (i + 1) <= data@.len());
        }
        r.push(crate::context::interpret_u32_at(d, data, 4 * i));
        i = i + 1;
    }
    r
}

/// One step of the ELF hash: fold the next name byte into the running
/// value.
pub open spec fn spec_hash_step(r: u32, x: u8) -> u32 {
    let s = ((((r as u64) << 4) + (x as u64)) % 0x1_0000_0000) as u32;
    let g = s & 0xf000_0000;
    let s2 = if g != 0 {
        s ^ (g >> 24)
    } else {
        s
    };
    s2 & !g
}

/// The ELF hash of a name: the fold of [`spec_hash_step`] over its bytes
/// in order.
pub open spec fn spec_elf_hash(s: Seq<u8>) -> u32
    decreases s.len(),
{
    if s.len() == 0 {
        0
    } else {
        spec_hash_step(spec_elf_hash(s.drop_last()), s.last())
    }
}

/// The ELF hash function over a symbol name.
pub fn hash(name: &[u8]) -> (r: u32)
    ensures
        r == spec_elf_hash(name@),
{
    let mut r: u32 = 0;
    let mut i: usize = 0;
    while i < name.len()
        invariant
            0 <= i <= name@.len(),
            r == spec_elf_hash(name@.subrange(0, i as int)),
        decreases name@.len() - i,
    {
        proof {
            assert(name@.subrange(0, i + 1).drop_last() =~= name@.subrange(0, i as int));
            assert(name@.subrange(0, i + 1).last() == name@[i as int]);
        }
        let x: u8 = *vstd::slice::slice_index_get(name, i);
        proof {
            let r64 = r as u64;
            assert((r64 << 4) <= 0xF_FFFF_FFF0u64) by (bit_vector)
                requires
                    r64 <= 0xFFFF_FFFFu64,
            ;
        }
        let t: u64 = (((r as u64) << 4) + (x as u64)) % 0x1_0000_0000;
        let s: u32 = t as u32;
        let g: u32 = s & 0xf000_0000;
        let s2: u32 = if g != 0 {
            s ^ (g >> 24)
        } else {
            s
        };
        r = s2 & !g;
        i = i + 1;
    }
    proof {
        assert(name@.subrange(0, name@.len() as int) =~= name@);
    }
    r
}

} // verus!
