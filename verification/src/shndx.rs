//! Extended section indices: a flat array of 32-bit overflow indices.

use crate::context::{uint_at, Context};
use crate::utils::{lemma_prefix_num, lemma_record_bounds, read_s};
use vstd::arithmetic::div_mod::lemma_fundamental_div_mod;
use vstd::prelude::*;

verus! {

/// Why a shndx section was rejected.
#[derive(Debug, Clone, PartialEq, Eq, Structural)]
pub enum ParseShndxError {
    /// The record layout could not be applied.
    BadArray,
}

/// The byte width of a shndx record: four, in every context.
pub open spec fn spec_shndxsize() -> int {
    4
}

/// A decoded shndx record: one 32-bit section index.
#[derive(Debug, Clone, Copy, PartialEq, Eq, Structural)]
pub struct ShndxEntry {
    /// The full section index of the matching symbol.
    pub value: u32,
}

/// The shndx record that the bytes of `b` at `off` spell under context
/// `c`.
pub open spec fn spec_shndx_entry(c: Context, b: Seq<u8>, off: int) -> ShndxEntry {
    ShndxEntry { value: uint_at(c.spec_data(), b, off, 4) as u32 }
}

impl ShndxEntry {
    /// Decodes the shndx record at `off`; nothing is validated here.
    pub fn decode(c: Context, data: &[u8], off: usize) -> (e: ShndxEntry)
        requires
            off + spec_shndxsize() <= data@.len(),
        ensures
            e == spec_shndx_entry(c, data@, off as int),
    {
        proof {
            vstd::slice::axiom_spec_len(data);
        }
        ShndxEntry { value: crate::context::interpret_u32_at(c.data(), data, off) }
    }

    /// The full section index of the matching symbol.
    pub fn value(&self) -> (r: u32)
        ensures
            r == self.value,
    {
        self.value
    }
}

/// A shndx section's decoded view.
#[derive(Debug, Clone, Copy)]
pub struct Shndx<'a> {
    /// The context the records are decoded under.
    pub ctx: Context,
    /// The table's bytes: a whole number of records.
    pub content: &'a [u8],
}

impl<'a> Shndx<'a> {
    /// The view holds a whole number of records.
    pub open spec fn wf(self) -> bool {
        self.content@.len() as int % spec_shndxsize() == 0
    }

    /// The number of records in the view.
    pub open spec fn spec_num(self) -> int {
        self.content@.len() as int / spec_shndxsize()
    }

    /// Takes the longest whole-record prefix of a content slice as a
    /// shndx section; a trailing partial record is discarded silently,
    /// by design.
    pub fn parse(c: Context, content: &'a [u8]) -> (r: Result<Shndx<'a>, ParseShndxError>)
        ensures
            match r {
                Ok(s) => {
                    &&& s.ctx == c
                    &&& s.content@ == content@.subrange(
                        0,
                        (content@.len() as int / spec_shndxsize()) * spec_shndxsize(),
                    )
                    &&& s.wf()
                    &&& s.spec_num() == content@.len() as int / spec_shndxsize()
                },
                Err(_) => false,
            },
    {
        match read_s(content, 4) {
            Some(prefix) => {
                proof {
                    lemma_prefix_num(content@.len() as int, spec_shndxsize());
                }
                Ok(Shndx { ctx: c, content: prefix })
            },
            None => Err(ParseShndxError::BadArray),
        }
    }

    /// The number of records.
    pub fn num(&self) -> (r: usize)
        requires
            self.wf(),
        ensures
            r == self.spec_num(),
    {
        proof {
            lemma_fundamental_div_mod(self.content@.len() as int, spec_shndxsize());
        }
        self.content.len() / 4
    }

    /// The record at `index`: absence when the index is out of range.
    pub fn entry(&self, index: usize) -> (r: Option<ShndxEntry>)
        requires
            self.wf(),
        ensures
            match r {
                Some(e) => index < self.spec_num() && e == spec_shndx_entry(
                    self.ctx,
                    self.content@,
                    index * spec_shndxsize(),
                ),
                None => index >= self.spec_num(),
            },
    {
        let n: usize = self.num();
        if index >= n {
            return None;
        }
        proof {
            vstd::slice::axiom_spec_len(self.content);
            lemma_fundamental_div_mod(self.content@.len() as int, spec_shndxsize());
            assert(spec_shndxsize() * self.spec_num() == self.spec_num() * spec_shndxsize())
                by (nonlinear_arith);
            lemma_record_bounds(
                self.content@.len() as int,
                spec_shndxsize(),
                self.spec_num(),
                index as int,
            );
        }
        Some(ShndxEntry::decode(self.ctx, self.content, index * 4))
    }

    /// All records, in table order.
    pub fn entries(&self) -> (r: Vec<ShndxEntry>)
        requires
            self.wf(),
        ensures
            r@.len() == self.spec_num(),
            forall|i: int|
                0 <= i < r@.len() ==> r@[i] == spec_shndx_entry(
                    self.ctx,
                    self.content@,
                    i * spec_shndxsize(),
                ),
    {
        let n: usize = self.num();
        let mut r: Vec<ShndxEntry> = Vec::new();
        let mut i: usize = 0;
        while i < n
            invariant
                0 <= i <= n,
                n == self.spec_num(),
                self.wf(),
                r@.len() == i,
                forall|j: int|
                    0 <= j < i ==> r@[j] == spec_shndx_entry(
                        self.ctx,
                        self.content@,
                        j * spec_shndxsize(),
                    ),
            decreases n - i,
        {
            let e = self.entry(i).unwrap();
            r.push(e);
            i = i + 1;
        }
        r
    }
}

} // verus!
