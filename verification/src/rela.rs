//! Rela section: a flat array of relocation records with addends.

use crate::context::Context;
use crate::context::usize_at;
use crate::utils::{lemma_prefix_num, lemma_record_bounds, read_s};
use vstd::arithmetic::div_mod::lemma_fundamental_div_mod;
use vstd::prelude::*;

verus! {

/// Why a relocation table was rejected.
#[derive(Debug, Clone, PartialEq, Eq, Structural)]
pub enum ParseRelaError {
    /// The record layout could not be applied.
    BrokenEntry,
}

/// The byte width of a relocation record under context `c`.
pub open spec fn spec_relasize(c: Context) -> int {
    if c.spec_class() == crate::Class::Class32 {
        12
    } else {
        24
    }
}

/// The byte width of a relocation record under context `c`.
pub fn relasize_of(c: Context) -> (r: usize)
    ensures
        r == spec_relasize(c),
{
    if c.usize_bytes() == 4 {
        12
    } else {
        24
    }
}

/// A decoded relocation record with an explicit addend.
#[derive(Debug, Clone, Copy, PartialEq, Eq, Structural)]
pub struct RelaEntry {
    /// Where to apply the relocation.
    pub offset: u64,
    /// Symbol index and relocation type.
    pub info: u64,
    /// The constant addend.
    pub addend: u64,
}

/// The relocation record that the bytes of `b` at `off` spell under
/// context `c`.
pub open spec fn spec_rela_entry(c: Context, b: Seq<u8>, off: int) -> RelaEntry {
    let w = c.spec_usize_bytes();
    RelaEntry {
        offset: usize_at(c, b, off) as u64,
        info: usize_at(c, b, off + w) as u64,
        addend: usize_at(c, b, off + 2 * w) as u64,
    }
}

impl RelaEntry {
    /// Decodes the relocation record at `off`; nothing is validated
    /// here.
    pub fn decode(c: Context, data: &[u8], off: usize) -> (e: RelaEntry)
        requires
            off + spec_relasize(c) <= data@.len(),
        ensures
            e == spec_rela_entry(c, data@, off as int),
    {
        proof {
            vstd::slice::axiom_spec_len(data);
        }
        let w: usize = c.usize_bytes();
        RelaEntry {
            offset: crate::context::interpret_usize_at(c, data, off),
            info: crate::context::interpret_usize_at(c, data, off + w),
            addend: crate::context::interpret_usize_at(c, data, off + 2 * w),
        }
    }

    /// Where to apply the relocation.
    pub fn offset(&self) -> (r: u64)
        ensures
            r == self.offset,
    {
        self.offset
    }

    /// Symbol index and relocation type.
    pub fn info(&self) -> (r: u64)
        ensures
            r == self.info,
    {
        self.info
    }

    /// The constant addend.
    pub fn addend(&self) -> (r: u64)
        ensures
            r == self.addend,
    {
        self.addend
    }
}

/// A rela section's decoded view.
#[derive(Debug, Clone, Copy)]
pub struct Rela<'a> {
    /// The context the records are decoded under.
    pub ctx: Context,
    /// The table's bytes: a whole number of records.
    pub content: &'a [u8],
}

impl<'a> Rela<'a> {
    /// The view holds a whole number of records.
    pub open spec fn wf(self) -> bool {
        self.content@.len() as int % spec_relasize(self.ctx) == 0
    }

    /// The number of records in the view.
    pub open spec fn spec_num(self) -> int {
        self.content@.len() as int / spec_relasize(self.ctx)
    }

    /// Takes the longest whole-record prefix of a content slice as a
    /// relocation table; a trailing partial record is discarded silently, by
    /// design.
    pub fn parse(c: Context, content: &'a [u8]) -> (r: Result<Rela<'a>, ParseRelaError>)
        ensures
            match r {
                Ok(s) => {
                    &&& s.ctx == c
                    &&& s.content@ == content@.subrange(
                        0,
                        (content@.len() as int / spec_relasize(c)) * spec_relasize(c),
                    )
                    &&& s.wf()
                    &&& s.spec_num() == content@.len() as int / spec_relasize(c)
                },
                Err(_) => false,
            },
    {
        let size: usize = relasize_of(c);
        match read_s(content, size) {
            Some(prefix) => {
                proof {
                    lemma_prefix_num(content@.len() as int, spec_relasize(c));
                }
                Ok(Rela { ctx: c, content: prefix })
            },
            None => Err(ParseRelaError::BrokenEntry),
        }
    }

    /// The number of records.
    pub fn num(&self) -> (r: usize)
        requires
            self.wf(),
        ensures
            r == self.spec_num(),
    {
        proof {
            lemma_fundamental_div_mod(self.content@.len() as int, spec_relasize(self.ctx));
        }
        self.content.len() / relasize_of(self.ctx)
    }

    /// The record at `index`: absence when the index is out of range.
    pub fn entry(&self, index: usize) -> (r: Option<RelaEntry>)
        requires
            self.wf(),
        ensures
            match r {
                Some(e) => index < self.spec_num() && e == spec_rela_entry(
                    self.ctx,
                    self.content@,
                    index * spec_relasize(self.ctx),
                ),
                None => index >= self.spec_num(),
            },
    {
        let n: usize = self.num();
        if index >= n {
            return None;
        }
        proof {
            vstd::slice::axiom_spec_len(self.content);
            lemma_fundamental_div_mod(self.content@.len() as int, spec_relasize(self.ctx));
            assert(spec_relasize(self.ctx) * self.spec_num() == self.spec_num() * spec_relasize(
                self.ctx,
            )) by (nonlinear_arith);
            lemma_record_bounds(
                self.content@.len() as int,
                spec_relasize(self.ctx),
                self.spec_num(),
                index as int,
            );
        }
        Some(RelaEntry::decode(self.ctx, self.content, index * relasize_of(self.ctx)))
    }

    /// All records, in table order.
    pub fn entries(&self) -> (r: Vec<RelaEntry>)
        requires
            self.wf(),
        ensures
            r@.len() == self.spec_num(),
            forall|i: int|
                0 <= i < r@.len() ==> r@[i] == spec_rela_entry(
                    self.ctx,
                    self.content@,
                    i * spec_relasize(self.ctx),
                ),
    {
        let n: usize = self.num();
        let mut r: Vec<RelaEntry> = Vec::new();
        let mut i: usize = 0;
        while i < n
            invariant
                0 <= i <= n,
                n == self.spec_num(),
                self.wf(),
                r@.len() == i,
                forall|j: int|
                    0 <= j < i ==> r@[j] == spec_rela_entry(
                        self.ctx,
                        self.content@,
                        j * spec_relasize(self.ctx),
                    ),
            decreases n - i,
    {
            let e = self.entry(i).unwrap();
            r.push(e);
            i = i + 1;
        }
        r
    }
}

} // verus!
