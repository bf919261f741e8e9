//! Rel section: a flat array of relocation records without addends.

use crate::context::Context;
use crate::context::usize_at;
use crate::utils::{lemma_prefix_num, lemma_record_bounds, read_s};
use vstd::arithmetic::div_mod::lemma_fundamental_div_mod;
use vstd::prelude::*;

verus! {

/// Why a relocation table was rejected.
#[derive(Debug, Clone, PartialEq, Eq, Structural)]
pub enum ParseRelError {
    /// The record layout could not be applied.
    BrokenEntry,
}

/// The byte width of a relocation record under context `c`.
pub open spec fn spec_relsize(c: Context) -> int {
    if c.spec_class() == crate::Class::Class32 {
        8
    } else {
        16
    }
}

/// The byte width of a relocation record under context `c`.
pub fn relsize_of(c: Context) -> (r: usize)
    ensures
        r == spec_relsize(c),
{
    if c.usize_bytes() == 4 {
        8
    } else {
        16
    }
}

/// A decoded relocation record without addend.
#[derive(Debug, Clone, Copy, PartialEq, Eq, Structural)]
pub struct RelEntry {
    /// Where to apply the relocation.
    pub offset: u64,
    /// Symbol index and relocation type.
    pub info: u64,
}

/// The relocation record that the bytes of `b` at `off` spell under
/// context `c`.
pub open spec fn spec_rel_entry(c: Context, b: Seq<u8>, off: int) -> RelEntry {
    let w = c.spec_usize_bytes();
    RelEntry {
        offset: usize_at(c, b, off) as u64,
        info: usize_at(c, b, off + w) as u64,
    }
}

impl RelEntry {
    /// Decodes the relocation record at `off`; nothing is validated
    /// here.
    pub fn decode(c: Context, data: &[u8], off: usize) -> (e: RelEntry)
        requires
            off + spec_relsize(c) <= data@.len(),
        ensures
            e == spec_rel_entry(c, data@, off as int),
    {
        proof {
            vstd::slice::axiom_spec_len(data);
        }
        let w: usize = c.usize_bytes();
        RelEntry {
            offset: crate::context::interpret_usize_at(c, data, off),
            info: crate::context::interpret_usize_at(c, data, off + w),
        }
    }

    /// Where to apply the relocation.
    pub fn offset(&self) -> (r: u64)
        ensures
            r == self.offset,
    {
        self.offset
    }

    /// Symbol index and relocation type.
    pub fn info(&self) -> (r: u64)
        ensures
            r == self.info,
    {
        self.info
    }
}

/// A rel section's decoded view.
#[derive(Debug, Clone, Copy)]
pub struct Rel<'a> {
    /// The context the records are decoded under.
    pub ctx: Context,
    /// The table's bytes: a whole number of records.
    pub content: &'a [u8],
}

impl<'a> Rel<'a> {
    /// The view holds a whole number of records.
    pub open spec fn wf(self) -> bool {
        self.content@.len() as int % spec_relsize(self.ctx) == 0
    }

    /// The number of records in the view.
    pub open spec fn spec_num(self) -> int {
        self.content@.len() as int / spec_relsize(self.ctx)
    }

    /// Takes the longest whole-record prefix of a content slice as a
    /// relocation table; a trailing partial record is discarded silently, by
    /// design.
    pub fn parse(c: Context, content: &'a [u8]) -> (r: Result<Rel<'a>, ParseRelError>)
        ensures
            match r {
                Ok(s) => {
                    &&& s.ctx == c
                    &&& s.content@ == content@.subrange(
                        0,
                        (content@.len() as int / spec_relsize(c)) * spec_relsize(c),
                    )
                    &&& s.wf()
                    &&& s.spec_num() == content@.len() as int / spec_relsize(c)
                },
                Err(_) => false,
            },
    {
        let size: usize = relsize_of(c);
        match read_s(content, size) {
            Some(prefix) => {
                proof {
                    lemma_prefix_num(content@.len() as int, spec_relsize(c));
                }
                Ok(Rel { ctx: c, content: prefix })
            },
            None => Err(ParseRelError::BrokenEntry),
        }
    }

    /// The number of records.
    pub fn num(&self) -> (r: usize)
        requires
            self.wf(),
        ensures
            r == self.spec_num(),
    {
        proof {
            lemma_fundamental_div_mod(self.content@.len() as int, spec_relsize(self.ctx));
        }
        self.content.len() / relsize_of(self.ctx)
    }

    /// The record at `index`: absence when the index is out of range.
    pub fn entry(&self, index: usize) -> (r: Option<RelEntry>)
        requires
            self.wf(),
        ensures
            match r {
                Some(e) => index < self.spec_num() && e == spec_rel_entry(
                    self.ctx,
                    self.content@,
                    index * spec_relsize(self.ctx),
                ),
                None => index >= self.spec_num(),
            },
    {
        let n: usize = self.num();
        if index >= n {
            return None;
        }
        proof {
            vstd::slice::axiom_spec_len(self.content);
            lemma_fundamental_div_mod(self.content@.len() as int, spec_relsize(self.ctx));
            assert(spec_relsize(self.ctx) * self.spec_num() == self.spec_num() * spec_relsize(
                self.ctx,
            )) by (nonlinear_arith);
            lemma_record_bounds(
                self.content@.len() as int,
                spec_relsize(self.ctx),
                self.spec_num(),
                index as int,
            );
        }
        Some(RelEntry::decode(self.ctx, self.content, index * relsize_of(self.ctx)))
    }

    /// All records, in table order.
    pub fn entries(&self) -> (r: Vec<RelEntry>)
        requires
            self.wf(),
        ensures
            r@.len() == self.spec_num(),
            forall|i: int|
                0 <= i < r@.len() ==> r@[i] == spec_rel_entry(
                    self.ctx,
                    self.content@,
                    i * spec_relsize(self.ctx),
                ),
    {
        let n: usize = self.num();
        let mut r: Vec<RelEntry> = Vec::new();
        let mut i: usize = 0;
        while i < n
            invariant
                0 <= i <= n,
                n == self.spec_num(),
                self.wf(),
                r@.len() == i,
                forall|j: int|
                    0 <= j < i ==> r@[j] == spec_rel_entry(
                        self.ctx,
                        self.content@,
                        j * spec_relsize(self.ctx),
                    ),
            decreases n - i,
    {
            let e = self.entry(i).unwrap();
            r.push(e);
            i = i + 1;
        }
        r
    }
}

} // verus!
