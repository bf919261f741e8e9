//! Phdr segment: the program header table carried as a segment's
//! content, a flat array of program header records.

use crate::context::Context;
use crate::program::{phsize_of, spec_pheader, spec_phsize, ProgramHeader};
use crate::utils::{lemma_prefix_num, lemma_record_bounds, read_s};
use vstd::arithmetic::div_mod::lemma_fundamental_div_mod;
use vstd::prelude::*;

verus! {

/// Why a phdr segment was rejected.
#[derive(Debug, Clone, PartialEq, Eq, Structural)]
pub enum ParsePhdrError {
    /// The record layout could not be applied.
    BadArray,
}

/// A phdr segment's decoded view.
#[derive(Debug, Clone, Copy)]
pub struct Phdr<'a> {
    /// The context the records are decoded under.
    pub ctx: Context,
    /// The segment's bytes: a whole number of records.
    pub content: &'a [u8],
}

impl<'a> Phdr<'a> {
    /// The view holds a whole number of records.
    pub open spec fn wf(self) -> bool {
        self.content@.len() as int % spec_phsize(self.ctx) == 0
    }

    /// The number of records in the view.
    pub open spec fn spec_num(self) -> int {
        self.content@.len() as int / spec_phsize(self.ctx)
    }

    /// Takes the longest whole-record prefix of a content slice as a
    /// program header array; a trailing partial record is discarded
    /// silently, by design.
    pub fn parse(c: Context, content: &'a [u8]) -> (r: Result<Phdr<'a>, ParsePhdrError>)
        ensures
            match r {
                Ok(s) => {
                    &&& s.ctx == c
                    &&& s.content@ == content@.subrange(
                        0,
                        (content@.len() as int / spec_phsize(c)) * spec_phsize(c),
                    )
                    &&& s.wf()
                    &&& s.spec_num() == content@.len() as int / spec_phsize(c)
                },
                Err(_) => false,
            },
    {
        let size: usize = phsize_of(c);
        match read_s(content, size) {
            Some(prefix) => {
                proof {
                    lemma_prefix_num(content@.len() as int, spec_phsize(c));
                }
                Ok(Phdr { ctx: c, content: prefix })
            },
            None => Err(ParsePhdrError::BadArray),
        }
    }

    /// The number of records.
    pub fn num(&self) -> (r: usize)
        requires
            self.wf(),
        ensures
            r == self.spec_num(),
    {
        proof {
            lemma_fundamental_div_mod(self.content@.len() as int, spec_phsize(self.ctx));
        }
        self.content.len() / phsize_of(self.ctx)
    }

    /// The record at `index`: absence when the index is out of range.
    pub fn entry(&self, index: usize) -> (r: Option<ProgramHeader>)
        requires
            self.wf(),
        ensures
            match r {
                Some(e) => index < self.spec_num() && e == spec_pheader(
                    self.ctx,
                    self.content@,
                    index * spec_phsize(self.ctx),
                ),
                None => index >= self.spec_num(),
            },
    {
        let n: usize = self.num();
        if index >= n {
            return None;
        }
        proof {
            vstd::slice::axiom_spec_len(self.content);
            lemma_fundamental_div_mod(self.content@.len() as int, spec_phsize(self.ctx));
            assert(spec_phsize(self.ctx) * self.spec_num() == self.spec_num() * spec_phsize(
                self.ctx,
            )) by (nonlinear_arith);
            lemma_record_bounds(
                self.content@.len() as int,
                spec_phsize(self.ctx),
                self.spec_num(),
                index as int,
            );
        }
        Some(ProgramHeader::decode(self.ctx, self.content, index * phsize_of(self.ctx)))
    }

    /// All records, in table order.
    pub fn entries(&self) -> (r: Vec<ProgramHeader>)
        requires
            self.wf(),
        ensures
            r@.len() == self.spec_num(),
            forall|i: int|
                0 <= i < r@.len() ==> r@[i] == spec_pheader(
                    self.ctx,
                    self.content@,
                    i * spec_phsize(self.ctx),
                ),
    {
        let n: usize = self.num();
        let mut r: Vec<ProgramHeader> = Vec::new();
        let mut i: usize = 0;
        while i < n
            invariant
                0 <= i <= n,
                n == self.spec_num(),
                self.wf(),
                r@.len() == i,
                forall|j: int|
                    0 <= j < i ==> r@[j] == spec_pheader(
                        self.ctx,
                        self.content@,
                        j * spec_phsize(self.ctx),
                    ),
            decreases n - i,
        {
            let e = self.entry(i).unwrap();
            r.push(e);
            i = i + 1;
        }
        r
    }
}

} // verus!
