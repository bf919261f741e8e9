//! Array section: init, fini and preinit arrays of address-sized entries.

use crate::context::Context;
use crate::context::usize_at;
use crate::utils::{lemma_prefix_num, lemma_record_bounds, read_s};
use vstd::arithmetic::div_mod::lemma_fundamental_div_mod;
use vstd::prelude::*;

verus! {

/// Why an array section was rejected.
#[derive(Debug, Clone, PartialEq, Eq, Structural)]
pub enum ParseArrayError {
    /// The record layout could not be applied.
    BadArray,
}

/// The byte width of an array entry under context `c`.
pub open spec fn spec_arraysize(c: Context) -> int {
    if c.spec_class() == crate::Class::Class32 {
        4
    } else {
        8
    }
}

/// The byte width of an array entry under context `c`.
pub fn arraysize_of(c: Context) -> (r: usize)
    ensures
        r == spec_arraysize(c),
{
    if c.usize_bytes() == 4 {
        4
    } else {
        8
    }
}

/// A decoded array entry: one address-sized value.
#[derive(Debug, Clone, Copy, PartialEq, Eq, Structural)]
pub struct ArrayEntry {
    /// One address-sized entry.
    pub value: u64,
}

/// The array entry that the bytes of `b` at `off` spell under context
/// `c`.
pub open spec fn spec_array_entry(c: Context, b: Seq<u8>, off: int) -> ArrayEntry {
    ArrayEntry {
        value: usize_at(c, b, off) as u64,
    }
}

impl ArrayEntry {
    /// Decodes the array entry at `off`; nothing is validated here.
    pub fn decode(c: Context, data: &[u8], off: usize) -> (e: ArrayEntry)
        requires
            off + spec_arraysize(c) <= data@.len(),
        ensures
            e == spec_array_entry(c, data@, off as int),
    {
        proof {
            vstd::slice::axiom_spec_len(data);
        }
        ArrayEntry {
            value: crate::context::interpret_usize_at(c, data, off),
        }
    }

    /// One address-sized entry.
    pub fn value(&self) -> (r: u64)
        ensures
            r == self.value,
    {
        self.value
    }
}

/// An array section's decoded view.
#[derive(Debug, Clone, Copy)]
pub struct Array<'a> {
    /// The context the records are decoded under.
    pub ctx: Context,
    /// The table's bytes: a whole number of records.
    pub content: &'a [u8],
}

impl<'a> Array<'a> {
    /// The view holds a whole number of records.
    pub open spec fn wf(self) -> bool {
        self.content@.len() as int % spec_arraysize(self.ctx) == 0
    }

    /// The number of records in the view.
    pub open spec fn spec_num(self) -> int {
        self.content@.len() as int / spec_arraysize(self.ctx)
    }

    /// Takes the longest whole-record prefix of a content slice as an
    /// array section; a trailing partial record is discarded silently, by
    /// design.
    pub fn parse(c: Context, content: &'a [u8]) -> (r: Result<Array<'a>, ParseArrayError>)
        ensures
            match r {
                Ok(s) => {
                    &&& s.ctx == c
                    &&& s.content@ == content@.subrange(
                        0,
                        (content@.len() as int / spec_arraysize(c)) * spec_arraysize(c),
                    )
                    &&& s.wf()
                    &&& s.spec_num() == content@.len() as int / spec_arraysize(c)
                },
                Err(_) => false,
            },
    {
        let size: usize = arraysize_of(c);
        match read_s(content, size) {
            Some(prefix) => {
                proof {
                    lemma_prefix_num(content@.len() as int, spec_arraysize(c));
                }
                Ok(Array { ctx: c, content: prefix })
            },
            None => Err(ParseArrayError::BadArray),
        }
    }

    /// The number of records.
    pub fn num(&self) -> (r: usize)
        requires
            self.wf(),
        ensures
            r == self.spec_num(),
    {
        proof {
            lemma_fundamental_div_mod(self.content@.len() as int, spec_arraysize(self.ctx));
        }
        self.content.len() / arraysize_of(self.ctx)
    }

    /// The record at `index`: absence when the index is out of range.
    pub fn entry(&self, index: usize) -> (r: Option<ArrayEntry>)
        requires
            self.wf(),
        ensures
            match r {
                Some(e) => index < self.spec_num() && e == spec_array_entry(
                    self.ctx,
                    self.content@,
                    index * spec_arraysize(self.ctx),
                ),
                None => index >= self.spec_num(),
            },
    {
        let n: usize = self.num();
        if index >= n {
            return None;
        }
        proof {
            vstd::slice::axiom_spec_len(self.content);
            lemma_fundamental_div_mod(self.content@.len() as int, spec_arraysize(self.ctx));
            assert(spec_arraysize(self.ctx) * self.spec_num() == self.spec_num() * spec_arraysize(
                self.ctx,
            )) by (nonlinear_arith);
            lemma_record_bounds(
                self.content@.len() as int,
                spec_arraysize(self.ctx),
                self.spec_num(),
                index as int,
            );
        }
        Some(ArrayEntry::decode(self.ctx, self.content, index * arraysize_of(self.ctx)))
    }

    /// All records, in table order.
    pub fn entries(&self) -> (r: Vec<ArrayEntry>)
        requires
            self.wf(),
        ensures
            r@.len() == self.spec_num(),
            forall|i: int|
                0 <= i < r@.len() ==> r@[i] == spec_array_entry(
                    self.ctx,
                    self.content@,
                    i * spec_arraysize(self.ctx),
                ),
    {
        let n: usize = self.num();
        let mut r: Vec<ArrayEntry> = Vec::new();
        let mut i: usize = 0;
        while i < n
            invariant
                0 <= i <= n,
                n == self.spec_num(),
                self.wf(),
                r@.len() == i,
                forall|j: int|
                    0 <= j < i ==> r@[j] == spec_array_entry(
                        self.ctx,
                        self.content@,
                        j * spec_arraysize(self.ctx),
                    ),
            decreases n - i,
    {
            let e = self.entry(i).unwrap();
            r.push(e);
            i = i + 1;
        }
        r
    }
}

} // verus!
