//! Symbol table: a flat array of symbol records.

use crate::context::{uint_at, usize_at, Context};
use crate::utils::{lemma_prefix_num, lemma_record_bounds, read_s};
use crate::Class;
use vstd::arithmetic::div_mod::lemma_fundamental_div_mod;
use vstd::prelude::*;
use vstd::slice::slice_index_get;

verus! {

/// Why a symbol table was rejected.
#[derive(Debug, Clone, PartialEq, Eq, Structural)]
pub enum ParseSymtabError {
    /// The record layout could not be applied.
    BrokenEntry,
}

/// The byte width of a symbol record under context `c`.
pub open spec fn spec_symsize(c: Context) -> int {
    if c.spec_class() == Class::Class32 {
        16
    } else {
        24
    }
}

/// The byte width of a symbol record under context `c`.
pub fn symsize_of(c: Context) -> (r: usize)
    ensures
        r == spec_symsize(c),
{
    if c.usize_bytes() == 4 {
        16
    } else {
        24
    }
}

/// A decoded symbol record.  The two classes lay the fields out in a
/// different order; decoding hides that.
#[derive(Debug, Clone, Copy, PartialEq, Eq, Structural)]
pub struct SymtabEntry {
    /// Index of the symbol's name in the linked string table.
    pub name: u32,
    /// The symbol's value.
    pub value: u64,
    /// The symbol's size.
    pub size: u64,
    /// Binding and type information.
    pub info: u8,
    /// Visibility.
    pub other: u8,
    /// Index of the section the symbol belongs to.
    pub shndx: u16,
}

/// The symbol record that the bytes of `b` at `off` spell under context
/// `c`.
pub open spec fn spec_symtab_entry(c: Context, b: Seq<u8>, off: int) -> SymtabEntry {
    let d = c.spec_data();
    if c.spec_class() == Class::Class32 {
        SymtabEntry {
            name: uint_at(d, b, off, 4) as u32,
            value: usize_at(c, b, off + 4) as u64,
            size: usize_at(c, b, off + 8) as u64,
            info: b[off + 12],
            other: b[off + 13],
            shndx: uint_at(d, b, off + 14, 2) as u16,
        }
    } else {
        SymtabEntry {
            name: uint_at(d, b, off, 4) as u32,
            info: b[off + 4],
            other: b[off + 5],
            shndx: uint_at(d, b, off + 6, 2) as u16,
            value: usize_at(c, b, off + 8) as u64,
            size: usize_at(c, b, off + 16) as u64,
        }
    }
}

impl SymtabEntry {
    /// Decodes the symbol record at `off`; nothing is validated here.
    pub fn decode(c: Context, data: &[u8], off: usize) -> (e: SymtabEntry)
        requires
            off + spec_symsize(c) <= data@.len(),
        ensures
            e == spec_symtab_entry(c, data@, off as int),
    {
        proof {
            vstd::slice::axiom_spec_len(data);
        }
        let d = c.data();
        if c.usize_bytes() == 4 {
            SymtabEntry {
                name: crate::context::interpret_u32_at(d, data, off),
                value: crate::context::interpret_usize_at(c, data, off + 4),
                size: crate::context::interpret_usize_at(c, data, off + 8),
                info: *slice_index_get(data, off + 12),
                other: *slice_index_get(data, off + 13),
                shndx: crate::context::interpret_u16_at(d, data, off + 14),
            }
        } else {
            SymtabEntry {
                name: crate::context::interpret_u32_at(d, data, off),
                info: *slice_index_get(data, off + 4),
                other: *slice_index_get(data, off + 5),
                shndx: crate::context::interpret_u16_at(d, data, off + 6),
                value: crate::context::interpret_usize_at(c, data, off + 8),
                size: crate::context::interpret_usize_at(c, data, off + 16),
            }
        }
    }

    /// Index of the symbol's name in the linked string table.
    pub fn name(&self) -> (r: u32)
        ensures
            r == self.name,
    {
        self.name
    }

    /// The symbol's value.
    pub fn value(&self) -> (r: u64)
        ensures
            r == self.value,
    {
        self.value
    }

    /// The symbol's size.
    pub fn size(&self) -> (r: u64)
        ensures
            r == self.size,
    {
        self.size
    }

    /// Binding and type information.
    pub fn info(&self) -> (r: u8)
        ensures
            r == self.info,
    {
        self.info
    }

    /// Visibility.
    pub fn other(&self) -> (r: u8)
        ensures
            r == self.other,
    {
        self.other
    }

    /// Index of the section the symbol belongs to.
    pub fn shndx(&self) -> (r: u16)
        ensures
            r == self.shndx,
    {
        self.shndx
    }
}

/// A symbol table section's decoded view.
#[derive(Debug, Clone, Copy)]
pub struct Symtab<'a> {
    /// The context the records are decoded under.
    pub ctx: Context,
    /// The table's bytes: a whole number of records.
    pub content: &'a [u8],
}

impl<'a> Symtab<'a> {
    /// The view holds a whole number of records.
    pub open spec fn wf(self) -> bool {
        self.content@.len() as int % spec_symsize(self.ctx) == 0
    }

    /// The number of records in the view.
    pub open spec fn spec_num(self) -> int {
        self.content@.len() as int / spec_symsize(self.ctx)
    }

    /// Takes the longest whole-record prefix of a content slice as a
    /// symbol table; a trailing partial record is discarded silently, by
    /// design.
    pub fn parse(c: Context, content: &'a [u8]) -> (r: Result<Symtab<'a>, ParseSymtabError>)
        ensures
            match r {
                Ok(s) => {
                    &&& s.ctx == c
                    &&& s.content@ == content@.subrange(
                        0,
                        (content@.len() as int / spec_symsize(c)) * spec_symsize(c),
                    )
                    &&& s.wf()
                    &&& s.spec_num() == content@.len() as int / spec_symsize(c)
                },
                Err(_) => false,
            },
    {
        let size: usize = symsize_of(c);
        match read_s(content, size) {
            Some(prefix) => {
                proof {
                    lemma_prefix_num(content@.len() as int, spec_symsize(c));
                }
                Ok(Symtab { ctx: c, content: prefix })
            },
            None => Err(ParseSymtabError::BrokenEntry),
        }
    }

    /// The number of records.
    pub fn num(&self) -> (r: usize)
        requires
            self.wf(),
        ensures
            r == self.spec_num(),
    {
        proof {
            lemma_fundamental_div_mod(self.content@.len() as int, spec_symsize(self.ctx));
        }
        self.content.len() / symsize_of(self.ctx)
    }

    /// The record at `index`: absence when the index is out of range.
    pub fn entry(&self, index: usize) -> (r: Option<SymtabEntry>)
        requires
            self.wf(),
        ensures
            match r {
                Some(e) => index < self.spec_num() && e == spec_symtab_entry(
                    self.ctx,
                    self.content@,
                    index * spec_symsize(self.ctx),
                ),
                None => index >= self.spec_num(),
            },
    {
        let n: usize = self.num();
        if index >= n {
            return None;
        }
        proof {
            vstd::slice::axiom_spec_len(self.content);
            lemma_fundamental_div_mod(self.content@.len() as int, spec_symsize(self.ctx));
            assert(spec_symsize(self.ctx) * self.spec_num() == self.spec_num() * spec_symsize(
                self.ctx,
            )) by (nonlinear_arith);
            lemma_record_bounds(
                self.content@.len() as int,
                spec_symsize(self.ctx),
                self.spec_num(),
                index as int,
            );
        }
        Some(SymtabEntry::decode(self.ctx, self.content, index * symsize_of(self.ctx)))
    }

    /// All records, in table order.
    pub fn entries(&self) -> (r: Vec<SymtabEntry>)
        requires
            self.wf(),
        ensures
            r@.len() == self.spec_num(),
            forall|i: int|
                0 <= i < r@.len() ==> r@[i] == spec_symtab_entry(
                    self.ctx,
                    self.content@,
                    i * spec_symsize(self.ctx),
                ),
    {
        let n: usize = self.num();
        let mut r: Vec<SymtabEntry> = Vec::new();
        let mut i: usize = 0;
        while i < n
            invariant
                0 <= i <= n,
                n == self.spec_num(),
                self.wf(),
                r@.len() == i,
                forall|j: int|
                    0 <= j < i ==> r@[j] == spec_symtab_entry(
                        self.ctx,
                        self.content@,
                        j * spec_symsize(self.ctx),
                    ),
            decreases n - i,
        {
            let e = self.entry(i).unwrap();
            r.push(e);
            i = i + 1;
        }
        r
    }
}

} // verus!
