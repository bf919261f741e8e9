//! Dynamic section or segment: a flat array of tag/value pairs.

use crate::context::{usize_at, Context};
use crate::utils::{lemma_prefix_num, lemma_record_bounds, read_s};
use vstd::arithmetic::div_mod::lemma_fundamental_div_mod;
use vstd::prelude::*;

verus! {

/// Why a dynamic table was rejected.
#[derive(Debug, Clone, PartialEq, Eq, Structural)]
pub enum ParseDynamicError {
    /// The record layout could not be applied.
    BadArray,
}

/// The byte width of a dynamic record under context `c`.
pub open spec fn spec_dynsize(c: Context) -> int {
    2 * c.spec_usize_bytes()
}

/// The byte width of a dynamic record under context `c`.
pub fn dynsize_of(c: Context) -> (r: usize)
    ensures
        r == spec_dynsize(c),
{
    2 * c.usize_bytes()
}

/// A decoded dynamic record: a tag and its value.
#[derive(Debug, Clone, Copy, PartialEq, Eq, Structural)]
pub struct DynamicEntry {
    /// The tag, raw.
    pub tag: u64,
    /// The tag's value: an integer or an address, as the tag decides.
    pub un: u64,
}

/// The dynamic record that the bytes of `b` at `off` spell under context
/// `c`.
pub open spec fn spec_dynamic_entry(c: Context, b: Seq<u8>, off: int) -> DynamicEntry {
    let w = c.spec_usize_bytes();
    DynamicEntry { tag: usize_at(c, b, off) as u64, un: usize_at(c, b, off + w) as u64 }
}

impl DynamicEntry {
    /// Decodes the dynamic record at `off`; nothing is validated here.
    pub fn decode(c: Context, data: &[u8], off: usize) -> (e: DynamicEntry)
        requires
            off + spec_dynsize(c) <= data@.len(),
        ensures
            e == spec_dynamic_entry(c, data@, off as int),
    {
        proof {
            vstd::slice::axiom_spec_len(data);
        }
        let w: usize = c.usize_bytes();
        DynamicEntry {
            tag: crate::context::interpret_usize_at(c, data, off),
            un: crate::context::interpret_usize_at(c, data, off + w),
        }
    }

    /// The decoded tag.  The tag numbering is the same in both classes,
    /// so the 64-bit tag type serves every context; under a 32-bit
    /// context the raw value fits 32 bits.
    pub fn tag(&self) -> (r: DynamicTag64)
        ensures
            r == DynamicTag64::spec_from_u64(self.tag),
    {
        DynamicTag64::from_u64(self.tag)
    }

    /// The tag's value.
    pub fn un(&self) -> (r: u64)
        ensures
            r == self.un,
    {
        self.un
    }
}

/// A dynamic table's decoded view.
#[derive(Debug, Clone, Copy)]
pub struct Dynamic<'a> {
    /// The context the records are decoded under.
    pub ctx: Context,
    /// The table's bytes: a whole number of records.
    pub content: &'a [u8],
}

impl<'a> Dynamic<'a> {
    /// The view holds a whole number of records.
    pub open spec fn wf(self) -> bool {
        self.content@.len() as int % spec_dynsize(self.ctx) == 0
    }

    /// The number of records in the view.
    pub open spec fn spec_num(self) -> int {
        self.content@.len() as int / spec_dynsize(self.ctx)
    }

    /// Takes the longest whole-record prefix of a content slice as a
    /// dynamic table; a trailing partial record is discarded silently,
    /// by design.
    pub fn parse(c: Context, content: &'a [u8]) -> (r: Result<Dynamic<'a>, ParseDynamicError>)
        ensures
            match r {
                Ok(s) => {
                    &&& s.ctx == c
                    &&& s.content@ == content@.subrange(
                        0,
                        (content@.len() as int / spec_dynsize(c)) * spec_dynsize(c),
                    )
                    &&& s.wf()
                    &&& s.spec_num() == content@.len() as int / spec_dynsize(c)
                },
                Err(_) => false,
            },
    {
        let size: usize = dynsize_of(c);
        match read_s(content, size) {
            Some(prefix) => {
                proof {
                    let len = content@.len() as int;
                    let sz = spec_dynsize(c);
                    lemma_prefix_num(len, sz);
                    lemma_fundamental_div_mod(len, sz);
                    assert((len / sz) * sz == sz * (len / sz)) by (nonlinear_arith);
                    assert(prefix@.len() == (len / sz) * sz);
                }
                Ok(Dynamic { ctx: c, content: prefix })
            },
            None => Err(ParseDynamicError::BadArray),
        }
    }

    /// The number of records.
    pub fn num(&self) -> (r: usize)
        requires
            self.wf(),
        ensures
            r == self.spec_num(),
    {
        proof {
            lemma_fundamental_div_mod(self.content@.len() as int, spec_dynsize(self.ctx));
        }
        self.content.len() / dynsize_of(self.ctx)
    }

    /// The record at `index`: absence when the index is out of range.
    pub fn entry(&self, index: usize) -> (r: Option<DynamicEntry>)
        requires
            self.wf(),
        ensures
            match r {
                Some(e) => index < self.spec_num() && e == spec_dynamic_entry(
                    self.ctx,
                    self.content@,
                    index * spec_dynsize(self.ctx),
                ),
                None => index >= self.spec_num(),
            },
    {
        let n: usize = self.num();
        if index >= n {
            return None;
        }
        proof {
            vstd::slice::axiom_spec_len(self.content);
            lemma_fundamental_div_mod(self.content@.len() as int, spec_dynsize(self.ctx));
            assert(spec_dynsize(self.ctx) * self.spec_num() == self.spec_num() * spec_dynsize(
                self.ctx,
            )) by (nonlinear_arith);
            lemma_record_bounds(
                self.content@.len() as int,
                spec_dynsize(self.ctx),
                self.spec_num(),
                index as int,
            );
        }
        Some(DynamicEntry::decode(self.ctx, self.content, index * dynsize_of(self.ctx)))
    }

    /// All records, in table order.
    pub fn entries(&self) -> (r: Vec<DynamicEntry>)
        requires
            self.wf(),
        ensures
            r@.len() == self.spec_num(),
            forall|i: int|
                0 <= i < r@.len() ==> r@[i] == spec_dynamic_entry(
                    self.ctx,
                    self.content@,
                    i * spec_dynsize(self.ctx),
                ),
    {
        let n: usize = self.num();
        let mut r: Vec<DynamicEntry> = Vec::new();
        let mut i: usize = 0;
        while i < n
            invariant
                0 <= i <= n,
                n == self.spec_num(),
                self.wf(),
                r@.len() == i,
                forall|j: int|
                    0 <= j < i ==> r@[j] == spec_dynamic_entry(
                        self.ctx,
                        self.content@,
                        j * spec_dynsize(self.ctx),
                    ),
            decreases n - i,
        {
            let e = self.entry(i).unwrap();
            r.push(e);
            i = i + 1;
        }
        r
    }
}

/// A dynamic tag under a 32-bit context.  Every field value maps to a
/// tag; values outside the named set and the two reserved ranges are
/// kept as `NonStandard`.
#[derive(Debug, Clone, Copy, PartialEq, Eq, Structural)]
pub enum DynamicTag32 {
    /// Tag value 0.
    Null,
    /// Tag value 1.
    Needed,
    /// Tag value 2.
    PltRelSize,
    /// Tag value 3.
    PltGot,
    /// Tag value 4.
    Hash,
    /// Tag value 5.
    Strtab,
    /// Tag value 6.
    Symtab,
    /// Tag value 7.
    Rela,
    /// Tag value 8.
    RelaSize,
    /// Tag value 9.
    RelaEnt,
    /// Tag value 10.
    StrSize,
    /// Tag value 11.
    SymEnt,
    /// Tag value 12.
    Init,
    /// Tag value 13.
    Fini,
    /// Tag value 14.
    SoName,
    /// Tag value 15.
    RPath,
    /// Tag value 16.
    Symbolic,
    /// Tag value 17.
    Rel,
    /// Tag value 18.
    RelSize,
    /// Tag value 19.
    RelEnt,
    /// Tag value 20.
    PltRel,
    /// Tag value 21.
    Debug,
    /// Tag value 22.
    TextRel,
    /// Tag value 23.
    JmpRel,
    /// Tag value 24.
    BindNow,
    /// Tag value 25.
    InitArray,
    /// Tag value 26.
    FiniArray,
    /// Tag value 27.
    InitArraySize,
    /// Tag value 28.
    FiniArraySize,
    /// Tag value 29.
    RunPath,
    /// Tag value 30.
    Flags,
    /// Tag value 32.
    PreInitArray,
    /// Tag value 33.
    PreInitArraySize,
    /// Tag value 34.
    SymtabShndx,
    /// Operating system-specific.
    OsSpecific(u32),
    /// Processor-specific.
    ProcessorSpecific(u32),
    /// Outside the named set and the reserved ranges.
    NonStandard(u32),
}

impl DynamicTag32 {
    /// The meaning of a dynamic tag field value.
    pub open spec fn spec_from_u32(value: u32) -> DynamicTag32 {
        if value == 0 {
            DynamicTag32::Null
        } else 
if value == 1 {
            DynamicTag32::Needed
        } else 
if value == 2 {
            DynamicTag32::PltRelSize
        } else 
if value == 3 {
            DynamicTag32::PltGot
        } else 
if value == 4 {
            DynamicTag32::Hash
        } else 
if value == 5 {
            DynamicTag32::Strtab
        } else 
if value == 6 {
            DynamicTag32::Symtab
        } else 
if value == 7 {
            DynamicTag32::Rela
        } else 
if value == 8 {
            DynamicTag32::RelaSize
        } else 
if value == 9 {
            DynamicTag32::RelaEnt
        } else 
if value == 10 {
            DynamicTag32::StrSize
        } else 
if value == 11 {
            DynamicTag32::SymEnt
        } else 
if value == 12 {
            DynamicTag32::Init
        } else 
if value == 13 {
            DynamicTag32::Fini
        } else 
if value == 14 {
            DynamicTag32::SoName
        } else 
if value == 15 {
            DynamicTag32::RPath
        } else 
if value == 16 {
            DynamicTag32::Symbolic
        } else 
if value == 17 {
            DynamicTag32::Rel
        } else 
if value == 18 {
            DynamicTag32::RelSize
        } else 
if value == 19 {
            DynamicTag32::RelEnt
        } else 
if value == 20 {
            DynamicTag32::PltRel
        } else 
if value == 21 {
            DynamicTag32::Debug
        } else 
if value == 22 {
            DynamicTag32::TextRel
        } else 
if value == 23 {
            DynamicTag32::JmpRel
        } else 
if value == 24 {
            DynamicTag32::BindNow
        } else 
if value == 25 {
            DynamicTag32::InitArray
        } else 
if value == 26 {
            DynamicTag32::FiniArray
        } else 
if value == 27 {
            DynamicTag32::InitArraySize
        } else 
if value == 28 {
            DynamicTag32::FiniArraySize
        } else 
if value == 29 {
            DynamicTag32::RunPath
        } else 
if value == 30 {
            DynamicTag32::Flags
        } else 
if value == 32 {
            DynamicTag32::PreInitArray
        } else 
if value == 33 {
            DynamicTag32::PreInitArraySize
        } else 
if value == 34 {
            DynamicTag32::SymtabShndx
        } else if 0x6000000D <= value && value <= 0x6FFFF000 {
            DynamicTag32::OsSpecific(value)
        } else if 0x70000000 <= value && value <= 0x7FFFFFFF {
            DynamicTag32::ProcessorSpecific(value)
        } else {
            DynamicTag32::NonStandard(value)
        }
    }

    /// Decodes a dynamic tag field value.
    pub fn from_u32(value: u32) -> (r: DynamicTag32)
        ensures
            r == DynamicTag32::spec_from_u32(value),
    {
        match value {
            0 => DynamicTag32::Null,
            1 => DynamicTag32::Needed,
            2 => DynamicTag32::PltRelSize,
            3 => DynamicTag32::PltGot,
            4 => DynamicTag32::Hash,
            5 => DynamicTag32::Strtab,
            6 => DynamicTag32::Symtab,
            7 => DynamicTag32::Rela,
            8 => DynamicTag32::RelaSize,
            9 => DynamicTag32::RelaEnt,
            10 => DynamicTag32::StrSize,
            11 => DynamicTag32::SymEnt,
            12 => DynamicTag32::Init,
            13 => DynamicTag32::Fini,
            14 => DynamicTag32::SoName,
            15 => DynamicTag32::RPath,
            16 => DynamicTag32::Symbolic,
            17 => DynamicTag32::Rel,
            18 => DynamicTag32::RelSize,
            19 => DynamicTag32::RelEnt,
            20 => DynamicTag32::PltRel,
            21 => DynamicTag32::Debug,
            22 => DynamicTag32::TextRel,
            23 => DynamicTag32::JmpRel,
            24 => DynamicTag32::BindNow,
            25 => DynamicTag32::InitArray,
            26 => DynamicTag32::FiniArray,
            27 => DynamicTag32::InitArraySize,
            28 => DynamicTag32::FiniArraySize,
            29 => DynamicTag32::RunPath,
            30 => DynamicTag32::Flags,
            32 => DynamicTag32::PreInitArray,
            33 => DynamicTag32::PreInitArraySize,
            34 => DynamicTag32::SymtabShndx,
            x => {
                if 0x6000000D <= x && x <= 0x6FFFF000 {
                    DynamicTag32::OsSpecific(x)
                } else if 0x70000000 <= x && x <= 0x7FFFFFFF {
                    DynamicTag32::ProcessorSpecific(x)
                } else {
                    DynamicTag32::NonStandard(x)
                }
            },
        }
    }

    /// The field value that encodes this tag: an unnamed variant's own
    /// payload, or the named value the decoder maps back to this tag.
    pub fn to_u32(self) -> (r: u32)
        ensures
            self matches DynamicTag32::OsSpecific(x) ==> r == x,
            self matches DynamicTag32::ProcessorSpecific(x) ==> r == x,
            self matches DynamicTag32::NonStandard(x) ==> r == x,
            !(self matches DynamicTag32::OsSpecific(_)) && !(self matches DynamicTag32::ProcessorSpecific(
                _,
            )) && !(self matches DynamicTag32::NonStandard(_)) ==> DynamicTag32::spec_from_u32(r) == self,
    {
        match self {
            DynamicTag32::Null => 0,
            DynamicTag32::Needed => 1,
            DynamicTag32::PltRelSize => 2,
            DynamicTag32::PltGot => 3,
            DynamicTag32::Hash => 4,
            DynamicTag32::Strtab => 5,
            DynamicTag32::Symtab => 6,
            DynamicTag32::Rela => 7,
            DynamicTag32::RelaSize => 8,
            DynamicTag32::RelaEnt => 9,
            DynamicTag32::StrSize => 10,
            DynamicTag32::SymEnt => 11,
            DynamicTag32::Init => 12,
            DynamicTag32::Fini => 13,
            DynamicTag32::SoName => 14,
            DynamicTag32::RPath => 15,
            DynamicTag32::Symbolic => 16,
            DynamicTag32::Rel => 17,
            DynamicTag32::RelSize => 18,
            DynamicTag32::RelEnt => 19,
            DynamicTag32::PltRel => 20,
            DynamicTag32::Debug => 21,
            DynamicTag32::TextRel => 22,
            DynamicTag32::JmpRel => 23,
            DynamicTag32::BindNow => 24,
            DynamicTag32::InitArray => 25,
            DynamicTag32::FiniArray => 26,
            DynamicTag32::InitArraySize => 27,
            DynamicTag32::FiniArraySize => 28,
            DynamicTag32::RunPath => 29,
            DynamicTag32::Flags => 30,
            DynamicTag32::PreInitArray => 32,
            DynamicTag32::PreInitArraySize => 33,
            DynamicTag32::SymtabShndx => 34,
            DynamicTag32::OsSpecific(x) => x,
            DynamicTag32::ProcessorSpecific(x) => x,
            DynamicTag32::NonStandard(x) => x,
        }
    }
}

/// A dynamic tag under a 64-bit context.  Every field value maps to a
/// tag; values outside the named set and the two reserved ranges are
/// kept as `NonStandard`.
#[derive(Debug, Clone, Copy, PartialEq, Eq, Structural)]
pub enum DynamicTag64 {
    /// Tag value 0.
    Null,
    /// Tag value 1.
    Needed,
    /// Tag value 2.
    PltRelSize,
    /// Tag value 3.
    PltGot,
    /// Tag value 4.
    Hash,
    /// Tag value 5.
    Strtab,
    /// Tag value 6.
    Symtab,
    /// Tag value 7.
    Rela,
    /// Tag value 8.
    RelaSize,
    /// Tag value 9.
    RelaEnt,
    /// Tag value 10.
    StrSize,
    /// Tag value 11.
    SymEnt,
    /// Tag value 12.
    Init,
    /// Tag value 13.
    Fini,
    /// Tag value 14.
    SoName,
    /// Tag value 15.
    RPath,
    /// Tag value 16.
    Symbolic,
    /// Tag value 17.
    Rel,
    /// Tag value 18.
    RelSize,
    /// Tag value 19.
    RelEnt,
    /// Tag value 20.
    PltRel,
    /// Tag value 21.
    Debug,
    /// Tag value 22.
    TextRel,
    /// Tag value 23.
    JmpRel,
    /// Tag value 24.
    BindNow,
    /// Tag value 25.
    InitArray,
    /// Tag value 26.
    FiniArray,
    /// Tag value 27.
    InitArraySize,
    /// Tag value 28.
    FiniArraySize,
    /// Tag value 29.
    RunPath,
    /// Tag value 30.
    Flags,
    /// Tag value 32.
    PreInitArray,
    /// Tag value 33.
    PreInitArraySize,
    /// Tag value 34.
    SymtabShndx,
    /// Operating system-specific.
    OsSpecific(u64),
    /// Processor-specific.
    ProcessorSpecific(u64),
    /// Outside the named set and the reserved ranges.
    NonStandard(u64),
}

impl DynamicTag64 {
    /// The meaning of a dynamic tag field value.
    pub open spec fn spec_from_u64(value: u64) -> DynamicTag64 {
        if value == 0 {
            DynamicTag64::Null
        } else 
if value == 1 {
            DynamicTag64::Needed
        } else 
if value == 2 {
            DynamicTag64::PltRelSize
        } else 
if value == 3 {
            DynamicTag64::PltGot
        } else 
if value == 4 {
            DynamicTag64::Hash
        } else 
if value == 5 {
            DynamicTag64::Strtab
        } else 
if value == 6 {
            DynamicTag64::Symtab
        } else 
if value == 7 {
            DynamicTag64::Rela
        } else 
if value == 8 {
            DynamicTag64::RelaSize
        } else 
if value == 9 {
            DynamicTag64::RelaEnt
        } else 
if value == 10 {
            DynamicTag64::StrSize
        } else 
if value == 11 {
            DynamicTag64::SymEnt
        } else 
if value == 12 {
            DynamicTag64::Init
        } else 
if value == 13 {
            DynamicTag64::Fini
        } else 
if value == 14 {
            DynamicTag64::SoName
        } else 
if value == 15 {
            DynamicTag64::RPath
        } else 
if value == 16 {
            DynamicTag64::Symbolic
        } else 
if value == 17 {
            DynamicTag64::Rel
        } else 
if value == 18 {
            DynamicTag64::RelSize
        } else 
if value == 19 {
            DynamicTag64::RelEnt
        } else 
if value == 20 {
            DynamicTag64::PltRel
        } else 
if value == 21 {
            DynamicTag64::Debug
        } else 
if value == 22 {
            DynamicTag64::TextRel
        } else 
if value == 23 {
            DynamicTag64::JmpRel
        } else 
if value == 24 {
            DynamicTag64::BindNow
        } else 
if value == 25 {
            DynamicTag64::InitArray
        } else 
if value == 26 {
            DynamicTag64::FiniArray
        } else 
if value == 27 {
            DynamicTag64::InitArraySize
        } else 
if value == 28 {
            DynamicTag64::FiniArraySize
        } else 
if value == 29 {
            DynamicTag64::RunPath
        } else 
if value == 30 {
            DynamicTag64::Flags
        } else 
if value == 32 {
            DynamicTag64::PreInitArray
        } else 
if value == 33 {
            DynamicTag64::PreInitArraySize
        } else 
if value == 34 {
            DynamicTag64::SymtabShndx
        } else if 0x6000000D <= value && value <= 0x6FFFF000 {
            DynamicTag64::OsSpecific(value)
        } else if 0x70000000 <= value && value <= 0x7FFFFFFF {
            DynamicTag64::ProcessorSpecific(value)
        } else {
            DynamicTag64::NonStandard(value)
        }
    }

    /// Decodes a dynamic tag field value.
    pub fn from_u64(value: u64) -> (r: DynamicTag64)
        ensures
            r == DynamicTag64::spec_from_u64(value),
    {
        match value {
            0 => DynamicTag64::Null,
            1 => DynamicTag64::Needed,
            2 => DynamicTag64::PltRelSize,
            3 => DynamicTag64::PltGot,
            4 => DynamicTag64::Hash,
            5 => DynamicTag64::Strtab,
            6 => DynamicTag64::Symtab,
            7 => DynamicTag64::Rela,
            8 => DynamicTag64::RelaSize,
            9 => DynamicTag64::RelaEnt,
            10 => DynamicTag64::StrSize,
            11 => DynamicTag64::SymEnt,
            12 => DynamicTag64::Init,
            13 => DynamicTag64::Fini,
            14 => DynamicTag64::SoName,
            15 => DynamicTag64::RPath,
            16 => DynamicTag64::Symbolic,
            17 => DynamicTag64::Rel,
            18 => DynamicTag64::RelSize,
            19 => DynamicTag64::RelEnt,
            20 => DynamicTag64::PltRel,
            21 => DynamicTag64::Debug,
            22 => DynamicTag64::TextRel,
            23 => DynamicTag64::JmpRel,
            24 => DynamicTag64::BindNow,
            25 => DynamicTag64::InitArray,
            26 => DynamicTag64::FiniArray,
            27 => DynamicTag64::InitArraySize,
            28 => DynamicTag64::FiniArraySize,
            29 => DynamicTag64::RunPath,
            30 => DynamicTag64::Flags,
            32 => DynamicTag64::PreInitArray,
            33 => DynamicTag64::PreInitArraySize,
            34 => DynamicTag64::SymtabShndx,
            x => {
                if 0x6000000D <= x && x <= 0x6FFFF000 {
                    DynamicTag64::OsSpecific(x)
                } else if 0x70000000 <= x && x <= 0x7FFFFFFF {
                    DynamicTag64::ProcessorSpecific(x)
                } else {
                    DynamicTag64::NonStandard(x)
                }
            },
        }
    }

    /// The field value that encodes this tag: an unnamed variant's own
    /// payload, or the named value the decoder maps back to this tag.
    pub fn to_u64(self) -> (r: u64)
        ensures
            self matches DynamicTag64::OsSpecific(x) ==> r == x,
            self matches DynamicTag64::ProcessorSpecific(x) ==> r == x,
            self matches DynamicTag64::NonStandard(x) ==> r == x,
            !(self matches DynamicTag64::OsSpecific(_)) && !(self matches DynamicTag64::ProcessorSpecific(
                _,
            )) && !(self matches DynamicTag64::NonStandard(_)) ==> DynamicTag64::spec_from_u64(r) == self,
    {
        match self {
            DynamicTag64::Null => 0,
            DynamicTag64::Needed => 1,
            DynamicTag64::PltRelSize => 2,
            DynamicTag64::PltGot => 3,
            DynamicTag64::Hash => 4,
            DynamicTag64::Strtab => 5,
            DynamicTag64::Symtab => 6,
            DynamicTag64::Rela => 7,
            DynamicTag64::RelaSize => 8,
            DynamicTag64::RelaEnt => 9,
            DynamicTag64::StrSize => 10,
            DynamicTag64::SymEnt => 11,
            DynamicTag64::Init => 12,
            DynamicTag64::Fini => 13,
            DynamicTag64::SoName => 14,
            DynamicTag64::RPath => 15,
            DynamicTag64::Symbolic => 16,
            DynamicTag64::Rel => 17,
            DynamicTag64::RelSize => 18,
            DynamicTag64::RelEnt => 19,
            DynamicTag64::PltRel => 20,
            DynamicTag64::Debug => 21,
            DynamicTag64::TextRel => 22,
            DynamicTag64::JmpRel => 23,
            DynamicTag64::BindNow => 24,
            DynamicTag64::InitArray => 25,
            DynamicTag64::FiniArray => 26,
            DynamicTag64::InitArraySize => 27,
            DynamicTag64::FiniArraySize => 28,
            DynamicTag64::RunPath => 29,
            DynamicTag64::Flags => 30,
            DynamicTag64::PreInitArray => 32,
            DynamicTag64::PreInitArraySize => 33,
            DynamicTag64::SymtabShndx => 34,
            DynamicTag64::OsSpecific(x) => x,
            DynamicTag64::ProcessorSpecific(x) => x,
            DynamicTag64::NonStandard(x) => x,
        }
    }
}

/// Dynamic flags under a 32-bit context.
#[derive(Debug, Clone, Copy, PartialEq, Eq, Structural)]
pub struct DynamicFlags32(pub u32);

/// Dynamic flags under a 64-bit context.
#[derive(Debug, Clone, Copy, PartialEq, Eq, Structural)]
pub struct DynamicFlags64(pub u64);

/// The object may reference $ORIGIN.
pub const DYNAMIC_FLAG_ORIGIN: u64 = 0x1;

/// Symbol resolution starts from this object.
pub const DYNAMIC_FLAG_SYMBOLIC: u64 = 0x2;

/// Relocations may modify a non-writable segment.
pub const DYNAMIC_FLAG_TEXTREL: u64 = 0x4;

/// All relocations must be processed before control transfers.
pub const DYNAMIC_FLAG_BIND_NOW: u64 = 0x8;

/// The object uses the static thread-local storage model.
pub const DYNAMIC_FLAG_STATIC_TLS: u64 = 0x10;

} // verus!
