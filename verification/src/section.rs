//! Section header table: validation, per-entry retrieval, and the
//! section-header string table.

use crate::context::{uint_at, usize_at, Context};
use crate::elf::Elf;
use crate::strtab::{ParseStrtabError, Strtab};
use crate::utils::{as_offset, read, read_n};
use vstd::arithmetic::mul::lemma_mul_inequality;
use vstd::prelude::*;

verus! {

/// Undefined section index.
pub const SECTION_INDEX_UNDEF: u16 = 0;

/// This value specifies absolute values for the corresponding reference.
pub const SECTION_INDEX_ABS: u16 = 0xfff1;

/// Symbols defined relative to this section are common symbols.
pub const SECTION_INDEX_COMMON: u16 = 0xfff2;

/// The escape value: the actual section header index is too large to fit
/// in the containing field and is to be found in another location.
pub const SECTION_INDEX_XINDEX: u16 = 0xffff;

/// Why a section header table was rejected.
#[derive(Debug, Clone, PartialEq, Eq, Structural)]
pub enum ParseSectionsError {
    /// The table offset or an entry lies outside the buffer.
    BrokenHeaders,
    /// The declared entry size differs from the record size the context
    /// prescribes.
    BadPropertyShentsize,
    /// Section zero breaks an invariant other than the two escape fields.
    BadSectionZero,
    /// The string-table index and section zero's link field fit neither
    /// the plain case nor the extended-index escape.
    BadPropertyShstrndx,
    /// The section count and section zero's size field fit neither the
    /// plain case nor the extended-count escape.
    BadPropertyShnum,
}

/// Why one section entry was rejected.
#[derive(Debug, Clone, PartialEq, Eq, Structural)]
pub enum ParseSectionError {
    /// The type field maps to no known or reserved value.
    BadPropertyType,
    /// The declared content range lies outside the buffer.
    BrokenContent,
}

/// Why the section-header string table was rejected.
#[derive(Debug, Clone, PartialEq, Eq, Structural)]
pub enum ParseShstrtabError {
    /// The resolved string-table index is out of the table's range.
    BadPropertyShstrndx,
    /// The indexed section was rejected.
    FromSection(ParseSectionError),
    /// The indexed section is not a string table.
    BadPropertyType,
    /// The section's content was rejected by the string-table decoder.
    FromStrtab(ParseStrtabError),
}

/// The byte width of a section header record under context `c`.
pub open spec fn spec_shsize(c: Context) -> int {
    16 + 6 * c.spec_usize_bytes()
}

/// The byte width of a section header record under context `c`.
pub fn shsize_of(c: Context) -> (r: usize)
    ensures
        r == spec_shsize(c),
{
    16 + 6 * c.usize_bytes()
}

/// A decoded section header: every multi-byte field already interpreted
/// under the buffer's context.
#[derive(Debug, Clone, Copy, PartialEq, Eq, Structural)]
pub struct SectionHeader {
    /// Index of the section's name in the section-header string table.
    pub name: u32,
    /// Section type, raw.
    pub typa: u32,
    /// Flags.
    pub flags: u64,
    /// Virtual address at execution.
    pub addr: u64,
    /// File offset of the section's content.
    pub offset: u64,
    /// Size of the section's content in bytes.
    pub size: u64,
    /// A related section's index.
    pub link: u32,
    /// Extra type-dependent information.
    pub info: u32,
    /// Alignment requirement.
    pub addralign: u64,
    /// Entry size for sections that hold a table.
    pub entsize: u64,
}

/// The section header record that the bytes of `b` at `off` spell under
/// context `c`.
pub open spec fn spec_sheader(c: Context, b: Seq<u8>, off: int) -> SectionHeader {
    let d = c.spec_data();
    let w = c.spec_usize_bytes();
    SectionHeader {
        name: uint_at(d, b, off, 4) as u32,
        typa: uint_at(d, b, off + 4, 4) as u32,
        flags: usize_at(c, b, off + 8) as u64,
        addr: usize_at(c, b, off + 8 + w) as u64,
        offset: usize_at(c, b, off + 8 + 2 * w) as u64,
        size: usize_at(c, b, off + 8 + 3 * w) as u64,
        link: uint_at(d, b, off + 8 + 4 * w, 4) as u32,
        info: uint_at(d, b, off + 12 + 4 * w, 4) as u32,
        addralign: usize_at(c, b, off + 16 + 4 * w) as u64,
        entsize: usize_at(c, b, off + 16 + 5 * w) as u64,
    }
}

impl SectionHeader {
    /// Decodes the section header record at `off`; nothing is validated
    /// here.
    pub fn decode(c: Context, data: &[u8], off: usize) -> (h: SectionHeader)
        requires
            off + spec_shsize(c) <= data@.len(),
        ensures
            h == spec_sheader(c, data@, off as int),
    {
        proof {
            vstd::slice::axiom_spec_len(data);
        }
        let d = c.data();
        let w: usize = c.usize_bytes();
        SectionHeader {
            name: crate::context::interpret_u32_at(d, data, off),
            typa: crate::context::interpret_u32_at(d, data, off + 4),
            flags: crate::context::interpret_usize_at(c, data, off + 8),
            addr: crate::context::interpret_usize_at(c, data, off + 8 + w),
            offset: crate::context::interpret_usize_at(c, data, off + 8 + 2 * w),
            size: crate::context::interpret_usize_at(c, data, off + 8 + 3 * w),
            link: crate::context::interpret_u32_at(d, data, off + 8 + 4 * w),
            info: crate::context::interpret_u32_at(d, data, off + 12 + 4 * w),
            addralign: crate::context::interpret_usize_at(c, data, off + 16 + 4 * w),
            entsize: crate::context::interpret_usize_at(c, data, off + 16 + 5 * w),
        }
    }

    /// Index of the section's name in the section-header string table.
    pub fn name(&self) -> (r: u32)
        ensures
            r == self.name,
    {
        self.name
    }

    /// Section type, when the raw field maps to one.
    pub fn checked_type(&self) -> (r: Option<SectionType>)
        ensures
            r == SectionType::spec_from_u32(self.typa),
    {
        SectionType::from_u32(self.typa)
    }

    /// Section type, which must be known.
    pub fn typa(&self) -> (r: SectionType)
        requires
            SectionType::spec_from_u32(self.typa) is Some,
        ensures
            Some(r) == SectionType::spec_from_u32(self.typa),
    {
        SectionType::from_u32(self.typa).unwrap()
    }

    /// Flags; under a 32-bit context the value fits 32 bits.
    pub fn flags(&self) -> (r: u64)
        ensures
            r == self.flags,
    {
        self.flags
    }

    /// Virtual address at execution.
    pub fn addr(&self) -> (r: u64)
        ensures
            r == self.addr,
    {
        self.addr
    }

    /// File offset of the section's content.
    pub fn offset(&self) -> (r: u64)
        ensures
            r == self.offset,
    {
        self.offset
    }

    /// Size of the section's content in bytes.
    pub fn size(&self) -> (r: u64)
        ensures
            r == self.size,
    {
        self.size
    }

    /// A related section's index.
    pub fn link(&self) -> (r: u32)
        ensures
            r == self.link,
    {
        self.link
    }

    /// Extra type-dependent information.
    pub fn info(&self) -> (r: u32)
        ensures
            r == self.info,
    {
        self.info
    }

    /// Alignment requirement.
    pub fn addralign(&self) -> (r: u64)
        ensures
            r == self.addralign,
    {
        self.addralign
    }

    /// Entry size for sections that hold a table.
    pub fn entsize(&self) -> (r: u64)
        ensures
            r == self.entsize,
    {
        self.entsize
    }
}

/// The effective section count: the header's 16-bit field when it is
/// plain and section zero's size field is unused, or section zero's size
/// under the extended-count escape; any other combination is rejected.
pub open spec fn spec_resolve_num(shnum: u16, zero_size: u64) -> Option<u16> {
    if shnum <= 0xfeff && zero_size == 0 {
        Some(shnum)
    } else if shnum == 0 && 0xff00 <= zero_size <= 0xffff {
        Some(zero_size as u16)
    } else {
        None
    }
}

/// The effective string-table index: the header's 16-bit field when it is
/// plain and section zero's link field is unused, or section zero's link
/// under the extended-index escape; any other combination is rejected.
pub open spec fn spec_resolve_shstrndx(shstrndx: u16, zero_link: u32) -> Option<u16> {
    if shstrndx <= 0xfeff && zero_link == 0 {
        Some(shstrndx)
    } else if shstrndx == 0xffff && 0xff00 <= zero_link <= 0xffff {
        Some(zero_link as u16)
    } else {
        None
    }
}

/// The invariants of section zero apart from the two escape fields: name
/// index zero, type `Null`, and empty flags, address, offset, info,
/// alignment and entry size.
pub open spec fn spec_section_zero_ok(z: SectionHeader) -> bool {
    &&& z.name == 0
    &&& SectionType::spec_from_u32(z.typa) == Some(SectionType::Null)
    &&& z.flags == 0
    &&& z.addr == 0
    &&& z.offset == 0
    &&& z.info == 0
    &&& z.addralign == 0
    &&& z.entsize == 0
}

/// The outcome section-header-table validation owes an ELF buffer: the
/// table's offset, effective count and effective string-table index, the
/// valid absence of a table, or the first failing check.
pub open spec fn spec_parse_sections(c: Context, b: Seq<u8>, h: crate::elf::ElfHeader) -> Result<
    Option<(int, u16, u16)>,
    ParseSectionsError,
> {
    if h.shoff > usize::MAX {
        Err(ParseSectionsError::BrokenHeaders)
    } else if h.shoff == 0 {
        Ok(None)
    } else if h.shentsize != spec_shsize(c) {
        Err(ParseSectionsError::BadPropertyShentsize)
    } else if h.shoff + spec_shsize(c) > b.len() {
        Err(ParseSectionsError::BrokenHeaders)
    } else {
        let z = spec_sheader(c, b, h.shoff as int);
        if spec_resolve_num(h.shnum, z.size) is None {
            Err(ParseSectionsError::BadPropertyShnum)
        } else if spec_resolve_shstrndx(h.shstrndx, z.link) is None {
            Err(ParseSectionsError::BadPropertyShstrndx)
        } else if !spec_section_zero_ok(z) {
            Err(ParseSectionsError::BadSectionZero)
        } else if h.shoff + spec_resolve_num(h.shnum, z.size).unwrap() * spec_shsize(c)
            > b.len() {
            Err(ParseSectionsError::BrokenHeaders)
        } else {
            Ok(
                Some(
                    (
                        h.shoff as int,
                        spec_resolve_num(h.shnum, z.size).unwrap(),
                        spec_resolve_shstrndx(h.shstrndx, z.link).unwrap(),
                    ),
                ),
            )
        }
    }
}

/// A section-header table whose declared entry size does not equal the
/// record size the context prescribes is always rejected, for every
/// context, whenever a table is declared at all.
pub proof fn lemma_shentsize_mismatch_rejected(c: Context, b: Seq<u8>, h: crate::elf::ElfHeader)
    requires
        0 < h.shoff <= usize::MAX,
        h.shentsize != spec_shsize(c),
    ensures
        spec_parse_sections(c, b, h) == Err::<Option<(int, u16, u16)>, ParseSectionsError>(
            ParseSectionsError::BadPropertyShentsize,
        ),
{
}

/// A section zero with a nonzero name, a nonzero address, or a size that
/// is neither zero nor an extended count is always rejected.
pub proof fn lemma_section_zero_rejected(c: Context, b: Seq<u8>, h: crate::elf::ElfHeader)
    requires
        0 < h.shoff <= usize::MAX,
        h.shentsize == spec_shsize(c),
        h.shoff + spec_shsize(c) <= b.len(),
        ({
            let z = spec_sheader(c, b, h.shoff as int);
            ||| z.name != 0
            ||| z.addr != 0
            ||| (z.size != 0 && !(h.shnum == 0 && 0xff00 <= z.size <= 0xffff))
        }),
    ensures
        spec_parse_sections(c, b, h) is Err,
{
}

/// A validated section header table.
#[derive(Debug, Clone, Copy)]
pub struct Sections<'a> {
    /// The whole input buffer.
    pub data: &'a [u8],
    /// The table's byte offset.
    pub offset: usize,
    /// The effective section-header string-table index.
    pub shstrndx: u16,
    /// The effective section count.
    pub num: u16,
    /// The context the table is decoded under.
    pub ctx: Context,
}

impl<'a> Sections<'a> {
    /// Every entry of the table lies inside the buffer.
    pub open spec fn wf(self) -> bool {
        self.offset + self.num * spec_shsize(self.ctx) <= self.data@.len()
    }

    /// Validates the section header table that `elf`'s header declares:
    /// entry size, section zero with the extended count and index
    /// escapes, and the bounds of the whole table.  A zero table offset
    /// is the valid absence of a table.
    pub fn parse(elf: Elf<'a>) -> (r: Result<Option<Sections<'a>>, ParseSectionsError>)
        requires
            elf.wf(),
        ensures
            match r {
                Ok(Some(s)) => {
                    &&& spec_parse_sections(elf.ctx, elf.data@, elf.header) == Ok::<
                        Option<(int, u16, u16)>,
                        ParseSectionsError,
                    >(Some((s.offset as int, s.num, s.shstrndx)))
                    &&& s.data == elf.data
                    &&& s.ctx == elf.ctx
                    &&& s.wf()
                },
                Ok(None) => spec_parse_sections(elf.ctx, elf.data@, elf.header) matches Ok(opt)
                    && opt is None,
                Err(e) => spec_parse_sections(elf.ctx, elf.data@, elf.header) == Err::<
                    Option<(int, u16, u16)>,
                    ParseSectionsError,
                >(e),
            },
    {
        let data = elf.data();
        let h = *elf.header();
        let offset: usize = match as_offset(h.shoff) {
            Some(o) => o,
            None => {
                return Err(ParseSectionsError::BrokenHeaders);
            },
        };
        if offset == 0 {
            return Ok(None);
        }
        let shsize: usize = shsize_of(elf.ctx);
        if h.shentsize as usize != shsize {
            return Err(ParseSectionsError::BadPropertyShentsize);
        }
        if read(data, offset, shsize).is_none() {
            return Err(ParseSectionsError::BrokenHeaders);
        }
        let zero = SectionHeader::decode(elf.ctx, data, offset);
        let num: u16 = if h.shnum <= 0xfeff && zero.size == 0 {
            h.shnum
        } else if h.shnum == 0 && 0xff00 <= zero.size && zero.size <= 0xffff {
            zero.size as u16
        } else {
            return Err(ParseSectionsError::BadPropertyShnum);
        };
        let shstrndx: u16 = if h.shstrndx <= 0xfeff && zero.link == 0 {
            h.shstrndx
        } else if h.shstrndx == 0xffff && 0xff00 <= zero.link && zero.link <= 0xffff {
            zero.link as u16
        } else {
            return Err(ParseSectionsError::BadPropertyShstrndx);
        };
        if !(zero.name == 0 && SectionType::from_u32(zero.typa) == Some(SectionType::Null)
            && zero.flags == 0 && zero.addr == 0 && zero.offset == 0 && zero.info == 0
            && zero.addralign == 0 && zero.entsize == 0) {
            return Err(ParseSectionsError::BadSectionZero);
        }
        proof {
            assert(spec_shsize(elf.ctx) * num == num * spec_shsize(elf.ctx)) by (nonlinear_arith);
        }
        if read_n(data, offset, shsize, num as usize).is_none() {
            return Err(ParseSectionsError::BrokenHeaders);
        }
        Ok(Some(Sections { data, offset, shstrndx, num, ctx: elf.ctx }))
    }

    /// The effective section-header string-table index.
    pub fn shstrndx(&self) -> (r: u16)
        ensures
            r == self.shstrndx,
    {
        self.shstrndx
    }

    /// The effective section count.
    pub fn num(&self) -> (r: u16)
        ensures
            r == self.num,
    {
        self.num
    }
}

/// The content view a section entry owes: empty for `Null`, empty for
/// `Nobits` whose offset is still bounds-checked, and the declared byte
/// range for every other type.
pub open spec fn spec_section_content(b: Seq<u8>, h: SectionHeader) -> Result<
    Seq<u8>,
    ParseSectionError,
> {
    match SectionType::spec_from_u32(h.typa) {
        Option::None => Err(ParseSectionError::BadPropertyType),
        Option::Some(SectionType::Null) => Ok(Seq::empty()),
        Option::Some(SectionType::Nobits) => if h.offset <= usize::MAX && h.offset <= b.len() {
            Ok(Seq::empty())
        } else {
            Err(ParseSectionError::BrokenContent)
        },
        Option::Some(_) => if h.offset <= usize::MAX && h.size <= usize::MAX && h.offset + h.size
            <= b.len() {
            Ok(b.subrange(h.offset as int, h.offset + h.size))
        } else {
            Err(ParseSectionError::BrokenContent)
        },
    }
}

/// One validated section: its header and its content view.
#[derive(Debug, Clone, Copy)]
pub struct Section<'a> {
    /// The decoded header.
    pub sheader: SectionHeader,
    /// The section's content.
    pub content: &'a [u8],
}

impl<'a> Section<'a> {
    /// Retrieves and validates the table entry at `index`: absence when
    /// the index is out of the table's range; otherwise the entry's type
    /// must be known and its declared content must lie inside the
    /// buffer.  A `Nobits` section occupies no file bytes, so its content
    /// view is empty whatever its declared size.
    pub fn parse(sections: Sections<'a>, index: u16) -> (r: Option<
        Result<Section<'a>, ParseSectionError>,
    >)
        requires
            sections.wf(),
        ensures
            match r {
                Option::None => index >= sections.num,
                Option::Some(res) => {
                    &&& index < sections.num
                    &&& {
                        let h = spec_sheader(
                            sections.ctx,
                            sections.data@,
                            sections.offset + index * spec_shsize(sections.ctx),
                        );
                        match res {
                            Ok(sec) => {
                                &&& sec.sheader == h
                                &&& spec_section_content(sections.data@, h) == Ok::<
                                    Seq<u8>,
                                    ParseSectionError,
                                >(sec.content@)
                                &&& (SectionType::spec_from_u32(h.typa) == Some(
                                    SectionType::Nobits,
                                ) ==> sec.content@.len() == 0)
                            },
                            Err(e) => spec_section_content(sections.data@, h) == Err::<
                                Seq<u8>,
                                ParseSectionError,
                            >(e),
                        }
                    }
                },
            },
    {
        if index >= sections.num {
            return Option::None;
        }
        let shsize: usize = shsize_of(sections.ctx);
        proof {
            vstd::slice::axiom_spec_len(sections.data);
            lemma_mul_inequality(index as int + 1, sections.num as int, spec_shsize(sections.ctx));
            assert((index + 1) * spec_shsize(sections.ctx) == index * spec_shsize(sections.ctx)
                + spec_shsize(sections.ctx)) by (nonlinear_arith);
            assert(index * spec_shsize(sections.ctx) >= 0) by (nonlinear_arith)
                requires
                    index >= 0,
                    spec_shsize(sections.ctx) >= 0,
            ;
        }
        let offset: usize = sections.offset + index as usize * shsize;
        let sheader = SectionHeader::decode(sections.ctx, sections.data, offset);
        let typa = match SectionType::from_u32(sheader.typa) {
            Some(t) => t,
            None => {
                return Some(Err(ParseSectionError::BadPropertyType));
            },
        };
        match typa {
            SectionType::Null => Some(Ok(Section { sheader, content: empty_slice(sections.data) })),
            SectionType::Nobits => {
                let content_offset: usize = match as_offset(sheader.offset) {
                    Some(o) => o,
                    None => {
                        return Some(Err(ParseSectionError::BrokenContent));
                    },
                };
                match read_n(sections.data, content_offset, 1, 0) {
                    Some(_) => Some(Ok(Section { sheader, content: empty_slice(sections.data) })),
                    None => Some(Err(ParseSectionError::BrokenContent)),
                }
            },
            _ => {
                let content_offset: usize = match as_offset(sheader.offset) {
                    Some(o) => o,
                    None => {
                        return Some(Err(ParseSectionError::BrokenContent));
                    },
                };
                let content_size: usize = match as_offset(sheader.size) {
                    Some(s) => s,
                    None => {
                        return Some(Err(ParseSectionError::BrokenContent));
                    },
                };
                match read(sections.data, content_offset, content_size) {
                    Some(content) => Some(Ok(Section { sheader, content })),
                    None => Some(Err(ParseSectionError::BrokenContent)),
                }
            },
        }
    }

    /// The decoded header.
    pub fn header(&self) -> (r: &SectionHeader)
        ensures
            r == self.sheader,
    {
        &self.sheader
    }

    /// The section's content.
    pub fn content(&self) -> (r: &'a [u8])
        ensures
            r == self.content,
    {
        self.content
    }
}

/// An empty view into `data`, for sections that own no file bytes.
fn empty_slice<'a>(data: &'a [u8]) -> (r: &'a [u8])
    ensures
        r@ == Seq::<u8>::empty(),
{
    proof {
        assert(data@.subrange(0, 0) =~= Seq::<u8>::empty());
    }
    vstd::slice::slice_subrange(data, 0, 0)
}

/// The outcome section-header-string-table lookup owes a validated
/// table: the name table's bytes, the valid absence signalled by index
/// zero, or the first failing check.
pub open spec fn spec_parse_shstrtab<'a>(s: Sections<'a>) -> Result<
    Option<Seq<u8>>,
    ParseShstrtabError,
> {
    if s.shstrndx == 0 {
        Ok(None)
    } else if s.shstrndx >= s.num {
        Err(ParseShstrtabError::BadPropertyShstrndx)
    } else {
        let h = spec_sheader(s.ctx, s.data@, s.offset + s.shstrndx * spec_shsize(s.ctx));
        match spec_section_content(s.data@, h) {
            Err(e) => Err(ParseShstrtabError::FromSection(e)),
            Ok(content) => if SectionType::spec_from_u32(h.typa) != Some(SectionType::Strtab) {
                Err(ParseShstrtabError::BadPropertyType)
            } else if content.len() > 0 && content.last() != 0 {
                Err(ParseShstrtabError::FromStrtab(ParseStrtabError::Broken))
            } else {
                Ok(Some(content))
            },
        }
    }
}

/// The section-header string table, found through the resolved
/// string-table index.
#[derive(Debug, Clone, Copy)]
pub struct Shstrtab<'a> {
    /// The table, decoded from the indexed section's content.
    pub strtab: Strtab<'a>,
}

impl<'a> Shstrtab<'a> {
    /// Looks up the resolved string-table index in the validated table:
    /// index zero is the valid absence of a name table; otherwise the
    /// indexed section must parse, be of type `Strtab`, and carry a valid
    /// string table.
    pub fn parse(sections: Sections<'a>) -> (r: Result<Option<Shstrtab<'a>>, ParseShstrtabError>)
        requires
            sections.wf(),
        ensures
            match r {
                Ok(Some(st)) => spec_parse_shstrtab(sections) == Ok::<
                    Option<Seq<u8>>,
                    ParseShstrtabError,
                >(Some(st.strtab.strings@)) && st.strtab.wf(),
                Ok(None) => sections.shstrndx == 0,
                Err(e) => spec_parse_shstrtab(sections) == Err::<
                    Option<Seq<u8>>,
                    ParseShstrtabError,
                >(e),
            },
    {
        let shstrndx: u16 = sections.shstrndx;
        if shstrndx == SECTION_INDEX_UNDEF {
            return Ok(None);
        }
        let section = match Section::parse(sections, shstrndx) {
            Some(res) => match res {
                Ok(sec) => sec,
                Err(e) => {
                    return Err(ParseShstrtabError::FromSection(e));
                },
            },
            None => {
                return Err(ParseShstrtabError::BadPropertyShstrndx);
            },
        };
        let is_strtab = match SectionType::from_u32(section.sheader.typa) {
            Some(SectionType::Strtab) => true,
            _ => false,
        };
        if !is_strtab {
            return Err(ParseShstrtabError::BadPropertyType);
        }
        match Strtab::parse(section.content()) {
            Ok(strtab) => Ok(Some(Shstrtab { strtab })),
            Err(e) => Err(ParseShstrtabError::FromStrtab(e)),
        }
    }

    /// The decoded string table.
    pub fn strtab(&self) -> (r: Strtab<'a>)
        ensures
            r == self.strtab,
    {
        self.strtab
    }
}

/// Section type.
#[derive(Debug, Clone, Copy, PartialEq, Eq, Structural)]
pub enum SectionType {
    /// Section header table entry unused.
    Null,
    /// Program data.
    Progbits,
    /// Symbol table.
    Symtab,
    /// String table.
    Strtab,
    /// Relocation entries with addends.
    Rela,
    /// Symbol hash table.
    Hash,
    /// Dynamic linking information.
    Dynamic,
    /// Notes.
    Note,
    /// Program space with no data (bss).
    Nobits,
    /// Relocation entries, no addends.
    Rel,
    /// Reserved.
    Shlib,
    /// Dynamic linker symbol table.
    Dynsym,
    /// Array of constructors.
    InitArray,
    /// Array of destructors.
    FiniArray,
    /// Array of pre-constructors.
    PreinitArray,
    /// Section group.
    Group,
    /// Extended section indices.
    SymtabShndx,
    /// Operating system-specific.
    OsSpecific(u32),
    /// Processor-specific.
    ProcessorSpecific(u32),
    /// Reserved for application programs.
    User(u32),
}

impl SectionType {
    /// The meaning of a section-type field value, if any.
    pub open spec fn spec_from_u32(value: u32) -> Option<SectionType> {
        if value == 0x0 {
            Some(SectionType::Null)
        } else if value == 0x1 {
            Some(SectionType::Progbits)
        } else if value == 0x2 {
            Some(SectionType::Symtab)
        } else if value == 0x3 {
            Some(SectionType::Strtab)
        } else if value == 0x4 {
            Some(SectionType::Rela)
        } else if value == 0x5 {
            Some(SectionType::Hash)
        } else if value == 0x6 {
            Some(SectionType::Dynamic)
        } else if value == 0x7 {
            Some(SectionType::Note)
        } else if value == 0x8 {
            Some(SectionType::Nobits)
        } else if value == 0x9 {
            Some(SectionType::Rel)
        } else if value == 0xA {
            Some(SectionType::Shlib)
        } else if value == 0xB {
            Some(SectionType::Dynsym)
        } else if value == 0xE {
            Some(SectionType::InitArray)
        } else if value == 0xF {
            Some(SectionType::FiniArray)
        } else if value == 0x10 {
            Some(SectionType::PreinitArray)
        } else if value == 0x11 {
            Some(SectionType::Group)
        } else if value == 0x12 {
            Some(SectionType::SymtabShndx)
        } else if 0x60000000 <= value && value <= 0x6fffffff {
            Some(SectionType::OsSpecific(value))
        } else if 0x70000000 <= value && value <= 0x7fffffff {
            Some(SectionType::ProcessorSpecific(value))
        } else if 0x80000000 <= value {
            Some(SectionType::User(value))
        } else {
            None
        }
    }

    /// Decodes a section-type field value.
    pub fn from_u32(value: u32) -> (r: Option<SectionType>)
        ensures
            r == SectionType::spec_from_u32(value),
    {
        match value {
            0x0 => Some(SectionType::Null),
            0x1 => Some(SectionType::Progbits),
            0x2 => Some(SectionType::Symtab),
            0x3 => Some(SectionType::Strtab),
            0x4 => Some(SectionType::Rela),
            0x5 => Some(SectionType::Hash),
            0x6 => Some(SectionType::Dynamic),
            0x7 => Some(SectionType::Note),
            0x8 => Some(SectionType::Nobits),
            0x9 => Some(SectionType::Rel),
            0xA => Some(SectionType::Shlib),
            0xB => Some(SectionType::Dynsym),
            0xE => Some(SectionType::InitArray),
            0xF => Some(SectionType::FiniArray),
            0x10 => Some(SectionType::PreinitArray),
            0x11 => Some(SectionType::Group),
            0x12 => Some(SectionType::SymtabShndx),
            x @ 0x60000000..=0x6fffffff => Some(SectionType::OsSpecific(x)),
            x @ 0x70000000..=0x7fffffff => Some(SectionType::ProcessorSpecific(x)),
            x @ 0x80000000..=0xffffffff => Some(SectionType::User(x)),
            _ => None,
        }
    }

    /// The field value that encodes this type: a reserved variant's own
    /// payload, or the named value the decoder maps back to this type.
    pub fn to_u32(self) -> (r: u32)
        ensures
            self matches SectionType::OsSpecific(x) ==> r == x,
            self matches SectionType::ProcessorSpecific(x) ==> r == x,
            self matches SectionType::User(x) ==> r == x,
            !(self matches SectionType::OsSpecific(_)) && !(self
                matches SectionType::ProcessorSpecific(_)) && !(self matches SectionType::User(
                _,
            )) ==> SectionType::spec_from_u32(r) == Some(self),
    {
        match self {
            SectionType::Null => 0x0,
            SectionType::Progbits => 0x1,
            SectionType::Symtab => 0x2,
            SectionType::Strtab => 0x3,
            SectionType::Rela => 0x4,
            SectionType::Hash => 0x5,
            SectionType::Dynamic => 0x6,
            SectionType::Note => 0x7,
            SectionType::Nobits => 0x8,
            SectionType::Rel => 0x9,
            SectionType::Shlib => 0xA,
            SectionType::Dynsym => 0xB,
            SectionType::InitArray => 0xE,
            SectionType::FiniArray => 0xF,
            SectionType::PreinitArray => 0x10,
            SectionType::Group => 0x11,
            SectionType::SymtabShndx => 0x12,
            SectionType::OsSpecific(x) => x,
            SectionType::ProcessorSpecific(x) => x,
            SectionType::User(x) => x,
        }
    }
}

/// Section flags under a 32-bit context.
#[derive(Debug, Clone, Copy, PartialEq, Eq, Structural)]
pub struct SectionFlags32(pub u32);

/// Section flags under a 64-bit context.
#[derive(Debug, Clone, Copy, PartialEq, Eq, Structural)]
pub struct SectionFlags64(pub u64);

/// Writable.
pub const SECTION_FLAG_WRITE: u64 = 0x1;

/// Occupies memory during execution.
pub const SECTION_FLAG_ALLOC: u64 = 0x2;

/// Executable.
pub const SECTION_FLAG_EXECINSTR: u64 = 0x4;

/// Might be merged.
pub const SECTION_FLAG_MERGE: u64 = 0x10;

/// Contains nul-terminated strings.
pub const SECTION_FLAG_STRINGS: u64 = 0x20;

/// The info field carries a section index.
pub const SECTION_FLAG_INFOLINK: u64 = 0x40;

/// Preserve order after combining.
pub const SECTION_FLAG_LINKORDER: u64 = 0x80;

/// Non-standard OS specific handling required.
pub const SECTION_FLAG_OSNONCONFORMING: u64 = 0x100;

/// Section is member of a group.
pub const SECTION_FLAG_GROUP: u64 = 0x200;

/// Section holds thread-local data.
pub const SECTION_FLAG_TLS: u64 = 0x400;

/// Section with compressed data.
pub const SECTION_FLAG_COMPRESSED: u64 = 0x800;

/// OS-specific mask.
pub const SECTION_FLAG_MASKOS: u64 = 0x0ff00000;

/// Processor-specific mask.
pub const SECTION_FLAG_MASKPROCESSOR: u64 = 0xf0000000;

} // verus!
