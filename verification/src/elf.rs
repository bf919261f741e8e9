//! ELF header decode and top-level variant dispatch.

use crate::context::{
    uint_at,
    usize_at,
    Context,
};
use crate::ident::{spec_ident_error, Ident, ParseIdentError};
use crate::utils::read;
use crate::{Class, Data};
use vstd::prelude::*;

verus! {

/// Why top-level dispatch rejected a buffer.
#[derive(Debug, Clone, PartialEq, Eq, Structural)]
pub enum ParseElfsError {
    /// The identification bytes were rejected.
    BadIdent(ParseIdentError),
    /// The ELF header under the selected context was rejected.
    BadElf(ParseElfError),
}

/// Why an ELF header was rejected.
#[derive(Debug, Clone, PartialEq, Eq, Structural)]
pub enum ParseElfError {
    /// The buffer does not hold a whole header record.
    BadHeader,
    /// The object-type field maps to no known or reserved value.
    BadPropertyType,
    /// The self-reported header size differs from the record size the
    /// context prescribes.
    BadPropertyEhsize,
}

/// The byte width of the ELF header record under context `c`.
pub open spec fn spec_ehsize(c: Context) -> int {
    40 + 3 * c.spec_usize_bytes()
}

/// The byte width of the ELF header record under context `c`.
pub fn ehsize_of(c: Context) -> (r: usize)
    ensures
        r == spec_ehsize(c),
{
    40 + 3 * c.usize_bytes()
}

/// The decoded ELF header: every multi-byte field already interpreted
/// under the buffer's context.
#[derive(Debug, Clone, Copy)]
pub struct ElfHeader {
    /// Identification.
    pub ident: Ident,
    /// Object file type, raw.
    pub typa: u16,
    /// Target instruction set architecture.
    pub machine: u16,
    /// Object file version.
    pub version: u32,
    /// Entry point address.
    pub entry: u64,
    /// Program header table file offset.
    pub phoff: u64,
    /// Section header table file offset.
    pub shoff: u64,
    /// Flags.
    pub flags: u32,
    /// ELF header size in bytes, as the file reports it.
    pub ehsize: u16,
    /// Program header table's entry size.
    pub phentsize: u16,
    /// Program header table's entry count.
    pub phnum: u16,
    /// Section header table's entry size.
    pub shentsize: u16,
    /// Section header table's entry count.
    pub shnum: u16,
    /// Section header string table index.
    pub shstrndx: u16,
}

/// `h` carries exactly the fields the header record at the start of `b`
/// spells under context `c`.
pub open spec fn header_matches(h: ElfHeader, c: Context, b: Seq<u8>) -> bool {
    let d = c.spec_data();
    let w = c.spec_usize_bytes();
    &&& h.ident.spec_matches(b)
    &&& h.typa == uint_at(d, b, 16, 2)
    &&& h.machine == uint_at(d, b, 18, 2)
    &&& h.version == uint_at(d, b, 20, 4)
    &&& h.entry == usize_at(c, b, 24)
    &&& h.phoff == usize_at(c, b, 24 + w)
    &&& h.shoff == usize_at(c, b, 24 + 2 * w)
    &&& h.flags == uint_at(d, b, 24 + 3 * w, 4)
    &&& h.ehsize == uint_at(d, b, 28 + 3 * w, 2)
    &&& h.phentsize == uint_at(d, b, 30 + 3 * w, 2)
    &&& h.phnum == uint_at(d, b, 32 + 3 * w, 2)
    &&& h.shentsize == uint_at(d, b, 34 + 3 * w, 2)
    &&& h.shnum == uint_at(d, b, 36 + 3 * w, 2)
    &&& h.shstrndx == uint_at(d, b, 38 + 3 * w, 2)
}

/// The failure ELF header decoding owes the bytes `b` under context `c`,
/// or `None` when they are acceptable.  The identification inside the
/// record is deliberately not checked against `c` here; top-level
/// dispatch does that once.
pub open spec fn spec_elf_error(c: Context, b: Seq<u8>) -> Option<ParseElfError> {
    if b.len() < spec_ehsize(c) {
        Some(ParseElfError::BadHeader)
    } else if ElfType::spec_from_u16(uint_at(c.spec_data(), b, 16, 2) as u16) is None {
        Some(ParseElfError::BadPropertyType)
    } else if uint_at(c.spec_data(), b, 28 + 3 * c.spec_usize_bytes(), 2) != spec_ehsize(c) {
        Some(ParseElfError::BadPropertyEhsize)
    } else {
        None
    }
}

impl ElfHeader {
    /// Decodes the header record at the start of `data`; nothing is
    /// validated here.
    pub fn decode(c: Context, data: &[u8]) -> (h: ElfHeader)
        requires
            spec_ehsize(c) <= data@.len(),
        ensures
            header_matches(h, c, data@),
    {
        let d = c.data();
        let w: usize = c.usize_bytes();
        ElfHeader {
            ident: Ident::decode(data),
            typa: crate::context::interpret_u16_at(d, data, 16),
            machine: crate::context::interpret_u16_at(d, data, 18),
            version: crate::context::interpret_u32_at(d, data, 20),
            entry: crate::context::interpret_usize_at(c, data, 24),
            phoff: crate::context::interpret_usize_at(c, data, 24 + w),
            shoff: crate::context::interpret_usize_at(c, data, 24 + 2 * w),
            flags: crate::context::interpret_u32_at(d, data, 24 + 3 * w),
            ehsize: crate::context::interpret_u16_at(d, data, 28 + 3 * w),
            phentsize: crate::context::interpret_u16_at(d, data, 30 + 3 * w),
            phnum: crate::context::interpret_u16_at(d, data, 32 + 3 * w),
            shentsize: crate::context::interpret_u16_at(d, data, 34 + 3 * w),
            shnum: crate::context::interpret_u16_at(d, data, 36 + 3 * w),
            shstrndx: crate::context::interpret_u16_at(d, data, 38 + 3 * w),
        }
    }

    /// Identification.
    pub fn ident(&self) -> (r: &Ident)
        ensures
            r == self.ident,
    {
        &self.ident
    }

    /// Object file type, when the raw field maps to one.
    pub fn checked_type(&self) -> (r: Option<ElfType>)
        ensures
            r == ElfType::spec_from_u16(self.typa),
    {
        ElfType::from_u16(self.typa)
    }

    /// Object file type, which must be known.
    pub fn typa(&self) -> (r: ElfType)
        requires
            ElfType::spec_from_u16(self.typa) is Some,
        ensures
            Some(r) == ElfType::spec_from_u16(self.typa),
    {
        ElfType::from_u16(self.typa).unwrap()
    }

    /// Target instruction set architecture.
    pub fn machine(&self) -> (r: u16)
        ensures
            r == self.machine,
    {
        self.machine
    }

    /// Object file version.
    pub fn version(&self) -> (r: u32)
        ensures
            r == self.version,
    {
        self.version
    }

    /// Entry point address.
    pub fn entry(&self) -> (r: u64)
        ensures
            r == self.entry,
    {
        self.entry
    }

    /// Program header table file offset.
    pub fn phoff(&self) -> (r: u64)
        ensures
            r == self.phoff,
    {
        self.phoff
    }

    /// Section header table file offset.
    pub fn shoff(&self) -> (r: u64)
        ensures
            r == self.shoff,
    {
        self.shoff
    }

    /// Flags.
    pub fn flags(&self) -> (r: u32)
        ensures
            r == self.flags,
    {
        self.flags
    }

    /// ELF header size in bytes, as the file reports it.
    pub fn ehsize(&self) -> (r: u16)
        ensures
            r == self.ehsize,
    {
        self.ehsize
    }

    /// Program header table's entry size.
    pub fn phentsize(&self) -> (r: u16)
        ensures
            r == self.phentsize,
    {
        self.phentsize
    }

    /// Program header table's entry count.
    pub fn phnum(&self) -> (r: u16)
        ensures
            r == self.phnum,
    {
        self.phnum
    }

    /// Section header table's entry size.
    pub fn shentsize(&self) -> (r: u16)
        ensures
            r == self.shentsize,
    {
        self.shentsize
    }

    /// Section header table's entry count.
    pub fn shnum(&self) -> (r: u16)
        ensures
            r == self.shnum,
    {
        self.shnum
    }

    /// Section header string table index.
    pub fn shstrndx(&self) -> (r: u16)
        ensures
            r == self.shstrndx,
    {
        self.shstrndx
    }
}

/// A buffer with a validated ELF header under one context.
#[derive(Debug, Clone, Copy)]
pub struct Elf<'a> {
    /// The whole input buffer.
    pub data: &'a [u8],
    /// The context the header was decoded under.
    pub ctx: Context,
    /// The decoded header.
    pub header: ElfHeader,
}

impl<'a> Elf<'a> {
    /// `header` is the true decode of `data` under `ctx`, and the checks
    /// of [`Elf::parse`] held.
    pub open spec fn wf(self) -> bool {
        &&& self.data@.len() >= spec_ehsize(self.ctx)
        &&& header_matches(self.header, self.ctx, self.data@)
        &&& spec_elf_error(self.ctx, self.data@) is None
    }

    /// Parses the ELF header at the start of `data` under the context
    /// `c`.  This function does not check that the identification inside
    /// the record matches the context.
    pub fn parse(c: Context, data: &'a [u8]) -> (r: Result<Elf<'a>, ParseElfError>)
        ensures
            match r {
                Ok(elf) => {
                    &&& spec_elf_error(c, data@) is None
                    &&& elf.data == data
                    &&& elf.ctx == c
                    &&& header_matches(elf.header, c, data@)
                    &&& elf.wf()
                },
                Err(e) => spec_elf_error(c, data@) == Some(e),
            },
    {
        let size: usize = ehsize_of(c);
        if read(data, 0, size).is_none() {
            return Err(ParseElfError::BadHeader);
        }
        let header = ElfHeader::decode(c, data);
        if ElfType::from_u16(header.typa).is_none() {
            return Err(ParseElfError::BadPropertyType);
        }
        if header.ehsize as usize != size {
            return Err(ParseElfError::BadPropertyEhsize);
        }
        Ok(Elf { data, ctx: c, header })
    }

    /// The whole input buffer.
    pub fn data(&self) -> (r: &'a [u8])
        ensures
            r == self.data,
    {
        self.data
    }

    /// The decoded header.
    pub fn header(&self) -> (r: &ElfHeader)
        ensures
            r == self.header,
    {
        &self.header
    }

    /// The context the header was decoded under.
    pub fn context(&self) -> (r: Context)
        ensures
            r == self.ctx,
    {
        self.ctx
    }
}

/// The context the identification bytes of `b` select, or `None` when
/// identification decoding rejects `b`.
pub open spec fn spec_ident_context(b: Seq<u8>) -> Option<Context> {
    if spec_ident_error(b) is None {
        if Class::spec_from_u8(b[4]) == Some(Class::Class32) {
            if Data::spec_from_u8(b[5]) == Some(Data::Little) {
                Some(Context::Little32)
            } else {
                Some(Context::Big32)
            }
        } else {
            if Data::spec_from_u8(b[5]) == Some(Data::Little) {
                Some(Context::Little64)
            } else {
                Some(Context::Big64)
            }
        }
    } else {
        None
    }
}

/// A parsed buffer, tagged by the context its identification selected.
#[derive(Debug, Clone, Copy)]
pub enum Elfs<'a> {
    /// Little endian, 32 bit.
    Little32(Elf<'a>),
    /// Little endian, 64 bit.
    Little64(Elf<'a>),
    /// Big endian, 32 bit.
    Big32(Elf<'a>),
    /// Big endian, 64 bit.
    Big64(Elf<'a>),
}

impl<'a> Elfs<'a> {
    /// The wrapped buffer, whichever the context.
    pub open spec fn spec_elf(self) -> Elf<'a> {
        match self {
            Elfs::Little32(e) => e,
            Elfs::Little64(e) => e,
            Elfs::Big32(e) => e,
            Elfs::Big64(e) => e,
        }
    }

    /// The context the variant stands for.
    pub open spec fn spec_context(self) -> Context {
        match self {
            Elfs::Little32(_) => Context::Little32,
            Elfs::Little64(_) => Context::Little64,
            Elfs::Big32(_) => Context::Big32,
            Elfs::Big64(_) => Context::Big64,
        }
    }

    /// Reads the identification bytes, selects the matching context, and
    /// parses the ELF header under it.
    pub fn parse(data: &'a [u8]) -> (r: Result<Elfs<'a>, ParseElfsError>)
        ensures
            match r {
                Ok(e) => {
                    &&& Some(e.spec_context()) == spec_ident_context(data@)
                    &&& spec_elf_error(e.spec_context(), data@) is None
                    &&& e.spec_elf().data == data
                    &&& e.spec_elf().ctx == e.spec_context()
                    &&& e.spec_elf().wf()
                },
                Err(ParseElfsError::BadIdent(ie)) => spec_ident_error(data@) == Some(ie),
                Err(ParseElfsError::BadElf(ee)) => {
                    &&& spec_ident_error(data@) is None
                    &&& spec_elf_error(spec_ident_context(data@).unwrap(), data@) == Some(ee)
                },
            },
    {
        let ident = match Ident::parse(data) {
            Ok(id) => id,
            Err(e) => {
                return Err(ParseElfsError::BadIdent(e));
            },
        };
        let c = Context::from_class_data(ident.class(), ident.data());
        let elf = match Elf::parse(c, data) {
            Ok(elf) => elf,
            Err(e) => {
                return Err(ParseElfsError::BadElf(e));
            },
        };
        match c {
            Context::Little32 => Ok(Elfs::Little32(elf)),
            Context::Little64 => Ok(Elfs::Little64(elf)),
            Context::Big32 => Ok(Elfs::Big32(elf)),
            Context::Big64 => Ok(Elfs::Big64(elf)),
        }
    }
}

/// The sixteen identification bytes that `id` carries.
pub open spec fn spec_encode_ident(id: Ident) -> Seq<u8> {
    id.magic@ + seq![id.class, id.data, id.version, id.osabi, id.abiversion] + id.reserved@
}

/// The header record that spells `h` under context `c`: the
/// identification bytes followed by every field in file order, each in
/// the context's byte order and width.
pub open spec fn spec_encode_elf_header(c: Context, h: ElfHeader) -> Seq<u8> {
    let d = c.spec_data();
    let w = c.spec_usize_bytes() as nat;
    spec_encode_ident(h.ident) + crate::context::spec_uint_bytes(d, h.typa as int, 2)
        + crate::context::spec_uint_bytes(d, h.machine as int, 2)
        + crate::context::spec_uint_bytes(d, h.version as int, 4)
        + crate::context::spec_uint_bytes(d, h.entry as int, w)
        + crate::context::spec_uint_bytes(d, h.phoff as int, w)
        + crate::context::spec_uint_bytes(d, h.shoff as int, w)
        + crate::context::spec_uint_bytes(d, h.flags as int, 4)
        + crate::context::spec_uint_bytes(d, h.ehsize as int, 2)
        + crate::context::spec_uint_bytes(d, h.phentsize as int, 2)
        + crate::context::spec_uint_bytes(d, h.phnum as int, 2)
        + crate::context::spec_uint_bytes(d, h.shentsize as int, 2)
        + crate::context::spec_uint_bytes(d, h.shnum as int, 2)
        + crate::context::spec_uint_bytes(d, h.shstrndx as int, 2)
}

/// Round trip: under every context, the encoding of a header's fields
/// decodes back to exactly those fields.  Address-sized fields must fit
/// the context's width; every other field's type already fits its
/// record slot.  When the header also satisfies the two validity checks,
/// header decoding accepts the encoding.
pub proof fn lemma_elf_header_round_trip(c: Context, h: ElfHeader)
    requires
        c.spec_class() == Class::Class32 ==> h.entry < 0x1_0000_0000 && h.phoff < 0x1_0000_0000
            && h.shoff < 0x1_0000_0000,
    ensures
        spec_encode_elf_header(c, h).len() == spec_ehsize(c),
        header_matches(h, c, spec_encode_elf_header(c, h)),
        ElfType::spec_from_u16(h.typa) is Some && h.ehsize == spec_ehsize(c)
            ==> spec_elf_error(c, spec_encode_elf_header(c, h)) is None,
{
    let d = c.spec_data();
    let w = c.spec_usize_bytes();
    let wn = w as nat;
    let b = spec_encode_elf_header(c, h);
    crate::context::lemma_pow256_values();
    crate::context::lemma_uint_round_trip(d, h.typa as int, 2);
    crate::context::lemma_uint_round_trip(d, h.machine as int, 2);
    crate::context::lemma_uint_round_trip(d, h.version as int, 4);
    crate::context::lemma_uint_round_trip(d, h.entry as int, wn);
    crate::context::lemma_uint_round_trip(d, h.phoff as int, wn);
    crate::context::lemma_uint_round_trip(d, h.shoff as int, wn);
    crate::context::lemma_uint_round_trip(d, h.flags as int, 4);
    crate::context::lemma_uint_round_trip(d, h.ehsize as int, 2);
    crate::context::lemma_uint_round_trip(d, h.phentsize as int, 2);
    crate::context::lemma_uint_round_trip(d, h.phnum as int, 2);
    crate::context::lemma_uint_round_trip(d, h.shentsize as int, 2);
    crate::context::lemma_uint_round_trip(d, h.shnum as int, 2);
    crate::context::lemma_uint_round_trip(d, h.shstrndx as int, 2);
    assert(b.subrange(0, 4) =~= h.ident.magic@);
    assert(b.subrange(9, 16) =~= h.ident.reserved@);
    assert(b.subrange(16, 18) =~= crate::context::spec_uint_bytes(d, h.typa as int, 2));
    assert(b.subrange(18, 20) =~= crate::context::spec_uint_bytes(d, h.machine as int, 2));
    assert(b.subrange(20, 24) =~= crate::context::spec_uint_bytes(d, h.version as int, 4));
    assert(b.subrange(24, 24 + w) =~= crate::context::spec_uint_bytes(d, h.entry as int, wn));
    assert(b.subrange(24 + w, 24 + 2 * w) =~= crate::context::spec_uint_bytes(
        d,
        h.phoff as int,
        wn,
    ));
    assert(b.subrange(24 + 2 * w, 24 + 3 * w) =~= crate::context::spec_uint_bytes(
        d,
        h.shoff as int,
        wn,
    ));
    assert(b.subrange(24 + 3 * w, 28 + 3 * w) =~= crate::context::spec_uint_bytes(
        d,
        h.flags as int,
        4,
    ));
    assert(b.subrange(28 + 3 * w, 30 + 3 * w) =~= crate::context::spec_uint_bytes(
        d,
        h.ehsize as int,
        2,
    ));
    assert(b.subrange(30 + 3 * w, 32 + 3 * w) =~= crate::context::spec_uint_bytes(
        d,
        h.phentsize as int,
        2,
    ));
    assert(b.subrange(32 + 3 * w, 34 + 3 * w) =~= crate::context::spec_uint_bytes(
        d,
        h.phnum as int,
        2,
    ));
    assert(b.subrange(34 + 3 * w, 36 + 3 * w) =~= crate::context::spec_uint_bytes(
        d,
        h.shentsize as int,
        2,
    ));
    assert(b.subrange(36 + 3 * w, 38 + 3 * w) =~= crate::context::spec_uint_bytes(
        d,
        h.shnum as int,
        2,
    ));
    assert(b.subrange(38 + 3 * w, 40 + 3 * w) =~= crate::context::spec_uint_bytes(
        d,
        h.shstrndx as int,
        2,
    ));
}

/// Object file type.
#[derive(Debug, Clone, Copy, PartialEq, Eq, Structural)]
pub enum ElfType {
    /// No file type.
    NoType,
    /// Relocatable file.
    Rel,
    /// Executable file.
    Exec,
    /// Shared object file.
    Dyn,
    /// Core file.
    Core,
    /// Operating system-specific.
    OsSpecific(u16),
    /// Processor-specific.
    ProcessorSpecific(u16),
}

impl ElfType {
    /// The meaning of an object-type field value, if any: five named
    /// types and two reserved ranges are acceptable.
    pub open spec fn spec_from_u16(value: u16) -> Option<ElfType> {
        if value == 0x00 {
            Some(ElfType::NoType)
        } else if value == 0x01 {
            Some(ElfType::Rel)
        } else if value == 0x02 {
            Some(ElfType::Exec)
        } else if value == 0x03 {
            Some(ElfType::Dyn)
        } else if value == 0x04 {
            Some(ElfType::Core)
        } else if 0xFE00 <= value && value <= 0xFEFF {
            Some(ElfType::OsSpecific(value))
        } else if 0xFF00 <= value {
            Some(ElfType::ProcessorSpecific(value))
        } else {
            None
        }
    }

    /// Decodes an object-type field value.
    pub fn from_u16(value: u16) -> (r: Option<ElfType>)
        ensures
            r == ElfType::spec_from_u16(value),
    {
        match value {
            0x00 => Some(ElfType::NoType),
            0x01 => Some(ElfType::Rel),
            0x02 => Some(ElfType::Exec),
            0x03 => Some(ElfType::Dyn),
            0x04 => Some(ElfType::Core),
            x @ 0xFE00..=0xFEFF => Some(ElfType::OsSpecific(x)),
            x @ 0xFF00..=0xFFFF => Some(ElfType::ProcessorSpecific(x)),
            _ => None,
        }
    }

    /// The field value that encodes this type: a reserved variant's own
    /// payload, or the named value the decoder maps back to this type.
    pub fn to_u16(self) -> (r: u16)
        ensures
            self matches ElfType::OsSpecific(x) ==> r == x,
            self matches ElfType::ProcessorSpecific(x) ==> r == x,
            !(self matches ElfType::OsSpecific(_)) && !(self
                matches ElfType::ProcessorSpecific(_)) ==> ElfType::spec_from_u16(r) == Some(
                self,
            ),
    {
        match self {
            ElfType::NoType => 0x00,
            ElfType::Rel => 0x01,
            ElfType::Exec => 0x02,
            ElfType::Dyn => 0x03,
            ElfType::Core => 0x04,
            ElfType::OsSpecific(x) => x,
            ElfType::ProcessorSpecific(x) => x,
        }
    }
}

} // verus!
