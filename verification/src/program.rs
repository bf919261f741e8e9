//! Program header table: validation and per-entry retrieval with
//! type-specific structural checks.

use crate::context::{uint_at, usize_at, Context};
use crate::elf::Elf;
use crate::utils::{as_offset, read, read_n};
use crate::Class;
use vstd::arithmetic::mul::lemma_mul_inequality;
use vstd::prelude::*;

verus! {

/// Why a program header table was rejected.
#[derive(Debug, Clone, PartialEq, Eq, Structural)]
pub enum ParseProgramsError {
    /// The declared entry size differs from the record size the context
    /// prescribes.
    BadPropertyPhentsize,
    /// The table offset or an entry lies outside the buffer.
    BadProgramHeaders,
    /// The table bytes are not a whole number of records.
    BadArray,
}

/// Why one program entry was rejected.
#[derive(Debug, Clone, PartialEq, Eq, Structural)]
pub enum ParseProgramError {
    /// The entry record lies outside the buffer.
    BadHeader,
    /// The type field maps to no known or reserved value.
    BadPropertyType,
    /// The declared content range lies outside the buffer.
    BadContent,
    /// A `Phdr` segment does not describe the program header table
    /// itself.
    BadPhdr,
    /// A `Tls` segment carries flags other than read-only.
    BadTls,
}

/// The byte width of a program header record under context `c`.
pub open spec fn spec_phsize(c: Context) -> int {
    if c.spec_class() == Class::Class32 {
        32
    } else {
        56
    }
}

/// The byte width of a program header record under context `c`.
pub fn phsize_of(c: Context) -> (r: usize)
    ensures
        r == spec_phsize(c),
{
    if c.usize_bytes() == 4 {
        32
    } else {
        56
    }
}

/// A decoded program header: every multi-byte field already interpreted
/// under the buffer's context.  The flags field sits at a different
/// record offset in the two classes; decoding hides that.
#[derive(Debug, Clone, Copy, PartialEq, Eq, Structural)]
pub struct ProgramHeader {
    /// Segment type, raw.
    pub typa: u32,
    /// Flags.
    pub flags: u32,
    /// File offset of the segment's content.
    pub offset: u64,
    /// Virtual address.
    pub vaddr: u64,
    /// Physical address.
    pub paddr: u64,
    /// Size of the segment in the file.
    pub filesz: u64,
    /// Size of the segment in memory.
    pub memsz: u64,
    /// Alignment requirement.
    pub align: u64,
}

/// The program header record that the bytes of `b` at `off` spell under
/// context `c`.
pub open spec fn spec_pheader(c: Context, b: Seq<u8>, off: int) -> ProgramHeader {
    let d = c.spec_data();
    if c.spec_class() == Class::Class32 {
        ProgramHeader {
            typa: uint_at(d, b, off, 4) as u32,
            offset: usize_at(c, b, off + 4) as u64,
            vaddr: usize_at(c, b, off + 8) as u64,
            paddr: usize_at(c, b, off + 12) as u64,
            filesz: usize_at(c, b, off + 16) as u64,
            memsz: usize_at(c, b, off + 20) as u64,
            flags: uint_at(d, b, off + 24, 4) as u32,
            align: usize_at(c, b, off + 28) as u64,
        }
    } else {
        ProgramHeader {
            typa: uint_at(d, b, off, 4) as u32,
            flags: uint_at(d, b, off + 4, 4) as u32,
            offset: usize_at(c, b, off + 8) as u64,
            vaddr: usize_at(c, b, off + 16) as u64,
            paddr: usize_at(c, b, off + 24) as u64,
            filesz: usize_at(c, b, off + 32) as u64,
            memsz: usize_at(c, b, off + 40) as u64,
            align: usize_at(c, b, off + 48) as u64,
        }
    }
}

impl ProgramHeader {
    /// Decodes the program header record at `off`; nothing is validated
    /// here.
    pub fn decode(c: Context, data: &[u8], off: usize) -> (h: ProgramHeader)
        requires
            off + spec_phsize(c) <= data@.len(),
        ensures
            h == spec_pheader(c, data@, off as int),
    {
        proof {
            vstd::slice::axiom_spec_len(data);
        }
        let d = c.data();
        if c.usize_bytes() == 4 {
            ProgramHeader {
                typa: crate::context::interpret_u32_at(d, data, off),
                offset: crate::context::interpret_usize_at(c, data, off + 4),
                vaddr: crate::context::interpret_usize_at(c, data, off + 8),
                paddr: crate::context::interpret_usize_at(c, data, off + 12),
                filesz: crate::context::interpret_usize_at(c, data, off + 16),
                memsz: crate::context::interpret_usize_at(c, data, off + 20),
                flags: crate::context::interpret_u32_at(d, data, off + 24),
                align: crate::context::interpret_usize_at(c, data, off + 28),
            }
        } else {
            ProgramHeader {
                typa: crate::context::interpret_u32_at(d, data, off),
                flags: crate::context::interpret_u32_at(d, data, off + 4),
                offset: crate::context::interpret_usize_at(c, data, off + 8),
                vaddr: crate::context::interpret_usize_at(c, data, off + 16),
                paddr: crate::context::interpret_usize_at(c, data, off + 24),
                filesz: crate::context::interpret_usize_at(c, data, off + 32),
                memsz: crate::context::interpret_usize_at(c, data, off + 40),
                align: crate::context::interpret_usize_at(c, data, off + 48),
            }
        }
    }

    /// Segment type, when the raw field maps to one.
    pub fn checked_type(&self) -> (r: Option<ProgramType>)
        ensures
            r == ProgramType::spec_from_u32(self.typa),
    {
        ProgramType::from_u32(self.typa)
    }

    /// Segment type, which must be known.
    pub fn typa(&self) -> (r: ProgramType)
        requires
            ProgramType::spec_from_u32(self.typa) is Some,
        ensures
            Some(r) == ProgramType::spec_from_u32(self.typa),
    {
        ProgramType::from_u32(self.typa).unwrap()
    }

    /// Flags.
    pub fn flags(&self) -> (r: u32)
        ensures
            r == self.flags,
    {
        self.flags
    }

    /// File offset of the segment's content.
    pub fn offset(&self) -> (r: u64)
        ensures
            r == self.offset,
    {
        self.offset
    }

    /// Virtual address.
    pub fn vaddr(&self) -> (r: u64)
        ensures
            r == self.vaddr,
    {
        self.vaddr
    }

    /// Physical address.
    pub fn paddr(&self) -> (r: u64)
        ensures
            r == self.paddr,
    {
        self.paddr
    }

    /// Size of the segment in the file.
    pub fn filesz(&self) -> (r: u64)
        ensures
            r == self.filesz,
    {
        self.filesz
    }

    /// Size of the segment in memory.
    pub fn memsz(&self) -> (r: u64)
        ensures
            r == self.memsz,
    {
        self.memsz
    }

    /// Alignment requirement.
    pub fn align(&self) -> (r: u64)
        ensures
            r == self.align,
    {
        self.align
    }
}

/// The outcome program-header-table validation owes an ELF buffer: the
/// table's offset and count, the valid absence of a table, or the first
/// failing check.
pub open spec fn spec_parse_programs(c: Context, b: Seq<u8>, h: crate::elf::ElfHeader) -> Result<
    Option<(int, u16)>,
    ParseProgramsError,
> {
    if h.phoff > usize::MAX {
        Err(ParseProgramsError::BadProgramHeaders)
    } else if h.phoff == 0 {
        Ok(None)
    } else if h.phentsize != spec_phsize(c) {
        Err(ParseProgramsError::BadPropertyPhentsize)
    } else if h.phoff + h.phnum * spec_phsize(c) > b.len() {
        Err(ParseProgramsError::BadProgramHeaders)
    } else {
        Ok(Some((h.phoff as int, h.phnum)))
    }
}

/// A validated program header table.
#[derive(Debug, Clone, Copy)]
pub struct Programs<'a> {
    /// The whole input buffer.
    pub data: &'a [u8],
    /// The table's byte offset.
    pub offset: usize,
    /// The entry count.
    pub num: u16,
    /// The context the table is decoded under.
    pub ctx: Context,
}

impl<'a> Programs<'a> {
    /// Every entry of the table lies inside the buffer.
    pub open spec fn wf(self) -> bool {
        self.offset + self.num * spec_phsize(self.ctx) <= self.data@.len()
    }

    /// Validates the program header table that `elf`'s header declares:
    /// entry size and the bounds of the whole table.  A zero table
    /// offset is the valid absence of a table.
    pub fn parse(elf: Elf<'a>) -> (r: Result<Option<Programs<'a>>, ParseProgramsError>)
        requires
            elf.wf(),
        ensures
            match r {
                Ok(Some(p)) => {
                    &&& spec_parse_programs(elf.ctx, elf.data@, elf.header) == Ok::<
                        Option<(int, u16)>,
                        ParseProgramsError,
                    >(Some((p.offset as int, p.num)))
                    &&& p.data == elf.data
                    &&& p.ctx == elf.ctx
                    &&& p.wf()
                },
                Ok(None) => spec_parse_programs(elf.ctx, elf.data@, elf.header) matches Ok(opt)
                    && opt is None,
                Err(e) => spec_parse_programs(elf.ctx, elf.data@, elf.header) == Err::<
                    Option<(int, u16)>,
                    ParseProgramsError,
                >(e),
            },
    {
        let data = elf.data();
        let h = *elf.header();
        let offset: usize = match as_offset(h.phoff) {
            Some(o) => o,
            None => {
                return Err(ParseProgramsError::BadProgramHeaders);
            },
        };
        if offset == 0 {
            return Ok(None);
        }
        let phsize: usize = phsize_of(elf.ctx);
        if h.phentsize as usize != phsize {
            return Err(ParseProgramsError::BadPropertyPhentsize);
        }
        let num: u16 = h.phnum;
        proof {
            assert(spec_phsize(elf.ctx) * num == num * spec_phsize(elf.ctx)) by (nonlinear_arith);
        }
        if read_n(data, offset, phsize, num as usize).is_none() {
            return Err(ParseProgramsError::BadProgramHeaders);
        }
        Ok(Some(Programs { data, offset, num, ctx: elf.ctx }))
    }

    /// The entry count.
    pub fn num(&self) -> (r: u16)
        ensures
            r == self.num,
    {
        self.num
    }
}

/// The content view a program entry owes: empty for `Null`; otherwise
/// the declared byte range, which for a `Phdr` segment must describe the
/// program header table itself and for a `Tls` segment must come with
/// read-only flags.
pub open spec fn spec_program_content(
    c: Context,
    b: Seq<u8>,
    h: ProgramHeader,
    table_offset: int,
    table_num: u16,
) -> Result<Seq<u8>, ParseProgramError> {
    match ProgramType::spec_from_u32(h.typa) {
        Option::None => Err(ParseProgramError::BadPropertyType),
        Option::Some(ProgramType::Null) => Ok(Seq::empty()),
        Option::Some(t) => if h.offset <= usize::MAX && h.filesz <= usize::MAX && h.offset
            + h.filesz <= b.len() {
            if t == ProgramType::Phdr && !(h.offset == table_offset && h.filesz == table_num
                * spec_phsize(c)) {
                Err(ParseProgramError::BadPhdr)
            } else if t == ProgramType::Tls && h.flags != PROGRAM_FLAG_READ {
                Err(ParseProgramError::BadTls)
            } else {
                Ok(b.subrange(h.offset as int, h.offset + h.filesz))
            }
        } else {
            Err(ParseProgramError::BadContent)
        },
    }
}

/// One validated program entry: its header and its content view.
#[derive(Debug, Clone, Copy)]
pub struct Program<'a> {
    /// The decoded header.
    pub pheader: ProgramHeader,
    /// The segment's content in the file.
    pub content: &'a [u8],
}

impl<'a> Program<'a> {
    /// Retrieves and validates the table entry at `index`: absence when
    /// the index is out of the table's range; otherwise the entry's type
    /// must be known, its declared content must lie inside the buffer,
    /// a `Phdr` segment must describe exactly the table itself, and a
    /// `Tls` segment must carry read-only flags.
    pub fn parse(programs: Programs<'a>, index: u16) -> (r: Option<
        Result<Program<'a>, ParseProgramError>,
    >)
        requires
            programs.wf(),
        ensures
            match r {
                Option::None => index >= programs.num,
                Option::Some(res) => {
                    &&& index < programs.num
                    &&& {
                        let h = spec_pheader(
                            programs.ctx,
                            programs.data@,
                            programs.offset + index * spec_phsize(programs.ctx),
                        );
                        match res {
                            Ok(p) => {
                                &&& p.pheader == h
                                &&& spec_program_content(
                                    programs.ctx,
                                    programs.data@,
                                    h,
                                    programs.offset as int,
                                    programs.num,
                                ) == Ok::<Seq<u8>, ParseProgramError>(p.content@)
                            },
                            Err(e) => spec_program_content(
                                programs.ctx,
                                programs.data@,
                                h,
                                programs.offset as int,
                                programs.num,
                            ) == Err::<Seq<u8>, ParseProgramError>(e),
                        }
                    }
                },
            },
    {
        if index >= programs.num {
            return Option::None;
        }
        let phsize: usize = phsize_of(programs.ctx);
        proof {
            vstd::slice::axiom_spec_len(programs.data);
            lemma_mul_inequality(index as int + 1, programs.num as int, spec_phsize(programs.ctx));
            assert((index + 1) * spec_phsize(programs.ctx) == index * spec_phsize(programs.ctx)
                + spec_phsize(programs.ctx)) by (nonlinear_arith);
            assert(index * spec_phsize(programs.ctx) >= 0) by (nonlinear_arith)
                requires
                    index >= 0,
                    spec_phsize(programs.ctx) >= 0,
            ;
        }
        let offset: usize = programs.offset + index as usize * phsize;
        let pheader = ProgramHeader::decode(programs.ctx, programs.data, offset);
        let typa = match ProgramType::from_u32(pheader.typa) {
            Some(t) => t,
            None => {
                return Some(Err(ParseProgramError::BadPropertyType));
            },
        };
        if typa == ProgramType::Null {
            proof {
                assert(programs.data@.subrange(0, 0) =~= Seq::<u8>::empty());
            }
            return Some(
                Ok(Program { pheader, content: vstd::slice::slice_subrange(programs.data, 0, 0) }),
            );
        }
        let content_offset: usize = match as_offset(pheader.offset) {
            Some(o) => o,
            None => {
                return Some(Err(ParseProgramError::BadContent));
            },
        };
        let content_size: usize = match as_offset(pheader.filesz) {
            Some(s) => s,
            None => {
                return Some(Err(ParseProgramError::BadContent));
            },
        };
        let content = match read(programs.data, content_offset, content_size) {
            Some(content) => content,
            None => {
                return Some(Err(ParseProgramError::BadContent));
            },
        };
        if typa == ProgramType::Phdr {
            proof {
                assert(spec_phsize(programs.ctx) * programs.num == programs.num * spec_phsize(
                    programs.ctx,
                )) by (nonlinear_arith);
            }
            if content_offset != programs.offset {
                return Some(Err(ParseProgramError::BadPhdr));
            }
            if content_size != programs.num as usize * phsize {
                return Some(Err(ParseProgramError::BadPhdr));
            }
        }
        if typa == ProgramType::Tls && pheader.flags != PROGRAM_FLAG_READ {
            return Some(Err(ParseProgramError::BadTls));
        }
        Some(Ok(Program { pheader, content }))
    }

    /// The decoded header.
    pub fn header(&self) -> (r: &ProgramHeader)
        ensures
            r == self.pheader,
    {
        &self.pheader
    }

    /// The segment's content in the file.
    pub fn content(&self) -> (r: &'a [u8])
        ensures
            r == self.content,
    {
        self.content
    }
}

/// Segment type.
#[derive(Debug, Clone, Copy, PartialEq, Eq, Structural)]
pub enum ProgramType {
    /// Program header table entry unused.
    Null,
    /// Loadable segment.
    Load,
    /// Dynamic linking information.
    Dynamic,
    /// Interpreter information.
    Interp,
    /// Auxiliary information.
    Note,
    /// Reserved.
    Shlib,
    /// Segment containing the program header table itself.
    Phdr,
    /// Thread-local storage template.
    Tls,
    /// Operating system-specific.
    OsSpecific(u32),
    /// Processor-specific.
    ProcessorSpecific(u32),
}

impl ProgramType {
    /// The meaning of a segment-type field value, if any.
    pub open spec fn spec_from_u32(value: u32) -> Option<ProgramType> {
        if value == 0 {
            Some(ProgramType::Null)
        } else if value == 1 {
            Some(ProgramType::Load)
        } else if value == 2 {
            Some(ProgramType::Dynamic)
        } else if value == 3 {
            Some(ProgramType::Interp)
        } else if value == 4 {
            Some(ProgramType::Note)
        } else if value == 5 {
            Some(ProgramType::Shlib)
        } else if value == 6 {
            Some(ProgramType::Phdr)
        } else if value == 7 {
            Some(ProgramType::Tls)
        } else if 0x60000000 <= value && value <= 0x6FFFFFFF {
            Some(ProgramType::OsSpecific(value))
        } else if 0x70000000 <= value && value <= 0x7FFFFFFF {
            Some(ProgramType::ProcessorSpecific(value))
        } else {
            None
        }
    }

    /// Decodes a segment-type field value.
    pub fn from_u32(value: u32) -> (r: Option<ProgramType>)
        ensures
            r == ProgramType::spec_from_u32(value),
    {
        match value {
            0 => Some(ProgramType::Null),
            1 => Some(ProgramType::Load),
            2 => Some(ProgramType::Dynamic),
            3 => Some(ProgramType::Interp),
            4 => Some(ProgramType::Note),
            5 => Some(ProgramType::Shlib),
            6 => Some(ProgramType::Phdr),
            7 => Some(ProgramType::Tls),
            x @ 0x60000000..=0x6FFFFFFF => Some(ProgramType::OsSpecific(x)),
            x @ 0x70000000..=0x7FFFFFFF => Some(ProgramType::ProcessorSpecific(x)),
            _ => None,
        }
    }

    /// The field value that encodes this type: a reserved variant's own
    /// payload, or the named value the decoder maps back to this type.
    pub fn to_u32(self) -> (r: u32)
        ensures
            self matches ProgramType::OsSpecific(x) ==> r == x,
            self matches ProgramType::ProcessorSpecific(x) ==> r == x,
            !(self matches ProgramType::OsSpecific(_)) && !(self
                matches ProgramType::ProcessorSpecific(_)) ==> ProgramType::spec_from_u32(r)
                == Some(self),
    {
        match self {
            ProgramType::Null => 0,
            ProgramType::Load => 1,
            ProgramType::Dynamic => 2,
            ProgramType::Interp => 3,
            ProgramType::Note => 4,
            ProgramType::Shlib => 5,
            ProgramType::Phdr => 6,
            ProgramType::Tls => 7,
            ProgramType::OsSpecific(x) => x,
            ProgramType::ProcessorSpecific(x) => x,
        }
    }
}

/// Segment flags.
#[derive(Debug, Clone, Copy, PartialEq, Eq, Structural)]
pub struct ProgramFlags(pub u32);

/// Execute permission.
pub const PROGRAM_FLAG_EXECUTE: u32 = 0x1;

/// Write permission.
pub const PROGRAM_FLAG_WRITE: u32 = 0x2;

/// Read permission.
pub const PROGRAM_FLAG_READ: u32 = 0x4;

/// OS-specific mask.
pub const PROGRAM_FLAG_MASKOS: u32 = 0x0ff00000;

/// Processor-specific mask.
pub const PROGRAM_FLAG_MASKPROCESSOR: u32 = 0xf0000000;

} // verus!
