//! End-to-end scenarios for identification, header decode, and the two
//! header tables.

use zelf::context::Context;
use zelf::elf::{Elf, ElfType, Elfs, ParseElfError, ParseElfsError};
use zelf::ident::{Ident, ParseIdentError};
use zelf::program::{ParseProgramError, ParseProgramsError, Program, ProgramType, Programs};
use zelf::section::{
    ParseSectionError, ParseSectionsError, Section, SectionType, Sections, Shstrtab,
};
use zelf::{Class, Data, Version};

fn le_bytes(v: u64, n: usize) -> Vec<u8> {
    (0..n).map(|i| (v >> (8 * i)) as u8).collect()
}

fn enc(big: bool, v: u64, n: usize) -> Vec<u8> {
    let mut b = le_bytes(v, n);
    if big {
        b.reverse();
    }
    b
}

#[derive(Clone)]
struct HeaderSpec {
    class: u8,
    big: bool,
    typa: u16,
    machine: u16,
    version: u32,
    entry: u64,
    phoff: u64,
    shoff: u64,
    flags: u32,
    phentsize: u16,
    phnum: u16,
    shentsize: u16,
    shnum: u16,
    shstrndx: u16,
}

impl HeaderSpec {
    fn new(class: u8, big: bool) -> HeaderSpec {
        HeaderSpec {
            class,
            big,
            typa: 2,
            machine: 62,
            version: 1,
            entry: 0,
            phoff: 0,
            shoff: 0,
            flags: 0,
            phentsize: 0,
            phnum: 0,
            shentsize: 0,
            shnum: 0,
            shstrndx: 0,
        }
    }

    fn width(&self) -> usize {
        if self.class == 1 {
            4
        } else {
            8
        }
    }

    fn ehsize(&self) -> usize {
        40 + 3 * self.width()
    }

    fn build(&self) -> Vec<u8> {
        let w = self.width();
        let mut b = vec![
            0x7f,
            b'E',
            b'L',
            b'F',
            self.class,
            if self.big { 2 } else { 1 },
            1,
            0,
            0,
            0,
            0,
            0,
            0,
            0,
            0,
            0,
        ];
        b.extend(enc(self.big, self.typa as u64, 2));
        b.extend(enc(self.big, self.machine as u64, 2));
        b.extend(enc(self.big, self.version as u64, 4));
        b.extend(enc(self.big, self.entry, w));
        b.extend(enc(self.big, self.phoff, w));
        b.extend(enc(self.big, self.shoff, w));
        b.extend(enc(self.big, self.flags as u64, 4));
        b.extend(enc(self.big, self.ehsize() as u64, 2));
        b.extend(enc(self.big, self.phentsize as u64, 2));
        b.extend(enc(self.big, self.phnum as u64, 2));
        b.extend(enc(self.big, self.shentsize as u64, 2));
        b.extend(enc(self.big, self.shnum as u64, 2));
        b.extend(enc(self.big, self.shstrndx as u64, 2));
        assert_eq!(b.len(), self.ehsize());
        b
    }
}

fn check_round_trip(class: u8, big: bool, expect: Context) {
    let mut h = HeaderSpec::new(class, big);
    h.typa = 3;
    h.machine = 0x1234;
    h.version = 1;
    h.entry = if class == 1 { 0x11223344 } else { 0x1122334455667788 };
    h.flags = 0xa5a5a5a5;
    let bytes = h.build();
    let elfs = Elfs::parse(&bytes).expect("valid header");
    let elf = match (&elfs, expect) {
        (Elfs::Little32(e), Context::Little32) => e,
        (Elfs::Little64(e), Context::Little64) => e,
        (Elfs::Big32(e), Context::Big32) => e,
        (Elfs::Big64(e), Context::Big64) => e,
        _ => panic!("wrong variant"),
    };
    let hd = elf.header();
    assert_eq!(hd.typa(), ElfType::Dyn);
    assert_eq!(hd.machine(), 0x1234);
    assert_eq!(hd.version(), 1);
    assert_eq!(hd.entry(), h.entry);
    assert_eq!(hd.phoff(), 0);
    assert_eq!(hd.shoff(), 0);
    assert_eq!(hd.flags(), 0xa5a5a5a5);
    assert_eq!(hd.ehsize() as usize, h.ehsize());
    assert_eq!(hd.phentsize(), 0);
    assert_eq!(hd.phnum(), 0);
    assert_eq!(hd.shentsize(), 0);
    assert_eq!(hd.shnum(), 0);
    assert_eq!(hd.shstrndx(), 0);
    let id = hd.ident();
    assert_eq!(id.magic(), [0x7f, b'E', b'L', b'F']);
    assert_eq!(id.class(), if class == 1 { Class::Class32 } else { Class::Class64 });
    assert_eq!(id.data(), if big { Data::Big } else { Data::Little });
    assert_eq!(id.version(), Version::One);
    assert_eq!(id.os_abi(), 0);
    assert_eq!(id.abi_version(), 0);
}

#[test]
fn header_round_trip_little32() {
    check_round_trip(1, false, Context::Little32);
}

#[test]
fn header_round_trip_little64() {
    check_round_trip(2, false, Context::Little64);
}

#[test]
fn header_round_trip_big32() {
    check_round_trip(1, true, Context::Big32);
}

#[test]
fn header_round_trip_big64() {
    check_round_trip(2, true, Context::Big64);
}

#[test]
fn no_tables_is_valid_absence() {
    // A 64-byte buffer: magic, class 2, data 1, version 1, and a
    // well-formed 64-bit little-endian header with zero table offsets.
    let h = HeaderSpec::new(2, false);
    let bytes = h.build();
    assert_eq!(bytes.len(), 64);
    let elfs = Elfs::parse(&bytes).expect("valid header");
    let elf = match elfs {
        Elfs::Little64(e) => e,
        _ => panic!("wrong variant"),
    };
    assert!(matches!(Sections::parse(elf), Ok(None)));
    assert!(matches!(Programs::parse(elf), Ok(None)));
}

#[test]
fn corrupt_magic_fails_before_header_fields() {
    let h = HeaderSpec::new(2, false);
    let mut bytes = h.build();
    bytes[0] = 0x7e;
    assert_eq!(Ident::parse(&bytes).unwrap_err(), ParseIdentError::BadPropertyMagic);
    assert!(matches!(
        Elfs::parse(&bytes),
        Err(ParseElfsError::BadIdent(ParseIdentError::BadPropertyMagic))
    ));
}

#[test]
fn short_input_is_broken_header() {
    assert_eq!(Ident::parse(&[0x7f, b'E', b'L']).unwrap_err(), ParseIdentError::BrokenHeader);
}

#[test]
fn unknown_class_data_version_rejected() {
    let h = HeaderSpec::new(2, false);
    let mut bytes = h.build();
    bytes[4] = 3;
    assert_eq!(Ident::parse(&bytes).unwrap_err(), ParseIdentError::BadPropertyClass);
    let mut bytes = h.build();
    bytes[5] = 0;
    assert_eq!(Ident::parse(&bytes).unwrap_err(), ParseIdentError::BadPropertyData);
    let mut bytes = h.build();
    bytes[6] = 2;
    assert_eq!(Ident::parse(&bytes).unwrap_err(), ParseIdentError::BadPropertyVersion);
}

#[test]
fn unknown_object_type_rejected() {
    let mut h = HeaderSpec::new(2, false);
    h.typa = 5;
    let bytes = h.build();
    assert!(matches!(
        Elfs::parse(&bytes),
        Err(ParseElfsError::BadElf(ParseElfError::BadPropertyType))
    ));
}

#[test]
fn reserved_object_types_accepted() {
    let mut h = HeaderSpec::new(2, false);
    h.typa = 0xfe00;
    let bytes = h.build();
    let elfs = Elfs::parse(&bytes).expect("reserved type is valid");
    match elfs {
        Elfs::Little64(e) => assert_eq!(e.header().typa(), ElfType::OsSpecific(0xfe00)),
        _ => panic!("wrong variant"),
    }
    let mut h = HeaderSpec::new(2, false);
    h.typa = 0xff10;
    let bytes = h.build();
    match Elfs::parse(&bytes).expect("reserved type is valid") {
        Elfs::Little64(e) => assert_eq!(e.header().typa(), ElfType::ProcessorSpecific(0xff10)),
        _ => panic!("wrong variant"),
    }
}

#[test]
fn self_reported_ehsize_must_match() {
    let h = HeaderSpec::new(2, false);
    let mut bytes = h.build();
    // The ehsize field sits at 28 + 3 * 8 = 52 in the 64-bit layout.
    bytes[52] = 63;
    assert!(matches!(
        Elfs::parse(&bytes),
        Err(ParseElfsError::BadElf(ParseElfError::BadPropertyEhsize))
    ));
}

/// One section header record under the given layout.
#[derive(Clone, Default)]
struct SectionSpec {
    name: u32,
    typa: u32,
    flags: u64,
    addr: u64,
    offset: u64,
    size: u64,
    link: u32,
    info: u32,
    addralign: u64,
    entsize: u64,
}

fn build_sheader(big: bool, w: usize, s: &SectionSpec) -> Vec<u8> {
    let mut b = Vec::new();
    b.extend(enc(big, s.name as u64, 4));
    b.extend(enc(big, s.typa as u64, 4));
    b.extend(enc(big, s.flags, w));
    b.extend(enc(big, s.addr, w));
    b.extend(enc(big, s.offset, w));
    b.extend(enc(big, s.size, w));
    b.extend(enc(big, s.link as u64, 4));
    b.extend(enc(big, s.info as u64, 4));
    b.extend(enc(big, s.addralign, w));
    b.extend(enc(big, s.entsize, w));
    assert_eq!(b.len(), 16 + 6 * w);
    b
}

/// A 64-bit little-endian image with the given section records appended
/// right after the ELF header.
fn build_image_with_sections(sections: &[SectionSpec], shstrndx: u16, shnum: u16) -> Vec<u8> {
    let mut h = HeaderSpec::new(2, false);
    h.shoff = 64;
    h.shentsize = 64;
    h.shnum = shnum;
    h.shstrndx = shstrndx;
    let mut bytes = h.build();
    for s in sections {
        bytes.extend(build_sheader(false, 8, s));
    }
    bytes
}

fn parse_elf(bytes: &[u8]) -> Elf<'_> {
    match Elfs::parse(bytes).expect("valid header") {
        Elfs::Little64(e) => e,
        _ => panic!("wrong variant"),
    }
}

#[test]
fn section_table_entry_size_must_match_every_context() {
    for (class, big) in [(1u8, false), (1, true), (2, false), (2, true)] {
        let mut h = HeaderSpec::new(class, big);
        h.shoff = h.ehsize() as u64;
        h.shentsize = 17;  // never a real record size
        h.shnum = 1;
        let mut bytes = h.build();
        bytes.extend(build_sheader(big, h.width(), &SectionSpec::default()));
        let r = match (class, big) {
            (1, false) => Elf::parse(Context::Little32, &bytes).map(Sections::parse),
            (1, true) => Elf::parse(Context::Big32, &bytes).map(Sections::parse),
            (2, false) => Elf::parse(Context::Little64, &bytes).map(Sections::parse),
            _ => Elf::parse(Context::Big64, &bytes).map(Sections::parse),
        };
        assert!(matches!(r, Ok(Err(ParseSectionsError::BadPropertyShentsize))));
    }
}

#[test]
fn section_zero_nonzero_name_rejected() {
    let zero = SectionSpec { name: 1, ..SectionSpec::default() };
    let bytes = build_image_with_sections(&[zero], 0, 1);
    let elf = parse_elf(&bytes);
    assert!(matches!(Sections::parse(elf), Err(ParseSectionsError::BadSectionZero)));
}

#[test]
fn section_zero_nonzero_addr_rejected() {
    let zero = SectionSpec { addr: 0x1000, ..SectionSpec::default() };
    let bytes = build_image_with_sections(&[zero], 0, 1);
    let elf = parse_elf(&bytes);
    assert!(matches!(Sections::parse(elf), Err(ParseSectionsError::BadSectionZero)));
}

#[test]
fn section_zero_stray_size_rejected() {
    // Size neither zero nor an extended count while the header already
    // carries a count.
    let zero = SectionSpec { size: 7, ..SectionSpec::default() };
    let bytes = build_image_with_sections(&[zero], 0, 1);
    let elf = parse_elf(&bytes);
    assert!(matches!(Sections::parse(elf), Err(ParseSectionsError::BadPropertyShnum)));
}

#[test]
fn section_zero_stray_link_rejected() {
    // Entry zero's link is nonzero and the header's string-table index
    // is not the escape value: the section-zero invariant fails.
    let zero = SectionSpec { link: 5, ..SectionSpec::default() };
    let bytes = build_image_with_sections(&[zero], 0, 1);
    let elf = parse_elf(&bytes);
    assert!(matches!(Sections::parse(elf), Err(ParseSectionsError::BadPropertyShstrndx)));
}

#[test]
fn extended_count_escape() {
    // Header count zero; section zero carries the true count 0xff00.
    let mut sections = vec![SectionSpec { size: 0xff00, ..SectionSpec::default() }];
    for _ in 1..0xff00u32 {
        sections.push(SectionSpec { typa: 1, ..SectionSpec::default() });
    }
    let bytes = build_image_with_sections(&sections, 0, 0);
    let elf = parse_elf(&bytes);
    let s = Sections::parse(elf).expect("valid").expect("present");
    assert_eq!(s.num(), 0xff00);
}

#[test]
fn extended_shstrndx_escape() {
    let zero = SectionSpec { link: 0xff42, ..SectionSpec::default() };
    let bytes = build_image_with_sections(&[zero], 0xffff, 1);
    let elf = parse_elf(&bytes);
    let s = Sections::parse(elf).expect("valid").expect("present");
    assert_eq!(s.shstrndx(), 0xff42);
}

#[test]
fn truncated_section_table_rejected() {
    let zero = SectionSpec::default();
    // Declare two entries but append only one record.
    let bytes = build_image_with_sections(&[zero], 0, 2);
    let elf = parse_elf(&bytes);
    assert!(matches!(Sections::parse(elf), Err(ParseSectionsError::BrokenHeaders)));
}

#[test]
fn section_content_extraction() {
    let zero = SectionSpec::default();
    // Content: four bytes right after the two section records.
    let progbits = SectionSpec {
        name: 3,
        typa: 1,
        offset: (64 + 2 * 64) as u64,
        size: 4,
        addralign: 4,
        ..SectionSpec::default()
    };
    let mut bytes = build_image_with_sections(&[zero, progbits], 0, 2);
    bytes.extend([0xde, 0xad, 0xbe, 0xef]);
    let elf = parse_elf(&bytes);
    let s = Sections::parse(elf).expect("valid").expect("present");
    let sec = Section::parse(s, 1).expect("in range").expect("valid");
    assert_eq!(sec.header().name(), 3);
    assert_eq!(sec.header().typa(), SectionType::Progbits);
    assert_eq!(sec.header().size(), 4);
    assert_eq!(sec.content(), &[0xde, 0xad, 0xbe, 0xef]);
    // Index out of range yields absence, not an error.
    assert!(Section::parse(s, 2).is_none());
}

#[test]
fn nobits_content_is_always_empty() {
    let zero = SectionSpec::default();
    let nobits = SectionSpec { typa: 8, offset: 8, size: 100_000, ..SectionSpec::default() };
    let bytes = build_image_with_sections(&[zero, nobits], 0, 2);
    let elf = parse_elf(&bytes);
    let s = Sections::parse(elf).expect("valid").expect("present");
    let sec = Section::parse(s, 1).expect("in range").expect("valid");
    assert_eq!(sec.header().typa(), SectionType::Nobits);
    assert_eq!(sec.header().size(), 100_000);
    assert_eq!(sec.content().len(), 0);
}

#[test]
fn nobits_offset_is_still_bounds_checked() {
    let zero = SectionSpec::default();
    let nobits = SectionSpec { typa: 8, offset: 1 << 40, size: 0, ..SectionSpec::default() };
    let bytes = build_image_with_sections(&[zero, nobits], 0, 2);
    let elf = parse_elf(&bytes);
    let s = Sections::parse(elf).expect("valid").expect("present");
    assert!(matches!(
        Section::parse(s, 1),
        Some(Err(ParseSectionError::BrokenContent))
    ));
}

#[test]
fn section_with_unknown_type_rejected() {
    let zero = SectionSpec::default();
    let bad = SectionSpec { typa: 0x13, ..SectionSpec::default() };
    let bytes = build_image_with_sections(&[zero, bad], 0, 2);
    let elf = parse_elf(&bytes);
    let s = Sections::parse(elf).expect("valid").expect("present");
    assert!(matches!(
        Section::parse(s, 1),
        Some(Err(ParseSectionError::BadPropertyType))
    ));
}

#[test]
fn section_content_out_of_bounds_rejected() {
    let zero = SectionSpec::default();
    let bad = SectionSpec { typa: 1, offset: 192, size: 1 << 30, ..SectionSpec::default() };
    let bytes = build_image_with_sections(&[zero, bad], 0, 2);
    let elf = parse_elf(&bytes);
    let s = Sections::parse(elf).expect("valid").expect("present");
    assert!(matches!(
        Section::parse(s, 1),
        Some(Err(ParseSectionError::BrokenContent))
    ));
}

#[test]
fn shstrtab_lookup() {
    let zero = SectionSpec::default();
    let names: &[u8] = b"\0.text\0";
    let strtab = SectionSpec {
        name: 0,
        typa: 3,
        offset: (64 + 2 * 64) as u64,
        size: names.len() as u64,
        ..SectionSpec::default()
    };
    let mut bytes = build_image_with_sections(&[zero, strtab], 1, 2);
    bytes.extend(names);
    let elf = parse_elf(&bytes);
    let s = Sections::parse(elf).expect("valid").expect("present");
    let shstrtab = Shstrtab::parse(s).expect("valid").expect("present");
    assert_eq!(shstrtab.strtab().find(1), Some(&b".text"[..]));
}

#[test]
fn shstrndx_zero_is_valid_absence() {
    let zero = SectionSpec::default();
    let bytes = build_image_with_sections(&[zero], 0, 1);
    let elf = parse_elf(&bytes);
    let s = Sections::parse(elf).expect("valid").expect("present");
    assert!(matches!(Shstrtab::parse(s), Ok(None)));
}

/// One program header record in the 64-bit little-endian layout.
#[derive(Clone, Default)]
struct ProgramSpec {
    typa: u32,
    flags: u32,
    offset: u64,
    vaddr: u64,
    paddr: u64,
    filesz: u64,
    memsz: u64,
    align: u64,
}

fn build_pheader64(big: bool, p: &ProgramSpec) -> Vec<u8> {
    let mut b = Vec::new();
    b.extend(enc(big, p.typa as u64, 4));
    b.extend(enc(big, p.flags as u64, 4));
    b.extend(enc(big, p.offset, 8));
    b.extend(enc(big, p.vaddr, 8));
    b.extend(enc(big, p.paddr, 8));
    b.extend(enc(big, p.filesz, 8));
    b.extend(enc(big, p.memsz, 8));
    b.extend(enc(big, p.align, 8));
    assert_eq!(b.len(), 56);
    b
}

fn build_image_with_programs(programs: &[ProgramSpec]) -> Vec<u8> {
    let mut h = HeaderSpec::new(2, false);
    h.phoff = 64;
    h.phentsize = 56;
    h.phnum = programs.len() as u16;
    let mut bytes = h.build();
    for p in programs {
        bytes.extend(build_pheader64(false, p));
    }
    bytes
}

#[test]
fn program_table_entry_size_must_match() {
    let mut h = HeaderSpec::new(2, false);
    h.phoff = 64;
    h.phentsize = 55;
    h.phnum = 1;
    let mut bytes = h.build();
    bytes.extend(build_pheader64(false, &ProgramSpec::default()));
    let elf = parse_elf(&bytes);
    assert!(matches!(
        Programs::parse(elf),
        Err(ParseProgramsError::BadPropertyPhentsize)
    ));
}

#[test]
fn truncated_program_table_rejected() {
    let mut h = HeaderSpec::new(2, false);
    h.phoff = 64;
    h.phentsize = 56;
    h.phnum = 2;
    let mut bytes = h.build();
    bytes.extend(build_pheader64(false, &ProgramSpec::default()));
    let elf = parse_elf(&bytes);
    assert!(matches!(Programs::parse(elf), Err(ParseProgramsError::BadProgramHeaders)));
}

#[test]
fn program_content_extraction() {
    let load = ProgramSpec {
        typa: 1,
        flags: 0x5,
        offset: 120,
        vaddr: 0x400000,
        paddr: 0x400000,
        filesz: 3,
        memsz: 8,
        align: 0x1000,
    };
    let mut bytes = build_image_with_programs(&[load]);
    bytes.extend([1, 2, 3]);
    let elf = parse_elf(&bytes);
    let ps = Programs::parse(elf).expect("valid").expect("present");
    assert_eq!(ps.num(), 1);
    let p = Program::parse(ps, 0).expect("in range").expect("valid");
    assert_eq!(p.header().typa(), ProgramType::Load);
    assert_eq!(p.header().flags(), 0x5);
    assert_eq!(p.header().vaddr(), 0x400000);
    assert_eq!(p.header().memsz(), 8);
    assert_eq!(p.header().align(), 0x1000);
    assert_eq!(p.content(), &[1, 2, 3]);
    assert!(Program::parse(ps, 1).is_none());
}

#[test]
fn null_program_has_no_content() {
    let bytes = build_image_with_programs(&[ProgramSpec::default()]);
    let elf = parse_elf(&bytes);
    let ps = Programs::parse(elf).expect("valid").expect("present");
    let p = Program::parse(ps, 0).expect("in range").expect("valid");
    assert_eq!(p.header().typa(), ProgramType::Null);
    assert_eq!(p.content().len(), 0);
}

#[test]
fn phdr_segment_must_describe_the_table() {
    // A Phdr segment describing exactly the one-record table at 64.
    let good = ProgramSpec { typa: 6, offset: 64, filesz: 56, memsz: 56, ..ProgramSpec::default() };
    let bytes = build_image_with_programs(&[good]);
    let elf = parse_elf(&bytes);
    let ps = Programs::parse(elf).expect("valid").expect("present");
    let p = Program::parse(ps, 0).expect("in range").expect("valid");
    assert_eq!(p.header().typa(), ProgramType::Phdr);
    assert_eq!(p.content().len(), 56);

    // The same segment with the wrong size is a named failure.
    let bad = ProgramSpec { typa: 6, offset: 64, filesz: 48, memsz: 56, ..ProgramSpec::default() };
    let bytes = build_image_with_programs(&[bad]);
    let elf = parse_elf(&bytes);
    let ps = Programs::parse(elf).expect("valid").expect("present");
    assert!(matches!(Program::parse(ps, 0), Some(Err(ParseProgramError::BadPhdr))));
}

#[test]
fn tls_segment_must_be_read_only() {
    let good = ProgramSpec { typa: 7, flags: 0x4, offset: 64, filesz: 0, ..ProgramSpec::default() };
    let bytes = build_image_with_programs(&[good]);
    let elf = parse_elf(&bytes);
    let ps = Programs::parse(elf).expect("valid").expect("present");
    assert!(Program::parse(ps, 0).unwrap().is_ok());

    let bad = ProgramSpec { typa: 7, flags: 0x6, offset: 64, filesz: 0, ..ProgramSpec::default() };
    let bytes = build_image_with_programs(&[bad]);
    let elf = parse_elf(&bytes);
    let ps = Programs::parse(elf).expect("valid").expect("present");
    assert!(matches!(Program::parse(ps, 0), Some(Err(ParseProgramError::BadTls))));
}

#[test]
fn program_with_unknown_type_rejected() {
    let bad = ProgramSpec { typa: 8, ..ProgramSpec::default() };
    let bytes = build_image_with_programs(&[bad]);
    let elf = parse_elf(&bytes);
    let ps = Programs::parse(elf).expect("valid").expect("present");
    assert!(matches!(
        Program::parse(ps, 0),
        Some(Err(ParseProgramError::BadPropertyType))
    ));
}
