//! Per-content-type decoder scenarios: string tables, symbol tables,
//! dynamic entries, relocations, arrays, extended indices, hash tables,
//! notes, groups, compressed sections, interpreter paths.

use zelf::array::Array;
use zelf::compression::{Compression, CompressionType, ParseCompressionError};
use zelf::context::Context;
use zelf::dynamic::{Dynamic, DynamicTag32, DynamicTag64};
use zelf::group::{Group, ParseGroupError};
use zelf::hash::ParseHashError;
use zelf::interp::{Interp, ParseInterpError};
use zelf::note::{Note, ParseNoteError};
use zelf::phdr::Phdr;
use zelf::rel::Rel;
use zelf::rela::Rela;
use zelf::shndx::Shndx;
use zelf::strtab::{ParseStrtabError, Strtab};
use zelf::symtab::Symtab;

fn le_bytes(v: u64, n: usize) -> Vec<u8> {
    (0..n).map(|i| (v >> (8 * i)) as u8).collect()
}

fn be_bytes(v: u64, n: usize) -> Vec<u8> {
    let mut b = le_bytes(v, n);
    b.reverse();
    b
}

#[test]
fn strtab_requires_final_terminator() {
    assert!(Strtab::parse(b"").is_ok());
    assert!(Strtab::parse(b"\0").is_ok());
    assert!(Strtab::parse(b"\0abc\0").is_ok());
    assert_eq!(Strtab::parse(b"\0abc").unwrap_err(), ParseStrtabError::Broken);
}

#[test]
fn strtab_find_returns_run_up_to_terminator() {
    let st = Strtab::parse(b"\0hello\0x\0").unwrap();
    assert_eq!(st.find(0), Some(&b""[..]));
    assert_eq!(st.find(1), Some(&b"hello"[..]));
    assert_eq!(st.find(3), Some(&b"llo"[..]));
    assert_eq!(st.find(7), Some(&b"x"[..]));
    assert_eq!(st.find(8), Some(&b""[..]));
}

#[test]
fn strtab_find_past_end_is_absent() {
    let st = Strtab::parse(b"\0ab\0").unwrap();
    assert_eq!(st.find(4), None);
    assert_eq!(st.find(1000), None);
    let empty = Strtab::parse(b"").unwrap();
    assert_eq!(empty.find(0), None);
}

#[test]
fn strtab_strings_splits_on_zero_bytes() {
    let st = Strtab::parse(b"a\0bb\0").unwrap();
    assert_eq!(st.strings(), vec![&b"a"[..], &b"bb"[..]]);
    let st = Strtab::parse(b"\0x\0").unwrap();
    assert_eq!(st.strings(), vec![&b""[..], &b"x"[..]]);
    let st = Strtab::parse(b"").unwrap();
    assert!(st.strings().is_empty());
}

#[test]
fn symtab_little32_layout() {
    // name=7, value=0x1000, size=8, info=0x12, other=1, shndx=3
    let mut rec = Vec::new();
    rec.extend(le_bytes(7, 4));
    rec.extend(le_bytes(0x1000, 4));
    rec.extend(le_bytes(8, 4));
    rec.push(0x12);
    rec.push(1);
    rec.extend(le_bytes(3, 2));
    let st = Symtab::parse(Context::Little32, &rec).unwrap();
    assert_eq!(st.num(), 1);
    let e = st.entry(0).unwrap();
    assert_eq!(e.name(), 7);
    assert_eq!(e.value(), 0x1000);
    assert_eq!(e.size(), 8);
    assert_eq!(e.info(), 0x12);
    assert_eq!(e.other(), 1);
    assert_eq!(e.shndx(), 3);
    assert!(st.entry(1).is_none());
}

#[test]
fn symtab_big64_layout() {
    // name=9, info=0x21, other=2, shndx=5, value=0xdeadbeef, size=16
    let mut rec = Vec::new();
    rec.extend(be_bytes(9, 4));
    rec.push(0x21);
    rec.push(2);
    rec.extend(be_bytes(5, 2));
    rec.extend(be_bytes(0xdeadbeef, 8));
    rec.extend(be_bytes(16, 8));
    let st = Symtab::parse(Context::Big64, &rec).unwrap();
    assert_eq!(st.num(), 1);
    let e = st.entries()[0];
    assert_eq!(e.name(), 9);
    assert_eq!(e.info(), 0x21);
    assert_eq!(e.other(), 2);
    assert_eq!(e.shndx(), 5);
    assert_eq!(e.value(), 0xdeadbeef);
    assert_eq!(e.size(), 16);
}

#[test]
fn trailing_partial_record_is_dropped() {
    let mut content = Vec::new();
    content.extend(le_bytes(1, 8));
    content.extend(le_bytes(2, 8));
    content.extend([0xff, 0xff, 0xff]);  // partial record
    let dt = Dynamic::parse(Context::Little64, &content).unwrap();
    assert_eq!(dt.num(), 1);
    let e = dt.entry(0).unwrap();
    assert_eq!(e.tag, 1);
    assert_eq!(e.un(), 2);
}

#[test]
fn dynamic_tags_decode() {
    let mut content = Vec::new();
    content.extend(le_bytes(1, 8));  // Needed
    content.extend(le_bytes(0x17, 8));
    content.extend(le_bytes(30, 8));  // Flags
    content.extend(le_bytes(0x3, 8));
    content.extend(le_bytes(0x6000_0100, 8));  // OS-specific
    content.extend(le_bytes(0, 8));
    let dt = Dynamic::parse(Context::Little64, &content).unwrap();
    assert_eq!(dt.num(), 3);
    let es = dt.entries();
    assert_eq!(es[0].tag(), DynamicTag64::Needed);
    assert_eq!(es[0].un(), 0x17);
    assert_eq!(es[1].tag(), DynamicTag64::Flags);
    assert_eq!(es[2].tag(), DynamicTag64::OsSpecific(0x6000_0100));
    assert_eq!(DynamicTag64::from_u64(31), DynamicTag64::NonStandard(31));
    assert_eq!(DynamicTag32::from_u32(34), DynamicTag32::SymtabShndx);
    assert_eq!(DynamicTag32::from_u32(0x7000_0001), DynamicTag32::ProcessorSpecific(0x7000_0001));
    assert_eq!(DynamicTag64::to_u64(DynamicTag64::Needed), 1);
    assert_eq!(DynamicTag32::to_u32(DynamicTag32::Flags), 30);
}

#[test]
fn rel_and_rela_decode() {
    let mut content = Vec::new();
    content.extend(be_bytes(0x10, 4));
    content.extend(be_bytes(0x202, 4));
    let rel = Rel::parse(Context::Big32, &content).unwrap();
    assert_eq!(rel.num(), 1);
    assert_eq!(rel.entries()[0].offset(), 0x10);
    assert_eq!(rel.entries()[0].info(), 0x202);

    let mut content = Vec::new();
    content.extend(le_bytes(0x20, 8));
    content.extend(le_bytes(0x101, 8));
    content.extend(le_bytes(0xffff_ffff_ffff_fff8, 8));  // addend, raw
    let rela = Rela::parse(Context::Little64, &content).unwrap();
    assert_eq!(rela.num(), 1);
    let e = rela.entry(0).unwrap();
    assert_eq!(e.offset(), 0x20);
    assert_eq!(e.info(), 0x101);
    assert_eq!(e.addend(), 0xffff_ffff_ffff_fff8);
}

#[test]
fn array_and_shndx_decode() {
    let mut content = Vec::new();
    content.extend(le_bytes(0x8048000, 4));
    content.extend(le_bytes(0x8049000, 4));
    let arr = Array::parse(Context::Little32, &content).unwrap();
    assert_eq!(arr.num(), 2);
    assert_eq!(arr.entries()[0].value(), 0x8048000);
    assert_eq!(arr.entries()[1].value(), 0x8049000);

    let mut content = Vec::new();
    content.extend(be_bytes(0x10001, 4));
    let sx = Shndx::parse(Context::Big64, &content).unwrap();
    assert_eq!(sx.num(), 1);
    assert_eq!(sx.entries()[0].value(), 0x10001);
}

#[test]
fn phdr_segment_decodes_records() {
    let mut content = Vec::new();
    content.extend(le_bytes(1, 4));  // Load
    content.extend(le_bytes(0x5, 4));  // flags
    content.extend(le_bytes(0, 8));
    content.extend(le_bytes(0x400000, 8));
    content.extend(le_bytes(0x400000, 8));
    content.extend(le_bytes(0x100, 8));
    content.extend(le_bytes(0x100, 8));
    content.extend(le_bytes(0x1000, 8));
    let ph = Phdr::parse(Context::Little64, &content).unwrap();
    assert_eq!(ph.num(), 1);
    let e = ph.entries()[0];
    assert_eq!(e.flags(), 0x5);
    assert_eq!(e.vaddr(), 0x400000);
    assert_eq!(e.filesz(), 0x100);
}

#[test]
fn hash_section_decodes_buckets_and_chains() {
    let mut content = Vec::new();
    content.extend(le_bytes(2, 4));  // nbuckets
    content.extend(le_bytes(3, 4));  // nchains
    content.extend(le_bytes(10, 4));
    content.extend(le_bytes(11, 4));
    content.extend(le_bytes(20, 4));
    content.extend(le_bytes(21, 4));
    content.extend(le_bytes(22, 4));
    let h = zelf::hash::Hash::parse(Context::Little64, &content).unwrap();
    let buckets = h.buckets();
    let chains = h.chains();
    assert_eq!(buckets.len(), 2);
    assert_eq!(chains.len(), 3);
    assert_eq!(buckets[0].value(), 10);
    assert_eq!(buckets[1].value(), 11);
    assert_eq!(chains[0].value(), 20);
    assert_eq!(chains[2].value(), 22);
}

#[test]
fn hash_section_accepts_trailing_bytes() {
    let mut content = Vec::new();
    content.extend(le_bytes(1, 4));
    content.extend(le_bytes(1, 4));
    content.extend(le_bytes(10, 4));
    content.extend(le_bytes(20, 4));
    content.extend([0xaa, 0xbb]);  // trailing garbage, accepted by policy
    assert!(zelf::hash::Hash::parse(Context::Little64, &content).is_ok());
}

#[test]
fn hash_section_bounds_failures() {
    assert_eq!(
        zelf::hash::Hash::parse(Context::Little64, &[0, 0, 0]).unwrap_err(),
        ParseHashError::BrokenHeader
    );
    let mut content = Vec::new();
    content.extend(le_bytes(4, 4));  // four buckets declared
    content.extend(le_bytes(0, 4));
    content.extend(le_bytes(1, 4));  // only one present
    assert_eq!(
        zelf::hash::Hash::parse(Context::Little64, &content).unwrap_err(),
        ParseHashError::BrokenBuckets
    );
    let mut content = Vec::new();
    content.extend(le_bytes(1, 4));
    content.extend(le_bytes(2, 4));  // two chains declared
    content.extend(le_bytes(1, 4));  // the bucket
    content.extend(le_bytes(2, 4));  // only one chain present
    assert_eq!(
        zelf::hash::Hash::parse(Context::Little64, &content).unwrap_err(),
        ParseHashError::BrokenChains
    );
}

#[test]
fn elf_hash_function_values() {
    assert_eq!(zelf::hash::hash(b""), 0);
    assert_eq!(zelf::hash::hash(b"a"), 0x61);
    assert_eq!(zelf::hash::hash(b"aa"), 0x671);
    // One step with the high nibble set exercises the fold-back path.
    let long: Vec<u8> = std::iter::repeat(0xffu8).take(8).collect();
    let h = zelf::hash::hash(&long);
    assert!(h & 0xf000_0000 == 0);
}

#[test]
fn note_layout_64() {
    let mut content = Vec::new();
    content.extend(le_bytes(4, 4));  // name size
    content.extend(le_bytes(2, 4));  // descriptor size
    content.extend(le_bytes(0x42, 4));  // type
    content.extend(b"GNU\0");  // name, 12..16
    // 16 is already 8-aligned: descriptor follows directly.
    content.extend([0xca, 0xfe]);
    let n = Note::parse(Context::Little64, &content).unwrap();
    assert_eq!(n.typa(), 0x42);
    assert_eq!(n.name(), b"GNU");
    assert_eq!(n.descriptor(), &[0xca, 0xfe]);
}

#[test]
fn note_descriptor_alignment_pads_cursor() {
    let mut content = Vec::new();
    content.extend(le_bytes(2, 4));  // name size
    content.extend(le_bytes(1, 4));  // descriptor size
    content.extend(le_bytes(1, 4));  // type
    content.extend(b"A\0");  // name, 12..14
    content.extend([0, 0]);  // padding to 16 (32-bit context aligns to 4)
    content.push(0x7);
    let n = Note::parse(Context::Little32, &content).unwrap();
    assert_eq!(n.name(), b"A");
    assert_eq!(n.descriptor(), &[0x7]);
}

#[test]
fn note_failures() {
    assert_eq!(
        Note::parse(Context::Little64, &[0; 8]).unwrap_err(),
        ParseNoteError::BrokenHeader
    );
    let mut content = Vec::new();
    content.extend(le_bytes(100, 4));
    content.extend(le_bytes(0, 4));
    content.extend(le_bytes(0, 4));
    assert_eq!(
        Note::parse(Context::Little64, &content).unwrap_err(),
        ParseNoteError::BrokenName
    );
    let mut content = Vec::new();
    content.extend(le_bytes(2, 4));
    content.extend(le_bytes(0, 4));
    content.extend(le_bytes(0, 4));
    content.extend(b"AB");  // no terminator inside the name field
    assert_eq!(
        Note::parse(Context::Little64, &content).unwrap_err(),
        ParseNoteError::BadStringName
    );
    let mut content = Vec::new();
    content.extend(le_bytes(2, 4));
    content.extend(le_bytes(50, 4));  // descriptor overruns the content
    content.extend(le_bytes(0, 4));
    content.extend(b"A\0");
    assert_eq!(
        Note::parse(Context::Little64, &content).unwrap_err(),
        ParseNoteError::BrokenDescriptor
    );
}

#[test]
fn group_decodes_flags_and_members() {
    let mut content = Vec::new();
    content.extend(be_bytes(0x1, 4));  // COMDAT
    content.extend(be_bytes(3, 4));
    content.extend(be_bytes(9, 4));
    let g = Group::parse(Context::Big32, &content).unwrap();
    assert_eq!(g.header().flags(), 0x1);
    let es = g.entries();
    assert_eq!(es.len(), 2);
    assert_eq!(es[0].index(), 3);
    assert_eq!(es[1].index(), 9);
    assert!(g.entry(2).is_none());
    assert_eq!(
        Group::parse(Context::Big32, &[0, 0]).unwrap_err(),
        ParseGroupError::BadHeader
    );
}

#[test]
fn compression_header_and_payload() {
    // Published 64-bit layout: tag(4) + reserved(4) + size(8) +
    // addralign(8), then the payload.  The reserved bytes are skipped
    // undecoded, whatever they hold.
    let mut content = Vec::new();
    content.extend(le_bytes(1, 4));  // Zlib
    content.extend(le_bytes(0xfeed_beef, 4));  // reserved, ignored
    content.extend(le_bytes(4096, 8));
    content.extend(le_bytes(16, 8));
    content.extend([0x78, 0x9c, 0x01]);
    let c = Compression::parse(Context::Little64, &content).unwrap();
    assert!(matches!(c.header().typa(), CompressionType::Zlib));
    assert_eq!(c.header().size(), 4096);
    assert_eq!(c.header().addralign(), 16);
    assert_eq!(c.content(), &[0x78, 0x9c, 0x01]);
}

#[test]
fn compression_header_32() {
    // Published 32-bit layout: tag(4) + size(4) + addralign(4), no
    // reserved field.
    let mut content = Vec::new();
    content.extend(be_bytes(1, 4));
    content.extend(be_bytes(7, 4));
    content.extend(be_bytes(4, 4));
    content.push(0xaa);
    let c = Compression::parse(Context::Big32, &content).unwrap();
    assert!(matches!(c.header().typa(), CompressionType::Zlib));
    assert_eq!(c.header().size(), 7);
    assert_eq!(c.header().addralign(), 4);
    assert_eq!(c.content(), &[0xaa]);
}

#[test]
fn compression_size_sits_after_the_reserved_field() {
    let mut content = Vec::new();
    content.extend(le_bytes(1, 4));
    content.extend(le_bytes(5, 4));  // reserved, must not leak into size
    content.extend(le_bytes(7, 8));
    content.extend(le_bytes(8, 8));
    let c = Compression::parse(Context::Little64, &content).unwrap();
    assert_eq!(c.header().size(), 7);
    assert_eq!(c.header().addralign(), 8);
    assert_eq!(c.content().len(), 0);
}

#[test]
fn compression_failures() {
    // Twenty-three bytes cannot hold the twenty-four-byte 64-bit header.
    assert_eq!(
        Compression::parse(Context::Little64, &[0; 10]).unwrap_err(),
        ParseCompressionError::BadHeader
    );
    let mut short = Vec::new();
    short.extend(le_bytes(1, 4));
    short.extend(le_bytes(0, 4));
    short.extend(le_bytes(0, 8));
    short.extend(le_bytes(0, 7));
    assert_eq!(short.len(), 23);
    assert_eq!(
        Compression::parse(Context::Little64, &short).unwrap_err(),
        ParseCompressionError::BadHeader
    );
    let mut content = Vec::new();
    content.extend(le_bytes(2, 4));  // no such algorithm
    content.extend(le_bytes(0, 4));
    content.extend(le_bytes(0, 8));
    content.extend(le_bytes(0, 8));
    assert_eq!(
        Compression::parse(Context::Little64, &content).unwrap_err(),
        ParseCompressionError::BadPropertyType
    );
}

#[test]
fn flag_types_and_masks() {
    assert_eq!(
        zelf::section::SectionFlags32(0x801).0 & zelf::section::SECTION_FLAG_COMPRESSED as u32,
        0x800
    );
    assert_eq!(zelf::section::SectionFlags64(zelf::section::SECTION_FLAG_WRITE).0, 1);
    assert_eq!(
        zelf::program::ProgramFlags(
            zelf::program::PROGRAM_FLAG_READ | zelf::program::PROGRAM_FLAG_WRITE
        )
        .0,
        6
    );
    assert_eq!(zelf::group::GroupFlags(zelf::group::GROUP_FLAG_COMDAT).0, 1);
    assert_eq!(zelf::dynamic::DynamicFlags32(zelf::dynamic::DYNAMIC_FLAG_BIND_NOW as u32).0, 8);
    assert_eq!(zelf::dynamic::DynamicFlags64(0x10).0, 0x10);
}

#[test]
fn interp_requires_single_final_terminator() {
    let it = Interp::parse(b"/lib/ld.so\0").unwrap();
    assert_eq!(it.path(), b"/lib/ld.so");
    assert_eq!(Interp::parse(b"\0").unwrap().path(), b"");
    assert_eq!(Interp::parse(b"").unwrap_err(), ParseInterpError::BadStringPath);
    assert_eq!(Interp::parse(b"/bin/sh").unwrap_err(), ParseInterpError::BadStringPath);
    assert_eq!(Interp::parse(b"/bin\0/sh\0").unwrap_err(), ParseInterpError::BadStringPath);
}
