//! Zero-copy decoder for ELF object files.
//!
//! A caller hands every function an immutable byte buffer; the decoders
//! validate the requested structure and return borrowed, typed views into
//! that buffer.  Nothing is copied beyond small fixed-size records, nothing
//! is allocated for the views, and malformed input is always reported as a
//! named error value, never a panic.
//!
//! The four physical layouts (32/64 bit crossed with little/big endian) are
//! decoded by one code path, parameterised by a [`context::Context`] value
//! that a buffer's identification bytes select.

use vstd::prelude::*;

pub mod array;
pub mod compression;
pub mod context;
pub mod dynamic;
pub mod elf;
pub mod group;
pub mod hash;
pub mod ident;
pub mod interp;
pub mod note;
pub mod phdr;
pub mod program;
pub mod rel;
pub mod rela;
pub mod section;
pub mod shndx;
pub mod strtab;
pub mod symtab;
pub mod utils;

verus! {

/// ELF class: the width of address-sized fields.
#[derive(Debug, Clone, Copy, PartialEq, Eq, Structural)]
pub enum Class {
    /// 32 bit.
    Class32,
    /// 64 bit.
    Class64,
}

impl Class {
    /// The meaning of an identification class byte.
    pub open spec fn spec_from_u8(value: u8) -> Option<Class> {
        if value == 1 {
            Some(Class::Class32)
        } else if value == 2 {
            Some(Class::Class64)
        } else {
            None
        }
    }

    /// Decodes an identification class byte.
    pub fn from_u8(value: u8) -> (r: Option<Class>)
        ensures
            r == Class::spec_from_u8(value),
    {
        match value {
            1 => Some(Class::Class32),
            2 => Some(Class::Class64),
            _ => None,
        }
    }

    /// The byte encoding this class.
    pub fn to_u8(self) -> (r: u8)
        ensures
            Class::spec_from_u8(r) == Some(self),
    {
        match self {
            Class::Class32 => 1,
            Class::Class64 => 2,
        }
    }
}

/// ELF data encoding: the byte order of multi-byte fields.
#[derive(Debug, Clone, Copy, PartialEq, Eq, Structural)]
pub enum Data {
    /// Little endian.
    Little,
    /// Big endian.
    Big,
}

impl Data {
    /// The meaning of an identification data-encoding byte.
    pub open spec fn spec_from_u8(value: u8) -> Option<Data> {
        if value == 1 {
            Some(Data::Little)
        } else if value == 2 {
            Some(Data::Big)
        } else {
            None
        }
    }

    /// Decodes an identification data-encoding byte.
    pub fn from_u8(value: u8) -> (r: Option<Data>)
        ensures
            r == Data::spec_from_u8(value),
    {
        match value {
            1 => Some(Data::Little),
            2 => Some(Data::Big),
            _ => None,
        }
    }

    /// The byte encoding this data encoding.
    pub fn to_u8(self) -> (r: u8)
        ensures
            Data::spec_from_u8(r) == Some(self),
    {
        match self {
            Data::Little => 1,
            Data::Big => 2,
        }
    }
}

/// ELF version.
#[derive(Debug, Clone, Copy, PartialEq, Eq, Structural)]
pub enum Version {
    /// Current.
    One,
}

impl Version {
    /// The meaning of an identification version byte.
    pub open spec fn spec_from_u8(value: u8) -> Option<Version> {
        if value == 1 {
            Some(Version::One)
        } else {
            None
        }
    }

    /// Decodes an identification version byte.
    pub fn from_u8(value: u8) -> (r: Option<Version>)
        ensures
            r == Version::spec_from_u8(value),
    {
        match value {
            1 => Some(Version::One),
            _ => None,
        }
    }

    /// The byte encoding this version.
    pub fn to_u8(self) -> (r: u8)
        ensures
            Version::spec_from_u8(r) == Some(self),
    {
        match self {
            Version::One => 1,
        }
    }
}

} // verus!
