//! Identification: the context-independent first sixteen bytes of every
//! ELF file.

use crate::utils::read;
use crate::{Class, Data, Version};
use vstd::prelude::*;
use vstd::slice::slice_index_get;

verus! {

/// The number of identification bytes.
pub const IDENT_SIZE: usize = 16;

/// Why identification bytes were rejected.
#[derive(Debug, Clone, PartialEq, Eq, Structural)]
pub enum ParseIdentError {
    /// The input holds fewer bytes than an identification.
    BrokenHeader,
    /// The magic bytes are not the ELF signature.
    BadPropertyMagic,
    /// The class byte maps to no known class.
    BadPropertyClass,
    /// The data-encoding byte maps to no known encoding.
    BadPropertyData,
    /// The version byte maps to no known version.
    BadPropertyVersion,
}

/// `true` when `b` starts with the four ELF signature bytes.
pub open spec fn spec_magic_ok(b: Seq<u8>) -> bool {
    &&& b[0] == 0x7f
    &&& b[1] == 0x45
    &&& b[2] == 0x4c
    &&& b[3] == 0x46
}

/// The failure identification decoding owes the bytes `b`, or `None`
/// when they are acceptable: the checks apply in this order, and nothing
/// past the version byte is validated.
pub open spec fn spec_ident_error(b: Seq<u8>) -> Option<ParseIdentError> {
    if b.len() < 16 {
        Some(ParseIdentError::BrokenHeader)
    } else if !spec_magic_ok(b) {
        Some(ParseIdentError::BadPropertyMagic)
    } else if Class::spec_from_u8(b[4]) is None {
        Some(ParseIdentError::BadPropertyClass)
    } else if Data::spec_from_u8(b[5]) is None {
        Some(ParseIdentError::BadPropertyData)
    } else if Version::spec_from_u8(b[6]) is None {
        Some(ParseIdentError::BadPropertyVersion)
    } else {
        None
    }
}

/// The identification record: magic, class, data encoding, version,
/// OS/ABI, ABI version, reserved padding.
#[derive(Debug, Clone, Copy)]
pub struct Ident {
    /// The four signature bytes.
    pub magic: [u8; 4],
    /// The class byte.
    pub class: u8,
    /// The data-encoding byte.
    pub data: u8,
    /// The version byte.
    pub version: u8,
    /// The OS/ABI byte.
    pub osabi: u8,
    /// The ABI-version byte.
    pub abiversion: u8,
    /// The reserved tail, kept verbatim.
    pub reserved: [u8; 7],
}

impl Ident {
    /// `id` carries exactly the first sixteen bytes of `b`.
    pub open spec fn spec_matches(self, b: Seq<u8>) -> bool {
        &&& self.magic@ == b.subrange(0, 4)
        &&& self.class == b[4]
        &&& self.data == b[5]
        &&& self.version == b[6]
        &&& self.osabi == b[7]
        &&& self.abiversion == b[8]
        &&& self.reserved@ == b.subrange(9, 16)
    }

    /// Decodes and validates the identification bytes at the start of
    /// `data`: the buffer must hold them whole, the magic must be the ELF
    /// signature, and class, data encoding and version must each map to a
    /// known value.  Nothing else is validated here.
    pub fn parse(data: &[u8]) -> (r: Result<Ident, ParseIdentError>)
        ensures
            match r {
                Ok(id) => spec_ident_error(data@) is None && id.spec_matches(data@),
                Err(e) => spec_ident_error(data@) == Some(e),
            },
    {
        let rec: &[u8] = match read(data, 0, IDENT_SIZE) {
            Some(rec) => rec,
            None => {
                return Err(ParseIdentError::BrokenHeader);
            },
        };
        let m0: u8 = *slice_index_get(rec, 0);
        let m1: u8 = *slice_index_get(rec, 1);
        let m2: u8 = *slice_index_get(rec, 2);
        let m3: u8 = *slice_index_get(rec, 3);
        if !(m0 == 0x7f && m1 == 0x45 && m2 == 0x4c && m3 == 0x46) {
            return Err(ParseIdentError::BadPropertyMagic);
        }
        let class: u8 = *slice_index_get(rec, 4);
        let data_byte: u8 = *slice_index_get(rec, 5);
        let version: u8 = *slice_index_get(rec, 6);
        if Class::from_u8(class).is_none() {
            return Err(ParseIdentError::BadPropertyClass);
        }
        if Data::from_u8(data_byte).is_none() {
            return Err(ParseIdentError::BadPropertyData);
        }
        if Version::from_u8(version).is_none() {
            return Err(ParseIdentError::BadPropertyVersion);
        }
        Ok(Ident::decode(data))
    }

    /// Copies the sixteen identification bytes out of `data` without
    /// validating anything.
    pub fn decode(data: &[u8]) -> (id: Ident)
        requires
            data@.len() >= 16,
        ensures
            id.spec_matches(data@),
    {
        let id = Ident {
            magic: [
                *slice_index_get(data, 0),
                *slice_index_get(data, 1),
                *slice_index_get(data, 2),
                *slice_index_get(data, 3),
            ],
            class: *slice_index_get(data, 4),
            data: *slice_index_get(data, 5),
            version: *slice_index_get(data, 6),
            osabi: *slice_index_get(data, 7),
            abiversion: *slice_index_get(data, 8),
            reserved: [
                *slice_index_get(data, 9),
                *slice_index_get(data, 10),
                *slice_index_get(data, 11),
                *slice_index_get(data, 12),
                *slice_index_get(data, 13),
                *slice_index_get(data, 14),
                *slice_index_get(data, 15),
            ],
        };
        proof {
            assert(id.magic@ =~= data@.subrange(0, 4));
            assert(id.reserved@ =~= data@.subrange(9, 16));
        }
        id
    }

    /// The signature bytes.
    pub fn magic(&self) -> (r: [u8; 4])
        ensures
            r == self.magic,
    {
        self.magic
    }

    /// The class the class byte maps to, if known.
    pub fn checked_class(&self) -> (r: Option<Class>)
        ensures
            r == Class::spec_from_u8(self.class),
    {
        Class::from_u8(self.class)
    }

    /// The class of this identification, which must be known.
    pub fn class(&self) -> (r: Class)
        requires
            Class::spec_from_u8(self.class) is Some,
        ensures
            Some(r) == Class::spec_from_u8(self.class),
    {
        Class::from_u8(self.class).unwrap()
    }

    /// The data encoding the data byte maps to, if known.
    pub fn checked_data(&self) -> (r: Option<Data>)
        ensures
            r == Data::spec_from_u8(self.data),
    {
        Data::from_u8(self.data)
    }

    /// The data encoding of this identification, which must be known.
    pub fn data(&self) -> (r: Data)
        requires
            Data::spec_from_u8(self.data) is Some,
        ensures
            Some(r) == Data::spec_from_u8(self.data),
    {
        Data::from_u8(self.data).unwrap()
    }

    /// The version the version byte maps to, if known.
    pub fn checked_version(&self) -> (r: Option<Version>)
        ensures
            r == Version::spec_from_u8(self.version),
    {
        Version::from_u8(self.version)
    }

    /// The version of this identification, which must be known.
    pub fn version(&self) -> (r: Version)
        requires
            Version::spec_from_u8(self.version) is Some,
        ensures
            Some(r) == Version::spec_from_u8(self.version),
    {
        Version::from_u8(self.version).unwrap()
    }

    /// The OS/ABI byte.
    pub fn os_abi(&self) -> (r: u8)
        ensures
            r == self.osabi,
    {
        self.osabi
    }

    /// The ABI-version byte.
    pub fn abi_version(&self) -> (r: u8)
        ensures
            r == self.abiversion,
    {
        self.abiversion
    }
}

} // verus!
