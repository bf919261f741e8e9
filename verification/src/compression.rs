//! Compressed section: a fixed header locating and typing the opaque
//! compressed payload.  The payload is not inflated here; an external
//! codec does that.
//!
//! The header follows the published layouts exactly: twelve bytes under
//! a 32-bit context, twenty-four under a 64-bit one, where a four-byte
//! reserved field follows the tag and is skipped undecoded.

use crate::context::{uint_at, usize_at, Context};
use crate::utils::read;
use vstd::prelude::*;
use vstd::slice::slice_subrange;

verus! {

/// Why a compressed section was rejected.
#[derive(Debug, Clone, PartialEq, Eq, Structural)]
pub enum ParseCompressionError {
    /// The content does not hold the compression header.
    BadHeader,
    /// The algorithm tag maps to no known or reserved value.
    BadPropertyType,
    /// The payload could not be taken.
    BadContent,
}

/// The byte width of the compression header under context `c`: twelve
/// or twenty-four bytes.
pub open spec fn spec_chsize(c: Context) -> int {
    3 * c.spec_usize_bytes()
}

/// The byte width of the compression header under context `c`.
pub fn chsize_of(c: Context) -> (r: usize)
    ensures
        r == spec_chsize(c),
{
    3 * c.usize_bytes()
}

/// The decoded compression header.
#[derive(Debug, Clone, Copy, PartialEq, Eq, Structural)]
pub struct CompressionHeader {
    /// Algorithm tag, raw.
    pub typa: u32,
    /// Decompressed size.
    pub size: u64,
    /// Decompressed alignment.
    pub addralign: u64,
}

/// The compression header that the bytes of `b` spell under context
/// `c`: the tag, then the decompressed size at one address width and
/// the alignment at two.  Under a 64-bit context the four bytes after
/// the tag are the reserved field, skipped undecoded.
pub open spec fn spec_cheader(c: Context, b: Seq<u8>) -> CompressionHeader {
    let d = c.spec_data();
    let w = c.spec_usize_bytes();
    CompressionHeader {
        typa: uint_at(d, b, 0, 4) as u32,
        size: usize_at(c, b, w) as u64,
        addralign: usize_at(c, b, 2 * w) as u64,
    }
}

impl CompressionHeader {
    /// Algorithm tag, when the raw field maps to one.
    pub fn checked_type(&self) -> (r: Option<CompressionType>)
        ensures
            r == CompressionType::spec_from_u32(self.typa),
    {
        CompressionType::from_u32(self.typa)
    }

    /// Algorithm tag, which must be known.
    pub fn typa(&self) -> (r: CompressionType)
        requires
            CompressionType::spec_from_u32(self.typa) is Some,
        ensures
            Some(r) == CompressionType::spec_from_u32(self.typa),
    {
        CompressionType::from_u32(self.typa).unwrap()
    }

    /// Decompressed size.
    pub fn size(&self) -> (r: u64)
        ensures
            r == self.size,
    {
        self.size
    }

    /// Decompressed alignment.
    pub fn addralign(&self) -> (r: u64)
        ensures
            r == self.addralign,
    {
        self.addralign
    }
}

/// The failure compressed-section decoding owes the content `b` under
/// context `c`, or `None` when it is acceptable.
pub open spec fn spec_compression_error(c: Context, b: Seq<u8>) -> Option<ParseCompressionError> {
    if b.len() < spec_chsize(c) {
        Some(ParseCompressionError::BadHeader)
    } else if CompressionType::spec_from_u32(spec_cheader(c, b).typa) is None {
        Some(ParseCompressionError::BadPropertyType)
    } else {
        None
    }
}

/// A compressed section's decoded view: the header and the opaque
/// payload.
#[derive(Debug, Clone, Copy)]
pub struct Compression<'a> {
    /// The decoded header.
    pub header: CompressionHeader,
    /// The compressed payload, opaque to this decoder.
    pub content: &'a [u8],
}

impl<'a> Compression<'a> {
    /// Decodes a content slice as a compressed section: the header must
    /// fit and carry a known algorithm tag; the rest is the payload.
    pub fn parse(c: Context, content: &'a [u8]) -> (r: Result<
        Compression<'a>,
        ParseCompressionError,
    >)
        ensures
            match r {
                Ok(comp) => {
                    &&& spec_compression_error(c, content@) is None
                    &&& comp.header == spec_cheader(c, content@)
                    &&& comp.content@ == content@.subrange(spec_chsize(c), content@.len() as int)
                },
                Err(e) => spec_compression_error(c, content@) == Some(e),
            },
    {
        let hsize: usize = chsize_of(c);
        if read(content, 0, hsize).is_none() {
            return Err(ParseCompressionError::BadHeader);
        }
        let d = c.data();
        let w: usize = c.usize_bytes();
        let header = CompressionHeader {
            typa: crate::context::interpret_u32_at(d, content, 0),
            size: crate::context::interpret_usize_at(c, content, w),
            addralign: crate::context::interpret_usize_at(c, content, 2 * w),
        };
        if CompressionType::from_u32(header.typa).is_none() {
            return Err(ParseCompressionError::BadPropertyType);
        }
        Ok(Compression { header, content: slice_subrange(content, hsize, content.len()) })
    }

    /// The decoded header.
    pub fn header(&self) -> (r: &CompressionHeader)
        ensures
            r == self.header,
    {
        &self.header
    }

    /// The compressed payload.
    pub fn content(&self) -> (r: &'a [u8])
        ensures
            r == self.content,
    {
        self.content
    }
}

/// Compression algorithm.
#[derive(Debug, Clone, Copy, PartialEq, Eq, Structural)]
pub enum CompressionType {
    /// The zlib format.
    Zlib,
    /// Operating system-specific.
    OsSpecific(u32),
    /// Processor-specific.
    ProcessorSpecific(u32),
}

impl CompressionType {
    /// The meaning of an algorithm tag, if any.
    pub open spec fn spec_from_u32(value: u32) -> Option<CompressionType> {
        if value == 1 {
            Some(CompressionType::Zlib)
        } else if 0x60000000 <= value && value <= 0x6fffffff {
            Some(CompressionType::OsSpecific(value))
        } else if 0x70000000 <= value && value <= 0x7fffffff {
            Some(CompressionType::ProcessorSpecific(value))
        } else {
            None
        }
    }

    /// Decodes an algorithm tag.
    pub fn from_u32(value: u32) -> (r: Option<CompressionType>)
        ensures
            r == CompressionType::spec_from_u32(value),
    {
        match value {
            1 => Some(CompressionType::Zlib),
            x @ 0x60000000..=0x6fffffff => Some(CompressionType::OsSpecific(x)),
            x @ 0x70000000..=0x7fffffff => Some(CompressionType::ProcessorSpecific(x)),
            _ => None,
        }
    }

    /// The tag value that encodes this algorithm: a reserved variant's
    /// own payload, or the named value the decoder maps back to this
    /// algorithm.
    pub fn to_u32(self) -> (r: u32)
        ensures
            self matches CompressionType::OsSpecific(x) ==> r == x,
            self matches CompressionType::ProcessorSpecific(x) ==> r == x,
            !(self matches CompressionType::OsSpecific(_)) && !(self
                matches CompressionType::ProcessorSpecific(_)) ==> CompressionType::spec_from_u32(
                r,
            ) == Some(self),
    {
        match self {
            CompressionType::Zlib => 1,
            CompressionType::OsSpecific(x) => x,
            CompressionType::ProcessorSpecific(x) => x,
        }
    }
}

} // verus!
