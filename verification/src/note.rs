//! Note section or segment: a length-prefixed name and descriptor with
//! alignment padding between them.
//!
//! The name field must contain a zero terminator within its declared
//! length; the name is everything before the first zero.  That
//! termination requirement is a deliberate policy choice, since real
//! producers vary.

use crate::context::{uint_at, Context};
use crate::utils::{find_zero, read_n, spec_align, terminate};
use vstd::prelude::*;

verus! {

/// Why a note was rejected.
#[derive(Debug, Clone, PartialEq, Eq, Structural)]
pub enum ParseNoteError {
    /// The content does not hold the three-field header.
    BrokenHeader,
    /// The name field lies outside the content.
    BrokenName,
    /// The name field holds no zero terminator.
    BadStringName,
    /// The descriptor lies outside the content.
    BrokenDescriptor,
}

/// The decoded note header.
#[derive(Debug, Clone, Copy, PartialEq, Eq, Structural)]
pub struct NoteHeader {
    /// Declared byte length of the name field.
    pub name_size: u32,
    /// Declared byte length of the descriptor.
    pub descriptor_size: u32,
    /// The note's type tag.
    pub typa: u32,
}

impl NoteHeader {
    /// Declared byte length of the name field.
    pub fn name_size(&self) -> (r: u32)
        ensures
            r == self.name_size,
    {
        self.name_size
    }

    /// Declared byte length of the descriptor.
    pub fn descriptor_size(&self) -> (r: u32)
        ensures
            r == self.descriptor_size,
    {
        self.descriptor_size
    }

    /// The note's type tag.
    pub fn typa(&self) -> (r: u32)
        ensures
            r == self.typa,
    {
        self.typa
    }
}

/// The note header that the bytes of `b` spell under context `c`.
pub open spec fn spec_note_header(c: Context, b: Seq<u8>) -> NoteHeader {
    let d = c.spec_data();
    NoteHeader {
        name_size: uint_at(d, b, 0, 4) as u32,
        descriptor_size: uint_at(d, b, 4, 4) as u32,
        typa: uint_at(d, b, 8, 4) as u32,
    }
}

/// The failure note decoding owes the content `b` under context `c`, or
/// `None` when it is acceptable: the header must fit, the name field
/// must fit and hold a terminator, and the descriptor, after the cursor
/// is rounded up to the context's integer alignment, must fit.
pub open spec fn spec_note_error(c: Context, b: Seq<u8>) -> Option<ParseNoteError> {
    if b.len() < 12 {
        Some(ParseNoteError::BrokenHeader)
    } else {
        let h = spec_note_header(c, b);
        if 12 + h.name_size > b.len() {
            Some(ParseNoteError::BrokenName)
        } else {
            let namefield = b.subrange(12, 12 + h.name_size);
            if find_zero(namefield, 0) == namefield.len() {
                Some(ParseNoteError::BadStringName)
            } else {
                let aligned = spec_align(12 + h.name_size, c.spec_usize_bytes());
                if aligned + h.descriptor_size > b.len() {
                    Some(ParseNoteError::BrokenDescriptor)
                } else {
                    None
                }
            }
        }
    }
}

/// The name a valid note carries: the bytes of the name field before its
/// first zero.
pub open spec fn spec_note_name(c: Context, b: Seq<u8>) -> Seq<u8> {
    let h = spec_note_header(c, b);
    let namefield = b.subrange(12, 12 + h.name_size);
    namefield.subrange(0, find_zero(namefield, 0))
}

/// The descriptor a valid note carries.
pub open spec fn spec_note_descriptor(c: Context, b: Seq<u8>) -> Seq<u8> {
    let h = spec_note_header(c, b);
    let aligned = spec_align(12 + h.name_size, c.spec_usize_bytes());
    b.subrange(aligned, aligned + h.descriptor_size)
}

/// A decoded note.
#[derive(Debug, Clone, Copy)]
pub struct Note<'a> {
    /// The note's type tag.
    pub typa: u32,
    /// The note's name, terminator excluded.
    pub name: &'a [u8],
    /// The note's descriptor.
    pub descriptor: &'a [u8],
}

impl<'a> Note<'a> {
    /// Decodes a content slice as a note: header, terminated name,
    /// alignment padding, descriptor.
    pub fn parse(c: Context, content: &'a [u8]) -> (r: Result<Note<'a>, ParseNoteError>)
        ensures
            match r {
                Ok(n) => {
                    &&& spec_note_error(c, content@) is None
                    &&& n.typa == spec_note_header(c, content@).typa
                    &&& n.name@ == spec_note_name(c, content@)
                    &&& n.descriptor@ == spec_note_descriptor(c, content@)
                },
                Err(e) => spec_note_error(c, content@) == Some(e),
            },
    {
        proof {
            vstd::slice::axiom_spec_len(content);
        }
        let d = c.data();
        if content.len() < 12 {
            return Err(ParseNoteError::BrokenHeader);
        }
        let name_size: u32 = crate::context::interpret_u32_at(d, content, 0);
        let descriptor_size: u32 = crate::context::interpret_u32_at(d, content, 4);
        let typa: u32 = crate::context::interpret_u32_at(d, content, 8);
        let namefield = match read_n(content, 12, 1, name_size as usize) {
            Some(s) => s,
            None => {
                return Err(ParseNoteError::BrokenName);
            },
        };
        let name = match terminate(namefield) {
            Some(p) => p,
            None => {
                return Err(ParseNoteError::BadStringName);
            },
        };
        let offset: usize = 12 + name_size as usize;
        let alignment: usize = c.usize_bytes();
        let m: usize = offset % alignment;
        let aligned: usize = if m == 0 {
            offset
        } else {
            let pad: usize = alignment - m;
            if offset > usize::MAX - pad {
                // The aligned cursor cannot fit the address space, so
                // the descriptor cannot lie inside the buffer either.
                return Err(ParseNoteError::BrokenDescriptor);
            }
            offset + pad
        };
        let descriptor = match read_n(content, aligned, 1, descriptor_size as usize) {
            Some(s) => s,
            None => {
                return Err(ParseNoteError::BrokenDescriptor);
            },
        };
        Ok(Note { typa, name, descriptor })
    }

    /// The note's type tag.
    pub fn typa(&self) -> (r: u32)
        ensures
            r == self.typa,
    {
        self.typa
    }

    /// The note's name, terminator excluded.
    pub fn name(&self) -> (r: &'a [u8])
        ensures
            r == self.name,
    {
        self.name
    }

    /// The note's descriptor.
    pub fn descriptor(&self) -> (r: &'a [u8])
        ensures
            r == self.descriptor,
    {
        self.descriptor
    }
}

} // verus!
