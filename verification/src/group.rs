//! Group section: a 32-bit flags header followed by a flat array of
//! 32-bit section indices.

use crate::context::{uint_at, Context};
use crate::utils::{lemma_prefix_num, lemma_record_bounds, read, read_s};
use vstd::arithmetic::div_mod::lemma_fundamental_div_mod;
use vstd::prelude::*;
use vstd::slice::slice_subrange;

verus! {

/// Why a group section was rejected.
#[derive(Debug, Clone, PartialEq, Eq, Structural)]
pub enum ParseGroupError {
    /// The content does not hold the flags header.
    BadHeader,
    /// The record layout could not be applied.
    BadArray,
}

/// The decoded group header: the flags word.
#[derive(Debug, Clone, Copy, PartialEq, Eq, Structural)]
pub struct GroupHeader {
    /// The group's flags.
    pub flags: u32,
}

impl GroupHeader {
    /// The group's flags.
    pub fn flags(&self) -> (r: u32)
        ensures
            r == self.flags,
    {
        self.flags
    }
}

/// One group entry: a member section's index.
#[derive(Debug, Clone, Copy, PartialEq, Eq, Structural)]
pub struct GroupEntry {
    /// The member section's index.
    pub index: u32,
}

impl GroupEntry {
    /// The member section's index.
    pub fn index(&self) -> (r: u32)
        ensures
            r == self.index,
    {
        self.index
    }
}

/// A group section's decoded view.
#[derive(Debug, Clone, Copy)]
pub struct Group<'a> {
    /// The context the entries are decoded under.
    pub ctx: Context,
    /// The decoded header.
    pub header: GroupHeader,
    /// The entry array's bytes: a whole number of records.
    pub content: &'a [u8],
}

impl<'a> Group<'a> {
    /// The view holds a whole number of records.
    pub open spec fn wf(self) -> bool {
        self.content@.len() as int % 4 == 0
    }

    /// The number of entries in the view.
    pub open spec fn spec_num(self) -> int {
        self.content@.len() as int / 4
    }

    /// Decodes a content slice as a group section: the flags header,
    /// then the longest whole-record prefix of the rest as the entry
    /// array; a trailing partial record is discarded silently, by
    /// design.
    pub fn parse(c: Context, content: &'a [u8]) -> (r: Result<Group<'a>, ParseGroupError>)
        ensures
            match r {
                Ok(g) => {
                    &&& content@.len() >= 4
                    &&& g.ctx == c
                    &&& g.header.flags == uint_at(c.spec_data(), content@, 0, 4)
                    &&& g.content@ == content@.subrange(
                        4,
                        4 + (((content@.len() - 4) as int / 4) * 4),
                    )
                    &&& g.wf()
                },
                Err(ParseGroupError::BadHeader) => content@.len() < 4,
                Err(ParseGroupError::BadArray) => false,
            },
    {
        if read(content, 0, 4).is_none() {
            return Err(ParseGroupError::BadHeader);
        }
        let flags: u32 = crate::context::interpret_u32_at(c.data(), content, 0);
        let rest = slice_subrange(content, 4, content.len());
        let entries = match read_s(rest, 4) {
            Some(s) => s,
            None => {
                return Err(ParseGroupError::BadArray);
            },
        };
        proof {
            lemma_prefix_num(rest@.len() as int, 4);
            assert(entries@ =~= content@.subrange(4, 4 + (((content@.len() - 4) as int / 4) * 4)));
        }
        Ok(Group { ctx: c, header: GroupHeader { flags }, content: entries })
    }

    /// The decoded header.
    pub fn header(&self) -> (r: &GroupHeader)
        ensures
            r == self.header,
    {
        &self.header
    }

    /// The entry at `index`: absence when the index is out of range.
    pub fn entry(&self, index: usize) -> (r: Option<GroupEntry>)
        requires
            self.wf(),
        ensures
            match r {
                Some(e) => index < self.spec_num() && e.index == uint_at(
                    self.ctx.spec_data(),
                    self.content@,
                    4 * index,
                    4,
                ),
                None => index >= self.spec_num(),
            },
    {
        proof {
            vstd::slice::axiom_spec_len(self.content);
            lemma_fundamental_div_mod(self.content@.len() as int, 4);
        }
        let n: usize = self.content.len() / 4;
        if index >= n {
            return None;
        }
        proof {
            lemma_record_bounds(self.content@.len() as int, 4, n as int, index as int);
            assert(index * 4 == 4 * index) by (nonlinear_arith);
        }
        Some(GroupEntry { index: crate::context::interpret_u32_at(self.ctx.data(), self.content, 4 * index) })
    }

    /// All entries, in table order.
    pub fn entries(&self) -> (r: Vec<GroupEntry>)
        requires
            self.wf(),
        ensures
            r@.len() == self.spec_num(),
            forall|i: int|
                0 <= i < r@.len() ==> r@[i].index == uint_at(
                    self.ctx.spec_data(),
                    self.content@,
                    4 * i,
                    4,
                ),
    {
        proof {
            lemma_fundamental_div_mod(self.content@.len() as int, 4);
        }
        let n: usize = self.content.len() / 4;
        let mut r: Vec<GroupEntry> = Vec::new();
        let mut i: usize = 0;
        while i < n
            invariant
                0 <= i <= n,
                n == self.spec_num(),
                self.wf(),
                r@.len() == i,
                forall|j: int|
                    0 <= j < i ==> r@[j].index == uint_at(
                        self.ctx.spec_data(),
                        self.content@,
                        4 * j,
                        4,
                    ),
            decreases n - i,
        {
            let e = self.entry(i).unwrap();
            r.push(e);
            i = i + 1;
        }
        r
    }
}

/// The group's flag word newtype.
#[derive(Debug, Clone, Copy, PartialEq, Eq, Structural)]
pub struct GroupFlags(pub u32);

/// The group is a COMDAT group.
pub const GROUP_FLAG_COMDAT: u32 = 0x1;

/// OS-specific mask.
pub const GROUP_FLAG_MASKOS: u32 = 0x0ff00000;

/// Processor-specific mask.
pub const GROUP_FLAG_MASKPROCESSOR: u32 = 0xf0000000;

} // verus!
