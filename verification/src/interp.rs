//! Interp segment: a single nul-terminated interpreter path.

use crate::utils::{find_zero, terminate};
use vstd::prelude::*;

verus! {

/// Why an interp segment was rejected.
#[derive(Debug, Clone, PartialEq, Eq, Structural)]
pub enum ParseInterpError {
    /// The content is not a nul-terminated path: it is empty, lacks the
    /// terminator, or holds an interior zero byte.
    BadStringPath,
}

/// An interp segment's decoded view.
#[derive(Debug, Clone, Copy)]
pub struct Interp<'a> {
    /// The interpreter path, terminator excluded.
    pub path: &'a [u8],
}

impl<'a> Interp<'a> {
    /// Decodes a content slice as an interpreter path: the content must
    /// end with its one and only zero byte; the path is everything
    /// before it.
    pub fn parse(content: &'a [u8]) -> (r: Result<Interp<'a>, ParseInterpError>)
        ensures
            match r {
                Ok(it) => {
                    &&& content@.len() > 0
                    &&& find_zero(content@, 0) == content@.len() - 1
                    &&& it.path@ == content@.subrange(0, content@.len() - 1)
                },
                Err(ParseInterpError::BadStringPath) => content@.len() == 0 || find_zero(
                    content@,
                    0,
                ) != content@.len() - 1,
            },
    {
        let path = match terminate(content) {
            Some(p) => p,
            None => {
                return Err(ParseInterpError::BadStringPath);
            },
        };
        proof {
            crate::utils::lemma_find_zero(content@, 0);
        }
        if path.len() != content.len() - 1 {
            return Err(ParseInterpError::BadStringPath);
        }
        Ok(Interp { path })
    }

    /// The interpreter path, terminator excluded.
    pub fn path(&self) -> (r: &'a [u8])
        ensures
            r == self.path,
    {
        self.path
    }
}

} // verus!
