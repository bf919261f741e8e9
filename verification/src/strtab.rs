//! String table: nul-terminated byte runs, indexable by byte offset.

use crate::utils::{find_zero, lemma_find_zero};
use vstd::prelude::*;
use vstd::slice::{slice_index_get, slice_subrange};

verus! {

/// Why a string table was rejected.
#[derive(Debug, Clone, PartialEq, Eq, Structural)]
pub enum ParseStrtabError {
    /// The content is nonempty and its last byte is not zero.
    Broken,
}

/// The strings a table's bytes spell: the runs between zero bytes, in
/// order, each terminator consumed by the run before it.
pub open spec fn spec_strings(s: Seq<u8>) -> Seq<Seq<u8>>
    decreases s.len(),
{
    if s.len() == 0 {
        Seq::empty()
    } else {
        let j = find_zero(s, 0);
        if 0 <= j < s.len() {
            seq![s.subrange(0, j)] + spec_strings(s.subrange(j + 1, s.len() as int))
        } else {
            seq![s]
        }
    }
}

/// A validated string table: a borrowed view whose last byte, if any, is
/// zero.
#[derive(Debug, Clone, Copy)]
pub struct Strtab<'a> {
    /// The table's bytes.
    pub strings: &'a [u8],
}

impl<'a> Strtab<'a> {
    /// The table is empty or ends with a zero byte, so a lookup at any
    /// in-range index finds a terminator.
    pub open spec fn wf(self) -> bool {
        self.strings@.len() == 0 || self.strings@.last() == 0
    }

    /// Validates a content slice as a string table: it must be empty or
    /// end with a zero byte.
    pub fn parse(content: &'a [u8]) -> (r: Result<Strtab<'a>, ParseStrtabError>)
        ensures
            match r {
                Ok(s) => s.strings == content && s.wf(),
                Err(ParseStrtabError::Broken) => content@.len() > 0 && content@.last() != 0,
            },
    {
        if content.len() == 0 {
            Ok(Strtab { strings: content })
        } else if *slice_index_get(content, content.len() - 1) == 0 {
            Ok(Strtab { strings: content })
        } else {
            Err(ParseStrtabError::Broken)
        }
    }

    /// Looks up the string that starts at byte offset `name`: the bytes
    /// from `name` up to, and excluding, the next zero byte.  Absence
    /// when the index is at or past the table's end (or, on a table that
    /// skipped validation, when no terminator follows).
    pub fn find(&self, name: usize) -> (r: Option<&'a [u8]>)
        ensures
            match r {
                Some(s) => {
                    &&& name < self.strings@.len()
                    &&& find_zero(self.strings@, name as int) < self.strings@.len()
                    &&& s@ == self.strings@.subrange(
                        name as int,
                        find_zero(self.strings@, name as int),
                    )
                },
                None => name >= self.strings@.len() || find_zero(self.strings@, name as int)
                    == self.strings@.len(),
            },
            self.wf() && name < self.strings@.len() ==> r is Some,
    {
        if name >= self.strings.len() {
            return None;
        }
        proof {
            if self.wf() {
                crate::utils::lemma_find_zero(self.strings@, name as int);
            }
        }
        let mut j: usize = name;
        while j < self.strings.len()
            invariant
                name <= j <= self.strings@.len(),
                find_zero(self.strings@, name as int) == find_zero(self.strings@, j as int),
            decreases self.strings@.len() - j,
        {
            if *slice_index_get(self.strings, j) == 0 {
                return Some(slice_subrange(self.strings, name, j));
            }
            j = j + 1;
        }
        None
    }

    /// All strings of the table, in order: the runs its bytes spell
    /// between zero bytes.
    pub fn strings(&self) -> (r: Vec<&'a [u8]>)
        requires
            self.wf(),
        ensures
            r@.len() == spec_strings(self.strings@).len(),
            forall|i: int| 0 <= i < r@.len() ==> r@[i]@ == spec_strings(self.strings@)[i],
    {
        let s = self.strings;
        let ghost full = s@;
        let ghost len = s@.len() as int;
        let mut r: Vec<&'a [u8]> = Vec::new();
        let mut start: usize = 0;
        let mut i: usize = 0;
        proof {
            assert(full.subrange(0, len) =~= full);
            assert(views(r@) =~= Seq::<Seq<u8>>::empty());
        }
        while i < s.len()
            invariant
                0 <= start <= i <= len,
                len == s@.len(),
                full == s@,
                find_zero(full, start as int) == find_zero(full, i as int),
                spec_strings(full) =~= views(r@) + spec_strings(
                    full.subrange(start as int, len),
                ),
            decreases len - i,
        {
            if *slice_index_get(s, i) == 0 {
                proof {
                    crate::utils::lemma_find_zero_sub(full, start as int, 0);
                    let suffix = full.subrange(start as int, len);
                    assert(find_zero(suffix, 0) == i - start);
                    assert(suffix.subrange(0, i - start) =~= full.subrange(start as int, i as int));
                    assert(suffix.subrange(i - start + 1, suffix.len() as int) =~= full.subrange(
                        i + 1,
                        len,
                    ));
                }
                let piece = slice_subrange(s, start, i);
                r.push(piece);
                proof {
                    assert(views(r@) =~= views(r@.drop_last()).push(piece@));
                    assert(spec_strings(full) =~= views(r@) + spec_strings(
                        full.subrange(i + 1, len),
                    ));
                }
                start = i + 1;
            }
            i = i + 1;
        }
        proof {
            if start < len {
                lemma_find_zero(full, start as int);
                assert(full[len - 1] != 0);
                assert(full.last() == 0);
                assert(false);
            }
            assert(full.subrange(len, len) =~= Seq::<u8>::empty());
            assert(spec_strings(full) =~= views(r@));
        }
        r
    }
}

/// The views of a sequence of borrowed byte runs.
spec fn views<'a>(r: Seq<&'a [u8]>) -> Seq<Seq<u8>> {
    r.map_values(|x: &'a [u8]| x@)
}

} // verus!
