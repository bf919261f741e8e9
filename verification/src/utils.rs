//! Bounds-checked raw memory view primitives.
//!
//! Every reinterpretation of a byte range as a typed record goes through
//! these readers; each proves `offset + size` (or `offset + size * n`)
//! against the buffer length with mathematical integers, so the overflow a
//! machine addition could suffer is itself an out-of-bounds condition and
//! yields absence, never a wrapped read or a panic.

use vstd::arithmetic::div_mod::{
    lemma_fundamental_div_mod,
    lemma_mod_multiples_basic,
};
use vstd::prelude::*;

verus! {

/// Converts a decoded address-sized field to a platform offset.
///
/// Absence exactly when the value does not fit the platform's address
/// width.
pub fn as_offset(x: u64) -> (r: Option<usize>)
    ensures
        x <= usize::MAX ==> r == Some(x as usize),
        x > usize::MAX ==> r is None,
{
    if x <= usize::MAX as u64 {
        Some(x as usize)
    } else {
        None
    }
}

/// A fixed-size record at a byte offset: the `size` bytes of `data`
/// starting at `offset`, present if and only if `offset + size` (as
/// unbounded integers, so a machine-width overflow is out of bounds) stays
/// within the buffer.
pub fn read<'a>(data: &'a [u8], offset: usize, size: usize) -> (r: Option<&'a [u8]>)
    ensures
        match r {
            Some(s) => offset + size <= data@.len() && s@ == data@.subrange(
                offset as int,
                offset + size,
            ),
            None => offset + size > data@.len(),
        },
{
    if offset <= data.len() && size <= data.len() - offset {
        Some(vstd::slice::slice_subrange(data, offset, offset + size))
    } else {
        None
    }
}

/// A counted array of fixed-size records at a byte offset: the
/// `size * n` bytes of `data` starting at `offset`.  Both the
/// multiplication and the addition are checked as unbounded integers
/// before the bounds comparison.
pub fn read_n<'a>(data: &'a [u8], offset: usize, size: usize, n: usize) -> (r: Option<&'a [u8]>)
    ensures
        match r {
            Some(s) => offset + size * n <= data@.len() && s@ == data@.subrange(
                offset as int,
                offset + size * n,
            ),
            None => offset + size * n > data@.len(),
        },
{
    if size != 0 && n > usize::MAX / size {
        proof {
            vstd::slice::axiom_spec_len(data);
            lemma_fundamental_div_mod(usize::MAX as int, size as int);
            let q = usize::MAX as int / size as int;
            let rr = usize::MAX as int % size as int;
            assert(size * n > usize::MAX) by (nonlinear_arith)
                requires
                    n >= q + 1,
                    size >= 1,
                    usize::MAX == size * q + rr,
                    rr < size,
            ;
        }
        None
    } else {
        proof {
            if size != 0 {
                lemma_fundamental_div_mod(usize::MAX as int, size as int);
                let q = usize::MAX as int / size as int;
                let rr = usize::MAX as int % size as int;
                assert(size * n <= usize::MAX) by (nonlinear_arith)
                    requires
                        n <= q,
                        size >= 1,
                        usize::MAX == size * q + rr,
                        rr >= 0,
                ;
            }
        }
        let total: usize = size * n;
        read(data, offset, total)
    }
}

/// The whole-remainder array reader: the longest prefix of `data` that is
/// a whole number of `size`-byte records.  A zero record size is rejected
/// (it would describe an infinite array); a trailing partial record is
/// discarded silently, by design.
pub fn read_s<'a>(data: &'a [u8], size: usize) -> (r: Option<&'a [u8]>)
    ensures
        match r {
            Some(s) => size > 0 && s@ == data@.subrange(0, (data@.len() as int / size as int)
                * size as int),
            None => size == 0,
        },
{
    if size == 0 {
        return None;
    }
    let n: usize = data.len() / size;
    proof {
        lemma_fundamental_div_mod(data@.len() as int, size as int);
        assert(n * size == size * n) by (nonlinear_arith);
        assert(n * size <= data@.len());
    }
    Some(vstd::slice::slice_subrange(data, 0, n * size))
}

/// `true` when `a` is a power of two.
pub open spec fn is_pow2(a: int) -> bool
    decreases a,
{
    if a <= 0 {
        false
    } else if a == 1 {
        true
    } else {
        a % 2 == 0 && is_pow2(a / 2)
    }
}

/// The smallest multiple of `a` that is at least `offset`.
pub open spec fn spec_align(offset: int, a: int) -> int
    recommends
        a >= 1,
{
    if offset % a == 0 {
        offset
    } else {
        offset + (a - offset % a)
    }
}

/// Rounds `offset` up to the alignment `align`, which must be a power of
/// two; the caller also rules out the overflowing corner.
pub fn align(offset: usize, alignment: usize) -> (r: usize)
    requires
        is_pow2(alignment as int),
        offset + alignment - 1 <= usize::MAX,
    ensures
        r == spec_align(offset as int, alignment as int),
        r % alignment == 0,
        offset <= r < offset + alignment,
{
    proof {
        lemma_align_properties(offset as int, alignment as int);
    }
    let m: usize = offset % alignment;
    if m == 0 {
        offset
    } else {
        offset + (alignment - m)
    }
}

/// The alignment result is a multiple of `a` and lands in `[offset, offset + a)`.
pub proof fn lemma_align_properties(offset: int, a: int)
    requires
        a >= 1,
        offset >= 0,
    ensures
        spec_align(offset, a) % a == 0,
        offset <= spec_align(offset, a) < offset + a,
{
    lemma_fundamental_div_mod(offset, a);
    let q = offset % a;
    if q != 0 {
        assert(spec_align(offset, a) == a * (offset / a + 1)) by {
            assert(a * (offset / a + 1) == a * (offset / a) + a) by (nonlinear_arith);
        }
        lemma_mod_multiples_basic(offset / a + 1, a);
        assert((offset / a + 1) * a == a * (offset / a + 1)) by (nonlinear_arith);
    }
}

/// Alignment is the smallest fit: any multiple of `a` at or above `offset`
/// is at or above the aligned value.
pub proof fn lemma_align_smallest(offset: int, a: int, m: int)
    requires
        a >= 1,
        offset >= 0,
        m >= offset,
        m % a == 0,
    ensures
        spec_align(offset, a) <= m,
{
    lemma_align_properties(offset, a);
    lemma_fundamental_div_mod(m, a);
    lemma_fundamental_div_mod(offset, a);
    if offset % a != 0 {
        let j = m / a;
        let k = offset / a;
        assert(m == a * j);
        assert(a * j >= a * k + offset % a);
        assert(j > k) by (nonlinear_arith)
            requires
                a * j >= a * k + offset % a,
                0 < offset % a < a,
        ;
        assert(spec_align(offset, a) == a * (k + 1)) by {
            assert(a * (k + 1) == a * k + a) by (nonlinear_arith);
        }
        assert(a * (k + 1) <= a * j) by (nonlinear_arith)
            requires
                k + 1 <= j,
                a >= 1,
        ;
    }
}

/// Rounding up is idempotent: an already aligned value stays put.
pub proof fn lemma_align_idempotent(offset: int, a: int)
    requires
        a >= 1,
        offset >= 0,
    ensures
        spec_align(spec_align(offset, a), a) == spec_align(offset, a),
{
    lemma_align_properties(offset, a);
}

/// Record `i` of an array of `n` records of `size` bytes lies inside the
/// array's `n * size` bytes.
pub proof fn lemma_record_bounds(len: int, size: int, n: int, i: int)
    requires
        size >= 1,
        0 <= i < n,
        len == n * size,
    ensures
        0 <= i * size,
        i * size + size <= len,
        i * size + size == (i + 1) * size,
{
    assert(i * size >= 0) by (nonlinear_arith)
        requires
            i >= 0,
            size >= 1,
    ;
    assert((i + 1) * size == i * size + size) by (nonlinear_arith);
    assert((i + 1) * size <= n * size) by (nonlinear_arith)
        requires
            i + 1 <= n,
            size >= 1,
    ;
}

/// The whole-record prefix of a `len`-byte slice is a multiple of the
/// record size.
pub proof fn lemma_prefix_num(len: int, size: int)
    requires
        size >= 1,
        len >= 0,
    ensures
        ((len / size) * size) % size == 0,
        ((len / size) * size) as int / size == len / size,
{
    lemma_mod_multiples_basic(len / size, size);
    assert((len / size) * size == size * (len / size)) by (nonlinear_arith);
    lemma_fundamental_div_mod((len / size) * size, size);
    assert(size * (((len / size) * size) / size) == size * (len / size));
    assert(((len / size) * size) / size == len / size) by (nonlinear_arith)
        requires
            size >= 1,
            size * (((len / size) * size) / size) == size * (len / size),
    ;
}

/// The index of the first zero byte of `s` at or after `i`, or `s.len()`
/// when there is none.
pub open spec fn find_zero(s: Seq<u8>, i: int) -> int
    decreases s.len() - i,
{
    if i < 0 || i >= s.len() {
        s.len() as int
    } else if s[i] == 0 {
        i
    } else {
        find_zero(s, i + 1)
    }
}

/// What `find_zero` returns: the bytes of `[i, find_zero)` are nonzero,
/// and a zero byte stands at `find_zero` unless the suffix has none.
pub proof fn lemma_find_zero(s: Seq<u8>, i: int)
    requires
        0 <= i <= s.len(),
    ensures
        i <= find_zero(s, i) <= s.len(),
        find_zero(s, i) < s.len() ==> s[find_zero(s, i)] == 0,
        forall|j: int| i <= j < find_zero(s, i) ==> s[j] != 0,
    decreases s.len() - i,
{
    if i < s.len() && s[i] != 0 {
        lemma_find_zero(s, i + 1);
    }
}

/// Searching a suffix view finds the same first zero, shifted by the
/// suffix's start.
pub proof fn lemma_find_zero_sub(s: Seq<u8>, a: int, i: int)
    requires
        0 <= a,
        0 <= i,
        a + i <= s.len(),
    ensures
        find_zero(s.subrange(a, s.len() as int), i) == find_zero(s, a + i) - a,
    decreases s.len() - a - i,
{
    let t = s.subrange(a, s.len() as int);
    if a + i >= s.len() {
    } else if s[a + i] == 0 {
    } else {
        lemma_find_zero_sub(s, a, i + 1);
    }
}

/// The run of bytes before the first zero of `s`: absent when `s` has no
/// zero byte at all.
pub fn terminate<'a>(s: &'a [u8]) -> (r: Option<&'a [u8]>)
    ensures
        match r {
            Some(p) => find_zero(s@, 0) < s@.len() && p@ == s@.subrange(0, find_zero(s@, 0)),
            None => find_zero(s@, 0) == s@.len(),
        },
{
    let mut i: usize = 0;
    while i < s.len()
        invariant
            0 <= i <= s@.len(),
            find_zero(s@, 0) == find_zero(s@, i as int),
            forall|j: int| 0 <= j < i ==> s@[j] != 0,
        decreases s@.len() - i,
    {
        if *vstd::slice::slice_index_get(s, i) == 0 {
            return Some(vstd::slice::slice_subrange(s, 0, i));
        }
        i = i + 1;
    }
    None
}

} // verus!
