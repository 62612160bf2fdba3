//! Uniform-buffer padding: aligning a structure size up to the
//! device-reported minimum uniform-buffer offset alignment.

use vstd::arithmetic::div_mod::{
    lemma_fundamental_div_mod, lemma_fundamental_div_mod_converse, lemma_mod_multiples_basic,
};
use vstd::prelude::*;

verus! {

/// The least multiple of `align` that is at least `size`.
pub open spec fn align_up(size: int, align: int) -> int
    recommends
        align > 0,
{
    ((size + align - 1) / align) * align
}

/// `align_up` really is the least multiple of `align` at or above `size`:
/// it is at least `size`, it is a multiple of `align`, and it stays below
/// `size + align`.
pub proof fn lemma_align_up_bounds(size: int, align: int)
    requires
        size >= 0,
        align > 0,
    ensures
        align_up(size, align) >= size,
        align_up(size, align) % align == 0,
        align_up(size, align) < size + align,
{
    let q = (size + align - 1) / align;
    let r = (size + align - 1) % align;
    lemma_fundamental_div_mod(size + align - 1, align);
    assert(size + align - 1 == align * q + r);
    assert(align * q == q * align) by (nonlinear_arith);
    lemma_mod_multiples_basic(q, align);
}

/// Padding an already padded size changes nothing: once a size is a
/// multiple of the alignment, aligning it up again returns it unchanged.
pub proof fn lemma_align_up_idempotent(size: int, align: int)
    requires
        size >= 0,
        align > 0,
    ensures
        align_up(align_up(size, align), align) == align_up(size, align),
{
    lemma_align_up_bounds(size, align);
    let a = align_up(size, align);
    let q = (size + align - 1) / align;
    assert(a == q * align);
    assert(q * align + align - 1 == align * q + (align - 1)) by (nonlinear_arith);
    lemma_fundamental_div_mod_converse(q * align + align - 1, align, q, align - 1);
    assert((a + align - 1) / align == q);
}

/// Computes the padded stride for one copy of per-frame uniform data, as
/// the frame ring lays N copies of it side by side in one buffer.
///
/// With a positive alignment the result is the least multiple of the
/// alignment at or above `size`; a zero alignment (no device constraint)
/// leaves the size untouched.
pub fn pad_uniform_buffer_size(size: usize, min_uniform_alignment: u64) -> (r: u64)
    requires
        min_uniform_alignment > 0 ==> size + min_uniform_alignment - 1 <= u64::MAX,
    ensures
        min_uniform_alignment == 0 ==> r == size,
        min_uniform_alignment > 0 ==> r == align_up(size as int, min_uniform_alignment as int),
        min_uniform_alignment > 0 ==> r >= size,
        min_uniform_alignment > 0 ==> r % min_uniform_alignment == 0,
        min_uniform_alignment > 0 ==> r < size + min_uniform_alignment,
{
    let mut aligned_size = size as u64;
    if min_uniform_alignment > 0 {
        proof {
            lemma_align_up_bounds(size as int, min_uniform_alignment as int);
        }
        let q = (aligned_size + (min_uniform_alignment - 1)) / min_uniform_alignment;
        assert(q * min_uniform_alignment == align_up(size as int, min_uniform_alignment as int));
        aligned_size = q * min_uniform_alignment;
    }
    aligned_size
}

} // verus!
