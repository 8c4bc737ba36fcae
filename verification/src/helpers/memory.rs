//! Storage: contiguous blocks of elements.
use crate::helpers::traits::Numerical;
use std::ops::Range;
use vstd::prelude::*;

verus! {

/// Makes a block of `rows * cols` slots that each hold zero.
pub fn allocate<T: Numerical>(rows: usize, cols: usize) -> (block: Vec<T>)
    requires
        rows * cols > 0,
        rows * cols <= usize::MAX,
    ensures
        block@ == Seq::new((rows * cols) as nat, |k: int| T::spec_zero()),
{
    let n = rows * cols;
    let mut block: Vec<T> = Vec::with_capacity(n);
    let mut k: usize = 0;
    while k < n
        invariant
            k <= n,
            block@ == Seq::new(k as nat, |k: int| T::spec_zero()),
        decreases n - k,
    {
        block.push(T::zero());
        k += 1;
    }
    block
}

/// Copies the slots `range` of `src` to `dst`, where they start at `offset`.
/// The other slots of `dst` stay as they are.
pub fn copymemory<T: Copy>(src: &Vec<T>, dst: &mut Vec<T>, range: Range<usize>, offset: usize)
    requires
        range.start <= range.end <= src.len(),
        offset + (range.end - range.start) <= old(dst).len(),
    ensures
        final(dst)@ == old(dst)@.subrange(0, offset as int) + src@.subrange(
            range.start as int,
            range.end as int,
        ) + old(dst)@.subrange(offset + (range.end - range.start), old(dst).len() as int),
{
    let count = range.end - range.start;
    let mut k: usize = 0;
    while k < count
        invariant
            k <= count,
            count == range.end - range.start,
            range.end <= src.len(),
            dst.len() == old(dst).len(),
            offset + count <= dst.len(),
            dst@ == old(dst)@.subrange(0, offset as int) + src@.subrange(
                range.start as int,
                range.start + k,
            ) + old(dst)@.subrange(offset + k, old(dst).len() as int),
        decreases count - k,
    {
        dst[offset + k] = src[range.start + k];
        k += 1;
    }
}

} // verus!
