//! The most recent `size` samples of a stream chunk, right-aligned.

use vstd::prelude::*;

verus! {

/// `count` copies of `fill`.
pub open spec fn filled<T>(count: nat, fill: T) -> Seq<T> {
    Seq::new(count, |_i: int| fill)
}

/// The last `size` elements of `s`. When `s` is shorter, all of it, placed at
/// the end of a sequence of length `size` whose first positions hold `fill`:
/// element `j` of `s` then sits at position `size - s.len() + j`.
pub open spec fn aligned_tail<T>(s: Seq<T>, size: nat, fill: T) -> Seq<T> {
    if s.len() >= size {
        s.subrange(s.len() - size, s.len() as int)
    } else {
        filled((size - s.len()) as nat, fill) + s
    }
}

/// Takes the trailing `size` elements of `data`, right-aligned, with `fill`
/// before them when `data` is too short.
pub fn align_tail<T: Copy>(data: &[T], size: usize, fill: T) -> (r: Vec<T>)
    ensures
        r@ == aligned_tail(data@, size as nat, fill),
        r@.len() == size,
{
    let len = data.len();
    let mut r: Vec<T> = Vec::with_capacity(size);
    if len >= size {
        let start = len - size;
        let mut i: usize = 0;
        while i < size
            invariant
                len == data@.len(),
                start + size == len,
                i <= size,
                r@ == data@.subrange(start as int, start + i),
            decreases size - i,
        {
            r.push(data[start + i]);
            proof {
                assert(r@ =~= data@.subrange(start as int, start + i + 1));
            }
            i = i + 1;
        }
    } else {
        let pad = size - len;
        for i in 0..pad
            invariant
                r@ == filled(i as nat, fill),
        {
            r.push(fill);
            proof {
                assert(r@ =~= filled((i + 1) as nat, fill));
            }
        }
        let mut j: usize = 0;
        while j < len
            invariant
                len == data@.len(),
                j <= len,
                pad == size - len,
                r@ == filled(pad as nat, fill) + data@.subrange(0, j as int),
            decreases len - j,
        {
            r.push(data[j]);
            proof {
                assert(r@ =~= filled(pad as nat, fill) + data@.subrange(0, j + 1));
            }
            j = j + 1;
        }
        proof {
            assert(data@.subrange(0, len as int) =~= data@);
        }
    }
    r
}

/// A chunk shorter than the window gives the same snapshot as the same chunk
/// with fill values prepended up to the window length: the chunk's elements land
/// at the same positions either way.
pub proof fn lemma_short_chunk_matches_padded<T>(s: Seq<T>, size: nat, fill: T)
    requires
        s.len() < size,
    ensures
        aligned_tail(filled((size - s.len()) as nat, fill) + s, size, fill)
            == aligned_tail(s, size, fill),
{
    let padded = filled((size - s.len()) as nat, fill) + s;
    assert(padded.subrange(0, size as int) =~= padded);
}

} // verus!
