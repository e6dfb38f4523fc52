//! A window table built from its first half, so that it reads the same from
//! either end.

use vstd::prelude::*;

verus! {

/// `half` followed by `half` reversed.
pub open spec fn mirrored<T>(half: Seq<T>) -> Seq<T> {
    half + half.reverse()
}

/// Builds a table of length `2 * half.len()` whose first half is `half` and
/// whose second half is `half` reversed.
pub fn mirror_extend<T: Copy>(half: &[T]) -> (r: Vec<T>)
    requires
        2 * half@.len() <= usize::MAX,
    ensures
        r@ == mirrored(half@),
        r@.len() == 2 * half@.len(),
        forall|i: int| 0 <= i < r@.len() ==> #[trigger] r@[i] == r@[r@.len() - 1 - i],
{
    let n = half.len();
    let mut r: Vec<T> = Vec::with_capacity(2 * n);
    for i in 0..n
        invariant
            n == half@.len(),
            r@ == half@.subrange(0, i as int),
    {
        r.push(half[i]);
        proof {
            assert(r@ =~= half@.subrange(0, i + 1));
        }
    }
    for j in 0..n
        invariant
            n == half@.len(),
            r@ == half@ + half@.reverse().subrange(0, j as int),
    {
        r.push(half[n - 1 - j]);
        proof {
            assert(r@ =~= half@ + half@.reverse().subrange(0, j + 1));
        }
    }
    proof {
        assert(half@.reverse().subrange(0, n as int) =~= half@.reverse());
        lemma_mirrored_symmetric(half@);
    }
    r
}

/// A mirrored table is symmetric: the entry at `i` equals the entry at
/// `len - 1 - i`, for every index.
pub proof fn lemma_mirrored_symmetric<T>(half: Seq<T>)
    ensures
        mirrored(half).len() == 2 * half.len(),
        forall|i: int|
            0 <= i < mirrored(half).len() ==> #[trigger] mirrored(half)[i]
                == mirrored(half)[mirrored(half).len() - 1 - i],
{
    let m = mirrored(half);
    let n = half.len() as int;
    assert forall|i: int| 0 <= i < m.len() implies #[trigger] m[i] == m[m.len() - 1 - i] by {
        if i < n {
            assert(m[i] == half[i]);
            assert(m[2 * n - 1 - i] == half.reverse()[n - 1 - i]);
        } else {
            assert(m[i] == half.reverse()[i - n]);
            assert(m[2 * n - 1 - i] == half[2 * n - 1 - i]);
        }
    }
}

} // verus!
