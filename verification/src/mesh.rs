//! Triangle meshes as a model file lists them.

use vstd::prelude::*;

verus! {

/// The corners of triangle `i` in a flat list of vertex indices.
pub open spec fn spec_face(indices: Seq<u32>, i: int) -> (usize, usize, usize) {
    (indices[i * 3] as usize, indices[i * 3 + 1] as usize, indices[i * 3 + 2] as usize)
}

/// The triangles of a mesh from its flat list of vertex indices: each run
/// of three indices is one triangle, and what is left over at the end is
/// none.
pub fn faces(indices: &Vec<u32>) -> (r: Vec<(usize, usize, usize)>)
    ensures
        r@.len() == indices@.len() / 3,
        forall|i: int| 0 <= i < r@.len() ==> #[trigger] r@[i] == spec_face(indices@, i),
{
    let n = indices.len() / 3;
    let mut out: Vec<(usize, usize, usize)> = Vec::new();
    let mut i: usize = 0;
    while i < n
        invariant
            n == indices@.len() / 3,
            i <= n,
            out@.len() == i,
            forall|j: int| 0 <= j < i ==> #[trigger] out@[j] == spec_face(indices@, j),
        decreases n - i,
    {
        let len = indices.len();
        assert(i * 3 + 2 < len) by (nonlinear_arith)
            requires
                i < n,
                n == len as int / 3,
        ;
        out.push(
            (indices[i * 3] as usize, indices[i * 3 + 1] as usize, indices[i * 3 + 2] as usize),
        );
        i += 1;
    }
    out
}

} // verus!
