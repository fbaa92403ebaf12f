//! Topology of the polygon generator. A polygon mesh has one vertex per
//! boundary point; its triangles come from a 2D triangulation of the
//! boundary, which works on the floating-point points outside this module.
//! Here live the input validation and the verified assembly of the
//! triangulation's output into a well-formed index buffer with the crate's
//! winding convention.

use vstd::prelude::*;

use crate::indices_valid;

verus! {

/// Rejected polygon input. The boundary must hold at least three points,
/// no edge may cross another, and each vertex must be distinct and part of
/// exactly two edges.
#[derive(Clone, Copy, Debug, PartialEq, Eq, Structural)]
pub struct InvalidInput;

/// A polygon needs at least three boundary points; fewer are rejected as
/// invalid input rather than handed to the triangulation.
pub fn check_point_count(point_count: usize) -> (r: Result<(), InvalidInput>)
    ensures
        r is Ok <==> point_count >= 3,
{
    if point_count < 3 {
        Err(InvalidInput)
    } else {
        Ok(())
    }
}

/// One triangle of the triangulation's output, reversed into this crate's
/// winding convention: a triangle `(a, b, c)` is emitted as `c, b, a`.
pub open spec fn flipped_triangle(t: (usize, usize, usize)) -> Seq<u32> {
    seq![t.2 as u32, t.1 as u32, t.0 as u32]
}

/// Index buffer of the first `n` triangles, each reversed.
pub open spec fn flipped_triangles_seq(ts: Seq<(usize, usize, usize)>, n: int) -> Seq<u32>
    decreases n,
{
    if n <= 0 {
        Seq::empty()
    } else {
        flipped_triangles_seq(ts, n - 1) + flipped_triangle(ts[n - 1])
    }
}

/// The complete index buffer assembled from a triangulation's output.
pub open spec fn polygon_index_seq(ts: Seq<(usize, usize, usize)>) -> Seq<u32> {
    flipped_triangles_seq(ts, ts.len() as int)
}

/// A triangle only names vertices of a polygon with `point_count` points.
pub open spec fn triangle_in_range(t: (usize, usize, usize), point_count: nat) -> bool {
    t.0 < point_count && t.1 < point_count && t.2 < point_count
}

/// Assemble the polygon's index buffer from the triangles a 2D
/// triangulation produced: reverse each triangle into this crate's winding
/// convention and flatten. A triangle that names a vertex the polygon does
/// not have — or a polygon too large for 32-bit indices — is rejected as
/// invalid input.
#[verifier::loop_isolation(false)]
pub fn polygon_indices(point_count: usize, triangles: &Vec<(usize, usize, usize)>) -> (r: Result<
    Vec<u32>,
    InvalidInput,
>)
    ensures
        r is Ok <==> (point_count <= u32::MAX && forall|t: int|
            0 <= t < triangles@.len() ==> triangle_in_range(
                #[trigger] triangles@[t],
                point_count as nat,
            )),
        r matches Ok(indices) ==> {
            &&& indices@ == polygon_index_seq(triangles@)
            &&& indices@.len() == 3 * triangles@.len()
            &&& indices_valid(indices@, point_count as nat)
        },
{
    if point_count > u32::MAX as usize {
        return Err(InvalidInput);
    }
    let mut indices: Vec<u32> = Vec::new();
    let mut t: usize = 0;
    while t < triangles.len()
        invariant
            0 <= t <= triangles.len(),
            indices@ == flipped_triangles_seq(triangles@, t as int),
            indices@.len() == 3 * t,
            forall|j: int|
                0 <= j < t ==> triangle_in_range(#[trigger] triangles@[j], point_count as nat),
            forall|k: int|
                0 <= k < indices@.len() ==> (#[trigger] indices@[k] as nat) < point_count,
        decreases triangles.len() - t,
    {
        let (a, b, c) = triangles[t];
        if a >= point_count || b >= point_count || c >= point_count {
            return Err(InvalidInput);
        }
        indices.push(c as u32);
        indices.push(b as u32);
        indices.push(a as u32);
        proof {
            assert(indices@ =~= flipped_triangles_seq(triangles@, t as int + 1));
        }
        t = t + 1;
    }
    proof {
        assert(3 * triangles@.len() == 3 * (triangles@.len() as int));
        assert((3 * (triangles@.len() as int)) % 3 == 0) by (nonlinear_arith);
    }
    Ok(indices)
}

} // verus!
