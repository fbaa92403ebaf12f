//! Topology of the flat grid generator: a plane of
//! `(width_segments + 1) x (height_segments + 1)` vertices laid out row by
//! row and tiled into quad faces.

use vstd::prelude::*;

use crate::indices_valid;
use crate::util::{trapeze_triangles, FlatTrapezeIndices};

verus! {

/// Number of vertices the grid generator emits: one per lattice point.
pub open spec fn grid_vertex_count(width_segments: nat, height_segments: nat) -> nat {
    (width_segments + 1) * (height_segments + 1)
}

/// The quad face in row `fz`, column `fx` of the lattice. Vertices are laid
/// out row by row, `width_segments + 1` per row, so the face's lower-left
/// corner sits at `fz * (width_segments + 1) + fx`.
pub open spec fn grid_face(width_segments: int, fz: int, fx: int) -> FlatTrapezeIndices {
    let lower_left = fz * (width_segments + 1) + fx;
    FlatTrapezeIndices {
        lower_left: lower_left as u32,
        upper_left: (lower_left + width_segments + 1) as u32,
        lower_right: (lower_left + 1) as u32,
        upper_right: (lower_left + width_segments + 2) as u32,
    }
}

/// Index buffer of the first `n` faces of row `fz`, in emission order.
pub open spec fn grid_row_seq(width_segments: int, fz: int, n: int) -> Seq<u32>
    decreases n,
{
    if n <= 0 {
        Seq::empty()
    } else {
        grid_row_seq(width_segments, fz, n - 1)
            + trapeze_triangles(grid_face(width_segments, fz, n - 1))
    }
}

/// Index buffer of the first `n` full rows of faces.
pub open spec fn grid_rows_seq(width_segments: int, n: int) -> Seq<u32>
    decreases n,
{
    if n <= 0 {
        Seq::empty()
    } else {
        grid_rows_seq(width_segments, n - 1)
            + grid_row_seq(width_segments, n - 1, width_segments)
    }
}

/// The complete index buffer of the grid.
pub open spec fn grid_index_seq(width_segments: int, height_segments: int) -> Seq<u32> {
    grid_rows_seq(width_segments, height_segments)
}

/// Every corner index of one face lies below the vertex count.
proof fn lemma_grid_face_in_range(ws: int, hs: int, fz: int, fx: int)
    requires
        1 <= ws,
        1 <= hs,
        0 <= fz < hs,
        0 <= fx < ws,
    ensures
        0 <= fz * (ws + 1) + fx,
        fz * (ws + 1) + fx + ws + 2 <= (ws + 1) * (hs + 1) - 1,
        ws + 1 <= (ws + 1) * (hs + 1),
{
    assert(0 <= fz * (ws + 1) + fx && fz * (ws + 1) + fx + ws + 2 <= (ws + 1) * (hs + 1) - 1
        && ws + 1 <= (ws + 1) * (hs + 1)) by (nonlinear_arith)
        requires
            1 <= ws,
            1 <= hs,
            0 <= fz < hs,
            0 <= fx < ws,
    ;
}

/// Length of a row prefix of the index buffer.
proof fn lemma_grid_row_seq_len(ws: int, fz: int, n: int)
    requires
        0 <= n,
    ensures
        grid_row_seq(ws, fz, n).len() == 6 * n,
    decreases n,
{
    if n > 0 {
        lemma_grid_row_seq_len(ws, fz, n - 1);
    }
}

/// Length of a prefix of full rows of the index buffer.
proof fn lemma_grid_rows_seq_len(ws: int, n: int)
    requires
        0 <= ws,
        0 <= n,
    ensures
        grid_rows_seq(ws, n).len() == 6 * ws * n,
    decreases n,
{
    if n > 0 {
        lemma_grid_rows_seq_len(ws, n - 1);
        lemma_grid_row_seq_len(ws, n - 1, ws);
        assert(grid_rows_seq(ws, n) == grid_rows_seq(ws, n - 1) + grid_row_seq(ws, n - 1, ws));
        assert(grid_rows_seq(ws, n).len() == 6 * ws * (n - 1) + 6 * ws);
        assert(6 * ws * (n - 1) + 6 * ws == 6 * ws * n) by (nonlinear_arith);
    } else {
        assert(grid_rows_seq(ws, n).len() == 0);
        assert(6 * ws * 0 == 0) by (nonlinear_arith);
    }
}

/// Every index of a row prefix names an existing vertex.
proof fn lemma_grid_row_seq_in_range(ws: int, hs: int, fz: int, n: int)
    requires
        1 <= ws,
        1 <= hs,
        0 <= fz < hs,
        0 <= n <= ws,
        (ws + 1) * (hs + 1) <= u32::MAX,
    ensures
        forall|k: int|
            0 <= k < grid_row_seq(ws, fz, n).len()
                ==> (#[trigger] grid_row_seq(ws, fz, n)[k] as nat)
                    < grid_vertex_count(ws as nat, hs as nat),
    decreases n,
{
    if n > 0 {
        lemma_grid_row_seq_in_range(ws, hs, fz, n - 1);
        lemma_grid_face_in_range(ws, hs, fz, n - 1);
        let prev = grid_row_seq(ws, fz, n - 1);
        let t = trapeze_triangles(grid_face(ws, fz, n - 1));
        assert forall|k: int| 0 <= k < grid_row_seq(ws, fz, n).len() implies (
        #[trigger] grid_row_seq(ws, fz, n)[k] as nat) < grid_vertex_count(
            ws as nat,
            hs as nat,
        ) by {
            if k < prev.len() {
                assert(grid_row_seq(ws, fz, n)[k] == prev[k]);
            } else {
                assert(grid_row_seq(ws, fz, n)[k] == t[k - prev.len()]);
            }
        }
    }
}

/// The grid's index buffer is well formed: its length is a multiple of
/// three and every entry names one of the grid's vertices.
pub proof fn lemma_grid_index_seq_valid(ws: int, hs: int)
    requires
        1 <= ws,
        1 <= hs,
        (ws + 1) * (hs + 1) <= u32::MAX,
    ensures
        indices_valid(grid_index_seq(ws, hs), grid_vertex_count(ws as nat, hs as nat)),
{
    lemma_grid_rows_seq_len(ws, hs);
    lemma_grid_rows_valid_upto(ws, hs, hs);
    assert(6 * ws * hs == 3 * (2 * ws * hs) && (3 * (2 * ws * hs)) % 3 == 0) by (nonlinear_arith);
}

/// Every index of a prefix of full rows names an existing vertex.
proof fn lemma_grid_rows_valid_upto(ws: int, hs: int, n: int)
    requires
        1 <= ws,
        1 <= hs,
        0 <= n <= hs,
        (ws + 1) * (hs + 1) <= u32::MAX,
    ensures
        forall|k: int|
            0 <= k < grid_rows_seq(ws, n).len()
                ==> (#[trigger] grid_rows_seq(ws, n)[k] as nat)
                    < grid_vertex_count(ws as nat, hs as nat),
    decreases n,
{
    if n > 0 {
        lemma_grid_rows_valid_upto(ws, hs, n - 1);
        lemma_grid_row_seq_in_range(ws, hs, n - 1, ws);
        let prev = grid_rows_seq(ws, n - 1);
        let row = grid_row_seq(ws, n - 1, ws);
        assert forall|k: int| 0 <= k < grid_rows_seq(ws, n).len() implies (
        #[trigger] grid_rows_seq(ws, n)[k] as nat) < grid_vertex_count(ws as nat, hs as nat) by {
            if k < prev.len() {
                assert(grid_rows_seq(ws, n)[k] == prev[k]);
            } else {
                assert(grid_rows_seq(ws, n)[k] == row[k - prev.len()]);
            }
        }
    }
}

/// Parameter check for the grid generator: positive spatial extents (the
/// caller, which owns the floating-point lengths, reports their signs) and
/// at least one segment along each axis.
pub fn grid_params_valid(
    width_positive: bool,
    height_positive: bool,
    width_segments: usize,
    height_segments: usize,
) -> (ok: bool)
    ensures
        ok <==> (width_positive && height_positive && width_segments >= 1 && height_segments
            >= 1),
{
    width_positive && height_positive && width_segments >= 1 && height_segments >= 1
}

/// Number of vertices the grid generator emits.
pub fn grid_vertices(width_segments: usize, height_segments: usize) -> (n: usize)
    requires
        grid_vertex_count(width_segments as nat, height_segments as nat) <= u32::MAX,
    ensures
        n == grid_vertex_count(width_segments as nat, height_segments as nat),
{
    proof {
        lemma_grid_vertex_count_bounds(width_segments as int, height_segments as int);
    }
    (width_segments + 1) * (height_segments + 1)
}

/// The vertex count bounds each factor.
proof fn lemma_grid_vertex_count_bounds(ws: int, hs: int)
    requires
        0 <= ws,
        0 <= hs,
    ensures
        ws + 1 <= (ws + 1) * (hs + 1),
        hs + 1 <= (ws + 1) * (hs + 1),
{
    assert(ws + 1 <= (ws + 1) * (hs + 1) && hs + 1 <= (ws + 1) * (hs + 1))
        by (nonlinear_arith)
        requires
            0 <= ws,
            0 <= hs,
    ;
}

/// Build the triangle index buffer that tiles the grid's lattice into
/// `width_segments x height_segments` quad faces, row by row.
#[verifier::loop_isolation(false)]
pub fn grid_indices(width_segments: usize, height_segments: usize) -> (r: Vec<u32>)
    requires
        1 <= width_segments,
        1 <= height_segments,
        grid_vertex_count(width_segments as nat, height_segments as nat) <= u32::MAX,
    ensures
        r@ == grid_index_seq(width_segments as int, height_segments as int),
        r@.len() == 6 * width_segments * height_segments,
        indices_valid(r@, grid_vertex_count(width_segments as nat, height_segments as nat)),
{
    let ghost ws = width_segments as int;
    let ghost hs = height_segments as int;
    let mut indices: Vec<u32> = Vec::new();
    for face_z in 0..height_segments
        invariant
            indices@ == grid_rows_seq(ws, face_z as int),
    {
        for face_x in 0..width_segments
            invariant
                indices@ == grid_rows_seq(ws, face_z as int)
                    + grid_row_seq(ws, face_z as int, face_x as int),
        {
            proof {
                lemma_grid_face_in_range(ws, hs, face_z as int, face_x as int);
            }
            let lower_left = face_z * (width_segments + 1) + face_x;
            let face = FlatTrapezeIndices {
                lower_left: lower_left as u32,
                upper_left: (lower_left + width_segments + 1) as u32,
                lower_right: (lower_left + 1) as u32,
                upper_right: (lower_left + width_segments + 2) as u32,
            };
            face.generate_triangles(&mut indices);
            proof {
                assert(face == grid_face(ws, face_z as int, face_x as int));
                assert(indices@ =~= grid_rows_seq(ws, face_z as int)
                    + grid_row_seq(ws, face_z as int, face_x as int + 1));
            }
        }
        proof {
            assert(indices@ =~= grid_rows_seq(ws, face_z as int + 1));
        }
    }
    proof {
        lemma_grid_rows_seq_len(ws, hs);
        lemma_grid_index_seq_valid(ws, hs);
    }
    indices
}

} // verus!
