//! Topology of the cylinder (frustum) generator. Three surface patches
//! share no vertices: the top cap (a fan around a center vertex), the bottom
//! cap (same fan, reversed winding), and the lateral body, a grid of
//! `radial_segments x height_segments` quad faces laid out column by column.

use vstd::prelude::*;

use crate::indices_valid;
use crate::util::{fan_center_first_indices, fan_center_first_seq, fan_center_last_indices,
    fan_center_last_seq, lemma_fan_center_first_in_range, lemma_fan_center_first_len,
    lemma_fan_center_last_in_range, lemma_fan_center_last_len, trapeze_triangles,
    FlatTrapezeIndices};

verus! {

/// Number of vertices of one cap: a center vertex plus a ring of
/// `radial_segments + 1` vertices.
pub open spec fn cap_vertex_count(radial_segments: nat) -> nat {
    radial_segments + 2
}

/// Number of vertices the cylinder generator emits: two caps and the body
/// lattice of `(radial_segments + 1) * (height_segments + 1)` vertices.
pub open spec fn cylinder_vertex_count(radial_segments: nat, height_segments: nat) -> nat {
    2 * cap_vertex_count(radial_segments) + (radial_segments + 1) * (height_segments + 1)
}

/// The quad face of body column `i`, height cell `h`. Body vertices are laid
/// out column by column, `height_segments + 1` per column, starting at
/// `base`.
pub open spec fn cylinder_face(height_segments: int, base: int, i: int, h: int)
    -> FlatTrapezeIndices {
    let segment_base = base + i * (height_segments + 1) + h;
    FlatTrapezeIndices {
        lower_left: segment_base as u32,
        upper_left: (segment_base + 1) as u32,
        lower_right: (segment_base + height_segments + 1) as u32,
        upper_right: (segment_base + height_segments + 2) as u32,
    }
}

/// Index buffer of the first `n` faces of body column `i`.
pub open spec fn cylinder_column_seq(height_segments: int, base: int, i: int, n: int) -> Seq<u32>
    decreases n,
{
    if n <= 0 {
        Seq::empty()
    } else {
        cylinder_column_seq(height_segments, base, i, n - 1)
            + trapeze_triangles(cylinder_face(height_segments, base, i, n - 1))
    }
}

/// Index buffer of the first `n` full body columns.
pub open spec fn cylinder_columns_seq(height_segments: int, base: int, n: int) -> Seq<u32>
    decreases n,
{
    if n <= 0 {
        Seq::empty()
    } else {
        cylinder_columns_seq(height_segments, base, n - 1)
            + cylinder_column_seq(height_segments, base, n - 1, height_segments)
    }
}

/// The complete index buffer of the cylinder: top cap, bottom cap, body.
pub open spec fn cylinder_index_seq(radial_segments: int, height_segments: int) -> Seq<u32> {
    fan_center_first_seq(0, radial_segments) + fan_center_last_seq(radial_segments + 2, radial_segments)
        + cylinder_columns_seq(height_segments, 2 * radial_segments + 4, radial_segments)
}

/// Every corner index of one body face stays inside the body lattice.
proof fn lemma_cylinder_face_in_range(rs: int, hs: int, base: int, i: int, h: int)
    requires
        1 <= rs,
        1 <= hs,
        0 <= base,
        0 <= i < rs,
        0 <= h < hs,
    ensures
        0 <= i * (hs + 1),
        i * (hs + 1) + (hs + 1) == (i + 1) * (hs + 1),
        i * (hs + 1) + h + hs + 2 <= (rs + 1) * (hs + 1) - 1,
        hs + 1 <= (rs + 1) * (hs + 1),
{
    assert(0 <= i * (hs + 1) && i * (hs + 1) + (hs + 1) == (i + 1) * (hs + 1) && i * (hs + 1) + h
        + hs + 2 <= (rs + 1) * (hs + 1) - 1 && hs + 1 <= (rs + 1) * (hs + 1)) by (nonlinear_arith)
        requires
            1 <= rs,
            1 <= hs,
            0 <= i < rs,
            0 <= h < hs,
    ;
}

/// Length of a column prefix of the body's index buffer.
proof fn lemma_cylinder_column_seq_len(hs: int, base: int, i: int, n: int)
    requires
        0 <= n,
    ensures
        cylinder_column_seq(hs, base, i, n).len() == 6 * n,
    decreases n,
{
    if n > 0 {
        lemma_cylinder_column_seq_len(hs, base, i, n - 1);
    }
}

/// Length of a prefix of full body columns.
proof fn lemma_cylinder_columns_seq_len(hs: int, base: int, n: int)
    requires
        0 <= hs,
        0 <= n,
    ensures
        cylinder_columns_seq(hs, base, n).len() == 6 * hs * n,
    decreases n,
{
    if n > 0 {
        lemma_cylinder_columns_seq_len(hs, base, n - 1);
        lemma_cylinder_column_seq_len(hs, base, n - 1, hs);
        assert(6 * hs * (n - 1) + 6 * hs == 6 * hs * n) by (nonlinear_arith);
    } else {
        assert(6 * hs * 0 == 0) by (nonlinear_arith);
    }
}

/// Every index of a column prefix names a body vertex.
proof fn lemma_cylinder_column_seq_in_range(rs: int, hs: int, base: int, i: int, n: int)
    requires
        1 <= rs,
        1 <= hs,
        0 <= base,
        0 <= i < rs,
        0 <= n <= hs,
        base + (rs + 1) * (hs + 1) <= u32::MAX,
    ensures
        forall|k: int|
            0 <= k < cylinder_column_seq(hs, base, i, n).len() ==> base <= (
            #[trigger] cylinder_column_seq(hs, base, i, n)[k]) && (cylinder_column_seq(
                hs,
                base,
                i,
                n,
            )[k] as int) < base + (rs + 1) * (hs + 1),
    decreases n,
{
    if n > 0 {
        lemma_cylinder_column_seq_in_range(rs, hs, base, i, n - 1);
        lemma_cylinder_face_in_range(rs, hs, base, i, n - 1);
        let prev = cylinder_column_seq(hs, base, i, n - 1);
        let t = trapeze_triangles(cylinder_face(hs, base, i, n - 1));
        assert forall|k: int| 0 <= k < cylinder_column_seq(hs, base, i, n).len() implies base <= (
        #[trigger] cylinder_column_seq(hs, base, i, n)[k]) && (cylinder_column_seq(
            hs,
            base,
            i,
            n,
        )[k] as int) < base + (rs + 1) * (hs + 1) by {
            if k < prev.len() {
                assert(cylinder_column_seq(hs, base, i, n)[k] == prev[k]);
            } else {
                assert(cylinder_column_seq(hs, base, i, n)[k] == t[k - prev.len()]);
            }
        }
    }
}

/// Every index of a prefix of full columns names a body vertex.
proof fn lemma_cylinder_columns_in_range(rs: int, hs: int, base: int, n: int)
    requires
        1 <= rs,
        1 <= hs,
        0 <= base,
        0 <= n <= rs,
        base + (rs + 1) * (hs + 1) <= u32::MAX,
    ensures
        forall|k: int|
            0 <= k < cylinder_columns_seq(hs, base, n).len() ==> base <= (
            #[trigger] cylinder_columns_seq(hs, base, n)[k]) && (cylinder_columns_seq(
                hs,
                base,
                n,
            )[k] as int) < base + (rs + 1) * (hs + 1),
    decreases n,
{
    if n > 0 {
        lemma_cylinder_columns_in_range(rs, hs, base, n - 1);
        lemma_cylinder_column_seq_in_range(rs, hs, base, n - 1, hs);
        let prev = cylinder_columns_seq(hs, base, n - 1);
        let col = cylinder_column_seq(hs, base, n - 1, hs);
        assert forall|k: int| 0 <= k < cylinder_columns_seq(hs, base, n).len() implies base <= (
        #[trigger] cylinder_columns_seq(hs, base, n)[k]) && (cylinder_columns_seq(
            hs,
            base,
            n,
        )[k] as int) < base + (rs + 1) * (hs + 1) by {
            if k < prev.len() {
                assert(cylinder_columns_seq(hs, base, n)[k] == prev[k]);
            } else {
                assert(cylinder_columns_seq(hs, base, n)[k] == col[k - prev.len()]);
            }
        }
    }
}

/// The cylinder's index buffer is well formed: its length is a multiple of
/// three and every entry names one of the cylinder's vertices.
pub proof fn lemma_cylinder_index_seq_valid(rs: int, hs: int)
    requires
        1 <= rs,
        1 <= hs,
        2 * (rs + 2) + (rs + 1) * (hs + 1) <= u32::MAX,
    ensures
        indices_valid(
            cylinder_index_seq(rs, hs),
            cylinder_vertex_count(rs as nat, hs as nat),
        ),
        cylinder_index_seq(rs, hs).len() == 6 * rs + 6 * hs * rs,
{
    lemma_fan_center_first_len(0, rs);
    lemma_fan_center_last_len(rs + 2, rs);
    lemma_cylinder_columns_seq_len(hs, 2 * rs + 4, rs);
    assert((rs + 1) * (hs + 1) >= 0) by (nonlinear_arith)
        requires
            1 <= rs,
            1 <= hs,
    ;
    lemma_fan_center_first_in_range(0, rs);
    lemma_fan_center_last_in_range(rs + 2, rs);
    lemma_cylinder_columns_in_range(rs, hs, 2 * rs + 4, rs);
    let top = fan_center_first_seq(0, rs);
    let bottom = fan_center_last_seq(rs + 2, rs);
    let body = cylinder_columns_seq(hs, 2 * rs + 4, rs);
    let s = cylinder_index_seq(rs, hs);
    let vc = cylinder_vertex_count(rs as nat, hs as nat);
    assert forall|k: int| 0 <= k < s.len() implies (#[trigger] s[k] as nat) < vc by {
        if k < top.len() {
            assert(s[k] == top[k]);
        } else if k < top.len() + bottom.len() {
            assert(s[k] == bottom[k - top.len()]);
        } else {
            assert(s[k] == body[k - top.len() - bottom.len()]);
        }
    }
    assert(6 * rs + 6 * hs * rs == 3 * (2 * rs + 2 * hs * rs) && (3 * (2 * rs + 2 * hs * rs)) % 3
        == 0) by (nonlinear_arith);
}

/// Parameter check for the cylinder generator: both radii positive (a zero
/// radius calls for a cone instead), positive height, at least three radial
/// segments to close the surface, and at least one height segment. The
/// caller, which owns the floating-point values, reports the radii's and the
/// height's signs.
pub fn cylinder_params_valid(
    height_positive: bool,
    radius_bottom_positive: bool,
    radius_top_positive: bool,
    radial_segments: u32,
    height_segments: u32,
) -> (ok: bool)
    ensures
        ok <==> (height_positive && radius_bottom_positive && radius_top_positive
            && radial_segments >= 3 && height_segments >= 1),
{
    height_positive && radius_bottom_positive && radius_top_positive && radial_segments >= 3
        && height_segments >= 1
}

/// Number of vertices the cylinder generator emits.
pub fn cylinder_vertices(radial_segments: u32, height_segments: u32) -> (n: u32)
    requires
        cylinder_vertex_count(radial_segments as nat, height_segments as nat) <= u32::MAX,
    ensures
        n == cylinder_vertex_count(radial_segments as nat, height_segments as nat),
{
    proof {
        assert((radial_segments + 1) * (height_segments + 1) >= radial_segments + 1
            && (radial_segments + 1) * (height_segments + 1) >= height_segments + 1)
            by (nonlinear_arith);
    }
    2 * (radial_segments + 2) + (radial_segments + 1) * (height_segments + 1)
}

/// Append the body's quad grid, column by column.
#[verifier::loop_isolation(false)]
pub fn cylinder_body_indices(
    indices: &mut Vec<u32>,
    base_index: u32,
    radial_segments: u32,
    height_segments: u32,
)
    requires
        1 <= radial_segments,
        1 <= height_segments,
        base_index + (radial_segments + 1) * (height_segments + 1) <= u32::MAX,
    ensures
        final(indices)@ == old(indices)@ + cylinder_columns_seq(
            height_segments as int,
            base_index as int,
            radial_segments as int,
        ),
{
    let ghost rs = radial_segments as int;
    let ghost hs = height_segments as int;
    let ghost base = base_index as int;
    for i in 0..radial_segments
        invariant
            indices@ == old(indices)@ + cylinder_columns_seq(hs, base, i as int),
    {
        for h in 0..height_segments
            invariant
                indices@ == old(indices)@ + cylinder_columns_seq(hs, base, i as int)
                    + cylinder_column_seq(hs, base, i as int, h as int),
        {
            proof {
                lemma_cylinder_face_in_range(rs, hs, base, i as int, h as int);
            }
            let segment_base = base_index + i * (height_segments + 1) + h;
            let face = FlatTrapezeIndices {
                lower_left: segment_base,
                upper_left: segment_base + 1,
                lower_right: segment_base + height_segments + 1,
                upper_right: segment_base + height_segments + 2,
            };
            face.generate_triangles(indices);
            proof {
                assert(face == cylinder_face(hs, base, i as int, h as int));
                assert(indices@ =~= old(indices)@ + cylinder_columns_seq(hs, base, i as int)
                    + cylinder_column_seq(hs, base, i as int, h as int + 1));
            }
        }
        proof {
            assert(indices@ =~= old(indices)@ + cylinder_columns_seq(hs, base, i as int + 1));
        }
    }
}

/// Build the cylinder's complete index buffer: top cap, bottom cap, body.
pub fn cylinder_indices(radial_segments: u32, height_segments: u32) -> (r: Vec<u32>)
    requires
        1 <= radial_segments,
        1 <= height_segments,
        cylinder_vertex_count(radial_segments as nat, height_segments as nat) <= u32::MAX,
    ensures
        r@ == cylinder_index_seq(radial_segments as int, height_segments as int),
        r@.len() == 6 * radial_segments + 6 * height_segments * radial_segments,
        indices_valid(
            r@,
            cylinder_vertex_count(radial_segments as nat, height_segments as nat),
        ),
{
    let ghost rs = radial_segments as int;
    let ghost hs = height_segments as int;
    proof {
        assert((rs + 1) * (hs + 1) >= 0) by (nonlinear_arith)
            requires
                1 <= rs,
                1 <= hs,
        ;
    }
    let mut indices: Vec<u32> = Vec::new();
    fan_center_first_indices(&mut indices, 0, radial_segments);
    fan_center_last_indices(&mut indices, radial_segments + 2, radial_segments);
    cylinder_body_indices(
        &mut indices,
        2 * radial_segments + 4,
        radial_segments,
        height_segments,
    );
    proof {
        assert(indices@ =~= cylinder_index_seq(rs, hs));
        lemma_cylinder_index_seq_valid(rs, hs);
    }
    indices
}

} // verus!
