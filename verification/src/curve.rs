//! Topology of the curve generator. A swept curve mesh is one of three
//! things: a tube (a ring of vertices per sample frame), a ribbon (one or
//! two flat strips per frame, for fewer than three radial segments), or a
//! plain polyline (zero radius or zero radial segments). This module
//! decides which, counts the vertices each frame emits, and builds the
//! triangle index buffers; evaluating the curve function and propagating
//! the moving frames is floating-point work that consumes these buffers.

use vstd::prelude::*;

use crate::indices_valid;
use crate::util::{trapeze_triangles, FlatTrapezeIndices};

verus! {

/// What the curve generator produces for a given parameter set.
#[derive(Clone, Copy, Debug, PartialEq, Eq, Structural)]
pub enum CurveKind {
    /// A line-strip polyline: positions only, no triangles.
    Line,
    /// A flat strip, single- or double-sided.
    Ribbon,
    /// A closed-or-open tube of circular cross-sections.
    Tube,
}

/// Decide the mesh kind. The caller, which owns the floating-point radius,
/// reports whether it vanishes (within machine epsilon): a vanishing radius
/// or zero radial segments degenerate to a polyline, one or two radial
/// segments to a ribbon, three or more to a tube.
pub fn classify_curve(radius_is_zero: bool, radial_segments: u32) -> (kind: CurveKind)
    ensures
        kind == CurveKind::Line <==> (radius_is_zero || radial_segments == 0),
        kind == CurveKind::Ribbon <==> (!radius_is_zero && 0 < radial_segments < 3),
        kind == CurveKind::Tube <==> (!radius_is_zero && radial_segments >= 3),
{
    if radius_is_zero || radial_segments == 0 {
        CurveKind::Line
    } else if radial_segments < 3 {
        CurveKind::Ribbon
    } else {
        CurveKind::Tube
    }
}

/// Parameter check for the curve generator: at least one length segment
/// always; for anything but a polyline, the radial offset must lie in
/// [0, 2*pi] and the radial circumference in (0, 2*pi] (the caller, which
/// owns the floating-point values, reports both range checks).
pub fn curve_params_valid(
    length_segments: u32,
    is_line: bool,
    radial_offset_ok: bool,
    radial_circumference_ok: bool,
) -> (ok: bool)
    ensures
        ok <==> (length_segments >= 1 && (is_line || (radial_offset_ok
            && radial_circumference_ok))),
{
    length_segments >= 1 && (is_line || (radial_offset_ok && radial_circumference_ok))
}

/// Number of samples a polyline mesh holds: one position per sample point,
/// no triangles.
pub open spec fn line_vertex_count(length_segments: nat) -> nat {
    length_segments + 1
}

/// Number of vertices a polyline mesh holds.
pub fn line_vertices(length_segments: u32) -> (n: u32)
    requires
        length_segments < u32::MAX,
    ensures
        n == line_vertex_count(length_segments as nat),
{
    length_segments + 1
}

/// Number of vertices a tube mesh holds: a ring of `radial_segments + 1`
/// vertices for each of the `length_segments + 1` sample frames.
pub open spec fn tube_vertex_count(length_segments: nat, radial_segments: nat) -> nat {
    (length_segments + 1) * (radial_segments + 1)
}

/// The quad face between sample frames `j` and `j + 1`, at ring position
/// `i`. Frame `j`'s ring starts at vertex `j * (radial_segments + 1)`.
pub open spec fn tube_face(radial_segments: int, j: int, i: int) -> FlatTrapezeIndices {
    FlatTrapezeIndices {
        upper_left: ((radial_segments + 1) * j + i) as u32,
        upper_right: ((radial_segments + 1) * (j + 1) + i) as u32,
        lower_left: ((radial_segments + 1) * j + i + 1) as u32,
        lower_right: ((radial_segments + 1) * (j + 1) + i + 1) as u32,
    }
}

/// Index buffer of the first `n` faces of the band between frames `j` and
/// `j + 1`.
pub open spec fn tube_band_seq(radial_segments: int, j: int, n: int) -> Seq<u32>
    decreases n,
{
    if n <= 0 {
        Seq::empty()
    } else {
        tube_band_seq(radial_segments, j, n - 1)
            + trapeze_triangles(tube_face(radial_segments, j, n - 1))
    }
}

/// Index buffer of the first `n` full bands.
pub open spec fn tube_bands_seq(radial_segments: int, n: int) -> Seq<u32>
    decreases n,
{
    if n <= 0 {
        Seq::empty()
    } else {
        tube_bands_seq(radial_segments, n - 1)
            + tube_band_seq(radial_segments, n - 1, radial_segments)
    }
}

/// The complete index buffer of a tube.
pub open spec fn tube_index_seq(length_segments: int, radial_segments: int) -> Seq<u32> {
    tube_bands_seq(radial_segments, length_segments)
}

/// Every corner index of one tube face lies below the vertex count.
proof fn lemma_tube_face_in_range(ls: int, rs: int, j: int, i: int)
    requires
        1 <= ls,
        1 <= rs,
        0 <= j < ls,
        0 <= i < rs,
    ensures
        0 <= (rs + 1) * j,
        (rs + 1) * j + (rs + 1) == (rs + 1) * (j + 1),
        (rs + 1) * (j + 1) + i + 1 <= (ls + 1) * (rs + 1) - 1,
        rs + 1 <= (ls + 1) * (rs + 1),
{
    assert(0 <= (rs + 1) * j && (rs + 1) * j + (rs + 1) == (rs + 1) * (j + 1) && (rs + 1) * (j + 1)
        + i + 1 <= (ls + 1) * (rs + 1) - 1 && rs + 1 <= (ls + 1) * (rs + 1)) by (nonlinear_arith)
        requires
            1 <= ls,
            1 <= rs,
            0 <= j < ls,
            0 <= i < rs,
    ;
}

/// Length of a band prefix of a tube's index buffer.
proof fn lemma_tube_band_seq_len(rs: int, j: int, n: int)
    requires
        0 <= n,
    ensures
        tube_band_seq(rs, j, n).len() == 6 * n,
    decreases n,
{
    if n > 0 {
        lemma_tube_band_seq_len(rs, j, n - 1);
    }
}

/// Length of a prefix of full bands of a tube's index buffer.
proof fn lemma_tube_bands_seq_len(rs: int, n: int)
    requires
        0 <= rs,
        0 <= n,
    ensures
        tube_bands_seq(rs, n).len() == 6 * rs * n,
    decreases n,
{
    if n > 0 {
        lemma_tube_bands_seq_len(rs, n - 1);
        lemma_tube_band_seq_len(rs, n - 1, rs);
        assert(6 * rs * (n - 1) + 6 * rs == 6 * rs * n) by (nonlinear_arith);
    } else {
        assert(6 * rs * 0 == 0) by (nonlinear_arith);
    }
}

/// Every index of a band prefix names an existing tube vertex.
proof fn lemma_tube_band_seq_in_range(ls: int, rs: int, j: int, n: int)
    requires
        1 <= ls,
        1 <= rs,
        0 <= j < ls,
        0 <= n <= rs,
        (ls + 1) * (rs + 1) <= u32::MAX,
    ensures
        forall|k: int|
            0 <= k < tube_band_seq(rs, j, n).len()
                ==> (#[trigger] tube_band_seq(rs, j, n)[k] as nat)
                    < tube_vertex_count(ls as nat, rs as nat),
    decreases n,
{
    if n > 0 {
        lemma_tube_band_seq_in_range(ls, rs, j, n - 1);
        lemma_tube_face_in_range(ls, rs, j, n - 1);
        let prev = tube_band_seq(rs, j, n - 1);
        let t = trapeze_triangles(tube_face(rs, j, n - 1));
        assert forall|k: int| 0 <= k < tube_band_seq(rs, j, n).len() implies (
        #[trigger] tube_band_seq(rs, j, n)[k] as nat) < tube_vertex_count(
            ls as nat,
            rs as nat,
        ) by {
            if k < prev.len() {
                assert(tube_band_seq(rs, j, n)[k] == prev[k]);
            } else {
                assert(tube_band_seq(rs, j, n)[k] == t[k - prev.len()]);
            }
        }
    }
}

/// Every index of a prefix of full bands names an existing tube vertex.
proof fn lemma_tube_bands_valid_upto(ls: int, rs: int, n: int)
    requires
        1 <= ls,
        1 <= rs,
        0 <= n <= ls,
        (ls + 1) * (rs + 1) <= u32::MAX,
    ensures
        forall|k: int|
            0 <= k < tube_bands_seq(rs, n).len()
                ==> (#[trigger] tube_bands_seq(rs, n)[k] as nat)
                    < tube_vertex_count(ls as nat, rs as nat),
    decreases n,
{
    if n > 0 {
        lemma_tube_bands_valid_upto(ls, rs, n - 1);
        lemma_tube_band_seq_in_range(ls, rs, n - 1, rs);
        let prev = tube_bands_seq(rs, n - 1);
        let band = tube_band_seq(rs, n - 1, rs);
        assert forall|k: int| 0 <= k < tube_bands_seq(rs, n).len() implies (
        #[trigger] tube_bands_seq(rs, n)[k] as nat) < tube_vertex_count(
            ls as nat,
            rs as nat,
        ) by {
            if k < prev.len() {
                assert(tube_bands_seq(rs, n)[k] == prev[k]);
            } else {
                assert(tube_bands_seq(rs, n)[k] == band[k - prev.len()]);
            }
        }
    }
}

/// A tube's index buffer is well formed: its length is a multiple of three
/// and every entry names one of the tube's vertices.
pub proof fn lemma_tube_index_seq_valid(ls: int, rs: int)
    requires
        1 <= ls,
        1 <= rs,
        (ls + 1) * (rs + 1) <= u32::MAX,
    ensures
        indices_valid(tube_index_seq(ls, rs), tube_vertex_count(ls as nat, rs as nat)),
{
    lemma_tube_bands_seq_len(rs, ls);
    lemma_tube_bands_valid_upto(ls, rs, ls);
    assert(6 * rs * ls == 3 * (2 * rs * ls) && (3 * (2 * rs * ls)) % 3 == 0) by (nonlinear_arith);
}

/// Number of vertices a tube mesh holds.
pub fn tube_vertices(length_segments: u32, radial_segments: u32) -> (n: u32)
    requires
        tube_vertex_count(length_segments as nat, radial_segments as nat) <= u32::MAX,
    ensures
        n == tube_vertex_count(length_segments as nat, radial_segments as nat),
{
    proof {
        assert((length_segments + 1) * (radial_segments + 1) >= length_segments + 1
            && (length_segments + 1) * (radial_segments + 1) >= radial_segments + 1)
            by (nonlinear_arith);
    }
    (length_segments + 1) * (radial_segments + 1)
}

/// Append the tube's triangle index buffer: one band of `radial_segments`
/// quad faces between each pair of neighbouring sample frames.
#[verifier::loop_isolation(false)]
pub fn index_tube(indices: &mut Vec<u32>, length_segments: u32, radial_segments: u32)
    requires
        1 <= length_segments,
        1 <= radial_segments,
        tube_vertex_count(length_segments as nat, radial_segments as nat) <= u32::MAX,
    ensures
        final(indices)@ == old(indices)@ + tube_index_seq(
            length_segments as int,
            radial_segments as int,
        ),
{
    let ghost ls = length_segments as int;
    let ghost rs = radial_segments as int;
    for j in 0..length_segments
        invariant
            indices@ == old(indices)@ + tube_bands_seq(rs, j as int),
    {
        proof {
            lemma_tube_face_in_range(ls, rs, j as int, 0);
        }
        let ring0_base = (radial_segments + 1) * j;
        let ring1_base = (radial_segments + 1) * (j + 1);
        for i in 0..radial_segments
            invariant
                indices@ == old(indices)@ + tube_bands_seq(rs, j as int)
                    + tube_band_seq(rs, j as int, i as int),
        {
            proof {
                lemma_tube_face_in_range(ls, rs, j as int, i as int);
            }
            let face = FlatTrapezeIndices {
                upper_left: ring0_base + i,
                upper_right: ring1_base + i,
                lower_left: ring0_base + i + 1,
                lower_right: ring1_base + i + 1,
            };
            face.generate_triangles(indices);
            proof {
                assert(face == tube_face(rs, j as int, i as int));
                assert(indices@ =~= old(indices)@ + tube_bands_seq(rs, j as int)
                    + tube_band_seq(rs, j as int, i as int + 1));
            }
        }
        proof {
            assert(indices@ =~= old(indices)@ + tube_bands_seq(rs, j as int + 1));
        }
    }
}

/// Build a tube's complete index buffer.
pub fn tube_indices(length_segments: u32, radial_segments: u32) -> (r: Vec<u32>)
    requires
        1 <= length_segments,
        1 <= radial_segments,
        tube_vertex_count(length_segments as nat, radial_segments as nat) <= u32::MAX,
    ensures
        r@ == tube_index_seq(length_segments as int, radial_segments as int),
        r@.len() == 6 * radial_segments * length_segments,
        indices_valid(
            r@,
            tube_vertex_count(length_segments as nat, radial_segments as nat),
        ),
{
    let mut indices: Vec<u32> = Vec::new();
    index_tube(&mut indices, length_segments, radial_segments);
    proof {
        lemma_tube_bands_seq_len(radial_segments as int, length_segments as int);
        lemma_tube_index_seq_valid(length_segments as int, radial_segments as int);
    }
    indices
}

/// Number of vertices a ribbon mesh holds: each of the `length_segments +
/// 1` sample frames emits one vertex pair per strip side, and a
/// double-sided ribbon (`radial_segments == 2`) has two sides.
pub open spec fn ribbon_vertex_count(length_segments: nat, radial_segments: nat) -> nat {
    2 * radial_segments * (length_segments + 1)
}

/// The quad face of strip side `r`, between sample frames `l` and `l + 1`.
/// Frame `l`'s vertices start at `2 * radial_segments * l`, one pair per
/// side.
pub open spec fn ribbon_face(radial_segments: int, l: int, r: int) -> FlatTrapezeIndices {
    FlatTrapezeIndices {
        lower_left: (2 * radial_segments * l + 2 * r) as u32,
        upper_left: (2 * radial_segments * (l + 1) + 2 * r) as u32,
        lower_right: (2 * radial_segments * l + 2 * r + 1) as u32,
        upper_right: (2 * radial_segments * (l + 1) + 2 * r + 1) as u32,
    }
}

/// Index buffer of the first `n` strip-side faces between frames `l` and
/// `l + 1`.
pub open spec fn ribbon_band_seq(radial_segments: int, l: int, n: int) -> Seq<u32>
    decreases n,
{
    if n <= 0 {
        Seq::empty()
    } else {
        ribbon_band_seq(radial_segments, l, n - 1)
            + trapeze_triangles(ribbon_face(radial_segments, l, n - 1))
    }
}

/// Index buffer of the first `n` full bands of a ribbon.
pub open spec fn ribbon_bands_seq(radial_segments: int, n: int) -> Seq<u32>
    decreases n,
{
    if n <= 0 {
        Seq::empty()
    } else {
        ribbon_bands_seq(radial_segments, n - 1)
            + ribbon_band_seq(radial_segments, n - 1, radial_segments)
    }
}

/// The complete index buffer of a ribbon.
pub open spec fn ribbon_index_seq(length_segments: int, radial_segments: int) -> Seq<u32> {
    ribbon_bands_seq(radial_segments, length_segments)
}

/// Every corner index of one ribbon face lies below the vertex count.
proof fn lemma_ribbon_face_in_range(ls: int, rs: int, l: int, r: int)
    requires
        1 <= ls,
        1 <= rs,
        0 <= l < ls,
        0 <= r < rs,
    ensures
        0 <= 2 * rs * l,
        2 * rs * l + 2 * rs == 2 * rs * (l + 1),
        2 * rs * (l + 1) + 2 * r + 1 <= 2 * rs * (ls + 1) - 1,
        2 * rs <= 2 * rs * (ls + 1),
{
    assert(0 <= 2 * rs * l && 2 * rs * l + 2 * rs == 2 * rs * (l + 1) && 2 * rs * (l + 1) + 2 * r
        + 1 <= 2 * rs * (ls + 1) - 1 && 2 * rs <= 2 * rs * (ls + 1)) by (nonlinear_arith)
        requires
            1 <= ls,
            1 <= rs,
            0 <= l < ls,
            0 <= r < rs,
    ;
}

/// Length of a band prefix of a ribbon's index buffer.
proof fn lemma_ribbon_band_seq_len(rs: int, l: int, n: int)
    requires
        0 <= n,
    ensures
        ribbon_band_seq(rs, l, n).len() == 6 * n,
    decreases n,
{
    if n > 0 {
        lemma_ribbon_band_seq_len(rs, l, n - 1);
    }
}

/// Length of a prefix of full bands of a ribbon's index buffer.
proof fn lemma_ribbon_bands_seq_len(rs: int, n: int)
    requires
        0 <= rs,
        0 <= n,
    ensures
        ribbon_bands_seq(rs, n).len() == 6 * rs * n,
    decreases n,
{
    if n > 0 {
        lemma_ribbon_bands_seq_len(rs, n - 1);
        lemma_ribbon_band_seq_len(rs, n - 1, rs);
        assert(6 * rs * (n - 1) + 6 * rs == 6 * rs * n) by (nonlinear_arith);
    } else {
        assert(6 * rs * 0 == 0) by (nonlinear_arith);
    }
}

/// Every index of a band prefix names an existing ribbon vertex.
proof fn lemma_ribbon_band_seq_in_range(ls: int, rs: int, l: int, n: int)
    requires
        1 <= ls,
        1 <= rs,
        0 <= l < ls,
        0 <= n <= rs,
        2 * rs * (ls + 1) <= u32::MAX,
    ensures
        forall|k: int|
            0 <= k < ribbon_band_seq(rs, l, n).len()
                ==> (#[trigger] ribbon_band_seq(rs, l, n)[k] as nat)
                    < ribbon_vertex_count(ls as nat, rs as nat),
    decreases n,
{
    if n > 0 {
        lemma_ribbon_band_seq_in_range(ls, rs, l, n - 1);
        lemma_ribbon_face_in_range(ls, rs, l, n - 1);
        let prev = ribbon_band_seq(rs, l, n - 1);
        let t = trapeze_triangles(ribbon_face(rs, l, n - 1));
        assert forall|k: int| 0 <= k < ribbon_band_seq(rs, l, n).len() implies (
        #[trigger] ribbon_band_seq(rs, l, n)[k] as nat) < ribbon_vertex_count(
            ls as nat,
            rs as nat,
        ) by {
            if k < prev.len() {
                assert(ribbon_band_seq(rs, l, n)[k] == prev[k]);
            } else {
                assert(ribbon_band_seq(rs, l, n)[k] == t[k - prev.len()]);
            }
        }
    }
}

/// Every index of a prefix of full bands names an existing ribbon vertex.
proof fn lemma_ribbon_bands_valid_upto(ls: int, rs: int, n: int)
    requires
        1 <= ls,
        1 <= rs,
        0 <= n <= ls,
        2 * rs * (ls + 1) <= u32::MAX,
    ensures
        forall|k: int|
            0 <= k < ribbon_bands_seq(rs, n).len()
                ==> (#[trigger] ribbon_bands_seq(rs, n)[k] as nat)
                    < ribbon_vertex_count(ls as nat, rs as nat),
    decreases n,
{
    if n > 0 {
        lemma_ribbon_bands_valid_upto(ls, rs, n - 1);
        lemma_ribbon_band_seq_in_range(ls, rs, n - 1, rs);
        let prev = ribbon_bands_seq(rs, n - 1);
        let band = ribbon_band_seq(rs, n - 1, rs);
        assert forall|k: int| 0 <= k < ribbon_bands_seq(rs, n).len() implies (
        #[trigger] ribbon_bands_seq(rs, n)[k] as nat) < ribbon_vertex_count(
            ls as nat,
            rs as nat,
        ) by {
            if k < prev.len() {
                assert(ribbon_bands_seq(rs, n)[k] == prev[k]);
            } else {
                assert(ribbon_bands_seq(rs, n)[k] == band[k - prev.len()]);
            }
        }
    }
}

/// A ribbon's index buffer is well formed: its length is a multiple of
/// three and every entry names one of the ribbon's vertices.
pub proof fn lemma_ribbon_index_seq_valid(ls: int, rs: int)
    requires
        1 <= ls,
        1 <= rs,
        2 * rs * (ls + 1) <= u32::MAX,
    ensures
        indices_valid(ribbon_index_seq(ls, rs), ribbon_vertex_count(ls as nat, rs as nat)),
{
    lemma_ribbon_bands_seq_len(rs, ls);
    lemma_ribbon_bands_valid_upto(ls, rs, ls);
    assert(6 * rs * ls == 3 * (2 * rs * ls) && (3 * (2 * rs * ls)) % 3 == 0) by (nonlinear_arith);
}

/// Number of vertices a ribbon mesh holds.
pub fn ribbon_vertices(length_segments: u32, radial_segments: u32) -> (n: u32)
    requires
        1 <= radial_segments,
        ribbon_vertex_count(length_segments as nat, radial_segments as nat) <= u32::MAX,
    ensures
        n == ribbon_vertex_count(length_segments as nat, radial_segments as nat),
{
    proof {
        assert(2 * radial_segments * (length_segments + 1) >= 2 * radial_segments && 2
            * radial_segments * (length_segments + 1) >= length_segments + 1)
            by (nonlinear_arith)
            requires
                1 <= radial_segments,
                0 <= length_segments,
        ;
    }
    2 * radial_segments * (length_segments + 1)
}

/// Append the ribbon's triangle index buffer: one quad face per strip side
/// between each pair of neighbouring sample frames.
#[verifier::loop_isolation(false)]
pub fn index_ribbon(indices: &mut Vec<u32>, length_segments: u32, radial_segments: u32)
    requires
        1 <= length_segments,
        1 <= radial_segments,
        ribbon_vertex_count(length_segments as nat, radial_segments as nat) <= u32::MAX,
    ensures
        final(indices)@ == old(indices)@ + ribbon_index_seq(
            length_segments as int,
            radial_segments as int,
        ),
{
    let ghost ls = length_segments as int;
    let ghost rs = radial_segments as int;
    for l in 0..length_segments
        invariant
            indices@ == old(indices)@ + ribbon_bands_seq(rs, l as int),
    {
        for r in 0..radial_segments
            invariant
                indices@ == old(indices)@ + ribbon_bands_seq(rs, l as int)
                    + ribbon_band_seq(rs, l as int, r as int),
        {
            proof {
                lemma_ribbon_face_in_range(ls, rs, l as int, r as int);
            }
            let face = FlatTrapezeIndices {
                lower_left: 2 * radial_segments * l + 2 * r,
                upper_left: 2 * radial_segments * (l + 1) + 2 * r,
                lower_right: 2 * radial_segments * l + 2 * r + 1,
                upper_right: 2 * radial_segments * (l + 1) + 2 * r + 1,
            };
            face.generate_triangles(indices);
            proof {
                assert(face == ribbon_face(rs, l as int, r as int));
                assert(indices@ =~= old(indices)@ + ribbon_bands_seq(rs, l as int)
                    + ribbon_band_seq(rs, l as int, r as int + 1));
            }
        }
        proof {
            assert(indices@ =~= old(indices)@ + ribbon_bands_seq(rs, l as int + 1));
        }
    }
}

/// Build a ribbon's complete index buffer.
pub fn ribbon_indices(length_segments: u32, radial_segments: u32) -> (r: Vec<u32>)
    requires
        1 <= length_segments,
        1 <= radial_segments,
        ribbon_vertex_count(length_segments as nat, radial_segments as nat) <= u32::MAX,
    ensures
        r@ == ribbon_index_seq(length_segments as int, radial_segments as int),
        r@.len() == 6 * radial_segments * length_segments,
        indices_valid(
            r@,
            ribbon_vertex_count(length_segments as nat, radial_segments as nat),
        ),
{
    let mut indices: Vec<u32> = Vec::new();
    index_ribbon(&mut indices, length_segments, radial_segments);
    proof {
        lemma_ribbon_bands_seq_len(radial_segments as int, length_segments as int);
        lemma_ribbon_index_seq_valid(length_segments as int, radial_segments as int);
    }
    indices
}

} // verus!
