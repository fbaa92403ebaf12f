//! Topology of the torus generator: vertices are laid out ring by ring —
//! for each of `radial_segments + 1` angular steps around the main axis,
//! `tube_segments + 1` vertices around the tube cross-section — and the body
//! is tiled into quad faces across that lattice.

use vstd::prelude::*;

use crate::indices_valid;
use crate::util::{trapeze_triangles, FlatTrapezeIndices};

verus! {

/// Number of vertices the torus generator emits.
pub open spec fn torus_vertex_count(radial_segments: nat, tube_segments: nat) -> nat {
    (radial_segments + 1) * (tube_segments + 1)
}

/// The quad face between rings `h` and `h + 1`, at tube position `v`.
/// Ring `h` starts at vertex `h * (tube_segments + 1)`.
pub open spec fn torus_face(tube_segments: int, h: int, v: int) -> FlatTrapezeIndices {
    let ring0_base = h * (tube_segments + 1);
    let ring1_base = (h + 1) * (tube_segments + 1);
    FlatTrapezeIndices {
        lower_left: (ring0_base + v) as u32,
        upper_left: (ring0_base + v + 1) as u32,
        lower_right: (ring1_base + v) as u32,
        upper_right: (ring1_base + v + 1) as u32,
    }
}

/// Index buffer of the first `n` faces of the band that follows ring `h`.
pub open spec fn torus_band_seq(tube_segments: int, h: int, n: int) -> Seq<u32>
    decreases n,
{
    if n <= 0 {
        Seq::empty()
    } else {
        torus_band_seq(tube_segments, h, n - 1)
            + trapeze_triangles(torus_face(tube_segments, h, n - 1))
    }
}

/// Index buffer of the first `n` full bands.
pub open spec fn torus_bands_seq(tube_segments: int, n: int) -> Seq<u32>
    decreases n,
{
    if n <= 0 {
        Seq::empty()
    } else {
        torus_bands_seq(tube_segments, n - 1)
            + torus_band_seq(tube_segments, n - 1, tube_segments)
    }
}

/// The complete index buffer of the torus body.
pub open spec fn torus_index_seq(radial_segments: int, tube_segments: int) -> Seq<u32> {
    torus_bands_seq(tube_segments, radial_segments)
}

/// Every corner index of one face lies below the vertex count.
proof fn lemma_torus_face_in_range(rs: int, ts: int, h: int, v: int)
    requires
        1 <= rs,
        1 <= ts,
        0 <= h < rs,
        0 <= v < ts,
    ensures
        0 <= h * (ts + 1),
        h * (ts + 1) + (ts + 1) == (h + 1) * (ts + 1),
        (h + 1) * (ts + 1) + v + 1 <= (rs + 1) * (ts + 1) - 1,
        ts + 1 <= (rs + 1) * (ts + 1),
{
    assert(0 <= h * (ts + 1) && h * (ts + 1) + (ts + 1) == (h + 1) * (ts + 1) && (h + 1) * (ts + 1)
        + v + 1 <= (rs + 1) * (ts + 1) - 1 && ts + 1 <= (rs + 1) * (ts + 1)) by (nonlinear_arith)
        requires
            1 <= rs,
            1 <= ts,
            0 <= h < rs,
            0 <= v < ts,
    ;
}

/// Length of a band prefix of the index buffer.
proof fn lemma_torus_band_seq_len(ts: int, h: int, n: int)
    requires
        0 <= n,
    ensures
        torus_band_seq(ts, h, n).len() == 6 * n,
    decreases n,
{
    if n > 0 {
        lemma_torus_band_seq_len(ts, h, n - 1);
    }
}

/// Length of a prefix of full bands of the index buffer.
proof fn lemma_torus_bands_seq_len(ts: int, n: int)
    requires
        0 <= ts,
        0 <= n,
    ensures
        torus_bands_seq(ts, n).len() == 6 * ts * n,
    decreases n,
{
    if n > 0 {
        lemma_torus_bands_seq_len(ts, n - 1);
        lemma_torus_band_seq_len(ts, n - 1, ts);
        assert(6 * ts * (n - 1) + 6 * ts == 6 * ts * n) by (nonlinear_arith);
    } else {
        assert(6 * ts * 0 == 0) by (nonlinear_arith);
    }
}

/// Every index of a band prefix names an existing vertex.
proof fn lemma_torus_band_seq_in_range(rs: int, ts: int, h: int, n: int)
    requires
        1 <= rs,
        1 <= ts,
        0 <= h < rs,
        0 <= n <= ts,
        (rs + 1) * (ts + 1) <= u32::MAX,
    ensures
        forall|k: int|
            0 <= k < torus_band_seq(ts, h, n).len()
                ==> (#[trigger] torus_band_seq(ts, h, n)[k] as nat)
                    < torus_vertex_count(rs as nat, ts as nat),
    decreases n,
{
    if n > 0 {
        lemma_torus_band_seq_in_range(rs, ts, h, n - 1);
        lemma_torus_face_in_range(rs, ts, h, n - 1);
        let prev = torus_band_seq(ts, h, n - 1);
        let t = trapeze_triangles(torus_face(ts, h, n - 1));
        assert forall|k: int| 0 <= k < torus_band_seq(ts, h, n).len() implies (
        #[trigger] torus_band_seq(ts, h, n)[k] as nat) < torus_vertex_count(
            rs as nat,
            ts as nat,
        ) by {
            if k < prev.len() {
                assert(torus_band_seq(ts, h, n)[k] == prev[k]);
            } else {
                assert(torus_band_seq(ts, h, n)[k] == t[k - prev.len()]);
            }
        }
    }
}

/// Every index of a prefix of full bands names an existing vertex.
proof fn lemma_torus_bands_valid_upto(rs: int, ts: int, n: int)
    requires
        1 <= rs,
        1 <= ts,
        0 <= n <= rs,
        (rs + 1) * (ts + 1) <= u32::MAX,
    ensures
        forall|k: int|
            0 <= k < torus_bands_seq(ts, n).len()
                ==> (#[trigger] torus_bands_seq(ts, n)[k] as nat)
                    < torus_vertex_count(rs as nat, ts as nat),
    decreases n,
{
    if n > 0 {
        lemma_torus_bands_valid_upto(rs, ts, n - 1);
        lemma_torus_band_seq_in_range(rs, ts, n - 1, ts);
        let prev = torus_bands_seq(ts, n - 1);
        let band = torus_band_seq(ts, n - 1, ts);
        assert forall|k: int| 0 <= k < torus_bands_seq(ts, n).len() implies (
        #[trigger] torus_bands_seq(ts, n)[k] as nat) < torus_vertex_count(
            rs as nat,
            ts as nat,
        ) by {
            if k < prev.len() {
                assert(torus_bands_seq(ts, n)[k] == prev[k]);
            } else {
                assert(torus_bands_seq(ts, n)[k] == band[k - prev.len()]);
            }
        }
    }
}

/// The torus body's index buffer is well formed: its length is a multiple
/// of three and every entry names one of the torus's vertices.
pub proof fn lemma_torus_index_seq_valid(rs: int, ts: int)
    requires
        1 <= rs,
        1 <= ts,
        (rs + 1) * (ts + 1) <= u32::MAX,
    ensures
        indices_valid(torus_index_seq(rs, ts), torus_vertex_count(rs as nat, ts as nat)),
{
    lemma_torus_bands_seq_len(ts, rs);
    lemma_torus_bands_valid_upto(rs, ts, rs);
    assert(6 * ts * rs == 3 * (2 * ts * rs) && (3 * (2 * ts * rs)) % 3 == 0) by (nonlinear_arith);
}

/// Parameter check for the torus generator. The caller, which owns the
/// floating-point values, reports whether the radii are positive, whether
/// each circumference lies in (0, 2*pi], whether each circumference is a
/// full turn, and whether each offset lies in [0, 2*pi]; an offset matters
/// only for a partial turn.
pub fn torus_params_valid(
    radius_positive: bool,
    tube_radius_positive: bool,
    radial_segments: usize,
    tube_segments: usize,
    radial_circumference_ok: bool,
    tube_circumference_ok: bool,
    radial_full_turn: bool,
    radial_offset_ok: bool,
    tube_full_turn: bool,
    tube_offset_ok: bool,
) -> (ok: bool)
    ensures
        ok <==> (radius_positive && tube_radius_positive && radial_segments >= 3 && tube_segments
            >= 3 && radial_circumference_ok && tube_circumference_ok && (radial_full_turn
            || radial_offset_ok) && (tube_full_turn || tube_offset_ok)),
{
    radius_positive && tube_radius_positive && radial_segments >= 3 && tube_segments >= 3
        && radial_circumference_ok && tube_circumference_ok && (radial_full_turn
        || radial_offset_ok) && (tube_full_turn || tube_offset_ok)
}

/// Number of vertices the torus generator emits.
pub fn torus_vertices(radial_segments: usize, tube_segments: usize) -> (n: usize)
    requires
        torus_vertex_count(radial_segments as nat, tube_segments as nat) <= u32::MAX,
    ensures
        n == torus_vertex_count(radial_segments as nat, tube_segments as nat),
{
    proof {
        assert((radial_segments + 1) * (tube_segments + 1) >= radial_segments + 1
            && (radial_segments + 1) * (tube_segments + 1) >= tube_segments + 1)
            by (nonlinear_arith);
    }
    (radial_segments + 1) * (tube_segments + 1)
}

/// Build the triangle index buffer of the torus body, band by band.
#[verifier::loop_isolation(false)]
pub fn torus_indices(radial_segments: usize, tube_segments: usize) -> (r: Vec<u32>)
    requires
        1 <= radial_segments,
        1 <= tube_segments,
        torus_vertex_count(radial_segments as nat, tube_segments as nat) <= u32::MAX,
    ensures
        r@ == torus_index_seq(radial_segments as int, tube_segments as int),
        r@.len() == 6 * tube_segments * radial_segments,
        indices_valid(r@, torus_vertex_count(radial_segments as nat, tube_segments as nat)),
{
    let ghost rs = radial_segments as int;
    let ghost ts = tube_segments as int;
    let mut indices: Vec<u32> = Vec::new();
    for horizontal_idx in 0..radial_segments
        invariant
            indices@ == torus_bands_seq(ts, horizontal_idx as int),
    {
        proof {
            lemma_torus_face_in_range(rs, ts, horizontal_idx as int, 0);
        }
        let ring0_base_idx = horizontal_idx * (tube_segments + 1);
        let ring1_base_idx = (horizontal_idx + 1) * (tube_segments + 1);
        for vertical_idx in 0..tube_segments
            invariant
                indices@ == torus_bands_seq(ts, horizontal_idx as int)
                    + torus_band_seq(ts, horizontal_idx as int, vertical_idx as int),
        {
            proof {
                lemma_torus_face_in_range(rs, ts, horizontal_idx as int, vertical_idx as int);
            }
            let face = FlatTrapezeIndices {
                lower_left: (ring0_base_idx + vertical_idx) as u32,
                upper_left: (ring0_base_idx + vertical_idx + 1) as u32,
                lower_right: (ring1_base_idx + vertical_idx) as u32,
                upper_right: (ring1_base_idx + vertical_idx + 1) as u32,
            };
            face.generate_triangles(&mut indices);
            proof {
                assert(face == torus_face(ts, horizontal_idx as int, vertical_idx as int));
                assert(indices@ =~= torus_bands_seq(ts, horizontal_idx as int)
                    + torus_band_seq(ts, horizontal_idx as int, vertical_idx as int + 1));
            }
        }
        proof {
            assert(indices@ =~= torus_bands_seq(ts, horizontal_idx as int + 1));
        }
    }
    proof {
        lemma_torus_bands_seq_len(ts, rs);
        lemma_torus_index_seq_valid(rs, ts);
    }
    indices
}

} // verus!
