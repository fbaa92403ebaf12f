//! Topology of the cone generator: a base disk (a fan around a center
//! vertex, facing down) and a lateral body whose apex is duplicated once per
//! segment, so each body triangle can carry its own apex normal.

use vstd::prelude::*;

use crate::indices_valid;
use crate::util::{
    fan_center_last_indices, fan_center_last_seq, lemma_fan_center_last_in_range,
    lemma_fan_center_last_len,
};

verus! {

/// Number of vertices the cone generator emits: the base disk's center and
/// ring (`segments + 2`), plus the body's `segments` apex copies and
/// `segments + 1` ring vertices.
pub open spec fn cone_vertex_count(segments: nat) -> nat {
    3 * segments + 3
}

/// Index buffer of the first `n` body triangles. The body's vertices start
/// at `base`: first the `segments` apex copies, then the bottom ring.
/// Triangle `i` joins ring vertices `i` and `i + 1` to apex copy `i`, named
/// in the order right ring vertex, left ring vertex, apex.
pub open spec fn cone_body_seq(base: int, segments: int, n: int) -> Seq<u32>
    decreases n,
{
    if n <= 0 {
        Seq::empty()
    } else {
        cone_body_seq(base, segments, n - 1)
            + seq![
            (base + segments + n) as u32,
            (base + segments + n - 1) as u32,
            (base + n - 1) as u32,
        ]
    }
}

/// The complete index buffer of the cone: base disk, then body.
pub open spec fn cone_index_seq(segments: int) -> Seq<u32> {
    fan_center_last_seq(0, segments) + cone_body_seq(segments + 2, segments, segments)
}

/// Length of a body prefix.
proof fn lemma_cone_body_seq_len(base: int, segments: int, n: int)
    requires
        0 <= n,
    ensures
        cone_body_seq(base, segments, n).len() == 3 * n,
    decreases n,
{
    if n > 0 {
        lemma_cone_body_seq_len(base, segments, n - 1);
    }
}

/// The body only names the body's own vertices.
proof fn lemma_cone_body_seq_in_range(base: int, segments: int, n: int)
    requires
        0 <= base,
        1 <= segments,
        0 <= n <= segments,
        base + 2 * segments <= u32::MAX,
    ensures
        forall|k: int|
            0 <= k < cone_body_seq(base, segments, n).len() ==> base <= (
            #[trigger] cone_body_seq(base, segments, n)[k]) && (cone_body_seq(base, segments, n)[k]
                as int) <= base + 2 * segments,
    decreases n,
{
    if n > 0 {
        lemma_cone_body_seq_in_range(base, segments, n - 1);
        let prev = cone_body_seq(base, segments, n - 1);
        let t = seq![
            (base + segments + n) as u32,
            (base + segments + n - 1) as u32,
            (base + n - 1) as u32,
        ];
        assert forall|k: int| 0 <= k < cone_body_seq(base, segments, n).len() implies base <= (
        #[trigger] cone_body_seq(base, segments, n)[k]) && (cone_body_seq(base, segments, n)[k]
            as int) <= base + 2 * segments by {
            if k < prev.len() {
                assert(cone_body_seq(base, segments, n)[k] == prev[k]);
            } else {
                assert(cone_body_seq(base, segments, n)[k] == t[k - prev.len()]);
            }
        }
    }
}

/// The cone's index buffer is well formed: its length is a multiple of
/// three and every entry names one of the cone's vertices.
pub proof fn lemma_cone_index_seq_valid(segments: int)
    requires
        1 <= segments,
        3 * segments + 3 <= u32::MAX,
    ensures
        indices_valid(cone_index_seq(segments), cone_vertex_count(segments as nat)),
        cone_index_seq(segments).len() == 6 * segments,
{
    lemma_fan_center_last_len(0, segments);
    lemma_cone_body_seq_len(segments + 2, segments, segments);
    lemma_fan_center_last_in_range(0, segments);
    lemma_cone_body_seq_in_range(segments + 2, segments, segments);
    let disk = fan_center_last_seq(0, segments);
    let body = cone_body_seq(segments + 2, segments, segments);
    let s = cone_index_seq(segments);
    let vc = cone_vertex_count(segments as nat);
    assert forall|k: int| 0 <= k < s.len() implies (#[trigger] s[k] as nat) < vc by {
        if k < disk.len() {
            assert(s[k] == disk[k]);
        } else {
            assert(s[k] == body[k - disk.len()]);
        }
    }
    assert(6 * segments == 3 * (2 * segments) && (3 * (2 * segments)) % 3 == 0)
        by (nonlinear_arith);
}

/// Parameter check for the cone generator: positive radius and height (the
/// caller, which owns the floating-point values, reports their signs) and
/// at least three segments to close the surface.
pub fn cone_params_valid(radius_positive: bool, height_positive: bool, segments: u32) -> (ok:
    bool)
    ensures
        ok <==> (radius_positive && height_positive && segments > 2),
{
    radius_positive && height_positive && segments > 2
}

/// Number of vertices the cone generator emits.
pub fn cone_vertices(segments: u32) -> (n: u32)
    requires
        cone_vertex_count(segments as nat) <= u32::MAX,
    ensures
        n == cone_vertex_count(segments as nat),
{
    3 * segments + 3
}

/// Build the cone's complete index buffer: the base disk's fan, then one
/// triangle per body segment.
#[verifier::loop_isolation(false)]
pub fn cone_indices(segments: u32) -> (r: Vec<u32>)
    requires
        1 <= segments,
        cone_vertex_count(segments as nat) <= u32::MAX,
    ensures
        r@ == cone_index_seq(segments as int),
        r@.len() == 6 * segments,
        indices_valid(r@, cone_vertex_count(segments as nat)),
{
    let ghost s = segments as int;
    let mut indices: Vec<u32> = Vec::new();
    fan_center_last_indices(&mut indices, 0, segments);
    let base_index: u32 = segments + 2;
    for i in 0..segments
        invariant
            indices@ == fan_center_last_seq(0, s) + cone_body_seq(base_index as int, s, i as int),
    {
        let top = base_index + i;
        let left = base_index + segments + i;
        let right = left + 1;
        indices.push(right);
        indices.push(left);
        indices.push(top);
        proof {
            assert(indices@ =~= fan_center_last_seq(0, s) + cone_body_seq(
                base_index as int,
                s,
                i as int + 1,
            ));
        }
    }
    proof {
        lemma_cone_index_seq_valid(s);
    }
    indices
}

} // verus!
