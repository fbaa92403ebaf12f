//! Index-level helper shared by every generator that tiles a surface into
//! quad faces.

use vstd::prelude::*;

verus! {

/// Four vertex indices naming the corners of one flat trapeze: a quad-shaped
/// cell of a tiled surface (a logical 2x2 grid cell, not necessarily planar).
#[derive(Copy, Clone)]
pub struct FlatTrapezeIndices {
    pub lower_left: u32,
    pub upper_left: u32,
    pub lower_right: u32,
    pub upper_right: u32,
}

/// The two triangles that split a trapeze, as a flat run of six indices.
/// This fixed order is the single source of truth for front-face winding
/// across every generator that tiles a surface into a quad grid.
pub open spec fn trapeze_triangles(t: FlatTrapezeIndices) -> Seq<u32> {
    seq![
        t.upper_left,
        t.upper_right,
        t.lower_left,
        t.upper_right,
        t.lower_right,
        t.lower_left,
    ]
}

impl FlatTrapezeIndices {
    /// Triangulate the trapeze: append exactly the two triangles of
    /// `trapeze_triangles` to `indices`.
    pub fn generate_triangles(&self, indices: &mut Vec<u32>)
        ensures
            final(indices)@ == old(indices)@ + trapeze_triangles(*self),
    {
        indices.push(self.upper_left);
        indices.push(self.upper_right);
        indices.push(self.lower_left);
        indices.push(self.upper_right);
        indices.push(self.lower_right);
        indices.push(self.lower_left);
        proof {
            assert(indices@ =~= old(indices)@ + trapeze_triangles(*self));
        }
    }
}

/// Index buffer of the first `n` triangles of a disk fan whose center vertex
/// sits at `base` and whose ring starts at `base + 1`, with the center named
/// first in each triangle.
pub open spec fn fan_center_first_seq(base: int, n: int) -> Seq<u32>
    decreases n,
{
    if n <= 0 {
        Seq::empty()
    } else {
        fan_center_first_seq(base, n - 1)
            + seq![base as u32, (base + n + 1) as u32, (base + n) as u32]
    }
}

/// The same fan with each triangle's winding reversed: the center is named
/// last, so the front face looks the other way.
pub open spec fn fan_center_last_seq(base: int, n: int) -> Seq<u32>
    decreases n,
{
    if n <= 0 {
        Seq::empty()
    } else {
        fan_center_last_seq(base, n - 1)
            + seq![(base + n) as u32, (base + n + 1) as u32, base as u32]
    }
}

/// Length of a fan prefix.
pub proof fn lemma_fan_center_first_len(base: int, n: int)
    requires
        0 <= n,
    ensures
        fan_center_first_seq(base, n).len() == 3 * n,
    decreases n,
{
    if n > 0 {
        lemma_fan_center_first_len(base, n - 1);
    }
}

/// Length of a reversed fan prefix.
pub proof fn lemma_fan_center_last_len(base: int, n: int)
    requires
        0 <= n,
    ensures
        fan_center_last_seq(base, n).len() == 3 * n,
    decreases n,
{
    if n > 0 {
        lemma_fan_center_last_len(base, n - 1);
    }
}

/// A fan only names the disk's own vertices: the center at `base` and the
/// first `n + 1` ring vertices.
pub proof fn lemma_fan_center_first_in_range(base: int, n: int)
    requires
        0 <= base,
        0 <= n,
        base + n + 1 <= u32::MAX,
    ensures
        forall|k: int|
            0 <= k < fan_center_first_seq(base, n).len() ==> base <= (
            #[trigger] fan_center_first_seq(base, n)[k]) && (fan_center_first_seq(base, n)[k]
                as int) <= base + n + 1,
    decreases n,
{
    if n > 0 {
        lemma_fan_center_first_in_range(base, n - 1);
        let prev = fan_center_first_seq(base, n - 1);
        let t = seq![base as u32, (base + n + 1) as u32, (base + n) as u32];
        assert forall|k: int| 0 <= k < fan_center_first_seq(base, n).len() implies base <= (
        #[trigger] fan_center_first_seq(base, n)[k]) && (fan_center_first_seq(base, n)[k] as int)
            <= base + n + 1 by {
            if k < prev.len() {
                assert(fan_center_first_seq(base, n)[k] == prev[k]);
            } else {
                assert(fan_center_first_seq(base, n)[k] == t[k - prev.len()]);
            }
        }
    }
}

/// A reversed fan only names the disk's own vertices.
pub proof fn lemma_fan_center_last_in_range(base: int, n: int)
    requires
        0 <= base,
        0 <= n,
        base + n + 1 <= u32::MAX,
    ensures
        forall|k: int|
            0 <= k < fan_center_last_seq(base, n).len() ==> base <= (
            #[trigger] fan_center_last_seq(base, n)[k]) && (fan_center_last_seq(base, n)[k]
                as int) <= base + n + 1,
    decreases n,
{
    if n > 0 {
        lemma_fan_center_last_in_range(base, n - 1);
        let prev = fan_center_last_seq(base, n - 1);
        let t = seq![(base + n) as u32, (base + n + 1) as u32, base as u32];
        assert forall|k: int| 0 <= k < fan_center_last_seq(base, n).len() implies base <= (
        #[trigger] fan_center_last_seq(base, n)[k]) && (fan_center_last_seq(base, n)[k] as int)
            <= base + n + 1 by {
            if k < prev.len() {
                assert(fan_center_last_seq(base, n)[k] == prev[k]);
            } else {
                assert(fan_center_last_seq(base, n)[k] == t[k - prev.len()]);
            }
        }
    }
}

/// Append a disk fan of `count` triangles with the center named first.
#[verifier::loop_isolation(false)]
pub fn fan_center_first_indices(indices: &mut Vec<u32>, base_index: u32, count: u32)
    requires
        base_index + count + 1 <= u32::MAX,
    ensures
        final(indices)@ == old(indices)@ + fan_center_first_seq(base_index as int, count as int),
{
    for i in 0..count
        invariant
            indices@ == old(indices)@ + fan_center_first_seq(base_index as int, i as int),
    {
        indices.push(base_index);
        indices.push(base_index + i + 2);
        indices.push(base_index + i + 1);
        proof {
            assert(indices@ =~= old(indices)@ + fan_center_first_seq(
                base_index as int,
                i as int + 1,
            ));
        }
    }
}

/// Append a disk fan of `count` triangles with the center named last.
#[verifier::loop_isolation(false)]
pub fn fan_center_last_indices(indices: &mut Vec<u32>, base_index: u32, count: u32)
    requires
        base_index + count + 1 <= u32::MAX,
    ensures
        final(indices)@ == old(indices)@ + fan_center_last_seq(base_index as int, count as int),
{
    for i in 0..count
        invariant
            indices@ == old(indices)@ + fan_center_last_seq(base_index as int, i as int),
    {
        indices.push(base_index + i + 1);
        indices.push(base_index + i + 2);
        indices.push(base_index);
        proof {
            assert(indices@ =~= old(indices)@ + fan_center_last_seq(
                base_index as int,
                i as int + 1,
            ));
        }
    }
}

} // verus!
