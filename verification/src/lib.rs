//! Topology core of a parametric surface-mesh generator.
//!
//! Each shape module derives the combinatorial part of its mesh from the
//! shape's segment counts: how many vertices the generator emits, which
//! parameters are acceptable, and the full triangle index buffer with its
//! fixed winding order. The floating-point evaluation of positions, normals
//! and texture coordinates consumes these buffers one vertex slot at a time
//! and is kept outside the verified core.

use vstd::prelude::*;

pub mod cone;
pub mod curve;
pub mod cylinder;
pub mod grid;
pub mod polygon;
pub mod torus;
pub mod util;

verus! {

/// A triangle index buffer is well formed for a mesh of `vertex_count`
/// vertices when its length is a multiple of three and every entry names an
/// existing vertex.
pub open spec fn indices_valid(s: Seq<u32>, vertex_count: nat) -> bool {
    &&& s.len() % 3 == 0
    &&& forall|k: int| 0 <= k < s.len() ==> (#[trigger] s[k] as nat) < vertex_count
}

} // verus!
