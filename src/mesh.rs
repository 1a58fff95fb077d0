//! Index tables of the pre-baked meshes, one per shape.
use vstd::prelude::*;
use crate::sprite::Shape2D;

verus! {

/// The number of triangles in the fan that approximates a circle.
pub const CIRCLE_SEGMENTS: usize = 32;

/// The number of vertices in a shape's mesh.
pub open spec fn vertex_count_of(shape: Shape2D) -> nat {
    match shape {
        Shape2D::Square => 4,
        Shape2D::Circle => CIRCLE_SEGMENTS as nat + 1,
    }
}

/// Entry `t` of the circle's triangle fan: triangle `k = t / 3` joins the center
/// (vertex 0) with rim vertices `k + 1` and the next one round the rim.
pub open spec fn fan_index(t: int) -> u16 {
    let k = t / 3;
    if t % 3 == 0 {
        0
    } else if t % 3 == 1 {
        (k + 1) as u16
    } else {
        ((k + 1) % (CIRCLE_SEGMENTS as int) + 1) as u16
    }
}

/// The index list of a shape's mesh, three entries per counter-clockwise triangle.
pub open spec fn mesh_indices(shape: Shape2D) -> Seq<u16> {
    match shape {
        Shape2D::Square => seq![0u16, 1, 2, 2, 3, 0],
        Shape2D::Circle => Seq::new(3 * CIRCLE_SEGMENTS as nat, |t: int| fan_index(t)),
    }
}

impl Shape2D {
    /// The number of vertices in this shape's mesh.
    pub fn vertex_count(&self) -> (r: usize)
        ensures
            r == vertex_count_of(*self),
    {
        match self {
            Shape2D::Square => 4,
            Shape2D::Circle => CIRCLE_SEGMENTS + 1,
        }
    }

    /// The index list of this shape's mesh; every index names one of its vertices.
    pub fn indices(&self) -> (r: Vec<u16>)
        ensures
            r@ == mesh_indices(*self),
            forall|t: int| 0 <= t < r@.len() ==> (#[trigger] r@[t] as nat) < vertex_count_of(*self),
    {
        match self {
            Shape2D::Square => {
                let r: Vec<u16> = vec![0, 1, 2, 2, 3, 0];
                assert(r@ =~= mesh_indices(*self));
                r
            },
            Shape2D::Circle => {
                let mut r: Vec<u16> = Vec::new();
                let mut k: usize = 0;
                while k < CIRCLE_SEGMENTS
                    invariant
                        k <= CIRCLE_SEGMENTS,
                        r@ =~= Seq::new(3 * k as nat, |t: int| fan_index(t)),
                    decreases CIRCLE_SEGMENTS - k,
                {
                    let next: usize = (k + 1) % CIRCLE_SEGMENTS + 1;
                    r.push(0);
                    r.push((k + 1) as u16);
                    r.push(next as u16);
                    proof {
                        assert forall|t: int| 3 * k <= t < 3 * k + 3 implies fan_index(t) == r@[t] by {
                            assert(t / 3 == k) by (nonlinear_arith)
                                requires 3 * k <= t < 3 * k + 3;
                            assert(t % 3 == t - 3 * k) by (nonlinear_arith)
                                requires 3 * k <= t < 3 * k + 3;
                        }
                    }
                    k += 1;
                }
                proof {
                    assert forall|t: int| 0 <= t < r@.len() implies (#[trigger] r@[t] as nat)
                        < vertex_count_of(*self) by {
                        assert(t / 3 < CIRCLE_SEGMENTS) by (nonlinear_arith)
                            requires 0 <= t < 3 * CIRCLE_SEGMENTS;
                    }
                }
                r
            },
        }
    }
}

} // verus!
