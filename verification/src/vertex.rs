//! The star outline and its index pattern.
//!
//! A star vertex is described by plain values: the index of its angle step
//! and its distance from the center. Vertex `i` of the outline sits at the
//! angle `i * pi / 5` radians; its radius alternates between the outer and
//! the inner ring, so that the ten outline vertices trace a five-pointed
//! star. Turning a description into screen coordinates takes trigonometry
//! on floating-point numbers and is left to the caller.

use vstd::prelude::*;

verus! {

/// Number of points of the star; the outline has twice as many vertices.
pub const STAR_VERTEX_SIZE: u32 = 5;

/// Default outer-ring radius, in thousandths of the unit length.
pub const OUTER_RADIUS_MILLI: u32 = 1000;

/// Default inner-ring radius, in thousandths of the unit length.
pub const INNER_RADIUS_MILLI: u32 = 380;

/// One vertex of the star, as the plain values a shader position is
/// computed from: the vertex sits at the angle `angle_index * pi / 5`
/// radians, at `radius_milli` thousandths of the unit length from the
/// center.
#[derive(Clone, Copy, Debug, PartialEq, Eq, Structural)]
pub struct PositionVertex {
    /// Multiplier of the angle step `pi / 5`.
    pub angle_index: u32,
    /// Distance from the center, in thousandths of the unit length.
    pub radius_milli: u32,
}

/// The vertex at the center of the star.
pub open spec fn center_vertex() -> PositionVertex {
    PositionVertex { angle_index: 0, radius_milli: 0 }
}

/// Outline vertex `i` with the default radii: even steps lie on the outer
/// ring, odd steps on the inner one.
pub open spec fn default_outline_vertex(i: int) -> PositionVertex {
    PositionVertex {
        angle_index: i as u32,
        radius_milli: if i % 2 == 0 {
            1000u32
        } else {
            380u32
        },
    }
}

/// Outline vertex `i` for a choice of radii. When no inner radius is given
/// the defaults are used, whatever the outer argument holds; otherwise the
/// given radii take the defaults' places.
pub open spec fn outline_vertex(
    outer_milli: Option<u32>,
    inner_milli: Option<u32>,
    i: int,
) -> PositionVertex {
    if inner_milli is None {
        default_outline_vertex(i)
    } else {
        PositionVertex {
            angle_index: i as u32,
            radius_milli: if i % 2 == 0 {
                outer_milli.unwrap()
            } else {
                inner_milli.unwrap()
            },
        }
    }
}

/// How many outline vertices `create_star_vertices` emits: ten, except that
/// an inner radius given without an outer one yields none.
pub open spec fn outline_len(outer_milli: Option<u32>, inner_milli: Option<u32>) -> int {
    if inner_milli is Some && outer_milli is None {
        0
    } else {
        10
    }
}

/// Entry `j` of the star's index pattern. The entries come in groups of
/// four: group `i` holds `i`, `i + 5`, the outline successor of `i`, and
/// the center slot `10`.
pub open spec fn star_index(j: int) -> u16 {
    let i = j / 4;
    if j % 4 == 0 {
        i as u16
    } else if j % 4 == 1 {
        (i + 5) as u16
    } else if j % 4 == 2 {
        (((i + 1) % 10) as u16)
    } else {
        10u16
    }
}

impl PositionVertex {
    /// Build the outline vertices of the star, one per angle step.
    ///
    /// Vertex `f` sits at the angle step `f`; its radius is the default
    /// outer one on even steps and the default inner one on odd steps.
    pub fn new_vecs(nums: u32) -> (vertices: Vec<PositionVertex>)
        ensures
            vertices@.len() == nums,
            forall|i: int| 0 <= i < nums ==> #[trigger] vertices@[i] == default_outline_vertex(i),
    {
        let mut vertices: Vec<PositionVertex> = Vec::new();
        let mut f: u32 = 0;
        while f < nums
            invariant
                f <= nums,
                vertices@.len() == f,
                forall|i: int|
                    0 <= i < f ==> #[trigger] vertices@[i] == default_outline_vertex(i),
            decreases nums - f,
        {
            let radius_milli = if f % 2 == 0 {
                OUTER_RADIUS_MILLI
            } else {
                INNER_RADIUS_MILLI
            };
            vertices.push(PositionVertex { angle_index: f, radius_milli });
            f = f + 1;
        }
        vertices
    }
}

/// Build the star's vertex list and index pattern.
///
/// The vertex list holds the ten outline vertices followed by the center
/// vertex. Radii default to the outer and inner ring constants when no
/// inner radius is given; an inner radius given without an outer one
/// yields an outline of no vertices, the center alone. The index pattern
/// always holds the forty entries of `star_index`.
pub fn create_star_vertices(outer_milli: Option<u32>, inner_milli: Option<u32>) -> (r: (
    Vec<PositionVertex>,
    Vec<u16>,
))
    ensures
        r.0@.len() == outline_len(outer_milli, inner_milli) + 1,
        forall|i: int|
            0 <= i < outline_len(outer_milli, inner_milli) ==> #[trigger] r.0@[i] == outline_vertex(
                outer_milli,
                inner_milli,
                i,
            ),
        r.0@[outline_len(outer_milli, inner_milli)] == center_vertex(),
        r.1@.len() == 40,
        forall|j: int| 0 <= j < 40 ==> #[trigger] r.1@[j] == star_index(j),
{
    let mut vertices: Vec<PositionVertex> = Vec::new();
    let num_vertices: u32 = STAR_VERTEX_SIZE;
    let mut i: u32 = 0;
    while i < num_vertices * 2
        invariant
            i <= 10,
            num_vertices == 5,
            vertices@.len() == if inner_milli is Some && outer_milli is None {
                0int
            } else {
                i as int
            },
            forall|k: int|
                0 <= k < vertices@.len() ==> #[trigger] vertices@[k] == outline_vertex(
                    outer_milli,
                    inner_milli,
                    k,
                ),
        decreases 10 - i,
    {
        match inner_milli {
            Some(inner_radius) => {
                if let Some(outer_radius) = outer_milli {
                    let radius_milli = if i % 2 == 0 {
                        outer_radius
                    } else {
                        inner_radius
                    };
                    vertices.push(PositionVertex { angle_index: i, radius_milli });
                }
            },
            None => {
                let radius_milli = if i % 2 == 0 {
                    OUTER_RADIUS_MILLI
                } else {
                    INNER_RADIUS_MILLI
                };
                vertices.push(PositionVertex { angle_index: i, radius_milli });
            },
        }
        i = i + 1;
    }

    let mut indices: Vec<u16> = Vec::new();
    let mut i: u16 = 0;
    while i < 10
        invariant
            i <= 10,
            indices@.len() == 4 * i,
            forall|j: int| 0 <= j < indices@.len() ==> #[trigger] indices@[j] == star_index(j),
        decreases 10 - i,
    {
        indices.push(i);
        indices.push(i + 5);
        indices.push((i + 1) % 10);
        indices.push(10);
        proof {
            let ii = i as int;
            let base = 4 * ii;
            assert((base / 4 == ii && base % 4 == 0) && ((base + 1) / 4 == ii && (base + 1) % 4
                == 1) && ((base + 2) / 4 == ii && (base + 2) % 4 == 2) && ((base + 3) / 4 == ii && (
            base + 3) % 4 == 3)) by (nonlinear_arith)
                requires
                    0 <= ii < 10,
                    base == 4 * ii,
            ;
        }
        i = i + 1;
    }
    vertices.push(PositionVertex { angle_index: 0, radius_milli: 0 });
    (vertices, indices)
}

} // verus!
