//! What one frame draws, computed before any graphics call.
//!
//! Each frame rebuilds the star outline, draws a fresh set of random
//! instances, and reads the clock for the time uniform. The plan also
//! fixes the ranges of the draw call: one element per outline vertex and
//! one per instance.

use vstd::prelude::*;
use crate::instance::NUM_STARS;
use crate::instance::StarInstance;
use crate::time_uniform::TimeUniform;
use crate::vertex::PositionVertex;
use crate::vertex::STAR_VERTEX_SIZE;
use crate::vertex::default_outline_vertex;

verus! {

/// The data of one frame: the outline vertices the vertex buffer is built
/// from, the instances the instance buffer is built from, and the time
/// uniform's value.
pub struct FramePlan {
    /// The ten outline vertices, in angle order.
    pub vertices: Vec<PositionVertex>,
    /// The random star instances.
    pub instances: Vec<StarInstance>,
    /// The time uniform's value for this frame.
    pub uniform: TimeUniform,
}

impl FramePlan {
    /// The number of vertices the frame's draw call covers.
    pub fn vertex_count(&self) -> (count: u32)
        requires
            self.vertices@.len() <= u32::MAX,
        ensures
            count == self.vertices@.len(),
    {
        self.vertices.len() as u32
    }

    /// The number of instances the frame's draw call covers.
    pub fn instance_count(&self) -> (count: u32)
        requires
            self.instances@.len() <= u32::MAX,
        ensures
            count == self.instances@.len(),
    {
        self.instances.len() as u32
    }
}

/// Compute everything one frame draws: the ten default outline vertices,
/// a thousand fresh random instances each within its ranges, and the time
/// uniform read from the wall clock.
pub fn plan_frame() -> (plan: FramePlan)
    ensures
        plan.vertices@.len() == 2 * STAR_VERTEX_SIZE,
        forall|i: int| 0 <= i < plan.vertices@.len() ==> #[trigger] plan.vertices@[i]
            == default_outline_vertex(i),
        plan.instances@.len() == NUM_STARS,
        forall|i: int| 0 <= i < plan.instances@.len() ==> (#[trigger] plan.instances@[i]).wf(),
{
    let vertices = PositionVertex::new_vecs(STAR_VERTEX_SIZE * 2);
    let instances = StarInstance::new_vec(NUM_STARS);
    let uniform = TimeUniform::new().after_duration();
    FramePlan { vertices, instances, uniform }
}

} // verus!
