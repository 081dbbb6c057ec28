//! Per-instance parameters of the drawn stars.
//!
//! Each star instance carries a position, a scale, an initial rotation, a
//! drift speed and a rotation speed, drawn at random from fixed ranges.
//! The parameters are kept as plain values in thousandths of the unit they
//! scale; the caller turns them into the floating-point attribute buffer
//! the shader reads.

use vstd::prelude::*;

verus! {

/// How many star instances one frame draws.
pub const NUM_STARS: u32 = 1000;

/// Positions range over `-POSITION_BOUND_MILLI..POSITION_BOUND_MILLI`,
/// in thousandths of the clip-space unit.
pub const POSITION_BOUND_MILLI: i32 = 1000;

/// Smallest scale a star is drawn at, in thousandths.
pub const SCALE_MIN_MILLI: i32 = 10;

/// Scales stay below this bound, in thousandths.
pub const SCALE_MAX_MILLI: i32 = 50;

/// Initial rotations stay below this bound, in thousandths of a radian:
/// the first thousandth step past pi, so that samples stay within a half
/// turn.
pub const ROTATION_BOUND_MILLI: i32 = 3142;

/// Drift and rotation speeds range over
/// `-SPEED_BOUND_MILLI..SPEED_BOUND_MILLI`, in thousandths per time step.
pub const SPEED_BOUND_MILLI: i32 = 10;

/// One star instance, as the plain values its attribute record is built
/// from, each in thousandths of its unit.
#[derive(Clone, Copy, Debug, PartialEq, Eq, Structural)]
pub struct StarInstance {
    /// Horizontal position, in thousandths of the clip-space unit.
    pub x_milli: i32,
    /// Vertical position, in thousandths of the clip-space unit.
    pub y_milli: i32,
    /// Drawn size, in thousandths of the unit star.
    pub scale_milli: i32,
    /// Rotation at time zero, in thousandths of a radian.
    pub rotation_milli: i32,
    /// Horizontal drift per time step, in thousandths.
    pub speed_x_milli: i32,
    /// Vertical drift per time step, in thousandths.
    pub speed_y_milli: i32,
    /// Rotation per time step, in thousandths of a radian.
    pub rotation_speed_milli: i32,
}

impl StarInstance {
    /// Every field lies in the range its attribute is drawn from.
    pub open spec fn wf(self) -> bool {
        &&& -POSITION_BOUND_MILLI <= self.x_milli < POSITION_BOUND_MILLI
        &&& -POSITION_BOUND_MILLI <= self.y_milli < POSITION_BOUND_MILLI
        &&& SCALE_MIN_MILLI <= self.scale_milli < SCALE_MAX_MILLI
        &&& 0 <= self.rotation_milli < ROTATION_BOUND_MILLI
        &&& -SPEED_BOUND_MILLI <= self.speed_x_milli < SPEED_BOUND_MILLI
        &&& -SPEED_BOUND_MILLI <= self.speed_y_milli < SPEED_BOUND_MILLI
        &&& -SPEED_BOUND_MILLI <= self.rotation_speed_milli < SPEED_BOUND_MILLI
    }
}

#[verifier::external_type_specification]
#[verifier::external_body]
pub struct ExThreadRng(rand::rngs::ThreadRng);

/// Relies on rand::thread_rng: a handle to the thread-local random number
/// generator.
#[verifier::external_body]
fn new_rng() -> rand::rngs::ThreadRng {
    rand::thread_rng()
}

/// Relies on rand::Rng::gen_range on a half-open integer range: the sample
/// lies in `lo..hi`. The call panics only on an empty range, which the
/// precondition rules out.
#[verifier::external_body]
fn gen_range_i32(rng: &mut rand::rngs::ThreadRng, lo: i32, hi: i32) -> (r: i32)
    requires
        lo < hi,
    ensures
        lo <= r < hi,
{
    rand::Rng::gen_range(rng, lo..hi)
}

/// Draw one star instance, each field from its range.
fn random_star_instance(rng: &mut rand::rngs::ThreadRng) -> (star: StarInstance)
    ensures
        star.wf(),
{
    StarInstance {
        x_milli: gen_range_i32(rng, -POSITION_BOUND_MILLI, POSITION_BOUND_MILLI),
        y_milli: gen_range_i32(rng, -POSITION_BOUND_MILLI, POSITION_BOUND_MILLI),
        scale_milli: gen_range_i32(rng, SCALE_MIN_MILLI, SCALE_MAX_MILLI),
        rotation_milli: gen_range_i32(rng, 0, ROTATION_BOUND_MILLI),
        speed_x_milli: gen_range_i32(rng, -SPEED_BOUND_MILLI, SPEED_BOUND_MILLI),
        speed_y_milli: gen_range_i32(rng, -SPEED_BOUND_MILLI, SPEED_BOUND_MILLI),
        rotation_speed_milli: gen_range_i32(rng, -SPEED_BOUND_MILLI, SPEED_BOUND_MILLI),
    }
}

impl StarInstance {
    /// Draw `nums` star instances, every field of each within its range.
    pub fn new_vec(nums: u32) -> (instances: Vec<StarInstance>)
        ensures
            instances@.len() == nums,
            forall|i: int| 0 <= i < nums ==> (#[trigger] instances@[i]).wf(),
    {
        let mut rng = new_rng();
        let mut instances: Vec<StarInstance> = Vec::new();
        let mut k: u32 = 0;
        while k < nums
            invariant
                k <= nums,
                instances@.len() == k,
                forall|i: int| 0 <= i < k ==> (#[trigger] instances@[i]).wf(),
            decreases nums - k,
        {
            let star = random_star_instance(&mut rng);
            instances.push(star);
            k = k + 1;
        }
        instances
    }
}

} // verus!
