//! The rules by which the controller classifies its contact with the world
//! and decides on jumps, each as a function of plain values.

use vstd::prelude::*;
use crate::config::CharacterControllerConfig;
use crate::math::{clamp_i64, clamp_to_i64, div_nearest, div_toward_zero, divide_nearest};
use crate::utils::{CrouchState, SlidingState, WallRunning};
use crate::vectors::{Vec3, SCALE};

verus! {

/// What was measured of the body's velocity and of the input at the start of
/// a tick. Angles are in thousandths of a degree, from zero to half a turn.
#[derive(Clone, Copy, Debug)]
pub struct Motion {
    /// The length of the velocity.
    pub speed: i64,
    /// The length of the velocity without its vertical part.
    pub planar_speed: i64,
    /// The angle between the velocity of the tick before and the body's
    /// forward direction.
    pub previous_forward_angle: i64,
    /// The angle between the velocity and straight down.
    pub down_angle: i64,
    /// The angle between the velocity and the forward direction laid onto
    /// the ground.
    pub slope_forward_angle: i64,
    /// The angle between the ground's normal and straight up.
    pub ground_up_angle: i64,
    /// The angle between the movement input and the forward direction.
    pub input_forward_angle: i64,
}

/// How far the rays to the walls reach from the body's axis: the capsule's
/// radius and the configured length beyond it.
pub open spec fn wall_ray_reach(config: CharacterControllerConfig, radius: i64) -> i64 {
    clamp_i64(radius + config.wallrunning_ray_length)
}

/// How far the rays to the walls reach from the body's axis, for a capsule of
/// the given radius.
pub fn wall_ray_length(config: &CharacterControllerConfig, radius: i64) -> (reach: i64)
    ensures
        reach == wall_ray_reach(*config, radius),
{
    clamp_to_i64(radius as i128 + config.wallrunning_ray_length as i128)
}

/// The ground under the body: what the downward cast of the capsule hit, and
/// nothing for a body that is not in the world.
pub open spec fn ground_under(body_present: bool, ground_hit: Option<Vec3>) -> Option<Vec3> {
    if body_present {
        ground_hit
    } else {
        None
    }
}

/// The wall the body runs along. A crouched body, one that is not in the
/// world, and one that moves too far off its forward axis run along none;
/// otherwise a wall on the right comes before one on the left.
pub open spec fn wall_beside(
    crouch: CrouchState,
    body_present: bool,
    previous_forward_angle: int,
    max_forward_angle: int,
    right_wall: Option<Vec3>,
    left_wall: Option<Vec3>,
) -> WallRunning {
    if crouch is Crouched || !body_present || previous_forward_angle > max_forward_angle {
        WallRunning::OffWall
    } else if right_wall is Some {
        WallRunning::OnRight(right_wall->0)
    } else if left_wall is Some {
        WallRunning::OnLeft(left_wall->0)
    } else {
        WallRunning::OffWall
    }
}

/// `speed` is at least the share `factor` of `reference`.
pub open spec fn reaches_share(speed: int, factor: int, reference: int) -> bool {
    speed * SCALE >= factor * reference
}

/// How a grounded body slides. Only a crouched body that moves along the
/// ground's forward direction slides: downhill where the ground's normal and
/// the velocity are within their angles of up and of down, and otherwise
/// normally where it is fast enough.
pub open spec fn slide_on_ground(
    crouch: CrouchState,
    motion: Motion,
    config: CharacterControllerConfig,
) -> SlidingState {
    if crouch is Crouched && motion.slope_forward_angle <= config.sliding_max_forward_angle {
        if motion.ground_up_angle <= config.endless_slide_ground_normal_max_up_angle
            && motion.down_angle <= config.endless_slide_downhill_max_down_angle {
            SlidingState::Downhill
        } else if reaches_share(
            motion.speed as int,
            config.sliding_speed_factor as int,
            config.max_standing_move_speed_continuous as int,
        ) {
            SlidingState::Normal
        } else {
            SlidingState::NotSliding
        }
    } else {
        SlidingState::NotSliding
    }
}

/// The sliding state after a tick's classification: what the ground gives
/// for a grounded body, and the state of before for one in the air.
pub open spec fn sliding_after(
    previous: SlidingState,
    grounded: bool,
    crouch: CrouchState,
    motion: Motion,
    config: CharacterControllerConfig,
) -> SlidingState {
    if grounded {
        slide_on_ground(crouch, motion, config)
    } else {
        previous
    }
}

/// The time that must have passed since the last jump.
pub open spec fn cooldown_threshold(config: CharacterControllerConfig, crouch: CrouchState) -> u64 {
    match crouch {
        CrouchState::Upright => config.min_jump_standing_cooldown_duration,
        CrouchState::Crouched => config.min_jump_crouched_cooldown_duration,
    }
}

/// A jump that is asked for is granted: the body stands on something, runs
/// along a wall or left either a short while ago, the last jump lies back
/// more than the threshold, and the body is not in a normal slide.
pub open spec fn jump_granted(
    grounded: bool,
    wallrunning: WallRunning,
    coyote_elapsed: nat,
    max_coyote: nat,
    cooldown_elapsed: nat,
    threshold: nat,
    sliding: SlidingState,
) -> bool {
    &&& grounded || !(wallrunning is OffWall) || coyote_elapsed < max_coyote
    &&& cooldown_elapsed > threshold
    &&& !(sliding is Normal)
}

/// The strength of a jump. A crouched body in a normal slide has none.
pub open spec fn jump_strength(
    config: CharacterControllerConfig,
    crouch: CrouchState,
    sliding: SlidingState,
) -> i64 {
    match crouch {
        CrouchState::Upright => config.jump_standing_acceleration,
        CrouchState::Crouched => match sliding {
            SlidingState::NotSliding => config.jump_crouched_acceleration,
            SlidingState::Normal => 0,
            SlidingState::Downhill => config.jump_standing_acceleration,
        },
    }
}

/// How many parts make one whole in [`up_forward`].
pub const DIRECTION_SCALE: i64 = 1_000_000_000;

/// The direction "up and slightly forward", of length one: one up and half
/// forward, brought to unit length. Its coordinates are counted in
/// thousand-millionths, so that scaling it loses nothing that shows in
/// thousandths.
pub open spec fn up_forward() -> Vec3 {
    Vec3 { x: 0, y: 894_427_191, z: (-447_213_595int) as i64 }
}

/// One coordinate of the direction of a jump, in millionths: the wall's
/// normal with the weight `normal_scale`, and the up-and-forward direction
/// with the weight `up_forward_scale`.
pub open spec fn jump_weight(
    normal: int,
    direction: int,
    normal_scale: int,
    up_forward_scale: int,
) -> i64 {
    clamp_i64(normal * normal_scale + div_toward_zero(direction * up_forward_scale, 1_000_000))
}

/// One coordinate of a jump: the weight, in millionths, times the strength,
/// rounded to the nearest thousandth.
pub open spec fn jump_component(weight: int, strength: int) -> i64 {
    clamp_i64(div_nearest(weight * strength, 1_000_000))
}

/// The weight of the wall's normal in a jump: none for a body off the wall.
pub open spec fn normal_weight(config: CharacterControllerConfig, wallrunning: WallRunning) -> i64 {
    if wallrunning is OffWall {
        0
    } else {
        config.jump_wallrunning_normal_scale
    }
}

/// The weight of the up-and-forward direction in a jump: one whole for a
/// body off the wall.
pub open spec fn up_forward_weight(
    config: CharacterControllerConfig,
    wallrunning: WallRunning,
) -> i64 {
    if wallrunning is OffWall {
        SCALE
    } else {
        config.jump_wallrunning_scale
    }
}

/// The wall's normal, and no vector for a body off the wall.
pub open spec fn wall_normal_of(wallrunning: WallRunning) -> Vec3 {
    match wallrunning {
        WallRunning::OnRight(normal) | WallRunning::OnLeft(normal) => normal,
        WallRunning::OffWall => Vec3 { x: 0, y: 0, z: 0 },
    }
}

/// The jump impulse per unit of mass, in body space: up and slightly forward,
/// times the strength; for a body on a wall the up-and-forward direction and
/// the wall's normal are weighted and added before.
pub open spec fn jump_vector_spec(
    config: CharacterControllerConfig,
    wallrunning: WallRunning,
    strength: i64,
) -> Vec3 {
    let normal = wall_normal_of(wallrunning);
    let direction = up_forward();
    let ns = normal_weight(config, wallrunning) as int;
    let ws = up_forward_weight(config, wallrunning) as int;
    Vec3 {
        x: jump_component(
            jump_weight(normal.x as int, direction.x as int, ns, ws) as int,
            strength as int,
        ),
        y: jump_component(
            jump_weight(normal.y as int, direction.y as int, ns, ws) as int,
            strength as int,
        ),
        z: jump_component(
            jump_weight(normal.z as int, direction.z as int, ns, ws) as int,
            strength as int,
        ),
    }
}

/// The up-and-forward direction rises twice as much as it leads forward, to
/// within one part, and is of unit length to within one part.
pub proof fn lemma_up_forward_is_unit()
    ensures
        up_forward().x == 0,
        0 <= up_forward().y + 2 * up_forward().z <= 1,
        (DIRECTION_SCALE - 1) * (DIRECTION_SCALE - 1) <= up_forward().y * up_forward().y
            + up_forward().z * up_forward().z <= DIRECTION_SCALE * DIRECTION_SCALE,
{
    assert(894_427_191 * 894_427_191 + 447_213_595 * 447_213_595 == 999_999_999_552_974_506)
        by (nonlinear_arith);
    assert(999_999_999 * 999_999_999 == 999_999_998_000_000_001) by (nonlinear_arith);
    assert(1_000_000_000 * 1_000_000_000 == 1_000_000_000_000_000_000) by (nonlinear_arith);
}

/// The ground under the body.
pub fn classify_ground(body_present: bool, ground_hit: Option<Vec3>) -> (ground: Option<Vec3>)
    ensures
        ground == ground_under(body_present, ground_hit),
{
    if body_present {
        ground_hit
    } else {
        None
    }
}

/// The wall the body runs along.
pub fn classify_wallrunning(
    config: &CharacterControllerConfig,
    crouch: CrouchState,
    body_present: bool,
    previous_forward_angle: i64,
    right_wall: Option<Vec3>,
    left_wall: Option<Vec3>,
) -> (wall: WallRunning)
    ensures
        wall == wall_beside(
            crouch,
            body_present,
            previous_forward_angle as int,
            config.max_wallrunning_forward_angle as int,
            right_wall,
            left_wall,
        ),
{
    if crouch == CrouchState::Crouched {
        return WallRunning::OffWall;
    }
    if !body_present || previous_forward_angle > config.max_wallrunning_forward_angle {
        return WallRunning::OffWall;
    }
    match right_wall {
        Some(normal) => WallRunning::OnRight(normal),
        None => match left_wall {
            Some(normal) => WallRunning::OnLeft(normal),
            None => WallRunning::OffWall,
        },
    }
}

/// Whether `speed` is at least the share `factor` of `reference`.
pub fn speed_reaches_share(speed: i64, factor: i64, reference: i64) -> (reached: bool)
    ensures
        reached == reaches_share(speed as int, factor as int, reference as int),
{
    let s: i128 = speed as i128;
    let f: i128 = factor as i128;
    let r: i128 = reference as i128;
    assert(-0x4000_0000_0000_0000_0000_0000_0000_0000 <= f * r
        <= 0x4000_0000_0000_0000_0000_0000_0000_0000) by (nonlinear_arith)
        requires
            -0x8000_0000_0000_0000 <= f <= 0x8000_0000_0000_0000,
            -0x8000_0000_0000_0000 <= r <= 0x8000_0000_0000_0000,
    ;
    s * 1000 >= f * r
}

/// How the body slides after this tick's classification.
pub fn classify_sliding(
    config: &CharacterControllerConfig,
    previous: SlidingState,
    grounded: bool,
    crouch: CrouchState,
    motion: &Motion,
) -> (sliding: SlidingState)
    ensures
        sliding == sliding_after(previous, grounded, crouch, *motion, *config),
{
    if !grounded {
        return previous;
    }
    if crouch == CrouchState::Crouched && motion.slope_forward_angle
        <= config.sliding_max_forward_angle {
        if motion.ground_up_angle <= config.endless_slide_ground_normal_max_up_angle
            && motion.down_angle <= config.endless_slide_downhill_max_down_angle {
            SlidingState::Downhill
        } else if speed_reaches_share(
            motion.speed,
            config.sliding_speed_factor,
            config.max_standing_move_speed_continuous,
        ) {
            SlidingState::Normal
        } else {
            SlidingState::NotSliding
        }
    } else {
        SlidingState::NotSliding
    }
}

/// The time that must have passed since the last jump.
pub fn jump_cooldown_threshold(config: &CharacterControllerConfig, crouch: CrouchState) -> (t: u64)
    ensures
        t == cooldown_threshold(*config, crouch),
{
    match crouch {
        CrouchState::Upright => config.min_jump_standing_cooldown_duration,
        CrouchState::Crouched => config.min_jump_crouched_cooldown_duration,
    }
}

/// Whether a jump that is asked for is granted.
pub fn jump_allowed(
    grounded: bool,
    wallrunning: WallRunning,
    coyote_elapsed: u64,
    max_coyote: u64,
    cooldown_elapsed: u64,
    threshold: u64,
    sliding: SlidingState,
) -> (granted: bool)
    ensures
        granted == jump_granted(
            grounded,
            wallrunning,
            coyote_elapsed as nat,
            max_coyote as nat,
            cooldown_elapsed as nat,
            threshold as nat,
            sliding,
        ),
        granted <==> (grounded || !(wallrunning is OffWall) || coyote_elapsed < max_coyote)
            && cooldown_elapsed > threshold && !(sliding is Normal),
{
    let jump_has_cooled_down = cooldown_elapsed > threshold;
    let is_grounded_or_wallrunning = wallrunning.is_on_wall() || grounded;
    let can_coyote_jump = coyote_elapsed < max_coyote;
    jump_has_cooled_down && (is_grounded_or_wallrunning || can_coyote_jump) && sliding
        != SlidingState::Normal
}

/// The strength of a jump.
pub fn jump_acceleration(
    config: &CharacterControllerConfig,
    crouch: CrouchState,
    sliding: SlidingState,
) -> (strength: i64)
    ensures
        strength == jump_strength(*config, crouch, sliding),
{
    match crouch {
        CrouchState::Upright => config.jump_standing_acceleration,
        CrouchState::Crouched => match sliding {
            SlidingState::NotSliding => config.jump_crouched_acceleration,
            SlidingState::Normal => 0,
            SlidingState::Downhill => config.jump_standing_acceleration,
        },
    }
}

fn weight_of(normal: i64, direction: i64, normal_scale: i64, up_forward_scale: i64) -> (r: i64)
    requires
        -DIRECTION_SCALE <= direction <= DIRECTION_SCALE,
    ensures
        r == jump_weight(
            normal as int,
            direction as int,
            normal_scale as int,
            up_forward_scale as int,
        ),
{
    let n: i128 = normal as i128;
    let d: i128 = direction as i128;
    let ns: i128 = normal_scale as i128;
    let ws: i128 = up_forward_scale as i128;
    assert(-0x4000_0000_0000_0000_0000_0000_0000_0000 <= n * ns
        <= 0x4000_0000_0000_0000_0000_0000_0000_0000) by (nonlinear_arith)
        requires
            -0x8000_0000_0000_0000 <= n <= 0x8000_0000_0000_0000,
            -0x8000_0000_0000_0000 <= ns <= 0x8000_0000_0000_0000,
    ;
    assert(-1_000_000_000 * 0x8000_0000_0000_0000 <= d * ws <= 1_000_000_000
        * 0x8000_0000_0000_0000) by (nonlinear_arith)
        requires
            -1_000_000_000 <= d <= 1_000_000_000,
            -0x8000_0000_0000_0000 <= ws <= 0x8000_0000_0000_0000,
    ;
    let product: i128 = d * ws;
    let share: i128 = product / 1_000_000;
    proof {
        let p = product as int;
        if p >= 0 {
            assert(0 <= p / 1_000_000 <= p) by (nonlinear_arith)
                requires
                    0 <= p,
            ;
        } else {
            assert(0 <= (-p) / 1_000_000 <= -p) by (nonlinear_arith)
                requires
                    0 <= -p,
            ;
        }
    }
    clamp_to_i64(n * ns + share)
}

fn component_of(weight: i64, strength: i64) -> (r: i64)
    ensures
        r == jump_component(weight as int, strength as int),
{
    let w: i128 = weight as i128;
    let a: i128 = strength as i128;
    assert(-0x4000_0000_0000_0000_0000_0000_0000_0000 <= w * a
        <= 0x4000_0000_0000_0000_0000_0000_0000_0000) by (nonlinear_arith)
        requires
            -0x8000_0000_0000_0000 <= w <= 0x8000_0000_0000_0000,
            -0x8000_0000_0000_0000 <= a <= 0x8000_0000_0000_0000,
    ;
    clamp_to_i64(divide_nearest(w * a, 1_000_000))
}

/// The direction "up and slightly forward", of length one, in
/// thousand-millionths.
pub fn up_forward_direction() -> (direction: Vec3)
    ensures
        direction == up_forward(),
{
    Vec3 { x: 0, y: 894_427_191, z: -447_213_595 }
}

/// The jump impulse per unit of mass, in body space.
pub fn jump_vector(
    config: &CharacterControllerConfig,
    wallrunning: WallRunning,
    strength: i64,
) -> (v: Vec3)
    ensures
        v == jump_vector_spec(*config, wallrunning, strength),
{
    let direction = up_forward_direction();
    let (normal, ns, ws) = match wallrunning {
        WallRunning::OnRight(normal) | WallRunning::OnLeft(normal) => (
            normal,
            config.jump_wallrunning_normal_scale,
            config.jump_wallrunning_scale,
        ),
        WallRunning::OffWall => (Vec3 { x: 0, y: 0, z: 0 }, 0, SCALE),
    };
    Vec3 {
        x: component_of(weight_of(normal.x, direction.x, ns, ws), strength),
        y: component_of(weight_of(normal.y, direction.y, ns, ws), strength),
        z: component_of(weight_of(normal.z, direction.z, ns, ws), strength),
    }
}

/// A jump is granted exactly when the body is supported (by the ground, by a
/// wall, or by the grace time after leaving either), the cooldown is over, and
/// the body is not in a normal slide. In particular an airborne body off the
/// wall may still jump while its grace time runs.
pub proof fn lemma_jump_rule(
    grounded: bool,
    wallrunning: WallRunning,
    coyote_elapsed: nat,
    max_coyote: nat,
    cooldown_elapsed: nat,
    threshold: nat,
    sliding: SlidingState,
)
    ensures
        jump_granted(
            grounded,
            wallrunning,
            coyote_elapsed,
            max_coyote,
            cooldown_elapsed,
            threshold,
            sliding,
        ) <==> (grounded || !(wallrunning is OffWall) || coyote_elapsed < max_coyote)
            && cooldown_elapsed > threshold && !(sliding is Normal),
        jump_granted(
            false,
            WallRunning::OffWall,
            coyote_elapsed,
            max_coyote,
            cooldown_elapsed,
            threshold,
            sliding,
        ) <==> coyote_elapsed < max_coyote && cooldown_elapsed > threshold && !(sliding
            is Normal),
        sliding is Normal ==> !jump_granted(
            grounded,
            wallrunning,
            coyote_elapsed,
            max_coyote,
            cooldown_elapsed,
            threshold,
            sliding,
        ),
{
}

/// A crouched body, a body that is not in the world and a body that moves
/// too far off its forward axis are off the wall whatever the rays hit;
/// otherwise a hit on the right decides before a hit on the left, and without
/// a hit the body is off the wall.
pub proof fn lemma_wall_rule(
    crouch: CrouchState,
    body_present: bool,
    previous_forward_angle: int,
    max_forward_angle: int,
    right_wall: Option<Vec3>,
    left_wall: Option<Vec3>,
)
    ensures
        ({
            let wall = wall_beside(
                crouch,
                body_present,
                previous_forward_angle,
                max_forward_angle,
                right_wall,
                left_wall,
            );
            let may_run = crouch is Upright && body_present && previous_forward_angle
                <= max_forward_angle;
            &&& !may_run ==> wall is OffWall
            &&& may_run && right_wall is Some ==> wall == WallRunning::OnRight(right_wall->0)
            &&& may_run && right_wall is None && left_wall is Some ==> wall == WallRunning::OnLeft(
                left_wall->0,
            )
            &&& right_wall is None && left_wall is None ==> wall is OffWall
        }),
{
}

} // verus!
