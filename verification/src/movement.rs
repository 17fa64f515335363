//! Turning input into a target speed, and stepping a velocity towards its
//! target under an acceleration cap.

use vstd::prelude::*;
use crate::config::CharacterControllerConfig;
use crate::math::{
    clamp_i64,
    clamp_to_i64,
    div_toward_zero,
    is_ceil_sqrt,
    isqrt_up,
    lemma_ceil_sqrt_unique,
    lemma_scaled_share_is_bounded,
};
use crate::utils::{CharacterPerspectiveMode, CrouchState};
use crate::vectors::{dist_sq, Vec3, MAX_COORDINATE, SCALE};

verus! {

/// The smallest whole number whose square is at least `n`.
pub open spec fn ceil_sqrt(n: int) -> int {
    choose|r: int| is_ceil_sqrt(n, r)
}

/// `target` lies within one step of `max_delta` from `current`, or on it.
pub open spec fn within_reach(current: Vec3, target: Vec3, max_delta: int) -> bool {
    dist_sq(current, target) == 0 || (max_delta >= 0 && dist_sq(current, target) <= max_delta
        * max_delta)
}

/// How far one coordinate moves in a step of length `max_delta` where `diff`
/// is left to go on it and `mag` is the whole distance, rounded up: the
/// share `max_delta / mag` of `diff`, rounded toward zero.
pub open spec fn step_share(diff: int, max_delta: int, mag: int) -> int {
    div_toward_zero(diff * max_delta, mag)
}

/// One coordinate of a step of length `max_delta` from `c` towards `t`, where
/// the whole distance to go, rounded up, is `mag`.
pub open spec fn step_component(c: int, t: int, max_delta: int, mag: int) -> i64 {
    clamp_i64(c + step_share(t - c, max_delta, mag))
}

/// Where a point at `current` stands after moving towards `target` by at most
/// `max_delta`: at `target` if that is within reach, and otherwise up to
/// `max_delta` along the straight line to it. Each coordinate is rounded
/// toward `current` and the distance is rounded up, so that the step never
/// exceeds `max_delta`.
pub open spec fn move_towards_spec(current: Vec3, target: Vec3, max_delta: int) -> Vec3 {
    if within_reach(current, target, max_delta) {
        target
    } else {
        let mag = ceil_sqrt(dist_sq(current, target));
        Vec3 {
            x: step_component(current.x as int, target.x as int, max_delta, mag),
            y: step_component(current.y as int, target.y as int, max_delta, mag),
            z: step_component(current.z as int, target.z as int, max_delta, mag),
        }
    }
}

/// `g` lies between `a` and `b`, ends included.
pub open spec fn between(a: int, g: int, b: int) -> bool {
    (a <= g <= b) || (b <= g <= a)
}

proof fn lemma_dist_sq_bounds(a: Vec3, b: Vec3)
    requires
        a.bounded(),
        b.bounded(),
    ensures
        0 <= dist_sq(a, b) <= 12_000_000_000_000_000_000_000_000,
{
    let m = 2 * MAX_COORDINATE as int;
    assert forall|d: int| -m <= d <= m implies 0 <= #[trigger] (d * d) <= m * m by {
        assert(0 <= d * d <= m * m) by (nonlinear_arith)
            requires
                -m <= d <= m,
        ;
    }
    let dx = b.x - a.x;
    let dy = b.y - a.y;
    let dz = b.z - a.z;
    assert(0 <= dx * dx <= m * m);
    assert(0 <= dy * dy <= m * m);
    assert(0 <= dz * dz <= m * m);
    assert(m * m == 4_000_000_000_000_000_000_000_000) by (nonlinear_arith)
        requires
            m == 2_000_000_000_000,
    ;
}

proof fn lemma_ceil_sqrt_is(n: int, r: int)
    requires
        is_ceil_sqrt(n, r),
    ensures
        ceil_sqrt(n) == r,
{
    let c = ceil_sqrt(n);
    assert(is_ceil_sqrt(n, c));
    lemma_ceil_sqrt_unique(n, c, r);
}

/// Every number that is not negative has a ceiling square root.
proof fn lemma_ceil_sqrt_total(n: int)
    requires
        0 <= n,
    ensures
        is_ceil_sqrt(n, ceil_sqrt(n)),
    decreases n,
{
    if n == 0 {
        assert(is_ceil_sqrt(0, 0));
    } else {
        lemma_ceil_sqrt_total(n - 1);
        let r = ceil_sqrt(n - 1);
        if n <= r * r {
            assert(is_ceil_sqrt(n, r));
        } else {
            assert(n == r * r + 1);
            assert(n <= (r + 1) * (r + 1)) by (nonlinear_arith)
                requires
                    n == r * r + 1,
                    0 <= r,
            ;
            assert(is_ceil_sqrt(n, r + 1));
        }
    }
}

/// Moves `current` towards `target` by at most `max_distance_delta`.
pub fn move_towards(current: &Vec3, target: &Vec3, max_distance_delta: i64) -> (goal: Vec3)
    requires
        current.bounded(),
        target.bounded(),
    ensures
        goal == move_towards_spec(*current, *target, max_distance_delta as int),
{
    let dx: i128 = target.x as i128 - current.x as i128;
    let dy: i128 = target.y as i128 - current.y as i128;
    let dz: i128 = target.z as i128 - current.z as i128;
    proof {
        lemma_dist_sq_bounds(*current, *target);
        let m = 2 * MAX_COORDINATE as int;
        assert(0 <= dx * dx <= m * m) by (nonlinear_arith)
            requires
                -m <= dx <= m,
        ;
        assert(0 <= dy * dy <= m * m) by (nonlinear_arith)
            requires
                -m <= dy <= m,
        ;
        assert(0 <= dz * dz <= m * m) by (nonlinear_arith)
            requires
                -m <= dz <= m,
        ;
        assert(m * m == 4_000_000_000_000_000_000_000_000) by (nonlinear_arith)
            requires
                m == 2_000_000_000_000,
        ;
    }
    let squared: i128 = dx * dx + dy * dy + dz * dz;
    assert(squared == dist_sq(*current, *target));
    if squared == 0 {
        return *target;
    }
    let delta: i128 = max_distance_delta as i128;
    if max_distance_delta >= 0 {
        assert(0 <= delta * delta <= i64::MAX * i64::MAX) by (nonlinear_arith)
            requires
                0 <= delta <= i64::MAX,
        ;
        if squared <= delta * delta {
            return *target;
        }
    }
    let root: u128 = isqrt_up(squared as u128);
    let mag: i128 = root as i128;
    proof {
        lemma_ceil_sqrt_is(squared as int, root as int);
        assert(mag > 0) by {
            if mag == 0 {
                assert(mag * mag == 0) by (nonlinear_arith)
                    requires
                        mag == 0,
                ;
            }
        }
    }
    let gx = step_one(current.x, dx, delta, mag);
    let gy = step_one(current.y, dy, delta, mag);
    let gz = step_one(current.z, dz, delta, mag);
    Vec3 { x: gx, y: gy, z: gz }
}

/// One coordinate of a step: `c` plus the share `delta / mag` of `diff`.
fn step_one(c: i64, diff: i128, delta: i128, mag: i128) -> (g: i64)
    requires
        -2 * MAX_COORDINATE <= diff <= 2 * MAX_COORDINATE,
        i64::MIN <= delta <= i64::MAX,
        0 < mag,
    ensures
        g == clamp_i64(c + step_share(diff as int, delta as int, mag as int)),
{
    assert(-2 * MAX_COORDINATE * 0x8000_0000_0000_0000 <= diff * delta <= 2 * MAX_COORDINATE
        * 0x8000_0000_0000_0000) by (nonlinear_arith)
        requires
            -2 * MAX_COORDINATE <= diff <= 2 * MAX_COORDINATE,
            -0x8000_0000_0000_0000 <= delta <= 0x8000_0000_0000_0000,
    ;
    let product: i128 = diff * delta;
    let share: i128 = product / mag;
    assert(share == div_toward_zero(product as int, mag as int));
    proof {
        let p = product as int;
        let m = mag as int;
        if p >= 0 {
            assert(0 <= p / m <= p) by (nonlinear_arith)
                requires
                    0 <= p,
                    0 < m,
            ;
        } else {
            assert(0 <= (-p) / m <= -p) by (nonlinear_arith)
                requires
                    0 <= -p,
                    0 < m,
            ;
        }
    }
    clamp_to_i64(c as i128 + share)
}

/// The square of what a share moves, times the square of the distance, is at
/// most the square of what was to go times the square of the step.
proof fn lemma_share_square(diff: int, d: int, mag: int)
    requires
        0 <= d,
        0 < mag,
    ensures
        step_share(diff, d, mag) * step_share(diff, d, mag) * (mag * mag) <= diff * diff * (d * d),
{
    let q = step_share(diff, d, mag);
    let a = diff * d;
    if a >= 0 {
        assert(0 <= q * mag <= a) by (nonlinear_arith)
            requires
                q == a / mag,
                0 <= a,
                0 < mag,
        ;
        assert(q * q * (mag * mag) <= a * a) by (nonlinear_arith)
            requires
                0 <= q * mag <= a,
        ;
    } else {
        let p = (-a) / mag;
        assert(q == -p);
        assert(0 <= p * mag <= -a) by (nonlinear_arith)
            requires
                p == (-a) / mag,
                0 <= -a,
                0 < mag,
        ;
        assert(q * q * (mag * mag) <= a * a) by (nonlinear_arith)
            requires
                0 <= p * mag <= -a,
                q == -p,
        ;
    }
    assert(a * a == diff * diff * (d * d)) by (nonlinear_arith)
        requires
            a == diff * d,
    ;
}

/// A share of what is left to go on a coordinate falls short of it where the
/// step is shorter than the distance.
proof fn lemma_share_falls_short(diff: int, d: int, mag: int)
    requires
        0 <= d < mag,
        diff != 0,
    ensures
        diff > 0 ==> 0 <= step_share(diff, d, mag) < diff,
        diff < 0 ==> diff < step_share(diff, d, mag) <= 0,
{
    if diff > 0 {
        assert(0 <= diff * d < diff * mag) by (nonlinear_arith)
            requires
                0 < diff,
                0 <= d < mag,
        ;
        assert(0 <= (diff * d) / mag < diff) by (nonlinear_arith)
            requires
                0 <= diff * d < diff * mag,
                0 < mag,
        ;
    } else {
        let pos = -diff;
        assert(0 <= pos * d < pos * mag) by (nonlinear_arith)
            requires
                0 < pos,
                0 <= d < mag,
        ;
        assert(-(diff * d) == pos * d) by (nonlinear_arith)
            requires
                pos == -diff,
        ;
        assert(0 <= (pos * d) / mag < pos) by (nonlinear_arith)
            requires
                0 <= pos * d < pos * mag,
                0 < mag,
        ;
        if diff * d == 0 {
            assert(pos * d == 0);
        }
    }
}

/// What holds of one step of length `max_delta`, not negative, towards a
/// target.
///
/// The step never passes the target: each coordinate of the result lies
/// between where the point was and where it is headed. It is never longer
/// than `max_delta`. It never leads away from the target, and brings the
/// point strictly closer whenever the point moves at all. The target is
/// reached exactly when it lies within `max_delta`, and only then.
pub proof fn lemma_move_towards_never_overshoots(current: Vec3, target: Vec3, max_delta: int)
    requires
        current.bounded(),
        target.bounded(),
        0 <= max_delta,
    ensures
        ({
            let goal = move_towards_spec(current, target, max_delta);
            &&& between(current.x as int, goal.x as int, target.x as int)
            &&& between(current.y as int, goal.y as int, target.y as int)
            &&& between(current.z as int, goal.z as int, target.z as int)
            &&& goal.bounded()
            &&& dist_sq(current, goal) <= max_delta * max_delta
            &&& dist_sq(goal, target) <= dist_sq(current, target)
            &&& goal != current ==> dist_sq(goal, target) < dist_sq(current, target)
            &&& goal == target <==> within_reach(current, target, max_delta)
        }),
{
    let goal = move_towards_spec(current, target, max_delta);
    lemma_dist_sq_bounds(current, target);
    if within_reach(current, target, max_delta) {
        let dx = target.x - current.x;
        let dy = target.y - current.y;
        let dz = target.z - current.z;
        assert(dist_sq(goal, target) == 0);
        assert(0 <= max_delta * max_delta) by (nonlinear_arith);
        assert(dx * dx >= 0 && dy * dy >= 0 && dz * dz >= 0) by (nonlinear_arith);
        if goal != current {
            assert(dx != 0 || dy != 0 || dz != 0);
            assert(dx != 0 ==> dx * dx > 0) by (nonlinear_arith);
            assert(dy != 0 ==> dy * dy > 0) by (nonlinear_arith);
            assert(dz != 0 ==> dz * dz > 0) by (nonlinear_arith);
        }
    } else {
        let n = dist_sq(current, target);
        let mag = ceil_sqrt(n);
        lemma_ceil_sqrt_total(n);
        assert(mag > 0) by {
            if mag == 0 {
                assert(mag * mag == 0) by (nonlinear_arith)
                    requires
                        mag == 0,
                ;
            }
        }
        assert(max_delta < mag) by {
            if max_delta >= mag {
                assert(mag * mag <= max_delta * max_delta) by (nonlinear_arith)
                    requires
                        0 <= mag <= max_delta,
                ;
            }
        }
        let dx = target.x - current.x;
        let dy = target.y - current.y;
        let dz = target.z - current.z;
        let qx = step_share(dx, max_delta, mag);
        let qy = step_share(dy, max_delta, mag);
        let qz = step_share(dz, max_delta, mag);
        lemma_scaled_share_is_bounded(dx, max_delta, mag);
        lemma_scaled_share_is_bounded(dy, max_delta, mag);
        lemma_scaled_share_is_bounded(dz, max_delta, mag);
        assert(goal.x == current.x + qx);
        assert(goal.y == current.y + qy);
        assert(goal.z == current.z + qz);
        // The step is no longer than `max_delta`.
        lemma_share_square(dx, max_delta, mag);
        lemma_share_square(dy, max_delta, mag);
        lemma_share_square(dz, max_delta, mag);
        let s = qx * qx + qy * qy + qz * qz;
        let dd = max_delta * max_delta;
        let mm = mag * mag;
        assert(s * mm <= n * dd) by (nonlinear_arith)
            requires
                qx * qx * mm <= dx * dx * dd,
                qy * qy * mm <= dy * dy * dd,
                qz * qz * mm <= dz * dz * dd,
                s == qx * qx + qy * qy + qz * qz,
                n == dx * dx + dy * dy + dz * dz,
        ;
        assert(0 <= s) by (nonlinear_arith)
            requires
                s == qx * qx + qy * qy + qz * qz,
        ;
        assert(0 <= dd && 0 < mm) by (nonlinear_arith)
            requires
                dd == max_delta * max_delta,
                mm == mag * mag,
                0 < mag,
        ;
        assert(s <= dd) by (nonlinear_arith)
            requires
                s * mm <= n * dd,
                n <= mm,
                0 < mm,
                0 <= dd,
                0 <= s,
        ;
        assert(dist_sq(current, goal) == s);
        // The step leads towards the target and falls short of it.
        lemma_closer_coordinate(current.x as int, goal.x as int, target.x as int);
        lemma_closer_coordinate(current.y as int, goal.y as int, target.y as int);
        lemma_closer_coordinate(current.z as int, goal.z as int, target.z as int);
        if dx != 0 {
            lemma_share_falls_short(dx, max_delta, mag);
        }
        if dy != 0 {
            lemma_share_falls_short(dy, max_delta, mag);
        }
        if dz != 0 {
            lemma_share_falls_short(dz, max_delta, mag);
        }
        assert(dx != 0 || dy != 0 || dz != 0) by {
            if dx == 0 && dy == 0 && dz == 0 {
                assert(n == 0);
            }
        }
        assert(goal != target);
    }
}

/// A coordinate between start and target is no further from the target than
/// the start is, and closer if it has left the start.
proof fn lemma_closer_coordinate(a: int, g: int, t: int)
    requires
        between(a, g, t),
    ensures
        (t - g) * (t - g) <= (t - a) * (t - a),
        g != a ==> (t - g) * (t - g) < (t - a) * (t - a),
{
    assert((t - g) * (t - g) <= (t - a) * (t - a)) by (nonlinear_arith)
        requires
            (a <= g <= t) || (t <= g <= a),
    ;
    if g != a {
        assert((t - g) * (t - g) < (t - a) * (t - a)) by (nonlinear_arith)
            requires
                (a < g <= t) || (t <= g < a),
        ;
    }
}

/// A target speed together with the largest acceleration to reach it with.
#[derive(Clone, Copy, Debug, PartialEq, Eq, Structural)]
pub struct MoveOrder {
    pub speed: i64,
    pub acceleration: i64,
}

/// The square of the length of the input vector.
pub open spec fn input_magnitude_sq(right: int, forward: int) -> int {
    right * right + forward * forward
}

/// The length of the input vector, cut off at one whole unit, is at least
/// `threshold`.
pub open spec fn magnitude_reaches(right: int, forward: int, threshold: int) -> bool {
    threshold <= 0 || (threshold <= SCALE && input_magnitude_sq(right, forward) >= threshold
        * threshold)
}

/// Whether the input counts as pointing forward. Only the combat perspective
/// looks at the angle between input and forward.
pub open spec fn pointing_forward(
    perspective: CharacterPerspectiveMode,
    input_forward_angle: int,
    config: CharacterControllerConfig,
) -> bool {
    perspective is ThirdPersonCombat ==> input_forward_angle
        <= config.max_sprint_forward_angle_threshold_discrete
}

/// A rung of the speed ladder.
#[derive(Clone, Copy, Debug, PartialEq, Eq, Structural)]
pub enum SpeedTier {
    Creep,
    Walk,
    Run,
    Sprint,
}

/// The rung for an input: creep when crouched; when upright, sprint and run
/// from their thresholds on while the input points forward, and walk
/// otherwise.
pub open spec fn discrete_tier(
    config: CharacterControllerConfig,
    crouch: CrouchState,
    forward_enough: bool,
    right: int,
    forward: int,
) -> SpeedTier {
    match crouch {
        CrouchState::Crouched => SpeedTier::Creep,
        CrouchState::Upright => if forward_enough && magnitude_reaches(
            right,
            forward,
            config.standing_sprint_input_threshold as int,
        ) {
            SpeedTier::Sprint
        } else if forward_enough && magnitude_reaches(
            right,
            forward,
            config.standing_run_input_threshold as int,
        ) {
            SpeedTier::Run
        } else {
            SpeedTier::Walk
        },
    }
}

/// The speed of a rung.
pub open spec fn tier_speed(config: CharacterControllerConfig, tier: SpeedTier) -> i64 {
    match tier {
        SpeedTier::Creep => config.crouched_creep_speed_discrete,
        SpeedTier::Walk => config.standing_walk_speed_discrete,
        SpeedTier::Run => config.standing_run_speed_discrete,
        SpeedTier::Sprint => config.standing_sprint_speed_discrete,
    }
}

/// The acceleration of a rung.
pub open spec fn tier_acceleration(config: CharacterControllerConfig, tier: SpeedTier) -> i64 {
    match tier {
        SpeedTier::Creep => config.crouched_creep_acceleration_discrete,
        SpeedTier::Walk => config.standing_walk_acceleration_discrete,
        SpeedTier::Run => config.standing_run_acceleration_discrete,
        SpeedTier::Sprint => config.standing_sprint_acceleration_discrete,
    }
}

/// The order for the continuous mode: the top speed and acceleration of the
/// stance.
pub open spec fn continuous_order(
    config: CharacterControllerConfig,
    crouch: CrouchState,
) -> MoveOrder {
    match crouch {
        CrouchState::Upright => MoveOrder {
            speed: config.max_standing_move_speed_continuous,
            acceleration: config.max_standing_move_acceleration_continuous,
        },
        CrouchState::Crouched => MoveOrder {
            speed: config.max_crouched_move_speed_continuous,
            acceleration: config.max_crouched_move_acceleration_continuous,
        },
    }
}

/// The order for the discrete mode: the speed and the acceleration of one
/// and the same rung.
pub open spec fn discrete_order(
    config: CharacterControllerConfig,
    crouch: CrouchState,
    perspective: CharacterPerspectiveMode,
    right: int,
    forward: int,
    input_forward_angle: int,
) -> MoveOrder {
    let tier = discrete_tier(
        config,
        crouch,
        pointing_forward(perspective, input_forward_angle, config),
        right,
        forward,
    );
    MoveOrder { speed: tier_speed(config, tier), acceleration: tier_acceleration(config, tier) }
}

fn squared_magnitude(right: i64, forward: i64) -> (sq: u128)
    ensures
        sq == input_magnitude_sq(right as int, forward as int),
{
    let r: i128 = right as i128;
    let f: i128 = forward as i128;
    assert(0 <= r * r <= 0x4000_0000_0000_0000_0000_0000_0000_0000) by (nonlinear_arith)
        requires
            -0x8000_0000_0000_0000 <= r <= 0x8000_0000_0000_0000,
    ;
    assert(0 <= f * f <= 0x4000_0000_0000_0000_0000_0000_0000_0000) by (nonlinear_arith)
        requires
            -0x8000_0000_0000_0000 <= f <= 0x8000_0000_0000_0000,
    ;
    let rr: u128 = (r * r) as u128;
    let ff: u128 = (f * f) as u128;
    rr + ff
}

fn square_of(threshold: i64) -> (sq: u128)
    requires
        0 <= threshold <= SCALE,
    ensures
        sq == threshold * threshold,
{
    let t: u128 = threshold as u128;
    assert(t * t <= 1_000_000) by (nonlinear_arith)
        requires
            0 <= t <= 1000,
    ;
    t * t
}

/// Whether the capped input magnitude is at least `threshold`.
pub fn input_reaches(right: i64, forward: i64, threshold: i64) -> (reached: bool)
    ensures
        reached == magnitude_reaches(right as int, forward as int, threshold as int),
{
    if threshold <= 0 {
        true
    } else if threshold > SCALE {
        false
    } else {
        squared_magnitude(right, forward) >= square_of(threshold)
    }
}

/// The target speed and acceleration cap in the continuous mode.
pub fn continuous_move_order(config: &CharacterControllerConfig, crouch: CrouchState) -> (order:
    MoveOrder)
    ensures
        order == continuous_order(*config, crouch),
{
    match crouch {
        CrouchState::Upright => MoveOrder {
            speed: config.max_standing_move_speed_continuous,
            acceleration: config.max_standing_move_acceleration_continuous,
        },
        CrouchState::Crouched => MoveOrder {
            speed: config.max_crouched_move_speed_continuous,
            acceleration: config.max_crouched_move_acceleration_continuous,
        },
    }
}

/// The rung of the speed ladder for the input `(right, forward)`.
pub fn discrete_speed_tier(
    config: &CharacterControllerConfig,
    crouch: CrouchState,
    forward_enough: bool,
    right: i64,
    forward: i64,
) -> (tier: SpeedTier)
    ensures
        tier == discrete_tier(*config, crouch, forward_enough, right as int, forward as int),
{
    match crouch {
        CrouchState::Crouched => SpeedTier::Creep,
        CrouchState::Upright => {
            if forward_enough && input_reaches(
                right,
                forward,
                config.standing_sprint_input_threshold,
            ) {
                SpeedTier::Sprint
            } else if forward_enough && input_reaches(
                right,
                forward,
                config.standing_run_input_threshold,
            ) {
                SpeedTier::Run
            } else {
                SpeedTier::Walk
            }
        },
    }
}

/// The target speed and acceleration cap in the discrete mode, for the input
/// `(right, forward)` that makes the angle `input_forward_angle` with the
/// forward direction.
pub fn discrete_move_order(
    config: &CharacterControllerConfig,
    crouch: CrouchState,
    perspective: CharacterPerspectiveMode,
    right: i64,
    forward: i64,
    input_forward_angle: i64,
) -> (order: MoveOrder)
    ensures
        order == discrete_order(
            *config,
            crouch,
            perspective,
            right as int,
            forward as int,
            input_forward_angle as int,
        ),
{
    let forward_enough = match perspective {
        CharacterPerspectiveMode::ThirdPersonCombat => input_forward_angle
            <= config.max_sprint_forward_angle_threshold_discrete,
        _ => true,
    };
    match discrete_speed_tier(config, crouch, forward_enough, right, forward) {
        SpeedTier::Creep => MoveOrder {
            speed: config.crouched_creep_speed_discrete,
            acceleration: config.crouched_creep_acceleration_discrete,
        },
        SpeedTier::Walk => MoveOrder {
            speed: config.standing_walk_speed_discrete,
            acceleration: config.standing_walk_acceleration_discrete,
        },
        SpeedTier::Run => MoveOrder {
            speed: config.standing_run_speed_discrete,
            acceleration: config.standing_run_acceleration_discrete,
        },
        SpeedTier::Sprint => MoveOrder {
            speed: config.standing_sprint_speed_discrete,
            acceleration: config.standing_sprint_acceleration_discrete,
        },
    }
}

/// The largest change of speed that `acceleration` brings about in
/// `delta_nanos` nanoseconds.
pub open spec fn speed_step(acceleration: int, delta_nanos: int) -> i64 {
    clamp_i64(div_toward_zero(acceleration * delta_nanos, 1_000_000_000))
}

/// The largest change of speed that `acceleration` brings about in
/// `delta_nanos` nanoseconds.
pub fn max_speed_step(acceleration: i64, delta_nanos: u64) -> (step: i64)
    ensures
        step == speed_step(acceleration as int, delta_nanos as int),
{
    let a: i128 = acceleration as i128;
    let d: i128 = delta_nanos as i128;
    assert(-0x8000_0000_0000_0000 * 0xffff_ffff_ffff_ffff <= a * d <= 0x7fff_ffff_ffff_ffff
        * 0xffff_ffff_ffff_ffff) by (nonlinear_arith)
        requires
            -0x8000_0000_0000_0000 <= a <= 0x7fff_ffff_ffff_ffff,
            0 <= d <= 0xffff_ffff_ffff_ffff,
    ;
    let product: i128 = a * d;
    clamp_to_i64(product / 1_000_000_000)
}

/// A full input straight ahead asks for the sprint rung, speed and
/// acceleration alike, and no input at all asks for the walk rung.
pub proof fn lemma_full_input_sprints(
    config: CharacterControllerConfig,
    perspective: CharacterPerspectiveMode,
    forward: int,
)
    requires
        forward == SCALE || forward == -SCALE,
        config.standing_sprint_input_threshold <= SCALE,
        0 <= config.max_sprint_forward_angle_threshold_discrete,
    ensures
        discrete_order(config, CrouchState::Upright, perspective, 0, forward, 0) == (MoveOrder {
            speed: config.standing_sprint_speed_discrete,
            acceleration: config.standing_sprint_acceleration_discrete,
        }),
        0 < config.standing_run_input_threshold && 0 < config.standing_sprint_input_threshold
            ==> discrete_order(config, CrouchState::Upright, perspective, 0, 0, 0) == (MoveOrder {
            speed: config.standing_walk_speed_discrete,
            acceleration: config.standing_walk_acceleration_discrete,
        }),
{
    let t = config.standing_sprint_input_threshold as int;
    if t > 0 {
        assert(t * t <= SCALE * SCALE) by (nonlinear_arith)
            requires
                0 < t <= SCALE,
        ;
        assert(forward * forward == SCALE * SCALE) by (nonlinear_arith)
            requires
                forward == SCALE || forward == -SCALE,
        ;
    }
    let r = config.standing_run_input_threshold as int;
    if r > 0 && t > 0 {
        assert(r * r > 0) by (nonlinear_arith)
            requires
                r > 0,
        ;
        assert(t * t > 0) by (nonlinear_arith)
            requires
                t > 0,
        ;
    }
}

/// Speed and acceleration always come from the same rung of the ladder.
pub proof fn lemma_ladder_matches(
    config: CharacterControllerConfig,
    crouch: CrouchState,
    perspective: CharacterPerspectiveMode,
    right: int,
    forward: int,
    input_forward_angle: int,
)
    ensures
        exists|tier: SpeedTier|
            discrete_order(config, crouch, perspective, right, forward, input_forward_angle) == (
            MoveOrder {
                speed: #[trigger] tier_speed(config, tier),
                acceleration: tier_acceleration(config, tier),
            }),
{
    let tier = discrete_tier(
        config,
        crouch,
        pointing_forward(perspective, input_forward_angle, config),
        right,
        forward,
    );
    assert(discrete_order(config, crouch, perspective, right, forward, input_forward_angle) == (
    MoveOrder { speed: tier_speed(config, tier), acceleration: tier_acceleration(config, tier) }));
}

/// The inner product of `a` and `b`.
pub open spec fn dot(a: Vec3, b: Vec3) -> int {
    a.x * b.x + a.y * b.y + a.z * b.z
}

/// One coordinate of a vector laid onto a plane: the coordinate `v` less the
/// share of the normal's coordinate `n` that the vector has along the normal.
pub open spec fn plane_component(v: int, n: int, along: int, normal_sq: int) -> i64 {
    clamp_i64(v - div_toward_zero(n * along, normal_sq))
}

/// `vector` laid onto the plane through the origin with the normal
/// `plane_normal`: what is left of it once its part along the normal is taken
/// away. A normal without length takes nothing away.
pub open spec fn project_on_plane_spec(vector: Vec3, plane_normal: Vec3) -> Vec3 {
    let normal_sq = dot(plane_normal, plane_normal);
    if normal_sq == 0 {
        vector
    } else {
        let along = dot(vector, plane_normal);
        Vec3 {
            x: plane_component(vector.x as int, plane_normal.x as int, along, normal_sq),
            y: plane_component(vector.y as int, plane_normal.y as int, along, normal_sq),
            z: plane_component(vector.z as int, plane_normal.z as int, along, normal_sq),
        }
    }
}

proof fn lemma_product_bound(a: int, b: int, m: int, n: int)
    requires
        -m <= a <= m,
        -n <= b <= n,
    ensures
        -(m * n) <= a * b <= m * n,
{
    assert(-(m * n) <= a * b <= m * n) by (nonlinear_arith)
        requires
            -m <= a <= m,
            -n <= b <= n,
    ;
}

fn dot_product(a: &Vec3, b: &Vec3) -> (d: i128)
    requires
        a.bounded(),
        b.bounded(),
    ensures
        d == dot(*a, *b),
        -3_000_000_000_000_000_000_000_000 <= d <= 3_000_000_000_000_000_000_000_000,
{
    proof {
        let m = MAX_COORDINATE as int;
        lemma_product_bound(a.x as int, b.x as int, m, m);
        lemma_product_bound(a.y as int, b.y as int, m, m);
        lemma_product_bound(a.z as int, b.z as int, m, m);
        assert(m * m == 1_000_000_000_000_000_000_000_000) by (nonlinear_arith)
            requires
                m == 1_000_000_000_000,
        ;
    }
    let x: i128 = a.x as i128 * b.x as i128;
    let y: i128 = a.y as i128 * b.y as i128;
    let z: i128 = a.z as i128 * b.z as i128;
    x + y + z
}

fn plane_part(v: i64, n: i64, along: i128, normal_sq: i128) -> (r: i64)
    requires
        -MAX_COORDINATE <= n <= MAX_COORDINATE,
        -3_000_000_000_000_000_000_000_000 <= along <= 3_000_000_000_000_000_000_000_000,
        0 < normal_sq,
    ensures
        r == plane_component(v as int, n as int, along as int, normal_sq as int),
{
    proof {
        lemma_product_bound(
            n as int,
            along as int,
            MAX_COORDINATE as int,
            3_000_000_000_000_000_000_000_000,
        );
        assert(1_000_000_000_000 * 3_000_000_000_000_000_000_000_000
            == 3_000_000_000_000_000_000_000_000_000_000_000_000) by (nonlinear_arith);
    }
    let product: i128 = n as i128 * along;
    let share: i128 = product / normal_sq;
    proof {
        let p = product as int;
        let q = normal_sq as int;
        if p >= 0 {
            assert(0 <= p / q <= p) by (nonlinear_arith)
                requires
                    0 <= p,
                    0 < q,
            ;
        } else {
            assert(0 <= (-p) / q <= -p) by (nonlinear_arith)
                requires
                    0 <= -p,
                    0 < q,
            ;
        }
    }
    clamp_to_i64(v as i128 - share)
}

/// Lays `vector` onto the plane with the normal `plane_normal`.
pub fn project_on_plane(vector: &Vec3, plane_normal: &Vec3) -> (projected: Vec3)
    requires
        vector.bounded(),
        plane_normal.bounded(),
    ensures
        projected == project_on_plane_spec(*vector, *plane_normal),
{
    let normal_sq = dot_product(plane_normal, plane_normal);
    if normal_sq == 0 {
        return *vector;
    }
    proof {
        let n = *plane_normal;
        assert(n.x * n.x >= 0 && n.y * n.y >= 0 && n.z * n.z >= 0) by (nonlinear_arith);
    }
    let along = dot_product(vector, plane_normal);
    Vec3 {
        x: plane_part(vector.x, plane_normal.x, along, normal_sq),
        y: plane_part(vector.y, plane_normal.y, along, normal_sq),
        z: plane_part(vector.z, plane_normal.z, along, normal_sq),
    }
}

/// The velocity the body is to head for: on the ground, the wished velocity
/// laid onto the ground; in the air, the wished velocity with the vertical
/// speed the body has.
pub open spec fn target_velocity(wished: Vec3, current: Vec3, ground_normal: Option<Vec3>) -> Vec3 {
    match ground_normal {
        Some(normal) => project_on_plane_spec(wished, normal),
        None => Vec3 { x: wished.x, y: current.y, z: wished.z },
    }
}

/// The change of velocity for one frame: the step from `current` towards
/// the target velocity that `acceleration` allows in `delta_nanos`
/// nanoseconds, as a difference to `current`. Nothing is known of it where a
/// vector lies outside the range of the arithmetic.
pub open spec fn velocity_change(
    current: Vec3,
    wished: Vec3,
    ground_normal: Option<Vec3>,
    acceleration: i64,
    delta_nanos: u64,
) -> Option<Vec3> {
    let target = target_velocity(wished, current, ground_normal);
    if current.bounded() && wished.bounded() && (ground_normal is Some
        ==> ground_normal->0.bounded()) && target.bounded() {
        let goal = move_towards_spec(
            current,
            target,
            speed_step(acceleration as int, delta_nanos as int) as int,
        );
        Some(
            Vec3 {
                x: clamp_i64(goal.x - current.x),
                y: clamp_i64(goal.y - current.y),
                z: clamp_i64(goal.z - current.z),
            },
        )
    } else {
        None
    }
}

/// The change of velocity that moves a body with the velocity `current`
/// towards the velocity `wished` under the cap `acceleration` during
/// `delta_nanos` nanoseconds. `wished` is the target velocity in world space,
/// before it is laid onto the ground. The result times the body's mass is the
/// impulse to apply. There is none where a vector lies outside the range of
/// the arithmetic.
pub fn move_body(
    current: &Vec3,
    wished: &Vec3,
    ground_normal: Option<Vec3>,
    acceleration: i64,
    delta_nanos: u64,
) -> (change: Option<Vec3>)
    ensures
        change == velocity_change(*current, *wished, ground_normal, acceleration, delta_nanos),
{
    if !current.is_bounded() || !wished.is_bounded() {
        return None;
    }
    let target = match ground_normal {
        Some(normal) => {
            if !normal.is_bounded() {
                return None;
            }
            project_on_plane(wished, &normal)
        },
        None => Vec3 { x: wished.x, y: current.y, z: wished.z },
    };
    if !target.is_bounded() {
        return None;
    }
    let goal = move_towards(current, &target, max_speed_step(acceleration, delta_nanos));
    Some(
        Vec3 {
            x: clamp_to_i64(goal.x as i128 - current.x as i128),
            y: clamp_to_i64(goal.y as i128 - current.y as i128),
            z: clamp_to_i64(goal.z as i128 - current.z as i128),
        },
    )
}

/// The body never gains more speed in a frame than the acceleration cap
/// allows, and never passes its target.
///
/// With an acceleration that is not negative, the change of velocity is no
/// longer than the step, and the step is no more than the acceleration times
/// the frame's time. The velocity after the change lies, coordinate by
/// coordinate, between the velocity before and the target; it is no further
/// from the target, and strictly closer whenever the velocity changes at
/// all. The target is reached exactly when it lies within the step, which is
/// counted in whole thousandths, and only then.
pub proof fn lemma_velocity_change_is_capped(
    current: Vec3,
    wished: Vec3,
    ground_normal: Option<Vec3>,
    acceleration: i64,
    delta_nanos: u64,
)
    requires
        0 <= acceleration,
        velocity_change(current, wished, ground_normal, acceleration, delta_nanos) is Some,
    ensures
        ({
            let change = velocity_change(
                current,
                wished,
                ground_normal,
                acceleration,
                delta_nanos,
            )->0;
            let target = target_velocity(wished, current, ground_normal);
            let step = speed_step(acceleration as int, delta_nanos as int) as int;
            let after = Vec3 {
                x: (current.x + change.x) as i64,
                y: (current.y + change.y) as i64,
                z: (current.z + change.z) as i64,
            };
            &&& after == move_towards_spec(current, target, step)
            &&& 0 <= step
            &&& step * 1_000_000_000 <= acceleration * delta_nanos
            &&& dot(change, change) <= step * step
            &&& between(current.x as int, after.x as int, target.x as int)
            &&& between(current.y as int, after.y as int, target.y as int)
            &&& between(current.z as int, after.z as int, target.z as int)
            &&& dist_sq(after, target) <= dist_sq(current, target)
            &&& after != current ==> dist_sq(after, target) < dist_sq(current, target)
            &&& after == target <==> dist_sq(current, target) <= step * step
        }),
{
    let target = target_velocity(wished, current, ground_normal);
    let a = acceleration as int;
    let d = delta_nanos as int;
    assert(0 <= a * d) by (nonlinear_arith)
        requires
            0 <= a,
            0 <= d,
    ;
    let step = speed_step(a, d) as int;
    assert(0 <= step);
    assert(step * 1_000_000_000 <= a * d) by {
        let q = (a * d) / 1_000_000_000;
        assert(q * 1_000_000_000 <= a * d) by (nonlinear_arith)
            requires
                q == (a * d) / 1_000_000_000,
                0 <= a * d,
        ;
        assert(0 <= step <= q);
    }
    lemma_move_towards_never_overshoots(current, target, step);
    assert(0 <= step * step) by (nonlinear_arith);
    let goal = move_towards_spec(current, target, step);
    let change = velocity_change(current, wished, ground_normal, acceleration, delta_nanos)->0;
    assert(change.x == goal.x - current.x);
    assert(change.y == goal.y - current.y);
    assert(change.z == goal.z - current.z);
    assert(dot(change, change) == dist_sq(current, goal));
}

/// The ladder never answers more input with less speed: where walk, run and
/// sprint are ordered by speed and the run threshold does not lie above the
/// sprint threshold, an input of greater length in the same direction gets a
/// speed at least as high.
pub proof fn lemma_ladder_is_monotonic(
    config: CharacterControllerConfig,
    crouch: CrouchState,
    forward_enough: bool,
    right1: int,
    forward1: int,
    right2: int,
    forward2: int,
)
    requires
        config.standing_walk_speed_discrete <= config.standing_run_speed_discrete
            <= config.standing_sprint_speed_discrete,
        config.standing_run_input_threshold <= config.standing_sprint_input_threshold,
        input_magnitude_sq(right1, forward1) <= input_magnitude_sq(right2, forward2),
    ensures
        tier_speed(config, discrete_tier(config, crouch, forward_enough, right1, forward1))
            <= tier_speed(config, discrete_tier(config, crouch, forward_enough, right2, forward2)),
{
    let r = config.standing_run_input_threshold as int;
    let s = config.standing_sprint_input_threshold as int;
    if 0 < r && r <= s {
        assert(r * r <= s * s) by (nonlinear_arith)
            requires
                0 < r <= s,
        ;
    }
}

} // verus!
