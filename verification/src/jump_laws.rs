//! What holds of the direction of a jump.

use vstd::prelude::*;
use crate::config::CharacterControllerConfig;
use crate::math::{div_nearest, div_toward_zero, lemma_div_nearest_is_near};
use crate::transitions::{
    jump_component,
    jump_vector_spec,
    jump_weight,
    normal_weight,
    up_forward,
    up_forward_weight,
    wall_normal_of,
};
use crate::utils::WallRunning;
use crate::vectors::Vec3;

verus! {

/// The largest weight and the largest size of a normal's coordinate for
/// which the laws of this file are stated: a thousand whole units.
pub const MAX_WEIGHT: i64 = 1_000_000;

/// The largest strength for which the laws of this file are stated: a
/// million whole units.
pub const MAX_STRENGTH: i64 = 1_000_000_000;

/// What one coordinate of a jump would be without rounding, in
/// million-million-millionths: the strength times the weighted sum of the
/// normal's coordinate `normal` and the direction's coordinate `direction`.
pub open spec fn exact_component(
    normal: int,
    direction: int,
    normal_scale: int,
    up_forward_scale: int,
    strength: int,
) -> int {
    strength * (1_000_000 * (normal * normal_scale) + direction * up_forward_scale)
}

/// How far a coordinate of a jump may lie from what it would be without
/// rounding, in the parts of [`exact_component`]: half a thousandth, and a
/// millionth of the strength.
pub open spec fn rounding_bound(strength: int) -> int {
    500_000_000_000 + 1_000_000 * if strength >= 0 {
        strength
    } else {
        -strength
    }
}

/// One coordinate of a jump is the strength times the weighted sum of the
/// normal and the up-and-forward direction, to within the rounding bound.
pub proof fn lemma_component_is_exact_to_rounding(
    normal: int,
    direction: int,
    normal_scale: int,
    up_forward_scale: int,
    strength: int,
)
    requires
        -MAX_WEIGHT <= normal <= MAX_WEIGHT,
        -MAX_WEIGHT <= normal_scale <= MAX_WEIGHT,
        -MAX_WEIGHT <= up_forward_scale <= MAX_WEIGHT,
        -1_000_000_000 <= direction <= 1_000_000_000,
        -MAX_STRENGTH <= strength <= MAX_STRENGTH,
    ensures
        ({
            let weight = jump_weight(normal, direction, normal_scale, up_forward_scale);
            let part = jump_component(weight as int, strength);
            let exact = exact_component(
                normal,
                direction,
                normal_scale,
                up_forward_scale,
                strength,
            );
            &&& -rounding_bound(strength) <= 1_000_000_000_000 * part - exact <= rounding_bound(
                strength,
            )
            &&& weight == normal * normal_scale + div_toward_zero(
                direction * up_forward_scale,
                1_000_000,
            )
            &&& part == div_nearest(weight * strength, 1_000_000)
        }),
{
    let ns = normal * normal_scale;
    let du = direction * up_forward_scale;
    assert(-1_000_000_000_000 <= ns <= 1_000_000_000_000) by (nonlinear_arith)
        requires
            ns == normal * normal_scale,
            -1_000_000 <= normal <= 1_000_000,
            -1_000_000 <= normal_scale <= 1_000_000,
    ;
    assert(-1_000_000_000_000_000 <= du <= 1_000_000_000_000_000) by (nonlinear_arith)
        requires
            du == direction * up_forward_scale,
            -1_000_000_000 <= direction <= 1_000_000_000,
            -1_000_000 <= up_forward_scale <= 1_000_000,
    ;
    let t = div_toward_zero(du, 1_000_000);
    // The share of the direction is off by less than one millionth.
    assert(-1_000_000 < 1_000_000 * t - du < 1_000_000 && -1_000_000_000 <= t <= 1_000_000_000)
        by {
        if du >= 0 {
            assert(0 <= du - (du / 1_000_000) * 1_000_000 < 1_000_000 && du / 1_000_000
                <= 1_000_000_000) by (nonlinear_arith)
                requires
                    0 <= du <= 1_000_000_000_000_000,
            ;
        } else {
            let p = (-du) / 1_000_000;
            assert(0 <= -du - p * 1_000_000 < 1_000_000 && p <= 1_000_000_000 && p >= 0)
                by (nonlinear_arith)
                requires
                    p == (-du) / 1_000_000,
                    0 <= -du <= 1_000_000_000_000_000,
            ;
        }
    }
    let w = ns + t;
    let weight = jump_weight(normal, direction, normal_scale, up_forward_scale);
    assert(weight == w);
    let wa = w * strength;
    assert(-1_001_000_000_000 * 1_000_000_000 <= wa <= 1_001_000_000_000 * 1_000_000_000)
        by (nonlinear_arith)
        requires
            wa == w * strength,
            -1_001_000_000_000 <= w <= 1_001_000_000_000,
            -1_000_000_000 <= strength <= 1_000_000_000,
    ;
    let q = div_nearest(wa, 1_000_000);
    lemma_div_nearest_is_near(wa, 1_000_000);
    assert(-1_002_000_000_000_000 <= q <= 1_002_000_000_000_000);
    let part = jump_component(weight as int, strength);
    assert(part == q);
    // Put the two roundings together.
    let exact = exact_component(normal, direction, normal_scale, up_forward_scale, strength);
    let e1 = 1_000_000 * q - wa;
    let e2 = 1_000_000 * t - du;
    assert(1_000_000_000_000 * q - exact == 1_000_000 * e1 + strength * e2) by (nonlinear_arith)
        requires
            e1 == 1_000_000 * q - wa,
            e2 == 1_000_000 * t - du,
            wa == (ns + t) * strength,
            exact == strength * (1_000_000 * ns + du),
    ;
    assert(-500_000 <= e1 <= 500_000);
    let size = if strength >= 0 {
        strength
    } else {
        -strength
    };
    assert(-(1_000_000 * size) <= strength * e2 <= 1_000_000 * size) by (nonlinear_arith)
        requires
            -1_000_000 < e2 < 1_000_000,
            size == if strength >= 0 {
                strength
            } else {
                -strength
            },
    ;
}

/// A jump off a wall rises: where the wall's normal does not point down and
/// the weights are not negative, the jump's vertical part is positive as
/// soon as the strength times the weight of the up-and-forward direction is
/// at least one whole.
pub proof fn lemma_wall_jump_rises(config: CharacterControllerConfig, normal: Vec3, strength: i64)
    requires
        0 <= normal.y <= MAX_WEIGHT,
        0 <= config.jump_wallrunning_normal_scale <= MAX_WEIGHT,
        0 < config.jump_wallrunning_scale <= MAX_WEIGHT,
        0 < strength <= MAX_STRENGTH,
        strength * config.jump_wallrunning_scale >= 1_000_000,
    ensures
        jump_vector_spec(config, WallRunning::OnRight(normal), strength).y > 0,
        jump_vector_spec(config, WallRunning::OnLeft(normal), strength).y > 0,
{
    let s = config.jump_wallrunning_normal_scale as int;
    let k = config.jump_wallrunning_scale as int;
    let a = strength as int;
    let u = up_forward().y as int;
    lemma_component_is_exact_to_rounding(normal.y as int, u, s, k, a);
    let part = jump_component(jump_weight(normal.y as int, u, s, k) as int, a);
    let exact = exact_component(normal.y as int, u, s, k, a);
    let ak = a * k;
    assert(exact >= 894_427_191 * ak) by (nonlinear_arith)
        requires
            exact == a * (1_000_000 * (normal.y * s) + 894_427_191 * k),
            ak == a * k,
            0 <= normal.y,
            0 <= s,
            0 < a,
    ;
    assert(a <= ak) by (nonlinear_arith)
        requires
            ak == a * k,
            0 < a,
            1 <= k,
    ;
    // 894 whole parts and more against a rounding of half a part and a
    // millionth of the strength.
    assert(1_000_000_000_000 * part >= exact - rounding_bound(a));
    assert(exact - rounding_bound(a) > 0);
    assert(jump_vector_spec(config, WallRunning::OnRight(normal), strength).y == part);
    assert(jump_vector_spec(config, WallRunning::OnLeft(normal), strength).y == part);
}

/// The inner product of a vector with the up-and-forward direction.
pub open spec fn along_up_forward(v: Vec3) -> int {
    v.x * up_forward().x + v.y * up_forward().y + v.z * up_forward().z
}

/// The inner product of two vectors.
pub open spec fn inner(a: Vec3, b: Vec3) -> int {
    a.x * b.x + a.y * b.y + a.z * b.z
}

/// A normal no longer than one whole has at most one whole along the
/// up-and-forward direction, either way.
proof fn lemma_normal_along_up_forward(normal: Vec3)
    requires
        inner(normal, normal) <= 1_000_000,
    ensures
        -1_000_000_000_000 <= along_up_forward(normal) <= 1_000_000_000_000,
{
    let ny = normal.y as int;
    let nz = normal.z as int;
    let nx = normal.x as int;
    let l = along_up_forward(normal);
    let n2 = ny * ny + nz * nz;
    assert(nx * nx >= 0 && ny * ny >= 0 && nz * nz >= 0) by (nonlinear_arith);
    assert(0 <= n2 <= 1_000_000);
    assert(up_forward().x == 0);
    assert(up_forward().y == 894_427_191);
    assert(up_forward().z == -447_213_595);
    assert(l == nx * 0 + ny * 894_427_191 + nz * (-447_213_595));
    assert(l == 894_427_191 * ny - 447_213_595 * nz);
    let cross = 894_427_191 * nz + 447_213_595 * ny;
    assert(l * l + cross * cross == 999_999_999_552_974_506 * n2) by (nonlinear_arith)
        requires
            l == 894_427_191 * ny - 447_213_595 * nz,
            cross == 894_427_191 * nz + 447_213_595 * ny,
            n2 == ny * ny + nz * nz,
    ;
    assert(cross * cross >= 0) by (nonlinear_arith);
    assert(999_999_999_552_974_506 * n2 <= 1_000_000_000_000_000_000_000_000)
        by (nonlinear_arith)
        requires
            0 <= n2 <= 1_000_000,
    ;
    assert(l * l <= 1_000_000_000_000_000_000_000_000);
    if l > 1_000_000_000_000 {
        assert(l * l > 1_000_000_000_000_000_000_000_000) by (nonlinear_arith)
            requires
                l > 1_000_000_000_000,
        ;
    }
    if l < -1_000_000_000_000 {
        assert(l * l > 1_000_000_000_000_000_000_000_000) by (nonlinear_arith)
            requires
                l < -1_000_000_000_000,
        ;
    }
}

/// A jump off a wall leads up and forward: where the wall's normal is no
/// longer than one whole, the up-and-forward direction weighs more than the
/// normal, and the strength is at least one whole, the jump has a positive
/// part along the up-and-forward direction.
pub proof fn lemma_wall_jump_leads_up_forward(
    config: CharacterControllerConfig,
    wallrunning: WallRunning,
    strength: i64,
)
    requires
        !(wallrunning is OffWall),
        inner(wall_normal_of(wallrunning), wall_normal_of(wallrunning)) <= 1_000_000,
        0 <= config.jump_wallrunning_normal_scale < config.jump_wallrunning_scale <= MAX_WEIGHT,
        1000 <= strength <= MAX_STRENGTH,
    ensures
        along_up_forward(jump_vector_spec(config, wallrunning, strength)) > 0,
{
    let normal = wall_normal_of(wallrunning);
    let s = config.jump_wallrunning_normal_scale as int;
    let k = config.jump_wallrunning_scale as int;
    let a = strength as int;
    let uy = up_forward().y as int;
    let uz = up_forward().z as int;
    let nx = normal.x as int;
    let ny = normal.y as int;
    let nz = normal.z as int;
    assert(nx * nx >= 0 && ny * ny >= 0 && nz * nz >= 0) by (nonlinear_arith);
    assert(-1000 <= ny <= 1000) by (nonlinear_arith)
        requires
            ny * ny <= 1_000_000,
    ;
    assert(-1000 <= nz <= 1000) by (nonlinear_arith)
        requires
            nz * nz <= 1_000_000,
    ;
    assert(normal_weight(config, wallrunning) == s);
    assert(up_forward_weight(config, wallrunning) == k);
    lemma_component_is_exact_to_rounding(ny, uy, s, k, a);
    lemma_component_is_exact_to_rounding(nz, uz, s, k, a);
    let v = jump_vector_spec(config, wallrunning, strength);
    let vy = v.y as int;
    let vz = v.z as int;
    assert(vy == jump_component(jump_weight(ny, uy, s, k) as int, a));
    assert(vz == jump_component(jump_weight(nz, uz, s, k) as int, a));
    let ey = exact_component(ny, uy, s, k, a);
    let ez = exact_component(nz, uz, s, k, a);
    let b = rounding_bound(a);
    assert(b == 500_000_000_000 + 1_000_000 * a);
    let py = 1_000_000_000_000 * vy;
    let pz = 1_000_000_000_000 * vz;
    assert(py >= ey - b);
    assert(pz <= ez + b);
    // The parts along the direction, with the rounding against them.
    assert(894_427_191 * py >= 894_427_191 * (ey - b)) by (nonlinear_arith)
        requires
            py >= ey - b,
    ;
    assert(-447_213_595 * pz >= -447_213_595 * (ez + b)) by (nonlinear_arith)
        requires
            pz <= ez + b,
    ;
    let l = along_up_forward(normal);
    lemma_normal_along_up_forward(normal);
    assert(up_forward().x == 0 && uy == 894_427_191 && uz == -447_213_595);
    assert(l == nx * 0 + ny * 894_427_191 + nz * (-447_213_595));
    assert(l == 894_427_191 * ny - 447_213_595 * nz);
    let sum = 894_427_191 * ey - 447_213_595 * ez;
    let sl = s * l;
    assert(sum == a * (1_000_000 * sl + k * 999_999_999_552_974_506)) by (nonlinear_arith)
        requires
            sum == 894_427_191 * ey - 447_213_595 * ez,
            ey == a * (1_000_000 * (ny * s) + 894_427_191 * k),
            ez == a * (1_000_000 * (nz * s) + (-447_213_595) * k),
            sl == s * (894_427_191 * ny - 447_213_595 * nz),
    ;
    assert(sl >= -(1_000_000_000_000 * s)) by (nonlinear_arith)
        requires
            sl == s * l,
            0 <= s,
            l >= -1_000_000_000_000,
    ;
    let inside = 1_000_000 * sl + k * 999_999_999_552_974_506;
    assert(inside >= 998_000_000_000_000_000) by (nonlinear_arith)
        requires
            inside == 1_000_000 * sl + k * 999_999_999_552_974_506,
            sl >= -(1_000_000_000_000 * s),
            0 <= s,
            s + 1 <= k,
            k <= 1_000_000,
    ;
    assert(sum >= a * 998_000_000_000_000_000) by (nonlinear_arith)
        requires
            sum == a * inside,
            inside >= 998_000_000_000_000_000,
            0 < a,
    ;
    let whole = 894_427_191 * py - 447_213_595 * pz;
    assert(whole >= sum - 1_341_640_786 * b);
    assert(whole > 0) by (nonlinear_arith)
        requires
            whole >= sum - 1_341_640_786 * b,
            sum >= a * 998_000_000_000_000_000,
            b == 500_000_000_000 + 1_000_000 * a,
            1000 <= a,
    ;
    let d = along_up_forward(v);
    assert(whole == 1_000_000_000_000 * d) by (nonlinear_arith)
        requires
            whole == 894_427_191 * py - 447_213_595 * pz,
            py == 1_000_000_000_000 * vy,
            pz == 1_000_000_000_000 * vz,
            d == v.x * 0 + vy * 894_427_191 + vz * (-447_213_595),
    ;
}

/// A coordinate of size up to one whole times a value known to within `b`
/// is known to within a thousand times `b`.
proof fn lemma_weighted_part(n: int, p: int, e: int, b: int)
    requires
        -1000 <= n <= 1000,
        e - b <= p <= e + b,
        0 <= b,
    ensures
        n * p >= n * e - 1000 * b,
{
    if n >= 0 {
        assert(n * p >= n * e - 1000 * b) by (nonlinear_arith)
            requires
                0 <= n <= 1000,
                p >= e - b,
                0 <= b,
        ;
    } else {
        assert(n * p >= n * e - 1000 * b) by (nonlinear_arith)
            requires
                -1000 <= n < 0,
                p <= e + b,
                0 <= b,
        ;
    }
}

/// A jump off a wall leads away from the wall: where the wall's normal is
/// between half a whole and one whole long and does not point against the
/// up-and-forward direction, the weights are not negative, and the strength
/// times the weight of the normal is at least a hundredth, the jump has a
/// positive part along the wall's normal.
pub proof fn lemma_wall_jump_leads_off_the_wall(
    config: CharacterControllerConfig,
    wallrunning: WallRunning,
    strength: i64,
)
    requires
        !(wallrunning is OffWall),
        250_000 <= inner(wall_normal_of(wallrunning), wall_normal_of(wallrunning)) <= 1_000_000,
        along_up_forward(wall_normal_of(wallrunning)) >= 0,
        0 < config.jump_wallrunning_normal_scale <= MAX_WEIGHT,
        0 <= config.jump_wallrunning_scale <= MAX_WEIGHT,
        0 < strength <= MAX_STRENGTH,
        strength * config.jump_wallrunning_normal_scale >= 10_000,
    ensures
        inner(jump_vector_spec(config, wallrunning, strength), wall_normal_of(wallrunning)) > 0,
{
    let normal = wall_normal_of(wallrunning);
    let s = config.jump_wallrunning_normal_scale as int;
    let k = config.jump_wallrunning_scale as int;
    let a = strength as int;
    let ux = up_forward().x as int;
    let uy = up_forward().y as int;
    let uz = up_forward().z as int;
    let nx = normal.x as int;
    let ny = normal.y as int;
    let nz = normal.z as int;
    assert(ux == 0 && uy == 894_427_191 && uz == -447_213_595);
    assert(nx * nx >= 0 && ny * ny >= 0 && nz * nz >= 0) by (nonlinear_arith);
    assert(-1000 <= nx <= 1000) by (nonlinear_arith)
        requires
            nx * nx <= 1_000_000,
    ;
    assert(-1000 <= ny <= 1000) by (nonlinear_arith)
        requires
            ny * ny <= 1_000_000,
    ;
    assert(-1000 <= nz <= 1000) by (nonlinear_arith)
        requires
            nz * nz <= 1_000_000,
    ;
    assert(normal_weight(config, wallrunning) == s);
    assert(up_forward_weight(config, wallrunning) == k);
    lemma_component_is_exact_to_rounding(nx, ux, s, k, a);
    lemma_component_is_exact_to_rounding(ny, uy, s, k, a);
    lemma_component_is_exact_to_rounding(nz, uz, s, k, a);
    let v = jump_vector_spec(config, wallrunning, strength);
    let vx = v.x as int;
    let vy = v.y as int;
    let vz = v.z as int;
    assert(vx == jump_component(jump_weight(nx, ux, s, k) as int, a));
    assert(vy == jump_component(jump_weight(ny, uy, s, k) as int, a));
    assert(vz == jump_component(jump_weight(nz, uz, s, k) as int, a));
    let ex = exact_component(nx, ux, s, k, a);
    let ey = exact_component(ny, uy, s, k, a);
    let ez = exact_component(nz, uz, s, k, a);
    let b = rounding_bound(a);
    assert(b == 500_000_000_000 + 1_000_000 * a);
    let px = 1_000_000_000_000 * vx;
    let py = 1_000_000_000_000 * vy;
    let pz = 1_000_000_000_000 * vz;
    lemma_weighted_part(nx, px, ex, b);
    lemma_weighted_part(ny, py, ey, b);
    lemma_weighted_part(nz, pz, ez, b);
    let n2 = inner(normal, normal);
    let l = along_up_forward(normal);
    assert(l == nx * 0 + ny * 894_427_191 + nz * (-447_213_595));
    let sa = a * s;
    let ak = a * k;
    assert(ex == 1_000_000 * (nx * sa)) by (nonlinear_arith)
        requires
            ex == a * (1_000_000 * (nx * s) + 0 * k),
            sa == a * s,
    ;
    assert(ey == 1_000_000 * (ny * sa) + 894_427_191 * ak) by (nonlinear_arith)
        requires
            ey == a * (1_000_000 * (ny * s) + 894_427_191 * k),
            sa == a * s,
            ak == a * k,
    ;
    assert(ez == 1_000_000 * (nz * sa) - 447_213_595 * ak) by (nonlinear_arith)
        requires
            ez == a * (1_000_000 * (nz * s) + (-447_213_595) * k),
            sa == a * s,
            ak == a * k,
    ;
    let qx = nx * nx;
    let qy = ny * ny;
    let qz = nz * nz;
    assert(nx * ex == 1_000_000 * (qx * sa)) by (nonlinear_arith)
        requires
            ex == 1_000_000 * (nx * sa),
            qx == nx * nx,
    ;
    assert(ny * ey == 1_000_000 * (qy * sa) + 894_427_191 * (ny * ak)) by (nonlinear_arith)
        requires
            ey == 1_000_000 * (ny * sa) + 894_427_191 * ak,
            qy == ny * ny,
    ;
    assert(nz * ez == 1_000_000 * (qz * sa) - 447_213_595 * (nz * ak)) by (nonlinear_arith)
        requires
            ez == 1_000_000 * (nz * sa) - 447_213_595 * ak,
            qz == nz * nz,
    ;
    assert(n2 == qx + qy + qz);
    assert(n2 * sa == qx * sa + qy * sa + qz * sa) by (nonlinear_arith)
        requires
            n2 == qx + qy + qz,
    ;
    assert(ak * l == 894_427_191 * (ny * ak) - 447_213_595 * (nz * ak)) by (nonlinear_arith)
        requires
            l == nx * 0 + ny * 894_427_191 + nz * (-447_213_595),
    ;
    let sum = nx * ex + ny * ey + nz * ez;
    assert(sum == 1_000_000 * (n2 * sa) + ak * l);
    assert(0 < sa && a <= sa) by (nonlinear_arith)
        requires
            sa == a * s,
            0 < a,
            1 <= s,
    ;
    assert(0 <= ak) by (nonlinear_arith)
        requires
            ak == a * k,
            0 < a,
            0 <= k,
    ;
    assert(0 <= ak * l) by (nonlinear_arith)
        requires
            0 <= ak,
            0 <= l,
    ;
    assert(n2 * sa >= 250_000 * sa) by (nonlinear_arith)
        requires
            n2 >= 250_000,
            0 < sa,
    ;
    assert(sum >= 250_000_000_000 * sa);
    let whole = nx * px + ny * py + nz * pz;
    assert(whole >= sum - 3000 * b);
    assert(whole > 0);
    let d = inner(v, normal);
    assert(whole == 1_000_000_000_000 * d) by (nonlinear_arith)
        requires
            whole == nx * px + ny * py + nz * pz,
            px == 1_000_000_000_000 * vx,
            py == 1_000_000_000_000 * vy,
            pz == 1_000_000_000_000 * vz,
            d == vx * nx + vy * ny + vz * nz,
    ;
}

} // verus!
