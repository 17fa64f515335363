//! The tunables a controller is built from and reads on every tick.
//!
//! Lengths, speeds, accelerations, angles (in degrees) and ratios are counted
//! in thousandths; durations are counted in nanoseconds.

use vstd::prelude::*;
use crate::math::clamp_i64;
use crate::utils::CharacterPerspectiveMode;
use crate::vectors::Vec3;

verus! {

/// How input is turned into a target speed.
#[derive(Clone, Copy, Debug, PartialEq, Eq, Structural)]
pub enum MovementMode {
    /// The target speed is one of a few fixed tiers.
    Discrete,
    /// The target speed follows the input magnitude.
    Continuous,
}

/// The settings of one character controller. They do not change while the
/// controller lives.
#[derive(Clone, Copy, Debug)]
pub struct CharacterControllerConfig {
    /// How high the character can look.
    pub max_look_up_angle: i64,
    /// How low the character can look.
    pub min_look_up_angle: i64,
    /// The speed above which the character counts as moving.
    pub nonstationary_speed_threshold: i64,
    pub max_standing_move_speed_continuous: i64,
    pub max_crouched_move_speed_continuous: i64,
    pub max_standing_move_acceleration_continuous: i64,
    pub max_crouched_move_acceleration_continuous: i64,
    pub standing_walk_speed_discrete: i64,
    pub standing_run_speed_discrete: i64,
    pub standing_sprint_speed_discrete: i64,
    pub crouched_creep_speed_discrete: i64,
    pub standing_walk_acceleration_discrete: i64,
    pub standing_run_acceleration_discrete: i64,
    pub standing_sprint_acceleration_discrete: i64,
    pub crouched_creep_acceleration_discrete: i64,
    /// The input magnitude from which the character sprints.
    pub standing_sprint_input_threshold: i64,
    /// The widest angle between input and forward at which the character may
    /// still sprint while in the combat perspective.
    pub max_sprint_forward_angle_threshold_discrete: i64,
    /// The share of a tier's speed the body must reach to count as moving at
    /// that tier.
    pub discrete_movement_factor: i64,
    /// The input magnitude from which the character runs.
    pub standing_run_input_threshold: i64,
    pub capsule_standing_total_height: i64,
    pub capsule_standing_radius: i64,
    pub capsule_crouched_total_height: i64,
    pub capsule_crouched_radius: i64,
    /// Where the head sits, from the capsule's centre, when standing.
    pub standing_head_translation_offset: Vec3,
    /// Where the head sits, from the capsule's centre, when crouched.
    pub crouched_head_translation_offset: Vec3,
    /// For how long after leaving the ground or a wall a jump is still granted.
    pub max_jump_coyote_duration: u64,
    pub jump_standing_acceleration: i64,
    pub jump_crouched_acceleration: i64,
    /// The time that must pass between two jumps while standing.
    pub min_jump_standing_cooldown_duration: u64,
    /// The time that must pass between two jumps while crouched.
    pub min_jump_crouched_cooldown_duration: u64,
    /// The weight of the up-and-forward part of a jump off a wall.
    pub jump_wallrunning_scale: i64,
    /// The weight of the wall normal in a jump off a wall.
    pub jump_wallrunning_normal_scale: i64,
    pub wallrunning_ray_length: i64,
    pub ground_ray_length: i64,
    /// The widest angle between velocity and forward at which a wall run holds.
    pub max_wallrunning_forward_angle: i64,
    pub start_wallrunning_up_impulse: i64,
    pub start_wallrunning_gravity_scale: i64,
    /// The share of the standing speed above which crouching becomes a slide.
    pub sliding_speed_factor: i64,
    pub sliding_max_forward_angle: i64,
    pub sliding_deceleration: Vec3,
    pub sliding_velocity_increase: Vec3,
    pub endless_slide_downhill_max_down_angle: i64,
    pub endless_slide_ground_normal_max_up_angle: i64,
    pub endless_sliding_acceleration: Vec3,
    /// How many events may wait to be read; zero for no limit.
    pub event_queue_capacity: usize,
    pub default_boom_arm_length: i64,
    pub default_boom_arm_pitch_angle: i64,
    pub default_boom_arm_yaw_angle: i64,
    pub aim_boom_arm_length: i64,
    pub aim_boom_arm_pitch_angle: i64,
    pub aim_boom_arm_yaw_angle: i64,
    pub initial_perspective_mode: CharacterPerspectiveMode,
    pub movement_mode: MovementMode,
}

/// The settings a controller has when none are given.
pub open spec fn default_config() -> CharacterControllerConfig {
    CharacterControllerConfig {
        max_look_up_angle: 90_000,
        min_look_up_angle: (-60_000int) as i64,
        nonstationary_speed_threshold: 20,
        max_standing_move_speed_continuous: 5_000,
        max_crouched_move_speed_continuous: 2_500,
        max_standing_move_acceleration_continuous: 25_000,
        max_crouched_move_acceleration_continuous: 12_500,
        standing_walk_speed_discrete: 3_000,
        standing_run_speed_discrete: 5_000,
        standing_sprint_speed_discrete: 7_500,
        crouched_creep_speed_discrete: 1_000,
        standing_walk_acceleration_discrete: 30_000,
        standing_run_acceleration_discrete: 35_000,
        standing_sprint_acceleration_discrete: 40_000,
        crouched_creep_acceleration_discrete: 28_000,
        standing_sprint_input_threshold: 900,
        max_sprint_forward_angle_threshold_discrete: 22_400,
        discrete_movement_factor: 750,
        standing_run_input_threshold: 500,
        capsule_standing_total_height: 1_830,
        capsule_standing_radius: 400,
        capsule_crouched_total_height: 915,
        capsule_crouched_radius: 400,
        standing_head_translation_offset: Vec3 { x: 0, y: 769, z: 92 },
        crouched_head_translation_offset: Vec3 { x: 0, y: 384, z: (-320int) as i64 },
        max_jump_coyote_duration: 275_000_000,
        jump_standing_acceleration: 6_000,
        jump_crouched_acceleration: 3_500,
        min_jump_standing_cooldown_duration: 300_000_000,
        min_jump_crouched_cooldown_duration: 500_000_000,
        jump_wallrunning_scale: 1_000,
        jump_wallrunning_normal_scale: 350,
        wallrunning_ray_length: 400,
        ground_ray_length: 100,
        max_wallrunning_forward_angle: 75_000,
        start_wallrunning_up_impulse: 4_000,
        start_wallrunning_gravity_scale: 500,
        sliding_speed_factor: 800,
        sliding_max_forward_angle: 30_000,
        sliding_deceleration: Vec3 { x: 0, y: 0, z: 4_500 },
        sliding_velocity_increase: Vec3 { x: 0, y: 0, z: (-6_000int) as i64 },
        endless_slide_downhill_max_down_angle: 80_000,
        endless_slide_ground_normal_max_up_angle: 30_000,
        endless_sliding_acceleration: Vec3 { x: 0, y: 0, z: (-10_000int) as i64 },
        event_queue_capacity: 10,
        default_boom_arm_length: 3_000,
        default_boom_arm_pitch_angle: 0,
        default_boom_arm_yaw_angle: 0,
        aim_boom_arm_length: 2_000,
        aim_boom_arm_pitch_angle: 0,
        aim_boom_arm_yaw_angle: 20_000,
        initial_perspective_mode: CharacterPerspectiveMode::ThirdPersonBasic,
        movement_mode: MovementMode::Discrete,
    }
}

/// Half of `total_height` less `radius`: the half height of the cylinder
/// between a capsule's two caps.
pub open spec fn half_height(total_height: int, radius: int) -> int {
    if total_height >= 0 {
        total_height / 2 - radius
    } else {
        -((-total_height) / 2) - radius
    }
}

/// Halves an `i64` toward zero and takes `radius` off, without leaving `i64`.
fn half_height_of(total_height: i64, radius: i64) -> (h: i64)
    ensures
        h == clamp_i64(half_height(total_height as int, radius as int)),
{
    let half: i64 = total_height / 2;
    assert(half == if total_height >= 0 {
        total_height as int / 2
    } else {
        -((-total_height as int) / 2)
    });
    match half.checked_sub(radius) {
        Some(h) => h,
        None => if radius > 0 {
            i64::MIN
        } else {
            i64::MAX
        },
    }
}

impl CharacterControllerConfig {
    /// The half height of the cylinder part of the standing capsule.
    pub fn capsule_standing_half_height(&self) -> (h: i64)
        ensures
            h == clamp_i64(
                half_height(
                    self.capsule_standing_total_height as int,
                    self.capsule_standing_radius as int,
                ),
            ),
    {
        half_height_of(self.capsule_standing_total_height, self.capsule_standing_radius)
    }

    /// The half height of the cylinder part of the crouched capsule.
    pub fn capsule_crouched_half_height(&self) -> (h: i64)
        ensures
            h == clamp_i64(
                half_height(
                    self.capsule_crouched_total_height as int,
                    self.capsule_crouched_radius as int,
                ),
            ),
    {
        half_height_of(self.capsule_crouched_total_height, self.capsule_crouched_radius)
    }
}

impl Default for CharacterControllerConfig {
    fn default() -> (config: Self)
        ensures
            config == default_config(),
    {
        CharacterControllerConfig {
            max_look_up_angle: 90_000,
            min_look_up_angle: -60_000,
            nonstationary_speed_threshold: 20,
            max_standing_move_speed_continuous: 5_000,
            max_crouched_move_speed_continuous: 2_500,
            max_standing_move_acceleration_continuous: 25_000,
            max_crouched_move_acceleration_continuous: 12_500,
            standing_walk_speed_discrete: 3_000,
            standing_run_speed_discrete: 5_000,
            standing_sprint_speed_discrete: 7_500,
            crouched_creep_speed_discrete: 1_000,
            standing_walk_acceleration_discrete: 30_000,
            standing_run_acceleration_discrete: 35_000,
            standing_sprint_acceleration_discrete: 40_000,
            crouched_creep_acceleration_discrete: 28_000,
            standing_sprint_input_threshold: 900,
            max_sprint_forward_angle_threshold_discrete: 22_400,
            discrete_movement_factor: 750,
            standing_run_input_threshold: 500,
            capsule_standing_total_height: 1_830,
            capsule_standing_radius: 400,
            capsule_crouched_total_height: 915,
            capsule_crouched_radius: 400,
            standing_head_translation_offset: Vec3 { x: 0, y: 769, z: 92 },
            crouched_head_translation_offset: Vec3 { x: 0, y: 384, z: -320 },
            max_jump_coyote_duration: 275_000_000,
            jump_standing_acceleration: 6_000,
            jump_crouched_acceleration: 3_500,
            min_jump_standing_cooldown_duration: 300_000_000,
            min_jump_crouched_cooldown_duration: 500_000_000,
            jump_wallrunning_scale: 1_000,
            jump_wallrunning_normal_scale: 350,
            wallrunning_ray_length: 400,
            ground_ray_length: 100,
            max_wallrunning_forward_angle: 75_000,
            start_wallrunning_up_impulse: 4_000,
            start_wallrunning_gravity_scale: 500,
            sliding_speed_factor: 800,
            sliding_max_forward_angle: 30_000,
            sliding_deceleration: Vec3 { x: 0, y: 0, z: 4_500 },
            sliding_velocity_increase: Vec3 { x: 0, y: 0, z: -6_000 },
            endless_slide_downhill_max_down_angle: 80_000,
            endless_slide_ground_normal_max_up_angle: 30_000,
            endless_sliding_acceleration: Vec3 { x: 0, y: 0, z: -10_000 },
            event_queue_capacity: 10,
            default_boom_arm_length: 3_000,
            default_boom_arm_pitch_angle: 0,
            default_boom_arm_yaw_angle: 0,
            aim_boom_arm_length: 2_000,
            aim_boom_arm_pitch_angle: 0,
            aim_boom_arm_yaw_angle: 20_000,
            initial_perspective_mode: CharacterPerspectiveMode::ThirdPersonBasic,
            movement_mode: MovementMode::Discrete,
        }
    }
}

} // verus!
