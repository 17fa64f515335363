//! One tick of the controller, as a function from the state before, the
//! player's input and what the physics world reports to the state after and
//! to what is asked of the physics world.

use vstd::prelude::*;
use crate::boom::BoomView;
use crate::config::{half_height, CharacterControllerConfig, MovementMode};
use crate::controller::Handle;
use crate::events::{enqueue, CharacterControllerEvent};
use crate::input::InputView;
use crate::math::{clamp_i64, div_toward_zero};
use crate::movement::{continuous_order, discrete_order, MoveOrder};
use crate::time::tick_result;
use crate::transitions::{
    cooldown_threshold,
    ground_under,
    jump_granted,
    jump_strength,
    jump_vector_spec,
    reaches_share,
    sliding_after,
    wall_beside,
    Motion,
};
use crate::utils::{CharacterPerspectiveMode, CrouchState, SlidingState, WallRunning};
use crate::vectors::{Vec3, SCALE};

verus! {

/// How far the camera stays in front of what blocks its view.
pub const OBSTRUCTION_MARGIN: i64 = 30;

/// How far the head tilts away from a wall, in thousandths of a degree.
pub const MAX_HEAD_TILT: i64 = 10_000;

/// What the physics world reports at the start of a tick.
#[derive(Clone, Copy, Debug)]
pub struct Surroundings {
    /// Whether the controller's body is in the world.
    pub body_present: bool,
    /// The normal of what the capsule hit when cast down, if anything.
    pub ground_hit: Option<Vec3>,
    /// The wall normal in body space where the ray to the right hit.
    pub right_wall: Option<Vec3>,
    /// The wall normal in body space where the ray to the left hit.
    pub left_wall: Option<Vec3>,
    /// Whether the standing capsule overlaps nothing where the body would
    /// stand up.
    pub can_stand: bool,
    /// The distance at which the ray from the body to the boom's end is
    /// blocked, if it is.
    pub camera_obstruction: Option<i64>,
    /// What was measured of velocity and input.
    pub motion: Motion,
}

/// What became of the wall run during a tick.
#[derive(Clone, Copy, Debug, PartialEq, Eq, Structural)]
pub enum WallRunChange {
    Unchanged,
    /// A wall run began: forces are to be cleared, gravity scaled and the
    /// vertical speed set.
    Started { gravity_scale: i64, up_speed: i64 },
    /// The wall run ended: gravity is to be restored.
    Stopped,
}

/// What became of the slide during a tick.
#[derive(Clone, Copy, Debug, PartialEq, Eq, Structural)]
pub enum SlideChange {
    Unchanged,
    /// A slide of the given kind began.
    Started(SlidingState),
    /// The slide ended; after a downhill slide the forces left over are to be
    /// cleared.
    Stopped { clear_forces: bool },
}

/// What became of the stance during a tick. A change carries how far the body
/// is to be moved vertically and the capsule it gets.
#[derive(Clone, Copy, Debug, PartialEq, Eq, Structural)]
pub enum CrouchChange {
    Unchanged,
    Crouched { shift: i64, half_height: i64, radius: i64 },
    StoodUp { shift: i64, half_height: i64, radius: i64 },
}

/// A jump to perform: the vertical velocity is to be cleared, then `vector`,
/// turned from body space into the world, applied as an impulse per unit of
/// mass.
#[derive(Clone, Copy, Debug, PartialEq, Eq, Structural)]
pub struct JumpOrder {
    pub strength: i64,
    pub vector: Vec3,
}

/// Where the head is to tilt, and whether with the rate for leaving a tilt.
#[derive(Clone, Copy, Debug, PartialEq, Eq, Structural)]
pub struct HeadTilt {
    pub target: i64,
    pub leaving: bool,
}

/// What a tick asks the physics world to do, in the order of the fields.
#[derive(Clone, Copy, Debug)]
pub struct TickOutcome {
    pub landed: bool,
    pub wallrun: WallRunChange,
    pub head_tilt: HeadTilt,
    pub slide: SlideChange,
    pub movement: Option<MoveOrder>,
    pub jump: Option<JumpOrder>,
    pub crouch: CrouchChange,
    pub boom_length: i64,
}

/// What a controller holds, as plain values.
pub struct ControllerView {
    pub perspective: CharacterPerspectiveMode,
    pub movement_mode: MovementMode,
    pub wallrunning: WallRunning,
    pub crouch: CrouchState,
    pub sliding: SlidingState,
    pub ground_normal: Option<Vec3>,
    pub speed: i64,
    pub planar_speed: i64,
    pub coyote: nat,
    pub cooldown: nat,
    pub events: Seq<CharacterControllerEvent>,
    pub capacity: nat,
    pub boom: BoomView,
    pub head_pitch: i64,
    pub boom_pitch: i64,
    pub body_handle: Handle,
    pub collider_handle: Handle,
}

/// Where the standing capsule is to be tested for room: how far above the
/// body's position, and whether the test looks up or down.
#[derive(Clone, Copy, Debug, PartialEq, Eq, Structural)]
pub struct StandProbe {
    pub shift: i64,
    pub upward: bool,
}

/// The test for room to stand up. A body on the ground is tested from above,
/// raised by the difference between the standing and the crouched height; a
/// body in the air is tested from below, lowered by the head gap.
pub open spec fn stand_probe_for(config: CharacterControllerConfig, grounded: bool) -> StandProbe {
    if grounded {
        StandProbe {
            shift: clamp_i64(
                config.capsule_standing_total_height - config.capsule_crouched_total_height,
            ),
            upward: true,
        }
    } else {
        StandProbe { shift: clamp_i64(-head_gap(config)), upward: false }
    }
}

/// The half of the difference between the standing and the crouched height.
pub open spec fn height_gap(config: CharacterControllerConfig) -> int {
    div_toward_zero(
        config.capsule_standing_total_height - config.capsule_crouched_total_height,
        2,
    )
}

/// How much higher the head sits when standing than when crouched.
pub open spec fn head_gap(config: CharacterControllerConfig) -> int {
    config.standing_head_translation_offset.y - config.crouched_head_translation_offset.y
}

/// How far the body moves vertically when it crouches: down by the height
/// gap on the ground, so that the smaller capsule rests on it, and up by the
/// head gap in the air.
pub open spec fn crouch_shift(config: CharacterControllerConfig, grounded: bool) -> i64 {
    if grounded {
        clamp_i64(-height_gap(config))
    } else {
        clamp_i64(head_gap(config))
    }
}

/// How far the body moves vertically when it stands up: the reverse of
/// crouching.
pub open spec fn stand_shift(config: CharacterControllerConfig, grounded: bool) -> i64 {
    if grounded {
        clamp_i64(height_gap(config))
    } else {
        clamp_i64(-head_gap(config))
    }
}

/// The arm length to go back to when nothing blocks the camera.
pub open spec fn max_boom_length(config: CharacterControllerConfig, aiming: bool) -> i64 {
    if aiming {
        config.aim_boom_arm_length
    } else {
        config.default_boom_arm_length
    }
}

/// The arm length after the obstruction probe: short of what blocks the view
/// by the margin, or the full length where nothing does.
pub open spec fn unobstructed_length(obstruction: Option<i64>, full: i64) -> i64 {
    match obstruction {
        Some(hit) => clamp_i64(hit - OBSTRUCTION_MARGIN),
        None => full,
    }
}

/// Where the head tilts: away from the wall while running along it in the
/// air, and level otherwise.
pub open spec fn head_tilt_for(grounded: bool, wallrunning: WallRunning) -> HeadTilt {
    HeadTilt {
        target: if grounded {
            0
        } else {
            match wallrunning {
                WallRunning::OnRight(_) => MAX_HEAD_TILT,
                WallRunning::OnLeft(_) => (-MAX_HEAD_TILT) as i64,
                WallRunning::OffWall => 0,
            }
        },
        leaving: !(wallrunning is OffWall),
    }
}

/// The capsule of a stance: the half height of its cylinder and its radius.
pub open spec fn capsule_of(config: CharacterControllerConfig, crouch: CrouchState) -> (i64, i64) {
    match crouch {
        CrouchState::Upright => (
            clamp_i64(
                half_height(
                    config.capsule_standing_total_height as int,
                    config.capsule_standing_radius as int,
                ),
            ),
            config.capsule_standing_radius,
        ),
        CrouchState::Crouched => (
            clamp_i64(
                half_height(
                    config.capsule_crouched_total_height as int,
                    config.capsule_crouched_radius as int,
                ),
            ),
            config.capsule_crouched_radius,
        ),
    }
}

/// The state a controller starts in.
pub open spec fn initial_view(config: CharacterControllerConfig) -> ControllerView {
    ControllerView {
        perspective: config.initial_perspective_mode,
        movement_mode: config.movement_mode,
        wallrunning: WallRunning::OffWall,
        crouch: CrouchState::Upright,
        sliding: SlidingState::NotSliding,
        ground_normal: Some(Vec3 { x: 0, y: SCALE, z: 0 }),
        speed: 0,
        planar_speed: 0,
        coyote: 0,
        cooldown: 0,
        events: Seq::empty(),
        capacity: config.event_queue_capacity as nat,
        boom: BoomView {
            length: config.default_boom_arm_length,
            arm_pitch_angle: config.default_boom_arm_pitch_angle,
            arm_yaw_angle: config.default_boom_arm_yaw_angle,
            look_at_pivot: false,
        },
        head_pitch: 0,
        boom_pitch: 0,
        body_handle: Handle { index: 0, generation: 0 },
        collider_handle: Handle { index: 0, generation: 0 },
    }
}

/// The order for the movement integrator, by the movement mode.
pub open spec fn move_order_for(
    pre: ControllerView,
    config: CharacterControllerConfig,
    input: InputView,
    motion: Motion,
) -> MoveOrder {
    match pre.movement_mode {
        MovementMode::Continuous => continuous_order(config, pre.crouch),
        MovementMode::Discrete => discrete_order(
            config,
            pre.crouch,
            pre.perspective,
            input.move_right,
            input.move_forward,
            motion.input_forward_angle as int,
        ),
    }
}

/// The state once the ground, the walls, the velocity and the slide have
/// been classified. The stance of before decides on walls and slides.
pub open spec fn classified(
    pre: ControllerView,
    config: CharacterControllerConfig,
    world: Surroundings,
) -> ControllerView {
    let ground = ground_under(world.body_present, world.ground_hit);
    ControllerView {
        ground_normal: ground,
        wallrunning: wall_beside(
            pre.crouch,
            world.body_present,
            world.motion.previous_forward_angle as int,
            config.max_wallrunning_forward_angle as int,
            world.right_wall,
            world.left_wall,
        ),
        speed: if world.body_present {
            world.motion.speed
        } else {
            pre.speed
        },
        planar_speed: if world.body_present {
            world.motion.planar_speed
        } else {
            pre.planar_speed
        },
        sliding: sliding_after(pre.sliding, ground is Some, pre.crouch, world.motion, config),
        ..pre
    }
}

/// Whether the body has just landed: it stands on ground now and did not at
/// the tick before.
pub open spec fn just_landed(v: ControllerView, was_grounded: bool) -> bool {
    v.ground_normal is Some && !was_grounded
}

/// The state after a landing was handled: a body that has just landed is off
/// the wall, `Landed` is told and the grace time starts anew.
pub open spec fn after_landing(v: ControllerView, was_grounded: bool) -> ControllerView {
    if just_landed(v, was_grounded) {
        ControllerView {
            wallrunning: WallRunning::OffWall,
            events: enqueue(v.events, v.capacity, CharacterControllerEvent::Landed),
            coyote: 0,
            ..v
        }
    } else {
        v
    }
}

/// What became of the wall run, by the sides before and now: a new side met
/// in the air starts a run, and leaving the wall ends one. A wall met on the
/// ground starts nothing and ends nothing.
pub open spec fn wallrun_change(
    v: ControllerView,
    config: CharacterControllerConfig,
    previous: WallRunning,
) -> WallRunChange {
    if previous.same_side(v.wallrunning) {
        WallRunChange::Unchanged
    } else if v.wallrunning is OffWall {
        WallRunChange::Stopped
    } else if v.ground_normal is None {
        WallRunChange::Started {
            gravity_scale: config.start_wallrunning_gravity_scale,
            up_speed: config.start_wallrunning_up_impulse,
        }
    } else {
        WallRunChange::Unchanged
    }
}

/// The state after the wall run's change was told. A run that starts renews
/// the grace time.
pub open spec fn after_wallrun(
    v: ControllerView,
    config: CharacterControllerConfig,
    previous: WallRunning,
) -> ControllerView {
    match wallrun_change(v, config, previous) {
        WallRunChange::Unchanged => v,
        WallRunChange::Started { .. } => ControllerView {
            events: enqueue(v.events, v.capacity, CharacterControllerEvent::StartedWallRunning),
            coyote: 0,
            ..v
        },
        WallRunChange::Stopped => ControllerView {
            events: enqueue(v.events, v.capacity, CharacterControllerEvent::StoppedWallRunning),
            ..v
        },
    }
}

/// What became of the slide, by the states before and now.
pub open spec fn slide_change(v: ControllerView, previous: SlidingState) -> SlideChange {
    if previous == v.sliding {
        SlideChange::Unchanged
    } else if !(v.sliding is NotSliding) {
        SlideChange::Started(v.sliding)
    } else {
        SlideChange::Stopped { clear_forces: previous is Downhill }
    }
}

/// The state after the slide's change was told. A slide that ends with the
/// body still crouched on the ground leaves a plain crouch, which is told
/// too.
pub open spec fn after_slide(v: ControllerView, previous: SlidingState) -> ControllerView {
    match slide_change(v, previous) {
        SlideChange::Unchanged => v,
        SlideChange::Started(_) => ControllerView {
            events: enqueue(v.events, v.capacity, CharacterControllerEvent::StartedSliding),
            ..v
        },
        SlideChange::Stopped { .. } => {
            let stopped = enqueue(v.events, v.capacity, CharacterControllerEvent::StoppedSliding);
            ControllerView {
                events: if v.ground_normal is Some && v.crouch is Crouched {
                    enqueue(stopped, v.capacity, CharacterControllerEvent::Crouched)
                } else {
                    stopped
                },
                ..v
            }
        },
    }
}

/// The state after the clocks advanced: the cooldown always, the grace time
/// only while the body is in the air and off the wall.
pub open spec fn after_clocks(v: ControllerView, delta_nanos: nat) -> ControllerView {
    ControllerView {
        cooldown: tick_result(v.cooldown, delta_nanos),
        coyote: if v.ground_normal is None && v.wallrunning is OffWall {
            tick_result(v.coyote, delta_nanos)
        } else {
            v.coyote
        },
        ..v
    }
}

/// The order for the movement integrator: one for a grounded body that
/// neither jumps nor slides, and none otherwise.
pub open spec fn movement_order(
    v: ControllerView,
    config: CharacterControllerConfig,
    input: InputView,
    motion: Motion,
) -> Option<MoveOrder> {
    if v.ground_normal is Some && !input.jump && v.sliding is NotSliding {
        Some(move_order_for(v, config, input, motion))
    } else {
        None
    }
}

/// Whether the controller jumps in this state: a jump is asked for, the body
/// is in the world, and the jump is granted.
pub open spec fn jumps(
    v: ControllerView,
    config: CharacterControllerConfig,
    asked: bool,
    body_present: bool,
) -> bool {
    asked && body_present && jump_granted(
        v.ground_normal is Some,
        v.wallrunning,
        v.coyote,
        config.max_jump_coyote_duration as nat,
        v.cooldown,
        cooldown_threshold(config, v.crouch) as nat,
        v.sliding,
    )
}

/// The jump to perform, if the controller jumps.
pub open spec fn jump_order(
    v: ControllerView,
    config: CharacterControllerConfig,
    asked: bool,
    body_present: bool,
) -> Option<JumpOrder> {
    if jumps(v, config, asked, body_present) {
        let strength = jump_strength(config, v.crouch, v.sliding);
        Some(JumpOrder { strength, vector: jump_vector_spec(config, v.wallrunning, strength) })
    } else {
        None
    }
}

/// The state after the jump was handled: a jump is told and starts the
/// cooldown anew.
pub open spec fn after_jump(
    v: ControllerView,
    config: CharacterControllerConfig,
    asked: bool,
    body_present: bool,
) -> ControllerView {
    if jumps(v, config, asked, body_present) {
        ControllerView {
            events: enqueue(v.events, v.capacity, CharacterControllerEvent::Jump),
            cooldown: 0,
            ..v
        }
    } else {
        v
    }
}

/// What becomes of the stance: an upright body crouches when asked to; a
/// crouched body stands up when no longer asked to crouch, provided there is
/// room. A body that is not in the world keeps its stance.
pub open spec fn stance_change(
    v: ControllerView,
    config: CharacterControllerConfig,
    crouch_asked: bool,
    world: Surroundings,
) -> CrouchChange {
    let grounded = v.ground_normal is Some;
    if crouch_asked && v.crouch is Upright && world.body_present {
        CrouchChange::Crouched {
            shift: crouch_shift(config, grounded),
            half_height: capsule_of(config, CrouchState::Crouched).0,
            radius: capsule_of(config, CrouchState::Crouched).1,
        }
    } else if !crouch_asked && v.crouch is Crouched && world.can_stand && world.body_present {
        CrouchChange::StoodUp {
            shift: stand_shift(config, grounded),
            half_height: capsule_of(config, CrouchState::Upright).0,
            radius: capsule_of(config, CrouchState::Upright).1,
        }
    } else {
        CrouchChange::Unchanged
    }
}

/// The state after the stance was handled. Crouching is told as such only
/// below the speed from which it counts as a slide; standing up is always
/// told.
pub open spec fn after_stance(
    v: ControllerView,
    config: CharacterControllerConfig,
    crouch_asked: bool,
    world: Surroundings,
) -> ControllerView {
    match stance_change(v, config, crouch_asked, world) {
        CrouchChange::Unchanged => v,
        CrouchChange::Crouched { .. } => ControllerView {
            crouch: CrouchState::Crouched,
            events: if reaches_share(
                v.planar_speed as int,
                config.sliding_speed_factor as int,
                config.max_standing_move_speed_continuous as int,
            ) {
                v.events
            } else {
                enqueue(v.events, v.capacity, CharacterControllerEvent::Crouched)
            },
            ..v
        },
        CrouchChange::StoodUp { .. } => ControllerView {
            crouch: CrouchState::Upright,
            events: enqueue(v.events, v.capacity, CharacterControllerEvent::StoodUpright),
            ..v
        },
    }
}

/// The state after the camera was handled. In the third person aiming picks
/// the combat perspective and not aiming the basic one, and the boom is cut
/// short of what blocks it or restored to its full length. In the first
/// person nothing changes.
pub open spec fn after_camera(
    v: ControllerView,
    config: CharacterControllerConfig,
    aiming: bool,
    obstruction: Option<i64>,
) -> ControllerView {
    if v.perspective is ThirdPersonBasic || v.perspective is ThirdPersonCombat {
        ControllerView {
            perspective: if aiming {
                CharacterPerspectiveMode::ThirdPersonCombat
            } else {
                CharacterPerspectiveMode::ThirdPersonBasic
            },
            boom: BoomView {
                length: unobstructed_length(obstruction, max_boom_length(config, aiming)),
                ..v.boom
            },
            ..v
        }
    } else {
        v
    }
}

/// The state once a landing and the changes of wall run and slide have been
/// handled.
pub open spec fn after_transitions(
    pre: ControllerView,
    config: CharacterControllerConfig,
    world: Surroundings,
) -> ControllerView {
    let v1 = classified(pre, config, world);
    let v2 = after_landing(v1, pre.ground_normal is Some);
    let v3 = after_wallrun(v2, config, pre.wallrunning);
    after_slide(v3, pre.sliding)
}

/// The state in which the jump is decided: after the transitions and the
/// advance of the clocks.
pub open spec fn before_jump(
    pre: ControllerView,
    config: CharacterControllerConfig,
    world: Surroundings,
    delta_nanos: nat,
) -> ControllerView {
    after_clocks(after_transitions(pre, config, world), delta_nanos)
}

/// The state after one tick.
///
/// In order: the ground, the walls and the slide are classified; a landing
/// ends any wall run; a change of wall run and a change of slide are told;
/// the clocks advance; a jump that is asked for and granted is made, if the
/// body is in the world; the
/// stance follows the crouch input where it may; aiming picks the
/// perspective, and the boom is cut short of what blocks it.
pub open spec fn tick_state(
    pre: ControllerView,
    config: CharacterControllerConfig,
    input: InputView,
    world: Surroundings,
    delta_nanos: nat,
) -> ControllerView {
    let v5 = before_jump(pre, config, world, delta_nanos);
    let v6 = after_jump(v5, config, input.jump, world.body_present);
    let v7 = after_stance(v6, config, input.crouch, world);
    after_camera(v7, config, input.aim, world.camera_obstruction)
}

/// What one tick asks of the physics world.
pub open spec fn tick_outcome(
    pre: ControllerView,
    config: CharacterControllerConfig,
    input: InputView,
    world: Surroundings,
    delta_nanos: nat,
) -> TickOutcome {
    let v1 = classified(pre, config, world);
    let v2 = after_landing(v1, pre.ground_normal is Some);
    let v5 = before_jump(pre, config, world, delta_nanos);
    let v6 = after_jump(v5, config, input.jump, world.body_present);
    TickOutcome {
        landed: just_landed(v1, pre.ground_normal is Some),
        wallrun: wallrun_change(v2, config, pre.wallrunning),
        head_tilt: head_tilt_for(v2.ground_normal is Some, v2.wallrunning),
        slide: slide_change(v2, pre.sliding),
        movement: movement_order(v5, config, input, world.motion),
        jump: jump_order(v5, config, input.jump, world.body_present),
        crouch: stance_change(v6, config, input.crouch, world),
        boom_length: tick_state(pre, config, input, world, delta_nanos).boom.length,
    }
}

} // verus!
