//! The character controller: five state machines, two clocks and an event
//! queue, advanced once per tick from what the physics world reports.

use vstd::prelude::*;
use crate::boom::Boom;
use crate::config::{CharacterControllerConfig, MovementMode};
use crate::events::{CharacterControllerEvent, EventChannel};
use crate::input::Input;
use crate::math::{clamp_i64, clamp_to_i64, clamped};
use crate::movement::{continuous_move_order, discrete_move_order, MoveOrder};
use crate::orientation::{after_rotation, rotation_plan};
use crate::settings::GameSettings;
use crate::state_machine::StateMachine;
use crate::tick::{
    after_camera,
    after_clocks,
    after_jump,
    after_landing,
    after_slide,
    after_stance,
    after_wallrun,
    capsule_of,
    classified,
    crouch_shift,
    head_tilt_for,
    initial_view,
    jump_order,
    just_landed,
    movement_order,
    slide_change,
    stance_change,
    stand_probe_for,
    stand_shift,
    tick_outcome,
    tick_state,
    wallrun_change,
};
use crate::time::PassiveClock;
use crate::traits::FromConfig;
use crate::transitions::{
    classify_ground,
    classify_sliding,
    classify_wallrunning,
    jump_acceleration,
    jump_allowed,
    jump_cooldown_threshold,
    jump_vector,
    speed_reaches_share,
    Motion,
};
use crate::utils::{CharacterPerspectiveMode, CrouchState, SlidingState, WallRunning};
use crate::vectors::{up_vector, Vec3};

pub use crate::orientation::{BodyTurn, BoomTurn, RotationPlan};
pub use crate::tick::{
    ControllerView, CrouchChange, HeadTilt, JumpOrder, SlideChange, StandProbe, Surroundings,
    TickOutcome, WallRunChange, MAX_HEAD_TILT, OBSTRUCTION_MARGIN,
};

verus! {

/// A reference to a body or a collider in the physics world: a slot and the
/// generation of what sits in it.
#[derive(Clone, Copy, Debug, PartialEq, Eq, Structural)]
pub struct Handle {
    pub index: u32,
    pub generation: u32,
}

/// The character controller.
pub struct CharacterController {
    perspective_mode: StateMachine<CharacterPerspectiveMode>,
    movement_mode: StateMachine<MovementMode>,
    wallrunning_state: StateMachine<WallRunning>,
    crouch_state: StateMachine<CrouchState>,
    sliding_state: StateMachine<SlidingState>,
    ground_normal: Option<Vec3>,
    body_speed: i64,
    body_planar_speed: i64,
    rigid_body_handle: Handle,
    collider_handle: Handle,
    coyote_timer: PassiveClock,
    jump_cooldown_timer: PassiveClock,
    event_channel: EventChannel,
    boom: Boom,
    head_pitch: i64,
    boom_pitch: i64,
}

impl Default for Handle {
    fn default() -> (handle: Self)
        ensures
            handle == (Handle { index: 0, generation: 0 }),
    {
        Handle { index: 0, generation: 0 }
    }
}

impl View for CharacterController {
    type V = ControllerView;

    closed spec fn view(&self) -> ControllerView {
        ControllerView {
            perspective: self.perspective_mode.spec_current(),
            movement_mode: self.movement_mode.spec_current(),
            wallrunning: self.wallrunning_state.spec_current(),
            crouch: self.crouch_state.spec_current(),
            sliding: self.sliding_state.spec_current(),
            ground_normal: self.ground_normal,
            speed: self.body_speed,
            planar_speed: self.body_planar_speed,
            coyote: self.coyote_timer.spec_elapsed(),
            cooldown: self.jump_cooldown_timer.spec_elapsed(),
            events: self.event_channel@,
            capacity: self.event_channel.spec_capacity(),
            boom: self.boom@,
            head_pitch: self.head_pitch,
            boom_pitch: self.boom_pitch,
            body_handle: self.rigid_body_handle,
            collider_handle: self.collider_handle,
        }
    }
}

impl FromConfig for CharacterController {
    type Config<'a> = &'a CharacterControllerConfig;

    /// A controller as its configuration describes it: upright on level
    /// ground, off the wall, not sliding, with both clocks at zero and no
    /// event waiting.
    fn from_config<'a>(config: &'a CharacterControllerConfig) -> (controller: Self)
        ensures
            controller.wf(),
            controller@ == initial_view(*config),
    {
        CharacterController {
            perspective_mode: StateMachine::new(config.initial_perspective_mode),
            movement_mode: StateMachine::new(config.movement_mode),
            wallrunning_state: StateMachine::new(WallRunning::OffWall),
            crouch_state: StateMachine::new(CrouchState::Upright),
            sliding_state: StateMachine::new(SlidingState::NotSliding),
            ground_normal: Some(up_vector()),
            body_speed: 0,
            body_planar_speed: 0,
            rigid_body_handle: Handle::default(),
            collider_handle: Handle::default(),
            coyote_timer: PassiveClock::new(),
            jump_cooldown_timer: PassiveClock::new(),
            event_channel: EventChannel::with_capacity(config.event_queue_capacity),
            boom: Boom::new(
                config.default_boom_arm_length,
                config.default_boom_arm_pitch_angle,
                config.default_boom_arm_yaw_angle,
                false,
            ),
            head_pitch: 0,
            boom_pitch: 0,
        }
    }
}

impl CharacterController {
    /// The event queue keeps within its bound.
    pub closed spec fn wf(&self) -> bool {
        self.event_channel.wf()
    }

    /// Takes the oldest event that waits to be read, if any.
    pub fn get_event(&mut self) -> (event: Option<CharacterControllerEvent>)
        requires
            old(self).wf(),
        ensures
            final(self).wf(),
            old(self)@.events.len() == 0 ==> event is None && final(self)@ == old(self)@,
            old(self)@.events.len() > 0 ==> event == Some(old(self)@.events[0]) && final(self)@
                == (ControllerView {
                events: old(self)@.events.subrange(1, old(self)@.events.len() as int),
                ..old(self)@
            }),
    {
        self.event_channel.get_message()
    }

    /// The capsule of the current stance: the half height of its cylinder
    /// and its radius.
    pub fn capsule_values(&self, config: &CharacterControllerConfig) -> (capsule: (i64, i64))
        ensures
            capsule == capsule_of(*config, self@.crouch),
    {
        match *self.crouch_state.current_state() {
            CrouchState::Upright => (
                config.capsule_standing_half_height(),
                config.capsule_standing_radius,
            ),
            CrouchState::Crouched => (
                config.capsule_crouched_half_height(),
                config.capsule_crouched_radius,
            ),
        }
    }

    /// Records the body the controller moves.
    pub fn set_body_handle(&mut self, body_handle: Handle)
        ensures
            final(self)@ == (ControllerView { body_handle, ..old(self)@ }),
            final(self).wf() == old(self).wf(),
    {
        self.rigid_body_handle = body_handle;
    }

    /// Records the collider the body carries.
    pub fn set_collider_handle(&mut self, collider_handle: Handle)
        ensures
            final(self)@ == (ControllerView { collider_handle, ..old(self)@ }),
            final(self).wf() == old(self).wf(),
    {
        self.collider_handle = collider_handle;
    }

    /// The body the controller moves.
    pub fn body_handle(&self) -> (handle: Handle)
        ensures
            handle == self@.body_handle,
    {
        self.rigid_body_handle
    }

    /// The collider the body carries.
    pub fn collider_handle(&self) -> (handle: Handle)
        ensures
            handle == self@.collider_handle,
    {
        self.collider_handle
    }

    /// From where the player looks at the character.
    pub fn perspective_mode(&self) -> (mode: CharacterPerspectiveMode)
        ensures
            mode == self@.perspective,
    {
        *self.perspective_mode.current_state()
    }

    /// How input is turned into a target speed.
    pub fn movement_mode(&self) -> (mode: MovementMode)
        ensures
            mode == self@.movement_mode,
    {
        *self.movement_mode.current_state()
    }

    /// The wall the body runs along, if any.
    pub fn wallrunning_state(&self) -> (state: WallRunning)
        ensures
            state == self@.wallrunning,
    {
        *self.wallrunning_state.current_state()
    }

    /// Whether the body stands or crouches.
    pub fn crouch_state(&self) -> (state: CrouchState)
        ensures
            state == self@.crouch,
    {
        *self.crouch_state.current_state()
    }

    /// Whether and how the body slides.
    pub fn sliding_state(&self) -> (state: SlidingState)
        ensures
            state == self@.sliding,
    {
        *self.sliding_state.current_state()
    }

    /// The arm that carries the camera in the third person.
    pub fn boom(&self) -> (boom: &Boom)
        ensures
            boom@ == self@.boom,
    {
        &self.boom
    }

    /// Whether the body stood on something at the last tick.
    pub fn is_grounded(&self) -> (grounded: bool)
        ensures
            grounded == self@.ground_normal is Some,
    {
        self.ground_normal.is_some()
    }

    /// The normal of the ground the body stood on at the last tick.
    pub fn ground_normal(&self) -> (normal: Option<Vec3>)
        ensures
            normal == self@.ground_normal,
    {
        self.ground_normal
    }

    /// The speed of the body at the last tick.
    pub fn body_speed(&self) -> (speed: i64)
        ensures
            speed == self@.speed,
    {
        self.body_speed
    }

    /// The planar speed of the body at the last tick.
    pub fn body_planar_speed(&self) -> (speed: i64)
        ensures
            speed == self@.planar_speed,
    {
        self.body_planar_speed
    }

    /// The time for which the body has been in the air and off the wall.
    pub fn coyote_elapsed(&self) -> (nanos: u64)
        ensures
            nanos == self@.coyote,
    {
        self.coyote_timer.elapsed()
    }

    /// The time since the last jump.
    pub fn jump_cooldown_elapsed(&self) -> (nanos: u64)
        ensures
            nanos == self@.cooldown,
    {
        self.jump_cooldown_timer.elapsed()
    }

    /// How many events wait to be read.
    pub fn pending_events(&self) -> (n: usize)
        ensures
            n == self@.events.len(),
    {
        self.event_channel.len()
    }

    /// The length of the camera's boom arm.
    pub fn boom_length(&self) -> (length: i64)
        ensures
            length == self@.boom.length,
    {
        self.boom.length()
    }

    /// The angle by which the head looks up.
    pub fn head_pitch(&self) -> (pitch: i64)
        ensures
            pitch == self@.head_pitch,
    {
        self.head_pitch
    }

    /// The angle by which the boom looks up.
    pub fn boom_pitch(&self) -> (pitch: i64)
        ensures
            pitch == self@.boom_pitch,
    {
        self.boom_pitch
    }

    /// Turns the head up or down by `x_axis_rotation`, keeping it between
    /// `min_look_angle` and `max_look_angle`.
    pub fn rotate_head(&mut self, x_axis_rotation: i64, min_look_angle: i64, max_look_angle: i64)
        ensures
            final(self)@ == (ControllerView {
                head_pitch: clamped(
                    old(self)@.head_pitch + x_axis_rotation,
                    min_look_angle as int,
                    max_look_angle as int,
                ) as i64,
                ..old(self)@
            }),
            final(self).wf() == old(self).wf(),
    {
        self.head_pitch = clamp_angle(
            self.head_pitch,
            x_axis_rotation,
            min_look_angle,
            max_look_angle,
        );
    }
}

fn negated(x: i128) -> (r: i64)
    requires
        -0x1_0000_0000_0000_0000 <= x <= 0x1_0000_0000_0000_0000,
    ensures
        r == clamp_i64(-x),
{
    clamp_to_i64(-x)
}

/// How far the body moves vertically when its stance changes.
fn stance_shift(config: &CharacterControllerConfig, grounded: bool, crouching: bool) -> (shift: i64)
    ensures
        crouching ==> shift == crouch_shift(*config, grounded),
        !crouching ==> shift == stand_shift(*config, grounded),
{
    let height_gap: i128 = (config.capsule_standing_total_height as i128
        - config.capsule_crouched_total_height as i128) / 2;
    let head_gap: i128 = config.standing_head_translation_offset.y as i128
        - config.crouched_head_translation_offset.y as i128;
    if grounded {
        if crouching {
            negated(height_gap)
        } else {
            clamp_to_i64(height_gap)
        }
    } else {
        if crouching {
            clamp_to_i64(head_gap)
        } else {
            negated(head_gap)
        }
    }
}

/// `current + delta`, held between `lo` and `hi`.
fn clamp_angle(current: i64, delta: i64, lo: i64, hi: i64) -> (angle: i64)
    ensures
        angle == clamped(current + delta, lo as int, hi as int),
{
    let sum: i128 = current as i128 + delta as i128;
    if sum < lo as i128 {
        lo
    } else if sum > hi as i128 {
        hi
    } else {
        sum as i64
    }
}

/// Where the standing capsule is to be tested for room.
pub fn stand_up_probe(config: &CharacterControllerConfig, grounded: bool) -> (probe: StandProbe)
    ensures
        probe == stand_probe_for(*config, grounded),
{
    if grounded {
        StandProbe {
            shift: clamp_to_i64(
                config.capsule_standing_total_height as i128
                    - config.capsule_crouched_total_height as i128,
            ),
            upward: true,
        }
    } else {
        StandProbe {
            shift: negated(
                config.standing_head_translation_offset.y as i128
                    - config.crouched_head_translation_offset.y as i128,
            ),
            upward: false,
        }
    }
}

impl CharacterController {
    /// Classifies the ground, the walls, the velocity and the slide.
    fn classify(&mut self, config: &CharacterControllerConfig, world: &Surroundings)
        ensures
            final(self).wf() == old(self).wf(),
            final(self)@ == classified(old(self)@, *config, *world),
    {
        let crouch = *self.crouch_state.current_state();
        let previous_sliding = *self.sliding_state.current_state();
        self.ground_normal = classify_ground(world.body_present, world.ground_hit);
        let wall = classify_wallrunning(
            config,
            crouch,
            world.body_present,
            world.motion.previous_forward_angle,
            world.right_wall,
            world.left_wall,
        );
        self.wallrunning_state.transition_to(wall);
        if world.body_present {
            self.body_speed = world.motion.speed;
            self.body_planar_speed = world.motion.planar_speed;
        }
        let sliding = classify_sliding(
            config,
            previous_sliding,
            self.ground_normal.is_some(),
            crouch,
            &world.motion,
        );
        self.sliding_state.transition_to(sliding);
    }

    /// Handles a landing.
    fn handle_landing(&mut self, was_grounded: bool) -> (landed: bool)
        requires
            old(self).wf(),
        ensures
            final(self).wf(),
            landed == just_landed(old(self)@, was_grounded),
            final(self)@ == after_landing(old(self)@, was_grounded),
    {
        if self.ground_normal.is_some() && !was_grounded {
            self.wallrunning_state.transition_to(WallRunning::OffWall);
            self.event_channel.send(CharacterControllerEvent::Landed);
            self.coyote_timer.reset();
            true
        } else {
            false
        }
    }

    /// Tells a change of wall run.
    fn handle_wallrun(
        &mut self,
        config: &CharacterControllerConfig,
        previous: WallRunning,
    ) -> (change: WallRunChange)
        requires
            old(self).wf(),
        ensures
            final(self).wf(),
            change == wallrun_change(old(self)@, *config, previous),
            final(self)@ == after_wallrun(old(self)@, *config, previous),
    {
        let wall = *self.wallrunning_state.current_state();
        if previous == wall {
            WallRunChange::Unchanged
        } else if !wall.is_on_wall() {
            self.event_channel.send(CharacterControllerEvent::StoppedWallRunning);
            WallRunChange::Stopped
        } else if !self.ground_normal.is_some() {
            self.event_channel.send(CharacterControllerEvent::StartedWallRunning);
            self.coyote_timer.reset();
            WallRunChange::Started {
                gravity_scale: config.start_wallrunning_gravity_scale,
                up_speed: config.start_wallrunning_up_impulse,
            }
        } else {
            WallRunChange::Unchanged
        }
    }

    /// Where the head is to tilt.
    fn head_tilt(&self) -> (tilt: HeadTilt)
        ensures
            tilt == head_tilt_for(self@.ground_normal is Some, self@.wallrunning),
    {
        let wall = *self.wallrunning_state.current_state();
        HeadTilt {
            target: if self.ground_normal.is_some() {
                0
            } else {
                match wall {
                    WallRunning::OnRight(_) => MAX_HEAD_TILT,
                    WallRunning::OnLeft(_) => -MAX_HEAD_TILT,
                    WallRunning::OffWall => 0,
                }
            },
            leaving: wall.is_on_wall(),
        }
    }

    /// Tells a change of slide.
    fn handle_slide(&mut self, previous: SlidingState) -> (change: SlideChange)
        requires
            old(self).wf(),
        ensures
            final(self).wf(),
            change == slide_change(old(self)@, previous),
            final(self)@ == after_slide(old(self)@, previous),
    {
        let sliding = *self.sliding_state.current_state();
        if previous == sliding {
            SlideChange::Unchanged
        } else if sliding != SlidingState::NotSliding {
            self.event_channel.send(CharacterControllerEvent::StartedSliding);
            SlideChange::Started(sliding)
        } else {
            self.event_channel.send(CharacterControllerEvent::StoppedSliding);
            if self.ground_normal.is_some() && *self.crouch_state.current_state()
                == CrouchState::Crouched {
                self.event_channel.send(CharacterControllerEvent::Crouched);
            }
            SlideChange::Stopped { clear_forces: previous == SlidingState::Downhill }
        }
    }

    /// Advances the clocks.
    fn tick_clocks(&mut self, delta_nanos: u64)
        ensures
            final(self).wf() == old(self).wf(),
            final(self)@ == after_clocks(old(self)@, delta_nanos as nat),
    {
        self.jump_cooldown_timer.tick(delta_nanos);
        if !self.ground_normal.is_some() && !self.wallrunning_state.current_state().is_on_wall() {
            self.coyote_timer.tick(delta_nanos);
        }
    }

    /// The order for the movement integrator, if the body is to be moved.
    fn plan_movement(
        &self,
        config: &CharacterControllerConfig,
        input: &Input,
        motion: &Motion,
    ) -> (order: Option<MoveOrder>)
        ensures
            order == movement_order(self@, *config, input@, *motion),
    {
        if self.ground_normal.is_some() && !input.jump() && *self.sliding_state.current_state()
            == SlidingState::NotSliding {
            let crouch = *self.crouch_state.current_state();
            Some(
                match *self.movement_mode.current_state() {
                    MovementMode::Continuous => continuous_move_order(config, crouch),
                    MovementMode::Discrete => discrete_move_order(
                        config,
                        crouch,
                        *self.perspective_mode.current_state(),
                        input.move_right(),
                        input.move_forward(),
                        motion.input_forward_angle,
                    ),
                },
            )
        } else {
            None
        }
    }

    /// Makes the jump that is asked for, if it is granted.
    fn handle_jump(
        &mut self,
        config: &CharacterControllerConfig,
        asked: bool,
        body_present: bool,
    ) -> (order: Option<JumpOrder>)
        requires
            old(self).wf(),
        ensures
            final(self).wf(),
            order == jump_order(old(self)@, *config, asked, body_present),
            final(self)@ == after_jump(old(self)@, *config, asked, body_present),
    {
        let crouch = *self.crouch_state.current_state();
        let sliding = *self.sliding_state.current_state();
        let wall = *self.wallrunning_state.current_state();
        if asked && body_present && jump_allowed(
            self.ground_normal.is_some(),
            wall,
            self.coyote_timer.elapsed(),
            config.max_jump_coyote_duration,
            self.jump_cooldown_timer.elapsed(),
            jump_cooldown_threshold(config, crouch),
            sliding,
        ) {
            let strength = jump_acceleration(config, crouch, sliding);
            let vector = jump_vector(config, wall, strength);
            self.event_channel.send(CharacterControllerEvent::Jump);
            self.jump_cooldown_timer.reset();
            Some(JumpOrder { strength, vector })
        } else {
            None
        }
    }

    /// Lets the stance follow the crouch input.
    fn handle_stance(
        &mut self,
        config: &CharacterControllerConfig,
        crouch_asked: bool,
        world: &Surroundings,
    ) -> (change: CrouchChange)
        requires
            old(self).wf(),
        ensures
            final(self).wf(),
            change == stance_change(old(self)@, *config, crouch_asked, *world),
            final(self)@ == after_stance(old(self)@, *config, crouch_asked, *world),
    {
        let crouch = *self.crouch_state.current_state();
        let grounded = self.ground_normal.is_some();
        if crouch_asked && crouch == CrouchState::Upright && world.body_present {
            self.crouch_state.transition_to(CrouchState::Crouched);
            if !speed_reaches_share(
                self.body_planar_speed,
                config.sliding_speed_factor,
                config.max_standing_move_speed_continuous,
            ) {
                self.event_channel.send(CharacterControllerEvent::Crouched);
            }
            CrouchChange::Crouched {
                shift: stance_shift(config, grounded, true),
                half_height: config.capsule_crouched_half_height(),
                radius: config.capsule_crouched_radius,
            }
        } else if !crouch_asked && crouch == CrouchState::Crouched && world.can_stand
            && world.body_present {
            self.crouch_state.transition_to(CrouchState::Upright);
            self.event_channel.send(CharacterControllerEvent::StoodUpright);
            CrouchChange::StoodUp {
                shift: stance_shift(config, grounded, false),
                half_height: config.capsule_standing_half_height(),
                radius: config.capsule_standing_radius,
            }
        } else {
            CrouchChange::Unchanged
        }
    }

    /// Picks the perspective by the aim and sets the boom's length.
    fn handle_camera(
        &mut self,
        config: &CharacterControllerConfig,
        aiming: bool,
        obstruction: Option<i64>,
    )
        ensures
            final(self).wf() == old(self).wf(),
            final(self)@ == after_camera(old(self)@, *config, aiming, obstruction),
    {
        if self.perspective_mode.current_state().is_third_person() {
            let full = if aiming {
                self.perspective_mode.transition_to(CharacterPerspectiveMode::ThirdPersonCombat);
                config.aim_boom_arm_length
            } else {
                self.perspective_mode.transition_to(CharacterPerspectiveMode::ThirdPersonBasic);
                config.default_boom_arm_length
            };
            self.boom.set_length(
                match obstruction {
                    Some(hit) => clamp_to_i64(hit as i128 - OBSTRUCTION_MARGIN as i128),
                    None => full,
                },
            );
        }
    }

    /// Advances the controller by one tick of `delta_nanos` nanoseconds,
    /// given the player's input and what the physics world reports, and
    /// returns what is to be done to the body.
    pub fn update(
        &mut self,
        config: &CharacterControllerConfig,
        input: &Input,
        world: &Surroundings,
        delta_nanos: u64,
    ) -> (outcome: TickOutcome)
        requires
            old(self).wf(),
        ensures
            final(self).wf(),
            final(self)@ == tick_state(old(self)@, *config, input@, *world, delta_nanos as nat),
            outcome == tick_outcome(old(self)@, *config, input@, *world, delta_nanos as nat),
    {
        let was_grounded = self.ground_normal.is_some();
        let previous_wallrunning = *self.wallrunning_state.current_state();
        let previous_sliding = *self.sliding_state.current_state();
        self.classify(config, world);
        let landed = self.handle_landing(was_grounded);
        let head_tilt = self.head_tilt();
        let wallrun = self.handle_wallrun(config, previous_wallrunning);
        let slide = self.handle_slide(previous_sliding);
        self.tick_clocks(delta_nanos);
        let movement = self.plan_movement(config, input, &world.motion);
        let jump = self.handle_jump(config, input.jump(), world.body_present);
        let crouch = self.handle_stance(config, input.crouch(), world);
        self.handle_camera(config, input.aim(), world.camera_obstruction);
        TickOutcome {
            landed,
            wallrun,
            head_tilt,
            slide,
            movement,
            jump,
            crouch,
            boom_length: self.boom.length(),
        }
    }
}

impl CharacterController {
    /// Turns the look input of a tick into rotations of boom, body and head,
    /// and records the new pitch of the boom or the head. To be called before
    /// the physics world is probed for [`CharacterController::update`].
    pub fn update_orientation(
        &mut self,
        config: &CharacterControllerConfig,
        settings: &GameSettings,
        input: &Input,
    ) -> (plan: RotationPlan)
        ensures
            final(self).wf() == old(self).wf(),
            plan == rotation_plan(
                old(self)@,
                *config,
                settings.spec_up_down(),
                settings.spec_left_right(),
                input@,
            ),
            final(self)@ == after_rotation(old(self)@, *config, settings.spec_up_down(), input@),
    {
        let sens_lr: i128 = settings.left_right_look_sensitivity() as i128;
        let sens_ud: i128 = settings.up_down_look_sensitivity() as i128;
        let rr: i128 = input.rotate_right() as i128;
        let ru: i128 = input.rotate_up() as i128;
        assert(-0x8000_0000_0000_0000 * 255 <= rr * sens_lr <= 0x8000_0000_0000_0000 * 255)
            by (nonlinear_arith)
            requires
                -0x8000_0000_0000_0000 <= rr <= 0x8000_0000_0000_0000,
                0 <= sens_lr <= 255,
        ;
        assert(-0x8000_0000_0000_0000 * 255 <= ru * sens_ud <= 0x8000_0000_0000_0000 * 255)
            by (nonlinear_arith)
            requires
                -0x8000_0000_0000_0000 <= ru <= 0x8000_0000_0000_0000,
                0 <= sens_ud <= 255,
        ;
        let yaw = clamp_to_i64((-(rr * sens_lr)) / 2);
        let pitch = clamp_to_i64(ru * sens_ud);
        let perspective = *self.perspective_mode.current_state();
        let sliding = *self.sliding_state.current_state();
        let first_person = perspective == CharacterPerspectiveMode::FirstPerson;
        let boom = if first_person {
            None
        } else {
            self.boom_pitch = clamp_angle(
                self.boom_pitch,
                pitch,
                config.min_look_up_angle,
                config.max_look_up_angle,
            );
            Some(BoomTurn { yaw, pitch: self.boom_pitch })
        };
        let body = if first_person {
            let scale: i128 = if sliding == SlidingState::NotSliding {
                1000
            } else {
                200
            };
            BodyTurn::Yaw(clamp_to_i64((yaw as i128 * scale) / 1000))
        } else if perspective == CharacterPerspectiveMode::ThirdPersonCombat && self.body_speed
            > config.nonstationary_speed_threshold {
            BodyTurn::FollowBoom
        } else {
            BodyTurn::Still
        };
        let head_pitch = if first_person {
            self.head_pitch = clamp_angle(
                self.head_pitch,
                pitch,
                config.min_look_up_angle,
                config.max_look_up_angle,
            );
            Some(self.head_pitch)
        } else {
            None
        };
        let face_movement_direction = self.ground_normal.is_some() && perspective
            == CharacterPerspectiveMode::ThirdPersonBasic && (input.move_right() != 0
            || input.move_forward() != 0);
        RotationPlan { boom, body, head_pitch, face_movement_direction }
    }
}

} // verus!
