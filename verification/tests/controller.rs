use single_player::config::{CharacterControllerConfig, MovementMode};
use single_player::controller::{
    stand_up_probe, StandProbe, BodyTurn, CharacterController, CrouchChange, Handle, SlideChange, Surroundings, TickOutcome,
    WallRunChange,
};
use single_player::events::CharacterControllerEvent;
use single_player::input::Input;
use single_player::settings::GameSettings;
use single_player::traits::FromConfig;
use single_player::transitions::Motion;
use single_player::utils::{CharacterPerspectiveMode, CrouchState, SlidingState, WallRunning};
use single_player::vectors::Vec3;

const MS: u64 = 1_000_000;

fn still() -> Motion {
    Motion {
        speed: 0,
        planar_speed: 0,
        previous_forward_angle: 0,
        down_angle: 90_000,
        slope_forward_angle: 0,
        ground_up_angle: 0,
        input_forward_angle: 0,
    }
}

fn on_ground() -> Surroundings {
    Surroundings {
        body_present: true,
        ground_hit: Some(Vec3::new(0, 1000, 0)),
        right_wall: None,
        left_wall: None,
        can_stand: true,
        camera_obstruction: None,
        motion: still(),
    }
}

fn in_air() -> Surroundings {
    Surroundings { ground_hit: None, ..on_ground() }
}

fn drain(c: &mut CharacterController) -> Vec<CharacterControllerEvent> {
    let mut out = Vec::new();
    while let Some(e) = c.get_event() {
        out.push(e);
    }
    out
}

fn tick(
    c: &mut CharacterController,
    config: &CharacterControllerConfig,
    input: &Input,
    world: &Surroundings,
    ms: u64,
) -> TickOutcome {
    c.update(config, input, world, ms * MS)
}

#[test]
fn new_controller_stands_on_level_ground() {
    let config = CharacterControllerConfig::default();
    let mut c = CharacterController::from_config(&config);
    assert!(c.is_grounded());
    assert_eq!(c.ground_normal(), Some(Vec3::new(0, 1000, 0)));
    assert_eq!(c.crouch_state(), CrouchState::Upright);
    assert_eq!(c.sliding_state(), SlidingState::NotSliding);
    assert!(c.wallrunning_state() == WallRunning::OffWall);
    assert_eq!(c.perspective_mode(), CharacterPerspectiveMode::ThirdPersonBasic);
    assert_eq!(c.movement_mode(), MovementMode::Discrete);
    assert_eq!(c.boom_length(), 3000);
    assert_eq!(c.coyote_elapsed(), 0);
    assert_eq!(c.jump_cooldown_elapsed(), 0);
    assert_eq!(c.body_handle(), Handle { index: 0, generation: 0 });
    assert!(c.get_event().is_none());
}

#[test]
fn handles_are_recorded() {
    let config = CharacterControllerConfig::default();
    let mut c = CharacterController::from_config(&config);
    c.set_body_handle(Handle { index: 7, generation: 2 });
    c.set_collider_handle(Handle { index: 9, generation: 1 });
    assert_eq!(c.body_handle(), Handle { index: 7, generation: 2 });
    assert_eq!(c.collider_handle(), Handle { index: 9, generation: 1 });
}

#[test]
fn coyote_jump_is_granted_within_the_window() {
    // Airborne, off the wall, 0.2 s into a grace time of 0.275 s, 1.0 s and
    // more since the last jump.
    let config = CharacterControllerConfig::default();
    let mut c = CharacterController::from_config(&config);
    let idle = Input::default();
    tick(&mut c, &config, &idle, &on_ground(), 1000);
    assert_eq!(c.jump_cooldown_elapsed(), 1000 * MS);
    let mut jump = Input::default();
    jump.set_jump(true);
    let out = tick(&mut c, &config, &jump, &in_air(), 200);
    assert!(!c.is_grounded());
    let order = out.jump.expect("the jump is granted");
    assert_eq!(order.strength, 6000);
    // Up and slightly forward: (0, 0.894427, -0.447214) * 6.0
    assert_eq!(order.vector, Vec3::new(0, 5367, -2683));
    assert_eq!(c.jump_cooldown_elapsed(), 0);
    assert_eq!(drain(&mut c), vec![CharacterControllerEvent::Jump]);
}

#[test]
fn coyote_jump_is_refused_after_the_window() {
    let config = CharacterControllerConfig::default();
    let mut c = CharacterController::from_config(&config);
    let idle = Input::default();
    tick(&mut c, &config, &idle, &on_ground(), 1000);
    tick(&mut c, &config, &idle, &in_air(), 200);
    assert_eq!(c.coyote_elapsed(), 200 * MS);
    let mut jump = Input::default();
    jump.set_jump(true);
    // 75 ms more make 0.275 s: no longer under the limit.
    let out = tick(&mut c, &config, &jump, &in_air(), 75);
    assert!(out.jump.is_none());
    assert_eq!(c.coyote_elapsed(), 275 * MS);
    assert!(drain(&mut c).is_empty());
}

#[test]
fn jump_waits_for_the_cooldown() {
    let config = CharacterControllerConfig::default();
    let mut c = CharacterController::from_config(&config);
    let mut jump = Input::default();
    jump.set_jump(true);
    // Exactly the threshold of 0.3 s is not more than the threshold.
    let out = tick(&mut c, &config, &jump, &on_ground(), 300);
    assert!(out.jump.is_none());
    let out = tick(&mut c, &config, &jump, &on_ground(), 1);
    assert!(out.jump.is_some());
    assert_eq!(drain(&mut c), vec![CharacterControllerEvent::Jump]);
    // The cooldown starts anew.
    let out = tick(&mut c, &config, &jump, &on_ground(), 100);
    assert!(out.jump.is_none());
}

#[test]
fn jumping_suppresses_the_movement_order() {
    let config = CharacterControllerConfig::default();
    let mut c = CharacterController::from_config(&config);
    let mut input = Input::default();
    input.set_move_forward(-1000);
    let out = tick(&mut c, &config, &input, &on_ground(), 16);
    assert!(out.movement.is_some());
    input.set_jump(true);
    let out = tick(&mut c, &config, &input, &on_ground(), 16);
    assert!(out.movement.is_none());
    let out = tick(&mut c, &config, &Input::default(), &in_air(), 16);
    assert!(out.movement.is_none());
}

#[test]
fn landing_is_told_and_ends_the_wall_run() {
    let config = CharacterControllerConfig::default();
    let mut c = CharacterController::from_config(&config);
    let idle = Input::default();
    let wall = Surroundings { right_wall: Some(Vec3::new(-1000, 0, 0)), ..in_air() };
    let out = tick(&mut c, &config, &idle, &wall, 16);
    assert!(!out.landed);
    assert_eq!(out.wallrun, WallRunChange::Started { gravity_scale: 500, up_speed: 4000 });
    assert_eq!(out.head_tilt.target, 10_000);
    assert!(matches!(c.wallrunning_state(), WallRunning::OnRight(_)));
    assert_eq!(drain(&mut c), vec![CharacterControllerEvent::StartedWallRunning]);
    // While on the wall the grace time does not run.
    tick(&mut c, &config, &idle, &wall, 100);
    assert_eq!(c.coyote_elapsed(), 0);
    // Landing next to the wall: off the wall, whatever the rays say.
    let landing = Surroundings { right_wall: Some(Vec3::new(-1000, 0, 0)), ..on_ground() };
    let out = tick(&mut c, &config, &idle, &landing, 16);
    assert!(out.landed);
    assert_eq!(out.wallrun, WallRunChange::Stopped);
    assert_eq!(out.head_tilt.target, 0);
    assert!(c.wallrunning_state() == WallRunning::OffWall);
    assert_eq!(
        drain(&mut c),
        vec![CharacterControllerEvent::Landed, CharacterControllerEvent::StoppedWallRunning]
    );
}

#[test]
fn a_changed_normal_on_the_same_side_is_no_new_wall_run() {
    let config = CharacterControllerConfig::default();
    let mut c = CharacterController::from_config(&config);
    let idle = Input::default();
    let wall = Surroundings { left_wall: Some(Vec3::new(1000, 0, 0)), ..in_air() };
    let out = tick(&mut c, &config, &idle, &wall, 16);
    assert!(matches!(out.wallrun, WallRunChange::Started { .. }));
    assert_eq!(out.head_tilt.target, -10_000);
    drain(&mut c);
    let turned = Surroundings { left_wall: Some(Vec3::new(900, 0, 435)), ..in_air() };
    let out = tick(&mut c, &config, &idle, &turned, 16);
    assert_eq!(out.wallrun, WallRunChange::Unchanged);
    assert!(drain(&mut c).is_empty());
    match c.wallrunning_state() {
        WallRunning::OnLeft(n) => assert_eq!(n, Vec3::new(900, 0, 435)),
        _ => panic!("still on the left wall"),
    }
}

#[test]
fn right_wall_comes_before_left_wall() {
    let config = CharacterControllerConfig::default();
    let mut c = CharacterController::from_config(&config);
    let both = Surroundings {
        right_wall: Some(Vec3::new(-1000, 0, 0)),
        left_wall: Some(Vec3::new(1000, 0, 0)),
        ..in_air()
    };
    tick(&mut c, &config, &Input::default(), &both, 16);
    assert!(matches!(c.wallrunning_state(), WallRunning::OnRight(_)));
}

#[test]
fn moving_off_the_forward_axis_ends_the_wall_run() {
    let config = CharacterControllerConfig::default();
    let mut c = CharacterController::from_config(&config);
    let idle = Input::default();
    let wall = Surroundings { right_wall: Some(Vec3::new(-1000, 0, 0)), ..in_air() };
    tick(&mut c, &config, &idle, &wall, 16);
    drain(&mut c);
    let mut sideways = wall;
    sideways.motion.previous_forward_angle = 75_001;
    let out = tick(&mut c, &config, &idle, &sideways, 16);
    assert_eq!(out.wallrun, WallRunChange::Stopped);
    assert!(c.wallrunning_state() == WallRunning::OffWall);
    assert_eq!(drain(&mut c), vec![CharacterControllerEvent::StoppedWallRunning]);
    // Exactly at the limit the run holds.
    sideways.motion.previous_forward_angle = 75_000;
    let out = tick(&mut c, &config, &idle, &sideways, 16);
    assert!(matches!(out.wallrun, WallRunChange::Started { .. }));
}

#[test]
fn wall_jump_pushes_up_forward_and_off_the_wall() {
    // Airborne, on a wall to the right, jump pressed.
    let config = CharacterControllerConfig::default();
    let mut c = CharacterController::from_config(&config);
    let idle = Input::default();
    tick(&mut c, &config, &idle, &on_ground(), 1000);
    let normal = Vec3::new(-1000, 0, 0);
    let wall = Surroundings { right_wall: Some(normal), ..in_air() };
    let mut jump = Input::default();
    jump.set_jump(true);
    let out = tick(&mut c, &config, &jump, &wall, 16);
    let order = out.jump.expect("a wall run grants the jump");
    assert_eq!(order.strength, 6000);
    // (normal * 0.35 + (0, 0.894427, -0.447214) * 1.0) * 6.0
    assert_eq!(order.vector, Vec3::new(-2100, 5367, -2683));
    let v = order.vector;
    let along_up_forward = v.y * 894 + v.z * -447;
    let along_normal = v.x * normal.x + v.y * normal.y + v.z * normal.z;
    assert!(along_up_forward > 0);
    assert!(along_normal > 0);
    // The share along the normal is the normal scale times the strength.
    assert_eq!(along_normal / 1000, 350 * 6000 / 1000);
    assert_eq!(
        drain(&mut c),
        vec![CharacterControllerEvent::StartedWallRunning, CharacterControllerEvent::Jump]
    );
}

#[test]
fn crouching_lowers_the_body_and_swaps_the_capsule() {
    let config = CharacterControllerConfig::default();
    let mut c = CharacterController::from_config(&config);
    assert_eq!(c.capsule_values(&config), (515, 400));
    let mut input = Input::default();
    input.set_crouch(true);
    let out = tick(&mut c, &config, &input, &on_ground(), 16);
    // Half of 1.83 - 0.915, rounded toward zero; the capsule of 0.915 / 2 - 0.4.
    assert_eq!(out.crouch, CrouchChange::Crouched { shift: -457, half_height: 57, radius: 400 });
    assert_eq!(c.crouch_state(), CrouchState::Crouched);
    assert_eq!(c.capsule_values(&config), (57, 400));
    assert_eq!(drain(&mut c), vec![CharacterControllerEvent::Crouched]);
    // Held crouch changes nothing more.
    let out = tick(&mut c, &config, &input, &on_ground(), 16);
    assert_eq!(out.crouch, CrouchChange::Unchanged);
    assert!(drain(&mut c).is_empty());
}

#[test]
fn crouching_in_the_air_raises_the_body_by_the_head_gap() {
    let config = CharacterControllerConfig::default();
    let mut c = CharacterController::from_config(&config);
    let mut input = Input::default();
    input.set_crouch(true);
    let out = tick(&mut c, &config, &input, &in_air(), 16);
    assert_eq!(out.crouch, CrouchChange::Crouched { shift: 385, half_height: 57, radius: 400 });
    input.set_crouch(false);
    let out = tick(&mut c, &config, &input, &in_air(), 16);
    assert_eq!(out.crouch, CrouchChange::StoodUp { shift: -385, half_height: 515, radius: 400 });
}

#[test]
fn blocked_stand_up_keeps_the_crouch_and_tells_nothing() {
    let config = CharacterControllerConfig::default();
    let mut c = CharacterController::from_config(&config);
    let mut input = Input::default();
    input.set_crouch(true);
    tick(&mut c, &config, &input, &on_ground(), 16);
    drain(&mut c);
    input.set_crouch(false);
    let low_ceiling = Surroundings { can_stand: false, ..on_ground() };
    let out = tick(&mut c, &config, &input, &low_ceiling, 16);
    assert_eq!(out.crouch, CrouchChange::Unchanged);
    assert_eq!(c.crouch_state(), CrouchState::Crouched);
    assert!(!drain(&mut c).contains(&CharacterControllerEvent::StoodUpright));
    // With room the body stands up.
    let out = tick(&mut c, &config, &input, &on_ground(), 16);
    assert_eq!(out.crouch, CrouchChange::StoodUp { shift: 457, half_height: 515, radius: 400 });
    assert_eq!(c.crouch_state(), CrouchState::Upright);
    assert_eq!(drain(&mut c), vec![CharacterControllerEvent::StoodUpright]);
}

#[test]
fn fast_crouch_is_a_slide_not_a_crouch() {
    let config = CharacterControllerConfig::default();
    let mut c = CharacterController::from_config(&config);
    let mut input = Input::default();
    input.set_crouch(true);
    let mut fast = on_ground();
    // 0.8 * 5.0 = 4.0 is the speed from which a crouch is a slide.
    fast.motion.speed = 4000;
    fast.motion.planar_speed = 4000;
    let out = tick(&mut c, &config, &input, &fast, 16);
    assert!(matches!(out.crouch, CrouchChange::Crouched { .. }));
    assert!(drain(&mut c).is_empty());
    // At the next tick the crouched, fast body slides.
    let out = tick(&mut c, &config, &input, &fast, 16);
    assert_eq!(out.slide, SlideChange::Started(SlidingState::Normal));
    assert_eq!(c.sliding_state(), SlidingState::Normal);
    assert!(out.movement.is_none());
    assert_eq!(drain(&mut c), vec![CharacterControllerEvent::StartedSliding]);
    // No jump out of a normal slide, however long the cooldown has run.
    let mut jump = input;
    jump.set_jump(true);
    let out = tick(&mut c, &config, &jump, &fast, 1000);
    assert!(out.jump.is_none());
    // Slowing down ends the slide and leaves a plain crouch.
    let mut slow = fast;
    slow.motion.speed = 3999;
    slow.motion.planar_speed = 3999;
    let out = tick(&mut c, &config, &input, &slow, 16);
    assert_eq!(out.slide, SlideChange::Stopped { clear_forces: false });
    assert_eq!(
        drain(&mut c),
        vec![CharacterControllerEvent::StoppedSliding, CharacterControllerEvent::Crouched]
    );
}

#[test]
fn downhill_slide_allows_a_standing_jump() {
    let config = CharacterControllerConfig::default();
    let mut c = CharacterController::from_config(&config);
    let mut input = Input::default();
    input.set_crouch(true);
    tick(&mut c, &config, &input, &on_ground(), 1000);
    drain(&mut c);
    let mut slope = on_ground();
    slope.motion.ground_up_angle = 20_000;
    slope.motion.down_angle = 70_000;
    slope.motion.speed = 1000;
    let out = tick(&mut c, &config, &input, &slope, 16);
    assert_eq!(out.slide, SlideChange::Started(SlidingState::Downhill));
    let mut jump = input;
    jump.set_jump(true);
    let out = tick(&mut c, &config, &jump, &slope, 16);
    assert_eq!(out.jump.expect("downhill slides may jump").strength, 6000);
    drain(&mut c);
    // Leaving the slope ends the slide and clears what it left.
    let out = tick(&mut c, &config, &input, &on_ground(), 16);
    assert_eq!(out.slide, SlideChange::Stopped { clear_forces: true });
}

#[test]
fn crouched_jump_is_weaker() {
    let config = CharacterControllerConfig::default();
    let mut c = CharacterController::from_config(&config);
    let mut input = Input::default();
    input.set_crouch(true);
    tick(&mut c, &config, &input, &on_ground(), 500);
    input.set_jump(true);
    // The crouched cooldown is 0.5 s, and must be exceeded.
    let out = tick(&mut c, &config, &input, &on_ground(), 0);
    assert!(out.jump.is_none());
    let out = tick(&mut c, &config, &input, &on_ground(), 1);
    assert_eq!(out.jump.expect("cooled down").strength, 3500);
}

#[test]
fn a_sliding_body_in_the_air_keeps_its_slide() {
    let config = CharacterControllerConfig::default();
    let mut c = CharacterController::from_config(&config);
    let mut input = Input::default();
    input.set_crouch(true);
    let mut fast = on_ground();
    fast.motion.speed = 5000;
    fast.motion.planar_speed = 5000;
    tick(&mut c, &config, &input, &fast, 16);
    tick(&mut c, &config, &input, &fast, 16);
    assert_eq!(c.sliding_state(), SlidingState::Normal);
    let mut air = in_air();
    air.motion.speed = 0;
    let out = tick(&mut c, &config, &input, &air, 16);
    assert_eq!(out.slide, SlideChange::Unchanged);
    assert_eq!(c.sliding_state(), SlidingState::Normal);
}

#[test]
fn a_missing_body_changes_nothing_but_the_clocks() {
    let config = CharacterControllerConfig::default();
    let mut c = CharacterController::from_config(&config);
    tick(&mut c, &config, &Input::default(), &on_ground(), 500);
    let mut input = Input::default();
    input.set_crouch(true);
    let gone = Surroundings {
        body_present: false,
        right_wall: Some(Vec3::new(-1000, 0, 0)),
        ..on_ground()
    };
    let out = tick(&mut c, &config, &input, &gone, 16);
    assert!(!c.is_grounded());
    assert!(c.wallrunning_state() == WallRunning::OffWall);
    assert_eq!(out.crouch, CrouchChange::Unchanged);
    assert_eq!(c.crouch_state(), CrouchState::Upright);
    assert!(out.movement.is_none());
    assert_eq!(c.coyote_elapsed(), 16 * MS);
    assert!(drain(&mut c).is_empty());
    // Nor does a body that is not there jump, though the grace time runs
    // and the cooldown is over.
    input.set_jump(true);
    let out = tick(&mut c, &config, &input, &gone, 200);
    assert!(c.coyote_elapsed() < config.max_jump_coyote_duration);
    assert!(c.jump_cooldown_elapsed() > config.min_jump_standing_cooldown_duration);
    assert!(out.jump.is_none());
    assert_eq!(c.jump_cooldown_elapsed(), 716 * MS);
    assert!(drain(&mut c).is_empty());
    // With the body back in the world the same wish is granted.
    let out = tick(&mut c, &config, &input, &in_air(), 16);
    assert!(out.jump.is_some());
}

#[test]
fn a_wall_met_on_the_ground_starts_and_ends_nothing() {
    let config = CharacterControllerConfig::default();
    let mut c = CharacterController::from_config(&config);
    let idle = Input::default();
    let beside_wall = Surroundings { right_wall: Some(Vec3::new(-1000, 0, 0)), ..on_ground() };
    let out = tick(&mut c, &config, &idle, &beside_wall, 16);
    assert_eq!(out.wallrun, WallRunChange::Unchanged);
    assert!(matches!(c.wallrunning_state(), WallRunning::OnRight(_)));
    assert!(drain(&mut c).is_empty());
    let out = tick(&mut c, &config, &idle, &beside_wall, 16);
    assert_eq!(out.wallrun, WallRunChange::Unchanged);
    assert!(drain(&mut c).is_empty());
    // Walking away from the wall is a flip to no wall.
    let out = tick(&mut c, &config, &idle, &on_ground(), 16);
    assert_eq!(out.wallrun, WallRunChange::Stopped);
    assert_eq!(drain(&mut c), vec![CharacterControllerEvent::StoppedWallRunning]);
}

#[test]
fn a_full_queue_drops_the_newest_event() {
    let mut config = CharacterControllerConfig::default();
    config.event_queue_capacity = 2;
    let mut c = CharacterController::from_config(&config);
    let idle = Input::default();
    let wall = Surroundings { right_wall: Some(Vec3::new(-1000, 0, 0)), ..in_air() };
    tick(&mut c, &config, &idle, &wall, 16);
    tick(&mut c, &config, &idle, &on_ground(), 16);
    // Started, Landed, Stopped were told; only two fit.
    assert_eq!(c.pending_events(), 2);
    assert_eq!(
        drain(&mut c),
        vec![CharacterControllerEvent::StartedWallRunning, CharacterControllerEvent::Landed]
    );
}

#[test]
fn aiming_switches_the_perspective_and_the_boom() {
    let config = CharacterControllerConfig::default();
    let mut c = CharacterController::from_config(&config);
    let mut input = Input::default();
    input.set_aim(true);
    let out = tick(&mut c, &config, &input, &on_ground(), 16);
    assert_eq!(c.perspective_mode(), CharacterPerspectiveMode::ThirdPersonCombat);
    assert_eq!(out.boom_length, 2000);
    input.set_aim(false);
    let out = tick(&mut c, &config, &input, &on_ground(), 16);
    assert_eq!(c.perspective_mode(), CharacterPerspectiveMode::ThirdPersonBasic);
    assert_eq!(out.boom_length, 3000);
    assert_eq!(c.boom_length(), 3000);
}

#[test]
fn an_obstruction_shortens_the_boom() {
    let config = CharacterControllerConfig::default();
    let mut c = CharacterController::from_config(&config);
    let blocked = Surroundings { camera_obstruction: Some(1500), ..on_ground() };
    let out = tick(&mut c, &config, &Input::default(), &blocked, 16);
    assert_eq!(out.boom_length, 1470);
    assert_eq!(c.boom().length(), 1470);
    let out = tick(&mut c, &config, &Input::default(), &on_ground(), 16);
    assert_eq!(out.boom_length, 3000);
}

#[test]
fn first_person_ignores_aim_and_obstructions() {
    let mut config = CharacterControllerConfig::default();
    config.initial_perspective_mode = CharacterPerspectiveMode::FirstPerson;
    let mut c = CharacterController::from_config(&config);
    let mut input = Input::default();
    input.set_aim(true);
    let blocked = Surroundings { camera_obstruction: Some(1500), ..on_ground() };
    let out = tick(&mut c, &config, &input, &blocked, 16);
    assert_eq!(c.perspective_mode(), CharacterPerspectiveMode::FirstPerson);
    assert_eq!(out.boom_length, 3000);
}

#[test]
fn look_input_turns_the_boom_in_third_person() {
    let config = CharacterControllerConfig::default();
    let settings = GameSettings::default();
    let mut c = CharacterController::from_config(&config);
    let mut input = Input::default();
    input.set_rotate_right(1000);
    input.set_rotate_up(1000);
    let plan = c.update_orientation(&config, &settings, &input);
    // 2.5 degrees to the left and 5 degrees up at sensitivity 5.
    let boom = plan.boom.expect("third person turns the boom");
    assert_eq!(boom.yaw, -2500);
    assert_eq!(boom.pitch, 5000);
    assert_eq!(c.boom_pitch(), 5000);
    assert_eq!(plan.body, BodyTurn::Still);
    assert_eq!(plan.head_pitch, None);
    assert!(!plan.face_movement_direction);
    input.set_move_right(500);
    let plan = c.update_orientation(&config, &settings, &input);
    assert!(plan.face_movement_direction);
    assert_eq!(c.boom_pitch(), 10_000);
}

#[test]
fn pitch_stays_within_the_look_angles() {
    let mut config = CharacterControllerConfig::default();
    config.initial_perspective_mode = CharacterPerspectiveMode::FirstPerson;
    let mut settings = GameSettings::default();
    settings.set_up_down_look_sensitivity(50);
    let mut c = CharacterController::from_config(&config);
    let mut input = Input::default();
    input.set_rotate_up(1000);
    let plan = c.update_orientation(&config, &settings, &input);
    assert_eq!(plan.head_pitch, Some(50_000));
    let plan = c.update_orientation(&config, &settings, &input);
    assert_eq!(plan.head_pitch, Some(90_000));
    input.set_rotate_up(-1000);
    for _ in 0..5 {
        c.update_orientation(&config, &settings, &input);
    }
    assert_eq!(c.head_pitch(), -60_000);
    assert_eq!(plan.boom, None);
    c.rotate_head(10_000, -60_000, 90_000);
    assert_eq!(c.head_pitch(), -50_000);
    c.rotate_head(-20_000, -60_000, 90_000);
    assert_eq!(c.head_pitch(), -60_000);
}

#[test]
fn first_person_body_turns_less_while_sliding() {
    let mut config = CharacterControllerConfig::default();
    config.initial_perspective_mode = CharacterPerspectiveMode::FirstPerson;
    let settings = GameSettings::default();
    let mut c = CharacterController::from_config(&config);
    let mut input = Input::default();
    input.set_rotate_right(-1000);
    let plan = c.update_orientation(&config, &settings, &input);
    assert_eq!(plan.body, BodyTurn::Yaw(2500));
    // Crouch, then slide down a slope.
    let mut crouch = Input::default();
    crouch.set_crouch(true);
    tick(&mut c, &config, &crouch, &on_ground(), 16);
    let mut slope = on_ground();
    slope.motion.ground_up_angle = 20_000;
    slope.motion.down_angle = 70_000;
    tick(&mut c, &config, &crouch, &slope, 16);
    assert_eq!(c.sliding_state(), SlidingState::Downhill);
    let plan = c.update_orientation(&config, &settings, &input);
    assert_eq!(plan.body, BodyTurn::Yaw(500));
}

#[test]
fn combat_body_follows_the_boom_only_when_moving() {
    let mut config = CharacterControllerConfig::default();
    config.initial_perspective_mode = CharacterPerspectiveMode::ThirdPersonCombat;
    let settings = GameSettings::default();
    let mut c = CharacterController::from_config(&config);
    let input = Input::default();
    assert_eq!(c.update_orientation(&config, &settings, &input).body, BodyTurn::Still);
    let mut moving = on_ground();
    moving.motion.speed = 21;
    let mut aim = Input::default();
    aim.set_aim(true);
    tick(&mut c, &config, &aim, &moving, 16);
    assert_eq!(c.body_speed(), 21);
    assert_eq!(c.update_orientation(&config, &settings, &input).body, BodyTurn::FollowBoom);
    moving.motion.speed = 20;
    tick(&mut c, &config, &aim, &moving, 16);
    assert_eq!(c.update_orientation(&config, &settings, &input).body, BodyTurn::Still);
}

#[test]
fn room_to_stand_is_tested_above_the_ground_and_below_in_the_air() {
    let config = CharacterControllerConfig::default();
    assert_eq!(stand_up_probe(&config, true), StandProbe { shift: 915, upward: true });
    assert_eq!(stand_up_probe(&config, false), StandProbe { shift: -385, upward: false });
}
