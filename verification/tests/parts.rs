use single_player::boom::Boom;
use single_player::config::{CharacterControllerConfig, MovementMode};
use single_player::descriptor::Descriptor;
use single_player::events::{CharacterControllerEvent, EventChannel};
use single_player::input::Input;
use single_player::interactions::InteractionGroup;
use single_player::level_events::Level1Event;
use single_player::player::{
    determine_movement_state, BodyMotion, DirectionAngles, MovementState, WalkDirection,
};
use single_player::settings::GameSettings;
use single_player::state_machine::StateMachine;
use single_player::time::PassiveClock;
use single_player::transitions::{
    classify_ground, classify_sliding, classify_wallrunning, jump_acceleration, jump_allowed,
    jump_cooldown_threshold, jump_vector, speed_reaches_share, up_forward_direction,
    wall_ray_length, Motion,
};
use single_player::utils::{CharacterPerspectiveMode, CrouchState, SlidingState, WallRunning};
use single_player::vectors::{up_vector, Vec3};

#[test]
fn wallrunning_equality_looks_at_the_side_only() {
    let v1 = Vec3::new(1000, 0, 0);
    let v2 = Vec3::new(0, 0, -1000);
    assert!(WallRunning::OnLeft(v1) == WallRunning::OnLeft(v2));
    assert!(WallRunning::OnRight(v1) == WallRunning::OnRight(v2));
    assert!(WallRunning::OffWall == WallRunning::OffWall);
    assert!(WallRunning::OnLeft(v1) != WallRunning::OnRight(v1));
    assert!(WallRunning::OnLeft(v1) != WallRunning::OffWall);
    assert!(WallRunning::OnRight(v2) != WallRunning::OffWall);
    assert!(WallRunning::OnLeft(v1).is_on_wall());
    assert!(!WallRunning::OffWall.is_on_wall());
}

#[test]
fn perspective_knows_the_third_person() {
    assert!(!CharacterPerspectiveMode::FirstPerson.is_third_person());
    assert!(CharacterPerspectiveMode::ThirdPersonBasic.is_third_person());
    assert!(CharacterPerspectiveMode::ThirdPersonCombat.is_third_person());
}

#[test]
fn state_machine_holds_the_last_state() {
    let mut machine = StateMachine::new(CrouchState::Upright);
    assert_eq!(*machine.current_state(), CrouchState::Upright);
    machine.transition_to(CrouchState::Crouched);
    assert_eq!(*machine.current_state(), CrouchState::Crouched);
    machine.transition_to(CrouchState::Crouched);
    assert_eq!(*machine.current_state(), CrouchState::Crouched);
}

#[test]
fn clock_accumulates_and_resets() {
    let mut clock = PassiveClock::new();
    assert_eq!(clock.elapsed(), 0);
    clock.tick(200_000_000);
    clock.tick(75_000_000);
    assert_eq!(clock.elapsed(), 275_000_000);
    clock.tick(0);
    assert_eq!(clock.elapsed(), 275_000_000);
    clock.reset();
    assert_eq!(clock.elapsed(), 0);
}

#[test]
fn clock_stops_at_its_limit() {
    let mut clock = PassiveClock::new();
    clock.tick(u64::MAX - 1);
    clock.tick(5);
    assert_eq!(clock.elapsed(), u64::MAX);
    clock.tick(1);
    assert_eq!(clock.elapsed(), u64::MAX);
}

#[test]
fn event_channel_is_first_in_first_out() {
    let mut channel = EventChannel::with_capacity(3);
    assert!(channel.get_message().is_none());
    assert!(channel.send(CharacterControllerEvent::Jump));
    assert!(channel.send(CharacterControllerEvent::Landed));
    assert_eq!(channel.len(), 2);
    assert_eq!(channel.get_message(), Some(CharacterControllerEvent::Jump));
    assert_eq!(channel.get_message(), Some(CharacterControllerEvent::Landed));
    assert_eq!(channel.get_message(), None);
}

#[test]
fn event_channel_drops_the_newest_when_full() {
    let mut channel = EventChannel::with_capacity(2);
    assert!(channel.send(CharacterControllerEvent::Jump));
    assert!(channel.send(CharacterControllerEvent::Landed));
    assert!(!channel.send(CharacterControllerEvent::Crouched));
    assert_eq!(channel.len(), 2);
    assert_eq!(channel.get_message(), Some(CharacterControllerEvent::Jump));
    assert!(channel.send(CharacterControllerEvent::Stepped));
    assert_eq!(channel.get_message(), Some(CharacterControllerEvent::Landed));
    assert_eq!(channel.get_message(), Some(CharacterControllerEvent::Stepped));
}

#[test]
fn event_channel_without_bound_takes_everything() {
    let mut channel = EventChannel::with_capacity(0);
    for _ in 0..1000 {
        assert!(channel.send(CharacterControllerEvent::Moving));
    }
    assert_eq!(channel.len(), 1000);
}

#[test]
fn jump_rule_on_plain_values() {
    let off = WallRunning::OffWall;
    let none = SlidingState::NotSliding;
    // Airborne, 0.2 s of 0.275 s grace time used, 1.0 s since the last jump.
    assert!(jump_allowed(false, off, 200_000_000, 275_000_000, 1_000_000_000, 300_000_000, none));
    assert!(!jump_allowed(false, off, 275_000_000, 275_000_000, 1_000_000_000, 300_000_000, none));
    assert!(jump_allowed(true, off, 900_000_000, 275_000_000, 1_000_000_000, 300_000_000, none));
    let wall = WallRunning::OnLeft(Vec3::new(1000, 0, 0));
    assert!(jump_allowed(false, wall, 900_000_000, 275_000_000, 300_000_001, 300_000_000, none));
    assert!(!jump_allowed(false, wall, 900_000_000, 275_000_000, 300_000_000, 300_000_000, none));
    assert!(!jump_allowed(true, wall, 0, 275_000_000, 1_000_000_000, 300_000_000, SlidingState::Normal));
    assert!(jump_allowed(true, off, 0, 275_000_000, 1_000_000_000, 300_000_000, SlidingState::Downhill));
}

#[test]
fn jump_strength_depends_on_stance_and_slide() {
    let config = CharacterControllerConfig::default();
    let up = CrouchState::Upright;
    let down = CrouchState::Crouched;
    assert_eq!(jump_acceleration(&config, up, SlidingState::NotSliding), 6000);
    assert_eq!(jump_acceleration(&config, up, SlidingState::Normal), 6000);
    assert_eq!(jump_acceleration(&config, down, SlidingState::NotSliding), 3500);
    assert_eq!(jump_acceleration(&config, down, SlidingState::Normal), 0);
    assert_eq!(jump_acceleration(&config, down, SlidingState::Downhill), 6000);
    assert_eq!(jump_cooldown_threshold(&config, up), 300_000_000);
    assert_eq!(jump_cooldown_threshold(&config, down), 500_000_000);
}

#[test]
fn jump_vector_leads_up_and_forward() {
    let config = CharacterControllerConfig::default();
    // Off the wall: up and slightly forward, with no part along a normal.
    assert_eq!(jump_vector(&config, WallRunning::OffWall, 6000), Vec3::new(0, 5367, -2683));
    assert_eq!(jump_vector(&config, WallRunning::OffWall, 1000), Vec3::new(0, 894, -447));
    let left = WallRunning::OnLeft(Vec3::new(1000, 0, 0));
    assert_eq!(jump_vector(&config, left, 3500), Vec3::new(1225, 3130, -1565));
    let right = WallRunning::OnRight(Vec3::new(-1000, 0, 0));
    assert_eq!(jump_vector(&config, right, 6000), Vec3::new(-2100, 5367, -2683));
    assert_eq!(jump_vector(&config, left, 0), Vec3::new(0, 0, 0));
}

#[test]
fn ground_and_walls_are_classified() {
    let config = CharacterControllerConfig::default();
    let n = Vec3::new(0, 1000, 0);
    assert_eq!(classify_ground(true, Some(n)), Some(n));
    assert_eq!(classify_ground(true, None), None);
    assert_eq!(classify_ground(false, Some(n)), None);
    let r = Some(Vec3::new(-1000, 0, 0));
    let l = Some(Vec3::new(1000, 0, 0));
    let up = CrouchState::Upright;
    assert!(matches!(classify_wallrunning(&config, up, true, 0, r, l), WallRunning::OnRight(_)));
    assert!(matches!(classify_wallrunning(&config, up, true, 0, None, l), WallRunning::OnLeft(_)));
    assert!(matches!(classify_wallrunning(&config, up, true, 0, None, None), WallRunning::OffWall));
    assert!(matches!(classify_wallrunning(&config, up, false, 0, r, l), WallRunning::OffWall));
    assert!(matches!(classify_wallrunning(&config, up, true, 75_001, r, l), WallRunning::OffWall));
    let crouched = CrouchState::Crouched;
    assert!(matches!(classify_wallrunning(&config, crouched, true, 0, r, l), WallRunning::OffWall));
}

#[test]
fn sliding_is_classified() {
    let config = CharacterControllerConfig::default();
    let motion = |speed: i64, forward: i64, up: i64, down: i64| Motion {
        speed,
        planar_speed: speed,
        previous_forward_angle: 0,
        down_angle: down,
        slope_forward_angle: forward,
        ground_up_angle: up,
        input_forward_angle: 0,
    };
    let none = SlidingState::NotSliding;
    let down = CrouchState::Crouched;
    let slide = |m: Motion, grounded: bool, crouch: CrouchState, previous: SlidingState| {
        classify_sliding(&config, previous, grounded, crouch, &m)
    };
    assert_eq!(slide(motion(4000, 0, 0, 90_000), true, down, none), SlidingState::Normal);
    assert_eq!(slide(motion(3999, 0, 0, 90_000), true, down, none), none);
    assert_eq!(slide(motion(9000, 30_001, 0, 90_000), true, down, none), none);
    assert_eq!(slide(motion(9000, 0, 0, 90_000), true, CrouchState::Upright, none), none);
    assert_eq!(slide(motion(100, 30_000, 30_000, 80_000), true, down, none), SlidingState::Downhill);
    assert_eq!(slide(motion(100, 0, 30_001, 80_000), true, down, none), none);
    assert_eq!(slide(motion(100, 0, 30_000, 80_001), true, down, none), none);
    assert_eq!(
        slide(motion(0, 0, 0, 0), false, CrouchState::Upright, SlidingState::Downhill),
        SlidingState::Downhill
    );
    assert!(speed_reaches_share(4000, 800, 5000));
    assert!(!speed_reaches_share(3999, 800, 5000));
    assert!(speed_reaches_share(i64::MAX, i64::MAX, 1000));
    assert!(!speed_reaches_share(i64::MIN, i64::MAX, i64::MAX));
}

#[test]
fn default_config_holds_the_capsules() {
    let config = CharacterControllerConfig::default();
    assert_eq!(config.capsule_standing_half_height(), 515);
    assert_eq!(config.capsule_crouched_half_height(), 57);
    assert_eq!(config.movement_mode, MovementMode::Discrete);
    assert_eq!(config.max_jump_coyote_duration, 275_000_000);
    assert_eq!(config.event_queue_capacity, 10);
    let mut odd = config;
    odd.capsule_standing_total_height = -1831;
    odd.capsule_standing_radius = 0;
    assert_eq!(odd.capsule_standing_half_height(), -915);
    odd.capsule_standing_total_height = i64::MIN;
    odd.capsule_standing_radius = i64::MAX;
    assert_eq!(odd.capsule_standing_half_height(), i64::MIN);
}

#[test]
fn input_setters_couple_the_vehicle_axes() {
    let mut input = Input::default();
    input.set_move_forward(700);
    assert_eq!((input.move_forward(), input.brake(), input.throttle()), (700, 1000, 0));
    input.set_move_forward(-1);
    assert_eq!((input.move_forward(), input.brake(), input.throttle()), (-1, 0, 1000));
    input.set_move_forward(0);
    assert_eq!((input.brake(), input.throttle()), (0, 0));
    input.set_move_right(-250);
    assert_eq!((input.move_right(), input.steer()), (-250, -250));
    input.set_rotate_up(5);
    input.set_rotate_right(6);
    input.set_jump(true);
    input.set_crouch(true);
    input.set_aim(true);
    assert_eq!((input.rotate_up(), input.rotate_right()), (5, 6));
    assert!(input.jump() && input.crouch() && input.aim());
    input.wipe();
    assert_eq!(input, Input::default());
    assert!(!input.jump() && !input.crouch() && !input.aim());
    assert_eq!((input.move_right(), input.steer(), input.rotate_up()), (0, 0, 0));
}

#[test]
fn settings_default_to_five() {
    let mut settings = GameSettings::default();
    assert_eq!(settings.up_down_look_sensitivity(), 5);
    assert_eq!(settings.left_right_look_sensitivity(), 5);
    settings.set_up_down_look_sensitivity(9);
    settings.set_left_right_look_sensitivity(1);
    assert_eq!(settings.up_down_look_sensitivity(), 9);
    assert_eq!(settings.left_right_look_sensitivity(), 1);
}

#[test]
fn interaction_groups_are_single_bits() {
    assert_eq!(u32::from(InteractionGroup::All), u32::MAX);
    assert_eq!(u32::from(InteractionGroup::StaticLevelObjects), 1);
    assert_eq!(u32::from(InteractionGroup::DynamicLevelObjects), 2);
    assert_eq!(u32::from(InteractionGroup::CharacterController), 4);
}

#[test]
fn level_events_have_names() {
    assert_eq!(Level1Event::LevelCompleted.as_ref(), "LEVEL_COMPLETED");
    assert_eq!(Level1Event::PlayerReset.as_ref(), "PLAYER_RESET");
    assert_eq!(Level1Event::CheckpointReached.as_ref(), "CHECKPOINT_REACHED");
}

#[test]
fn boom_length_is_set() {
    let mut boom = Boom::new(3000, 0, 20_000, false);
    assert_eq!(boom.length(), 3000);
    assert_eq!(boom.arm_yaw_angle(), 20_000);
    assert_eq!(boom.arm_pitch_angle(), 0);
    assert!(!boom.look_at_pivot());
    boom.set_length(2500);
    assert_eq!(boom.length(), 2500);
    assert_eq!(boom.arm_yaw_angle(), 20_000);
    let aim = Boom::new(2000, 0, 0, true);
    assert!(aim.look_at_pivot());
    assert_eq!(aim.length(), 2000);
}

#[test]
fn up_is_one_unit_high() {
    assert_eq!(up_vector(), Vec3::new(0, 1000, 0));
    assert!(up_vector().is_bounded());
    assert!(!Vec3::new(0, 1_000_000_000_001, 0).is_bounded());
    assert!(Vec3::new(-1_000_000_000_000, 0, 1_000_000_000_000).is_bounded());
}

#[test]
fn descriptor_without_tags() {
    let mut d = Descriptor::from_name("Crate");
    assert_eq!(d.object_name(), "Crate");
    assert!(!d.has_tag("Crate"));
    assert!(!d.has_tag(""));
    d.add_tag("heavy");
    assert_eq!(d.as_str(), "Crate.heavy");
    d.add_tag("heavy");
    assert_eq!(d.as_str(), "Crate.heavy");
    assert_eq!(d.object_name(), "Crate");
}

#[test]
fn descriptor_looks_at_the_first_occurrence_only() {
    let d = Descriptor::from_name("Player.is_tall.tall");
    assert!(!d.has_tag("tall"));
    assert!(d.has_tag("is_tall"));
    assert!(d.has_tag("is"));
    let e = Descriptor::from_name(".hidden");
    assert_eq!(e.object_name(), "");
    assert!(e.has_tag("hidden"));
    let empty = Descriptor::from_name("");
    assert_eq!(empty.object_name(), "");
    assert!(!empty.has_tag("x"));
}

#[test]
fn descriptor_counts_characters() {
    let mut d = Descriptor::from_name("Spieler\u{e4}.gro\u{df}");
    assert!(d.has_tag("gro\u{df}"));
    assert_eq!(d.object_name(), "Spieler\u{e4}");
    d.add_tag("m\u{fc}de");
    assert!(d.has_tag("m\u{fc}de"));
}

fn angles_towards(direction: usize) -> DirectionAngles {
    // The angle to direction k of a vector that points along direction d,
    // the directions being 45 degrees apart.
    let to = |k: usize| {
        let apart = (8 + k - direction) % 8;
        (if apart > 4 { 8 - apart } else { apart }) as i64 * 45_000
    };
    DirectionAngles {
        forward: to(0),
        right_forward: to(1),
        right: to(2),
        right_back: to(3),
        back: to(4),
        left_back: to(5),
        left: to(6),
    }
}

#[test]
fn walk_direction_picks_the_sector() {
    let expected = [
        WalkDirection::Forward,
        WalkDirection::RightForward,
        WalkDirection::Right,
        WalkDirection::RightBack,
        WalkDirection::Back,
        WalkDirection::LeftBack,
        WalkDirection::Left,
        WalkDirection::LeftForward,
    ];
    for (d, want) in expected.iter().enumerate() {
        assert_eq!(WalkDirection::from_movement_vector(1, &angles_towards(d)), Some(*want));
    }
    assert_eq!(WalkDirection::from_movement_vector(0, &angles_towards(0)), None);
    // On the edge between forward and right forward the diagonal wins.
    let mut edge = angles_towards(0);
    edge.forward = 22_500;
    edge.right_forward = 22_500;
    assert_eq!(WalkDirection::from_movement_vector(1, &edge), Some(WalkDirection::RightForward));
    assert_eq!(WalkDirection::default(), WalkDirection::Forward);
}

#[test]
fn movement_state_follows_speed_and_stance() {
    let config = CharacterControllerConfig::default();
    let idle = MovementState::default();
    assert_eq!(idle, MovementState::Stationary(CrouchState::Upright));
    let body = |speed: i64, crouch: CrouchState, perspective: CharacterPerspectiveMode| BodyMotion {
        body_present: true,
        grounded: true,
        crouch,
        perspective,
        speed,
        forward_angle: 0,
        angles: angles_towards(2),
    };
    let basic = CharacterPerspectiveMode::ThirdPersonBasic;
    let combat = CharacterPerspectiveMode::ThirdPersonCombat;
    let up = CrouchState::Upright;
    let down = CrouchState::Crouched;
    let state = |b: BodyMotion| determine_movement_state(idle, &b, &config);
    // The tiers begin at three quarters of their speeds.
    assert_eq!(state(body(5625, up, basic)), MovementState::Sprinting);
    assert_eq!(state(body(5624, up, basic)), MovementState::Running);
    assert_eq!(state(body(3750, up, basic)), MovementState::Running);
    assert_eq!(state(body(3749, up, basic)), MovementState::Walking(WalkDirection::Forward));
    assert_eq!(state(body(2250, up, combat)), MovementState::Walking(WalkDirection::Right));
    assert_eq!(state(body(2249, up, basic)), MovementState::Stationary(up));
    assert_eq!(state(body(750, down, basic)), MovementState::Creeping);
    assert_eq!(state(body(749, down, combat)), MovementState::Stationary(down));
    let mut sideways = body(9000, up, combat);
    sideways.forward_angle = 22_401;
    assert_eq!(state(sideways), MovementState::Running);
    let mut airborne = body(9000, up, basic);
    airborne.grounded = false;
    assert_eq!(state(airborne), MovementState::InAir);
    let mut gone = airborne;
    gone.body_present = false;
    assert_eq!(determine_movement_state(MovementState::Creeping, &gone, &config), MovementState::Creeping);
    assert_eq!(MovementState::Sprinting.as_ref(), "SPRINT_FORWARD");
    assert_eq!(MovementState::Stationary(down).as_ref(), "CROUCHED");
    assert_eq!(MovementState::Walking(WalkDirection::Back).as_ref(), "WALK_BACKWARD");
    assert_eq!(idle.as_ref(), "IDLE");
}

#[test]
fn wall_rays_reach_beyond_the_capsule() {
    let config = CharacterControllerConfig::default();
    // 0.4 + 0.4
    assert_eq!(wall_ray_length(&config, 400), 800);
    assert_eq!(wall_ray_length(&config, i64::MAX), i64::MAX);
    assert_eq!(up_forward_direction(), Vec3::new(0, 894_427_191, -447_213_595));
}

#[test]
fn descriptor_from_a_string() {
    let d = Descriptor::from(String::from("Lamp.bright"));
    assert_eq!(d.as_str(), "Lamp.bright");
    assert_eq!(d.object_name(), "Lamp");
    assert!(d.has_tag("bright"));
}

#[test]
fn wall_jump_leads_up_forward_and_off_the_wall() {
    let config = CharacterControllerConfig::default();
    let normals = [
        Vec3::new(-1000, 0, 0),
        Vec3::new(1000, 0, 0),
        Vec3::new(-707, 0, -707),
        Vec3::new(-600, 800, 0),
        Vec3::new(-500, 0, 0),
    ];
    for normal in normals {
        for strength in [1000i64, 3500, 6000, 1_000_000] {
            let v = jump_vector(&config, WallRunning::OnRight(normal), strength);
            let along_direction = v.y as i128 * 894_427_191 + v.z as i128 * -447_213_595;
            assert!(along_direction > 0);
            assert!(v.y > 0);
            let along_normal = v.x * normal.x + v.y * normal.y + v.z * normal.z;
            assert!(along_normal > 0);
            // The part along a horizontal normal is the normal's weight
            // times the strength.
            if normal == Vec3::new(-1000, 0, 0) {
                assert_eq!(v.x, -350 * strength / 1000);
            }
        }
    }
    // A jump too weak to show in thousandths has no direction at all.
    let faint = jump_vector(&config, WallRunning::OnRight(Vec3::new(-1000, 0, 0)), 0);
    assert_eq!(faint, Vec3::new(0, 0, 0));
}
