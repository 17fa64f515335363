//! How the player's character moves, as far as picking an animation needs
//! to know.

use vstd::prelude::*;
use crate::config::CharacterControllerConfig;
use crate::transitions::{reaches_share, speed_reaches_share};
use crate::utils::{CharacterPerspectiveMode, CrouchState};

verus! {

/// One of eight directions of walking, as seen from the body.
#[derive(Clone, Copy, Debug, PartialEq, Eq, Structural)]
pub enum WalkDirection {
    Forward,
    RightForward,
    Right,
    RightBack,
    Back,
    LeftBack,
    Left,
    LeftForward,
}

/// Half the width of the sector of one walk direction, in thousandths of a
/// degree.
pub const HALF_SECTOR: i64 = 22_500;

/// The angles between a movement vector and seven of the eight walk
/// directions, in thousandths of a degree.
#[derive(Clone, Copy, Debug)]
pub struct DirectionAngles {
    pub forward: i64,
    pub right_forward: i64,
    pub right: i64,
    pub right_back: i64,
    pub back: i64,
    pub left_back: i64,
    pub left: i64,
}

/// The walk direction of a vector that makes the given angles: the first of
/// the directions, taken clockwise from forward, within whose sector the
/// vector lies. The straight directions own the inside of their sectors and
/// the diagonal ones the edges as well; what fits none is left forward.
pub open spec fn walk_direction_of(angles: DirectionAngles) -> WalkDirection {
    if angles.forward < HALF_SECTOR {
        WalkDirection::Forward
    } else if angles.right_forward <= HALF_SECTOR {
        WalkDirection::RightForward
    } else if angles.right < HALF_SECTOR {
        WalkDirection::Right
    } else if angles.right_back <= HALF_SECTOR {
        WalkDirection::RightBack
    } else if angles.back < HALF_SECTOR {
        WalkDirection::Back
    } else if angles.left_back <= HALF_SECTOR {
        WalkDirection::LeftBack
    } else if angles.left < HALF_SECTOR {
        WalkDirection::Left
    } else {
        WalkDirection::LeftForward
    }
}

impl Default for WalkDirection {
    fn default() -> (direction: Self)
        ensures
            direction == WalkDirection::Forward,
    {
        WalkDirection::Forward
    }
}

impl WalkDirection {
    /// The walk direction of a movement vector of length `magnitude` that
    /// makes the given angles with the walk directions. A vector without
    /// length has no direction.
    pub fn from_movement_vector(magnitude: i64, angles: &DirectionAngles) -> (direction: Option<
        WalkDirection,
    >)
        ensures
            magnitude <= 0 ==> direction is None,
            magnitude > 0 ==> direction == Some(walk_direction_of(*angles)),
    {
        if magnitude <= 0 {
            return None;
        }
        Some(
            if angles.forward < HALF_SECTOR {
                WalkDirection::Forward
            } else if angles.right_forward <= HALF_SECTOR {
                WalkDirection::RightForward
            } else if angles.right < HALF_SECTOR {
                WalkDirection::Right
            } else if angles.right_back <= HALF_SECTOR {
                WalkDirection::RightBack
            } else if angles.back < HALF_SECTOR {
                WalkDirection::Back
            } else if angles.left_back <= HALF_SECTOR {
                WalkDirection::LeftBack
            } else if angles.left < HALF_SECTOR {
                WalkDirection::Left
            } else {
                WalkDirection::LeftForward
            },
        )
    }
}

/// How the character moves.
#[derive(Clone, Copy, Debug, PartialEq, Eq, Structural)]
pub enum MovementState {
    Stationary(CrouchState),
    Creeping,
    Walking(WalkDirection),
    Running,
    Sprinting,
    InAir,
}

impl Default for MovementState {
    fn default() -> (state: Self)
        ensures
            state == MovementState::Stationary(CrouchState::Upright),
    {
        MovementState::Stationary(CrouchState::Upright)
    }
}

/// What is known of the body when its movement state is determined.
#[derive(Clone, Copy, Debug)]
pub struct BodyMotion {
    /// Whether the body is in the world.
    pub body_present: bool,
    pub grounded: bool,
    pub crouch: CrouchState,
    pub perspective: CharacterPerspectiveMode,
    /// The length of the velocity.
    pub speed: i64,
    /// The angle between the velocity, seen from the body, and forward.
    pub forward_angle: i64,
    /// The angles between the velocity, seen from the body, and the walk
    /// directions.
    pub angles: DirectionAngles,
}

/// `speed` counts as moving at the tier whose speed is `tier_speed`.
pub open spec fn at_tier(speed: i64, tier_speed: i64, config: CharacterControllerConfig) -> bool {
    reaches_share(speed as int, config.discrete_movement_factor as int, tier_speed as int)
}

/// The movement state of a body, given the state it was in.
///
/// A body that is not in the world keeps its state, and one off the ground
/// is in the air. A crouched body creeps from the creep tier on. An upright
/// body sprints, runs or walks by the highest tier its speed reaches; in the
/// combat perspective it sprints only within the sprint angle of forward and
/// walks in the direction it moves, and a walking body without speed keeps
/// its state. In the other perspectives it walks forward. Below every tier
/// the body is stationary.
pub open spec fn movement_state_of(
    previous: MovementState,
    body: BodyMotion,
    config: CharacterControllerConfig,
) -> MovementState {
    if !body.body_present {
        previous
    } else if !body.grounded {
        MovementState::InAir
    } else if body.crouch is Crouched {
        if at_tier(body.speed, config.crouched_creep_speed_discrete, config) {
            MovementState::Creeping
        } else {
            MovementState::Stationary(body.crouch)
        }
    } else {
        let combat = body.perspective is ThirdPersonCombat;
        if (!combat || body.forward_angle <= config.max_sprint_forward_angle_threshold_discrete)
            && at_tier(body.speed, config.standing_sprint_speed_discrete, config) {
            MovementState::Sprinting
        } else if at_tier(body.speed, config.standing_run_speed_discrete, config) {
            MovementState::Running
        } else if at_tier(body.speed, config.standing_walk_speed_discrete, config) {
            if !combat {
                MovementState::Walking(WalkDirection::Forward)
            } else if body.speed > 0 {
                MovementState::Walking(walk_direction_of(body.angles))
            } else {
                previous
            }
        } else {
            MovementState::Stationary(body.crouch)
        }
    }
}

/// The movement state of a body, given the state it was in.
pub fn determine_movement_state(
    previous: MovementState,
    body: &BodyMotion,
    config: &CharacterControllerConfig,
) -> (state: MovementState)
    ensures
        state == movement_state_of(previous, *body, *config),
{
    if !body.body_present {
        return previous;
    }
    if !body.grounded {
        return MovementState::InAir;
    }
    let factor = config.discrete_movement_factor;
    if body.crouch == CrouchState::Crouched {
        if speed_reaches_share(body.speed, factor, config.crouched_creep_speed_discrete) {
            MovementState::Creeping
        } else {
            MovementState::Stationary(body.crouch)
        }
    } else {
        let combat = body.perspective == CharacterPerspectiveMode::ThirdPersonCombat;
        if (!combat || body.forward_angle <= config.max_sprint_forward_angle_threshold_discrete)
            && speed_reaches_share(body.speed, factor, config.standing_sprint_speed_discrete) {
            MovementState::Sprinting
        } else if speed_reaches_share(body.speed, factor, config.standing_run_speed_discrete) {
            MovementState::Running
        } else if speed_reaches_share(body.speed, factor, config.standing_walk_speed_discrete) {
            if !combat {
                MovementState::Walking(WalkDirection::Forward)
            } else {
                match WalkDirection::from_movement_vector(body.speed, &body.angles) {
                    Some(direction) => MovementState::Walking(direction),
                    None => previous,
                }
            }
        } else {
            MovementState::Stationary(body.crouch)
        }
    }
}

impl MovementState {
    /// The name of the animation that shows this state.
    pub fn as_ref(&self) -> (name: &'static str)
        ensures
            name@ == animation_name(*self),
    {
        match self {
            MovementState::Stationary(crouch_state) => match crouch_state {
                CrouchState::Upright => "IDLE",
                CrouchState::Crouched => "CROUCHED",
            },
            MovementState::Creeping => "CREEPING",
            MovementState::Walking(walk_dir) => match walk_dir {
                WalkDirection::Forward => "WALK_FORWARD",
                WalkDirection::RightForward => "WALK_RIGHT_FORWARD",
                WalkDirection::Right => "WALK_RIGHT",
                WalkDirection::RightBack => "WALK_RIGHT_BACK",
                WalkDirection::Back => "WALK_BACKWARD",
                WalkDirection::LeftBack => "WALK_LEFT_BACK",
                WalkDirection::Left => "WALK_LEFT",
                WalkDirection::LeftForward => "WALK_LEFT_FORWARD",
            },
            MovementState::Running => "RUN_FORWARD",
            MovementState::Sprinting => "SPRINT_FORWARD",
            MovementState::InAir => "IN_AIR",
        }
    }
}

/// The name of the animation that shows a movement state.
pub open spec fn animation_name(state: MovementState) -> Seq<char> {
    match state {
        MovementState::Stationary(CrouchState::Upright) => "IDLE"@,
        MovementState::Stationary(CrouchState::Crouched) => "CROUCHED"@,
        MovementState::Creeping => "CREEPING"@,
        MovementState::Walking(WalkDirection::Forward) => "WALK_FORWARD"@,
        MovementState::Walking(WalkDirection::RightForward) => "WALK_RIGHT_FORWARD"@,
        MovementState::Walking(WalkDirection::Right) => "WALK_RIGHT"@,
        MovementState::Walking(WalkDirection::RightBack) => "WALK_RIGHT_BACK"@,
        MovementState::Walking(WalkDirection::Back) => "WALK_BACKWARD"@,
        MovementState::Walking(WalkDirection::LeftBack) => "WALK_LEFT_BACK"@,
        MovementState::Walking(WalkDirection::Left) => "WALK_LEFT"@,
        MovementState::Walking(WalkDirection::LeftForward) => "WALK_LEFT_FORWARD"@,
        MovementState::Running => "RUN_FORWARD"@,
        MovementState::Sprinting => "SPRINT_FORWARD"@,
        MovementState::InAir => "IN_AIR"@,
    }
}

} // verus!
