//! What the look input asks of boom, body and head.

use vstd::prelude::*;
use crate::config::CharacterControllerConfig;
use crate::input::InputView;
use crate::math::{clamp_i64, clamped, div_toward_zero};
use crate::tick::ControllerView;
use crate::utils::SlidingState;
use crate::vectors::SCALE;

verus! {

/// How the body is to turn about the vertical axis.
#[derive(Clone, Copy, Debug, PartialEq, Eq, Structural)]
pub enum BodyTurn {
    Still,
    /// Turn by this angle.
    Yaw(i64),
    /// Turn towards the boom's yaw.
    FollowBoom,
}

/// A turn of the boom: about the vertical axis by `yaw`, and to the pitch
/// `pitch`.
#[derive(Clone, Copy, Debug, PartialEq, Eq, Structural)]
pub struct BoomTurn {
    pub yaw: i64,
    pub pitch: i64,
}

/// What the look input asks of boom, body and head at the start of a tick.
#[derive(Clone, Copy, Debug, PartialEq, Eq, Structural)]
pub struct RotationPlan {
    /// The boom's turn, in the third person.
    pub boom: Option<BoomTurn>,
    pub body: BodyTurn,
    /// The head's new pitch, in the first person.
    pub head_pitch: Option<i64>,
    /// Whether the body is to turn towards where the input points.
    pub face_movement_direction: bool,
}

/// The yaw that the look input asks for: half a degree for each step of
/// sensitivity at full deflection, to the left for input to the right.
pub open spec fn look_yaw(rotate_right: int, sensitivity: int) -> i64 {
    clamp_i64(div_toward_zero(-(rotate_right * sensitivity), 2))
}

/// The pitch that the look input asks for: one degree for each step of
/// sensitivity at full deflection.
pub open spec fn look_pitch(rotate_up: int, sensitivity: int) -> i64 {
    clamp_i64(rotate_up * sensitivity)
}

/// The share of a turn that a body takes: a fifth while it slides.
pub open spec fn turn_scale(sliding: SlidingState) -> i64 {
    if sliding is NotSliding {
        SCALE
    } else {
        200
    }
}

/// The new pitch of something that looks up by `delta` from `current`,
/// within the look angles of the configuration.
pub open spec fn pitch_after(current: i64, delta: i64, config: CharacterControllerConfig) -> i64 {
    clamped(
        current + delta,
        config.min_look_up_angle as int,
        config.max_look_up_angle as int,
    ) as i64
}

/// The rotations for a tick. In the third person the boom follows the look
/// input. In the first person the body yaws with the look input and the head
/// pitches; in the combat perspective a moving body follows the boom. In the
/// basic third person a grounded body faces where the input points.
pub open spec fn rotation_plan(
    pre: ControllerView,
    config: CharacterControllerConfig,
    up_down_sensitivity: u8,
    left_right_sensitivity: u8,
    input: InputView,
) -> RotationPlan {
    let yaw = look_yaw(input.rotate_right, left_right_sensitivity as int);
    let pitch = look_pitch(input.rotate_up, up_down_sensitivity as int);
    RotationPlan {
        boom: if pre.perspective is FirstPerson {
            None
        } else {
            Some(BoomTurn { yaw, pitch: pitch_after(pre.boom_pitch, pitch, config) })
        },
        body: if pre.perspective is FirstPerson {
            BodyTurn::Yaw(
                clamp_i64(div_toward_zero(yaw * turn_scale(pre.sliding), SCALE as int)),
            )
        } else if pre.perspective is ThirdPersonCombat && pre.speed
            > config.nonstationary_speed_threshold {
            BodyTurn::FollowBoom
        } else {
            BodyTurn::Still
        },
        head_pitch: if pre.perspective is FirstPerson {
            Some(pitch_after(pre.head_pitch, pitch, config))
        } else {
            None
        },
        face_movement_direction: pre.ground_normal is Some && pre.perspective is ThirdPersonBasic
            && (input.move_right != 0 || input.move_forward != 0),
    }
}

/// The state after the rotations: the pitch of the boom or of the head is
/// the one the plan names.
pub open spec fn after_rotation(
    pre: ControllerView,
    config: CharacterControllerConfig,
    up_down_sensitivity: u8,
    input: InputView,
) -> ControllerView {
    let pitch = look_pitch(input.rotate_up, up_down_sensitivity as int);
    if pre.perspective is FirstPerson {
        ControllerView { head_pitch: pitch_after(pre.head_pitch, pitch, config), ..pre }
    } else {
        ControllerView { boom_pitch: pitch_after(pre.boom_pitch, pitch, config), ..pre }
    }
}

} // verus!
