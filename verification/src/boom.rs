//! The arm that carries the camera behind the character.

use vstd::prelude::*;

verus! {

/// A camera arm: how long it is, by which angles its pivot was pitched and
/// yawed when it was made, and whether the camera at its end looks at the
/// pivot. The arm's pose, a rotation, is kept by whoever places the camera.
#[derive(Clone, Copy, Debug, PartialEq, Eq, Structural)]
pub struct Boom {
    length: i64,
    arm_pitch_angle: i64,
    arm_yaw_angle: i64,
    look_at_pivot: bool,
}

/// What a boom holds, as plain values.
pub struct BoomView {
    pub length: i64,
    pub arm_pitch_angle: i64,
    pub arm_yaw_angle: i64,
    pub look_at_pivot: bool,
}

impl View for Boom {
    type V = BoomView;

    closed spec fn view(&self) -> BoomView {
        BoomView {
            length: self.length,
            arm_pitch_angle: self.arm_pitch_angle,
            arm_yaw_angle: self.arm_yaw_angle,
            look_at_pivot: self.look_at_pivot,
        }
    }
}

impl Boom {
    /// A boom of the given length whose pivot is pitched and yawed by the
    /// given angles.
    pub fn new(length: i64, arm_pitch_angle: i64, arm_yaw_angle: i64, look_at_pivot: bool) -> (boom:
        Self)
        ensures
            boom@ == (BoomView { length, arm_pitch_angle, arm_yaw_angle, look_at_pivot }),
    {
        Boom { length, arm_pitch_angle, arm_yaw_angle, look_at_pivot }
    }

    /// Makes the arm `new_length` long.
    pub fn set_length(&mut self, new_length: i64)
        ensures
            final(self)@ == (BoomView { length: new_length, ..old(self)@ }),
    {
        self.length = new_length;
    }

    /// How long the arm is.
    pub fn length(&self) -> (length: i64)
        ensures
            length == self@.length,
    {
        self.length
    }

    /// The pitch of the arm's pivot.
    pub fn arm_pitch_angle(&self) -> (angle: i64)
        ensures
            angle == self@.arm_pitch_angle,
    {
        self.arm_pitch_angle
    }

    /// The yaw of the arm's pivot.
    pub fn arm_yaw_angle(&self) -> (angle: i64)
        ensures
            angle == self@.arm_yaw_angle,
    {
        self.arm_yaw_angle
    }

    /// Whether the camera at the arm's end looks at the pivot.
    pub fn look_at_pivot(&self) -> (looks: bool)
        ensures
            looks == self@.look_at_pivot,
    {
        self.look_at_pivot
    }
}

} // verus!
