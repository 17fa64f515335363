//! What the player asks of the character during one tick.

use vstd::prelude::*;
use crate::vectors::SCALE;

verus! {

/// The player's wishes for one tick. Magnitudes are counted in thousandths,
/// from minus one thousand to one thousand at full deflection.
#[derive(Clone, Copy, Debug, PartialEq, Eq, Structural)]
pub struct Input {
    move_forward: i64,
    move_right: i64,
    rotate_up: i64,
    rotate_right: i64,
    jump: bool,
    crouch: bool,
    aim: bool,
    steer: i64,
    brake: i64,
    throttle: i64,
}

/// What an `Input` holds, field by field.
pub struct InputView {
    pub move_forward: int,
    pub move_right: int,
    pub rotate_up: int,
    pub rotate_right: int,
    pub jump: bool,
    pub crouch: bool,
    pub aim: bool,
    pub steer: int,
    pub brake: int,
    pub throttle: int,
}

/// The input of a player who touches nothing.
pub open spec fn idle_input() -> InputView {
    InputView {
        move_forward: 0,
        move_right: 0,
        rotate_up: 0,
        rotate_right: 0,
        jump: false,
        crouch: false,
        aim: false,
        steer: 0,
        brake: 0,
        throttle: 0,
    }
}

impl View for Input {
    type V = InputView;

    closed spec fn view(&self) -> InputView {
        InputView {
            move_forward: self.move_forward as int,
            move_right: self.move_right as int,
            rotate_up: self.rotate_up as int,
            rotate_right: self.rotate_right as int,
            jump: self.jump,
            crouch: self.crouch,
            aim: self.aim,
            steer: self.steer as int,
            brake: self.brake as int,
            throttle: self.throttle as int,
        }
    }
}

impl Default for Input {
    fn default() -> (input: Self)
        ensures
            input@ == idle_input(),
    {
        Input {
            move_forward: 0,
            move_right: 0,
            rotate_up: 0,
            rotate_right: 0,
            jump: false,
            crouch: false,
            aim: false,
            steer: 0,
            brake: 0,
            throttle: 0,
        }
    }
}

impl Input {
    /// Forgets every wish.
    pub fn wipe(&mut self)
        ensures
            final(self)@ == idle_input(),
    {
        *self = Input::default();
    }

    /// Sets how far the player pushes back (positive) or forward (negative).
    /// Pushing back brakes fully, pushing forward opens the throttle fully.
    pub fn set_move_forward(&mut self, new_magnitude: i64)
        ensures
            final(self)@ == (InputView {
                move_forward: new_magnitude as int,
                brake: if new_magnitude > 0 {
                    SCALE as int
                } else {
                    0
                },
                throttle: if new_magnitude < 0 {
                    SCALE as int
                } else {
                    0
                },
                ..old(self)@
            }),
    {
        self.move_forward = new_magnitude;
        self.brake = if new_magnitude > 0 {
            SCALE
        } else {
            0
        };
        self.throttle = if new_magnitude < 0 {
            SCALE
        } else {
            0
        };
    }

    /// Sets how far the player pushes right (positive) or left (negative),
    /// which steers as well.
    pub fn set_move_right(&mut self, new_magnitude: i64)
        ensures
            final(self)@ == (InputView {
                move_right: new_magnitude as int,
                steer: new_magnitude as int,
                ..old(self)@
            }),
    {
        self.move_right = new_magnitude;
        self.steer = new_magnitude;
    }

    /// Sets how far the player looks up (positive) or down (negative).
    pub fn set_rotate_up(&mut self, new_magnitude: i64)
        ensures
            final(self)@ == (InputView { rotate_up: new_magnitude as int, ..old(self)@ }),
    {
        self.rotate_up = new_magnitude;
    }

    /// Sets how far the player turns right (positive) or left (negative).
    pub fn set_rotate_right(&mut self, new_magnitude: i64)
        ensures
            final(self)@ == (InputView { rotate_right: new_magnitude as int, ..old(self)@ }),
    {
        self.rotate_right = new_magnitude;
    }

    /// Sets whether the player wants to jump.
    pub fn set_jump(&mut self, jump_state: bool)
        ensures
            final(self)@ == (InputView { jump: jump_state, ..old(self)@ }),
    {
        self.jump = jump_state;
    }

    /// Sets whether the player wants to crouch.
    pub fn set_crouch(&mut self, crouch_state: bool)
        ensures
            final(self)@ == (InputView { crouch: crouch_state, ..old(self)@ }),
    {
        self.crouch = crouch_state;
    }

    /// Sets whether the player wants to aim.
    pub fn set_aim(&mut self, aim_state: bool)
        ensures
            final(self)@ == (InputView { aim: aim_state, ..old(self)@ }),
    {
        self.aim = aim_state;
    }

    pub fn move_forward(&self) -> (m: i64)
        ensures
            m == self@.move_forward,
    {
        self.move_forward
    }

    pub fn move_right(&self) -> (m: i64)
        ensures
            m == self@.move_right,
    {
        self.move_right
    }

    pub fn rotate_up(&self) -> (m: i64)
        ensures
            m == self@.rotate_up,
    {
        self.rotate_up
    }

    pub fn rotate_right(&self) -> (m: i64)
        ensures
            m == self@.rotate_right,
    {
        self.rotate_right
    }

    pub fn jump(&self) -> (j: bool)
        ensures
            j == self@.jump,
    {
        self.jump
    }

    pub fn crouch(&self) -> (c: bool)
        ensures
            c == self@.crouch,
    {
        self.crouch
    }

    pub fn aim(&self) -> (a: bool)
        ensures
            a == self@.aim,
    {
        self.aim
    }

    pub fn steer(&self) -> (m: i64)
        ensures
            m == self@.steer,
    {
        self.steer
    }

    pub fn brake(&self) -> (m: i64)
        ensures
            m == self@.brake,
    {
        self.brake
    }

    pub fn throttle(&self) -> (m: i64)
        ensures
            m == self@.throttle,
    {
        self.throttle
    }
}

} // verus!
