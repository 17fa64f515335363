//! Settings a player may change while the game runs.

use vstd::prelude::*;

verus! {

/// How strongly look input turns the camera.
#[derive(Clone, Copy, Debug)]
pub struct GameSettings {
    up_down_look_sensitivity: u8,
    left_right_look_sensitivity: u8,
}

impl GameSettings {
    pub closed spec fn spec_up_down(&self) -> u8 {
        self.up_down_look_sensitivity
    }

    pub closed spec fn spec_left_right(&self) -> u8 {
        self.left_right_look_sensitivity
    }

    /// The sensitivity of looking up and down.
    pub fn up_down_look_sensitivity(&self) -> (s: u8)
        ensures
            s == self.spec_up_down(),
    {
        self.up_down_look_sensitivity
    }

    /// The sensitivity of looking left and right.
    pub fn left_right_look_sensitivity(&self) -> (s: u8)
        ensures
            s == self.spec_left_right(),
    {
        self.left_right_look_sensitivity
    }

    /// Sets the sensitivity of looking up and down.
    pub fn set_up_down_look_sensitivity(&mut self, val: u8)
        ensures
            final(self).spec_up_down() == val,
            final(self).spec_left_right() == old(self).spec_left_right(),
    {
        self.up_down_look_sensitivity = val;
    }

    /// Sets the sensitivity of looking left and right.
    pub fn set_left_right_look_sensitivity(&mut self, val: u8)
        ensures
            final(self).spec_left_right() == val,
            final(self).spec_up_down() == old(self).spec_up_down(),
    {
        self.left_right_look_sensitivity = val;
    }
}

impl Default for GameSettings {
    fn default() -> (settings: Self)
        ensures
            settings.spec_up_down() == 5,
            settings.spec_left_right() == 5,
    {
        GameSettings { up_down_look_sensitivity: 5, left_right_look_sensitivity: 5 }
    }
}

} // verus!
