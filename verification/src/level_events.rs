//! What a level tells the game around it.

use vstd::prelude::*;

verus! {

/// Something that happened in the level.
#[derive(Debug, Clone, Copy, PartialEq, Eq, Structural)]
pub enum Level1Event {
    LevelCompleted,
    PlayerReset,
    CheckpointReached,
}

/// The name under which an event is told.
pub open spec fn event_name(event: Level1Event) -> Seq<char> {
    match event {
        Level1Event::LevelCompleted => "LEVEL_COMPLETED"@,
        Level1Event::PlayerReset => "PLAYER_RESET"@,
        Level1Event::CheckpointReached => "CHECKPOINT_REACHED"@,
    }
}

impl Level1Event {
    /// The name under which the event is told.
    pub fn as_ref(&self) -> (name: &'static str)
        ensures
            name@ == event_name(*self),
    {
        match self {
            Level1Event::LevelCompleted => "LEVEL_COMPLETED",
            Level1Event::PlayerReset => "PLAYER_RESET",
            Level1Event::CheckpointReached => "CHECKPOINT_REACHED",
        }
    }
}

} // verus!
