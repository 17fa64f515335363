//! The enumerated states the controller moves between.

use vstd::prelude::*;
use vstd::std_specs::cmp::PartialEqSpec;
use crate::vectors::Vec3;

verus! {

/// Whether the body is sliding along the ground, and how.
#[derive(Clone, Copy, Debug, PartialEq, Eq, Structural)]
pub enum SlidingState {
    NotSliding,
    Normal,
    Downhill,
}

/// Whether the body runs along a wall. The wall's normal, in body space, is
/// carried along but plays no part in comparisons.
#[derive(Clone, Copy, Debug)]
pub enum WallRunning {
    OnRight(Vec3),
    OnLeft(Vec3),
    OffWall,
}

impl WallRunning {
    /// Two values are on the same side: both right, both left, or both off
    /// the wall.
    pub open spec fn same_side(self, other: Self) -> bool {
        ||| self is OnRight && other is OnRight
        ||| self is OnLeft && other is OnLeft
        ||| self is OffWall && other is OffWall
    }

    /// Whether the body is on a wall at all.
    pub fn is_on_wall(&self) -> (on_wall: bool)
        ensures
            on_wall == !(*self is OffWall),
    {
        match self {
            WallRunning::OffWall => false,
            _ => true,
        }
    }
}

impl PartialEq for WallRunning {
    /// Equality looks at the side only.
    fn eq(&self, other: &Self) -> (equal: bool) {
        match (self, other) {
            (WallRunning::OnLeft(_), WallRunning::OnLeft(_)) => true,
            (WallRunning::OnRight(_), WallRunning::OnRight(_)) => true,
            (WallRunning::OffWall, WallRunning::OffWall) => true,
            _ => false,
        }
    }
}

impl vstd::std_specs::cmp::PartialEqSpecImpl for WallRunning {
    open spec fn obeys_eq_spec() -> bool {
        true
    }

    open spec fn eq_spec(&self, other: &Self) -> bool {
        self.same_side(*other)
    }
}

impl Eq for WallRunning {}

/// Whether the body stands or crouches.
#[derive(Clone, Copy, Debug, PartialEq, Eq, Structural)]
pub enum CrouchState {
    Upright,
    Crouched,
}

/// From where the player looks at the character.
#[derive(Clone, Copy, Debug, PartialEq, Eq, Structural)]
pub enum CharacterPerspectiveMode {
    FirstPerson,
    ThirdPersonBasic,
    ThirdPersonCombat,
}

impl CharacterPerspectiveMode {
    /// Whether the camera sits on a boom behind the character.
    pub fn is_third_person(&self) -> (third: bool)
        ensures
            third == (*self is ThirdPersonBasic || *self is ThirdPersonCombat),
    {
        match self {
            CharacterPerspectiveMode::FirstPerson => false,
            _ => true,
        }
    }
}

/// Comparing two wall-running values never looks at the normals: two values
/// on the left of a wall are equal whatever normals they carry, and likewise
/// on the right.
pub proof fn lemma_wallrunning_equality_ignores_normal(v1: Vec3, v2: Vec3)
    ensures
        WallRunning::OnLeft(v1).eq_spec(&WallRunning::OnLeft(v2)),
        WallRunning::OnRight(v1).eq_spec(&WallRunning::OnRight(v2)),
        !WallRunning::OnLeft(v1).eq_spec(&WallRunning::OnRight(v2)),
        !WallRunning::OnLeft(v1).eq_spec(&WallRunning::OffWall),
        !WallRunning::OnRight(v1).eq_spec(&WallRunning::OffWall),
{
}

/// Equality of wall-running values is an equivalence relation.
pub proof fn lemma_wallrunning_equality_is_equivalence(
    a: WallRunning,
    b: WallRunning,
    c: WallRunning,
)
    ensures
        a.eq_spec(&a),
        a.eq_spec(&b) == b.eq_spec(&a),
        a.eq_spec(&b) && b.eq_spec(&c) ==> a.eq_spec(&c),
{
}

} // verus!
