//! The groups of objects that may touch each other.

use vstd::prelude::*;

verus! {

/// A kind of object, for filtering what collides with what and what a query
/// sees.
#[derive(Clone, Copy, Debug, PartialEq, Eq, Structural)]
pub enum InteractionGroup {
    All,
    StaticLevelObjects,
    DynamicLevelObjects,
    CharacterController,
}

/// The bit mask that stands for `group`: one bit for each single group, all
/// bits for `All`.
pub open spec fn group_bits(group: InteractionGroup) -> u32 {
    match group {
        InteractionGroup::All => u32::MAX,
        InteractionGroup::StaticLevelObjects => 1,
        InteractionGroup::DynamicLevelObjects => 2,
        InteractionGroup::CharacterController => 4,
    }
}

impl From<InteractionGroup> for u32 {
    fn from(group: InteractionGroup) -> (bits: u32) {
        match group {
            InteractionGroup::All => u32::MAX,
            InteractionGroup::StaticLevelObjects => 1,
            InteractionGroup::DynamicLevelObjects => 2,
            InteractionGroup::CharacterController => 4,
        }
    }
}

impl vstd::std_specs::convert::FromSpecImpl<InteractionGroup> for u32 {
    open spec fn obeys_from_spec() -> bool {
        true
    }

    open spec fn from_spec(group: InteractionGroup) -> u32 {
        group_bits(group)
    }
}

/// Two different single groups share no bit, and `All` holds the bit of each.
pub proof fn lemma_group_bits_are_distinct(a: InteractionGroup, b: InteractionGroup)
    requires
        a != b,
        a != InteractionGroup::All,
        b != InteractionGroup::All,
    ensures
        group_bits(a) & group_bits(b) == 0,
        group_bits(InteractionGroup::All) & group_bits(a) == group_bits(a),
{
    assert(1u32 & 2u32 == 0 && 1u32 & 4u32 == 0 && 2u32 & 4u32 == 0 && 2u32 & 1u32 == 0 && 4u32
        & 1u32 == 0 && 4u32 & 2u32 == 0) by (bit_vector);
    assert(0xffff_ffffu32 & 1u32 == 1 && 0xffff_ffffu32 & 2u32 == 2 && 0xffff_ffffu32 & 4u32 == 4)
        by (bit_vector);
}

} // verus!
