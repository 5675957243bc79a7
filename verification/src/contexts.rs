use vstd::prelude::*;

use crate::ability::AbilityID;
use crate::item::ItemID;
use crate::monster::MonsterID;
use crate::move_::MoveID;
use crate::stats::ModifiableStat;
use crate::status::{PersistentStatusSpecies, VolatileStatusSpecies};

verus! {

/// The use of the move `move_used_id` by `move_user_id` on the monsters `target_ids`.
#[derive(Debug, Clone)]
pub struct MoveUseContext {
    pub move_user_id: MonsterID,
    pub move_used_id: MoveID,
    pub target_ids: Vec<MonsterID>,
}

impl MoveUseContext {
    /// The use of `move_used_id`, by its owner, on `target_ids`.
    pub fn new(move_used_id: MoveID, target_ids: Vec<MonsterID>) -> (context: MoveUseContext)
        ensures
            context.move_user_id == move_used_id.owner_id,
            context.move_used_id == move_used_id,
            context.target_ids@ == target_ids@,
    {
        MoveUseContext { move_user_id: move_used_id.owner_id, move_used_id, target_ids }
    }
}

/// A hit of the move `move_used_id` by `move_user_id` on `target_id`.
#[derive(Debug, Clone, Copy, PartialEq, Eq, Structural)]
pub struct MoveHitContext {
    pub move_user_id: MonsterID,
    pub move_used_id: MoveID,
    pub target_id: MonsterID,
    pub number_of_hits: u8,
    pub number_of_targets: u8,
}

impl MoveHitContext {
    /// A hit of `move_used_id`, by its owner, on `target_id`.
    pub fn new(move_used_id: MoveID, target_id: MonsterID, number_of_hits: u8, number_of_targets: u8) -> (context: MoveHitContext)
        ensures
            context == (MoveHitContext {
                move_user_id: move_used_id.owner_id,
                move_used_id,
                target_id,
                number_of_hits,
                number_of_targets,
            }),
    {
        MoveHitContext { move_user_id: move_used_id.owner_id, move_used_id, target_id, number_of_hits, number_of_targets }
    }
}

/// The activation of the ability of `ability_owner_id`.
#[derive(Debug, Clone, Copy, PartialEq, Eq, Structural)]
pub struct AbilityActivationContext {
    pub ability_owner_id: MonsterID,
    pub ability_used_id: AbilityID,
}

impl AbilityActivationContext {
    /// The activation of the ability of `ability_owner`.
    pub fn from_owner(ability_owner: MonsterID) -> (context: AbilityActivationContext)
        ensures
            context == (AbilityActivationContext {
                ability_owner_id: ability_owner,
                ability_used_id: AbilityID { owner_id: ability_owner },
            }),
    {
        AbilityActivationContext { ability_used_id: AbilityID { owner_id: ability_owner }, ability_owner_id: ability_owner }
    }
}

/// The switch of the active monster `active_monster_id` for the benched `benched_monster_id`.
#[derive(Debug, Clone, Copy, PartialEq, Eq, Structural)]
pub struct SwitchContext {
    pub active_monster_id: MonsterID,
    pub benched_monster_id: MonsterID,
}

impl SwitchContext {
    pub fn new(active_monster_id: MonsterID, benched_monster_id: MonsterID) -> (context: SwitchContext)
        ensures
            context == (SwitchContext { active_monster_id, benched_monster_id }),
    {
        SwitchContext { active_monster_id, benched_monster_id }
    }
}

/// The use of the item held by `item_holder_id`.
#[derive(Debug, Clone, Copy, PartialEq, Eq, Structural)]
pub struct ItemUseContext {
    pub item_id: ItemID,
    pub item_holder_id: MonsterID,
}

impl ItemUseContext {
    /// The use of the item held by `item_holder_id`.
    pub fn from_holder(item_holder_id: MonsterID) -> (context: ItemUseContext)
        ensures
            context == (ItemUseContext { item_id: ItemID { item_holder_id }, item_holder_id }),
    {
        let item_id = ItemID::from_holder(item_holder_id);
        ItemUseContext { item_id, item_holder_id }
    }
}

/// A change by `number_of_stages` (positive to raise, negative to lower) of the stat `stat` of
/// `affected_monster_id`.
#[derive(Debug, Clone, Copy, PartialEq, Eq, Structural)]
pub struct StatChangeContext {
    pub affected_monster_id: MonsterID,
    pub stat: ModifiableStat,
    pub number_of_stages: i8,
}

/// The infliction of a persistent status of `status_condition` on `affected_monster_id`.
#[derive(Debug, Clone, Copy)]
pub struct InflictPersistentStatusContext {
    pub affected_monster_id: MonsterID,
    pub status_condition: PersistentStatusSpecies,
}

/// The infliction of a volatile status of `status_condition` on `affected_monster_id`.
#[derive(Debug, Clone, Copy)]
pub struct InflictVolatileStatusContext {
    pub affected_monster_id: MonsterID,
    pub status_condition: VolatileStatusSpecies,
}

/// What an event is about.
#[derive(Debug, Clone)]
pub enum EventContext {
    Nothing,
    MoveUse(MoveUseContext),
    MoveHit(MoveHitContext),
    AbilityActivation(AbilityActivationContext),
    Switch(SwitchContext),
    ItemUse(ItemUseContext),
    StatChange(StatChangeContext),
    InflictPersistentStatus(InflictPersistentStatusContext),
    InflictVolatileStatus(InflictVolatileStatusContext),
}

impl EventContext {
    /// The monster that the event targets: that of a move's hit, and none for other events.
    pub open spec fn spec_target(&self) -> Option<MonsterID> {
        match self {
            EventContext::MoveHit(context) => Some(context.target_id),
            _ => None,
        }
    }

    pub fn target(&self) -> (target: Option<MonsterID>)
        ensures
            target == self.spec_target(),
    {
        match self {
            EventContext::MoveHit(context) => Some(context.target_id),
            _ => None,
        }
    }
}

} // verus!
