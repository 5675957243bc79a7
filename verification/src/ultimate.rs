use vstd::prelude::*;

use crate::battle::BattleState;
use crate::item::ItemSpecies;
use crate::monster::{MonsterID, MonsterSpecies};

verus! {

/// The greatest number of ultimates a monster can have.
pub const MAX_ULTIMATES_PER_MONSTER: usize = 4;

/// The kind of an ultimate: Mega Evolution, Z-Move, Dynamax or Terastallization.
#[derive(Debug, Clone, Copy, PartialEq, Eq, Structural)]
pub struct UltimateKind(pub usize);

impl UltimateKind {
    pub fn mega() -> (kind: UltimateKind)
        ensures
            kind == UltimateKind(0),
    {
        UltimateKind(0)
    }

    pub fn zmove() -> (kind: UltimateKind)
        ensures
            kind == UltimateKind(1),
    {
        UltimateKind(1)
    }

    pub fn dynamax() -> (kind: UltimateKind)
        ensures
            kind == UltimateKind(2),
    {
        UltimateKind(2)
    }

    pub fn tera() -> (kind: UltimateKind)
        ensures
            kind == UltimateKind(3),
    {
        UltimateKind(3)
    }
}

/// Identifies an ultimate by its user and its kind.
#[derive(Debug, Clone, Copy, PartialEq, Eq, Structural)]
pub struct UltimateID {
    pub user_id: MonsterID,
    pub kind: UltimateKind,
}

/// Mega Evolution: a monster holding its mega stone turns into its mega-evolved form.
#[derive(Debug, Clone, Copy)]
pub struct MegaEvolution {
    pub mega_stone: ItemSpecies,
    pub mega_evolved_form: MonsterSpecies,
}

impl MegaEvolution {
    pub fn kind(&self) -> (kind: UltimateKind)
        ensures
            kind == UltimateKind(0),
    {
        UltimateKind::mega()
    }

    pub fn name(&self) -> (name: &'static str)
        ensures
            name@ == "Mega Evolution"@,
    {
        "Mega Evolution"
    }

    /// A monster can mega evolve while it holds an item of the species of the mega stone.
    pub fn is_condition_met(&self, battle: &BattleState, ultimate_user_id: MonsterID) -> (b: bool)
        requires
            battle.has_monster(ultimate_user_id),
        ensures
            b == (battle.spec_monster(ultimate_user_id).held_item matches Some(item)
                && item.species.dex_number == self.mega_stone.dex_number),
    {
        match battle.monster(ultimate_user_id).held_item {
            Some(item) => item.species.is_same_species(&self.mega_stone),
            None => false,
        }
    }

    /// The call to action that the player is shown.
    pub fn call_to_action(&self) -> (text: String)
        ensures
            text@ == "Mega Evolve"@,
    {
        String::from_str("Mega Evolve")
    }
}

} // verus!
