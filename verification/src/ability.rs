use vstd::prelude::*;

use crate::events::EventHandlerSet;
use crate::monster::MonsterID;

verus! {

/// Identifies an ability by the monster that has it.
#[derive(Debug, Clone, Copy, PartialEq, Eq, Hash, Structural)]
pub struct AbilityID {
    pub owner_id: MonsterID,
}

impl AbilityID {
    /// The ability of `ability_owner`.
    pub fn _from_owner(ability_owner: MonsterID) -> (id: AbilityID)
        ensures
            id.owner_id == ability_owner,
    {
        AbilityID { owner_id: ability_owner }
    }
}

/// The data that defines a kind of ability.
#[derive(Debug, Clone, Copy)]
pub struct AbilitySpecies {
    pub dex_number: u16,
    pub name: &'static str,
    pub event_handlers: EventHandlerSet,
    pub order: u16,
}

/// The entry of an ability in a dex, from which its species is made.
#[derive(Debug, Clone, Copy)]
pub struct AbilityDexEntry {
    pub dex_number: u16,
    pub name: &'static str,
    pub event_handlers: EventHandlerSet,
    pub order: u16,
}

impl AbilitySpecies {
    pub fn from_dex_entry(dex_entry: AbilityDexEntry) -> (species: AbilitySpecies)
        ensures
            species.dex_number == dex_entry.dex_number,
            species.name == dex_entry.name,
            species.event_handlers == dex_entry.event_handlers,
            species.order == dex_entry.order,
    {
        AbilitySpecies {
            dex_number: dex_entry.dex_number,
            name: dex_entry.name,
            event_handlers: dex_entry.event_handlers,
            order: dex_entry.order,
        }
    }

    pub fn event_handlers(&self) -> (handlers: EventHandlerSet)
        ensures
            handlers == self.event_handlers,
    {
        self.event_handlers
    }

    pub fn name(&self) -> (name: &'static str)
        ensures
            name == self.name,
    {
        self.name
    }

    pub fn order(&self) -> (order: u16)
        ensures
            order == self.order,
    {
        self.order
    }

    pub fn dex_number(&self) -> (n: u16)
        ensures
            n == self.dex_number,
    {
        self.dex_number
    }
}

/// The ability of a monster.
#[derive(Debug, Clone, Copy)]
pub struct Ability {
    pub id: AbilityID,
    pub species: AbilitySpecies,
}

impl Ability {
    pub fn event_handlers(&self) -> (handlers: EventHandlerSet)
        ensures
            handlers == self.species.event_handlers,
    {
        self.species.event_handlers
    }

    pub fn species(&self) -> (species: AbilitySpecies)
        ensures
            species == self.species,
    {
        self.species
    }

    pub fn name(&self) -> (name: &'static str)
        ensures
            name == self.species.name,
    {
        self.species.name
    }

    pub fn order(&self) -> (order: u16)
        ensures
            order == self.species.order,
    {
        self.species.order
    }

    pub fn dex_number(&self) -> (n: u16)
        ensures
            n == self.species.dex_number,
    {
        self.species.dex_number
    }
}

} // verus!
