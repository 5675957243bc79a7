use vstd::prelude::*;

use crate::builder::InitCount;

use crate::events::EventHandlerSet;
use crate::global_constants::Count;
use crate::monster::MonsterID;
use crate::prng::{number_in_range, state_after_number_in_range, Prng};

verus! {

/// Identifies the persistent status of a monster.
#[derive(Debug, Clone, Copy, PartialEq, Eq, Structural)]
pub struct PersistentStatusID {
    pub owner_id: MonsterID,
}

/// The data that defines a kind of persistent status.
#[derive(Debug, Clone, Copy)]
pub struct PersistentStatusSpecies {
    pub dex_number: u16,
    pub name: &'static str,
    /// The text that follows the monster's name in the message shown when it acquires the status.
    pub on_acquired_message: &'static str,
    pub event_handlers: EventHandlerSet,
}

/// The entry of a persistent status in a dex, from which its species is made.
#[derive(Debug, Clone, Copy)]
pub struct PersistentStatusDexEntry {
    pub dex_number: u16,
    pub name: &'static str,
    pub on_acquired_message: &'static str,
    pub event_handlers: EventHandlerSet,
}

impl PersistentStatusSpecies {
    pub fn from_dex_entry(dex_entry: PersistentStatusDexEntry) -> (species: PersistentStatusSpecies)
        ensures
            species.dex_number == dex_entry.dex_number,
            species.name == dex_entry.name,
            species.on_acquired_message == dex_entry.on_acquired_message,
            species.event_handlers == dex_entry.event_handlers,
    {
        PersistentStatusSpecies {
            dex_number: dex_entry.dex_number,
            name: dex_entry.name,
            on_acquired_message: dex_entry.on_acquired_message,
            event_handlers: dex_entry.event_handlers,
        }
    }

    pub fn name(&self) -> (name: &'static str)
        ensures
            name == self.name,
    {
        self.name
    }
}

/// A status that stays with a monster when it switches out.
#[derive(Debug, Clone, Copy)]
pub struct PersistentStatus {
    pub id: PersistentStatusID,
    pub species: PersistentStatusSpecies,
}

impl PersistentStatus {
    /// The status of `species` on the monster `owner_id`.
    pub fn from_species(species: PersistentStatusSpecies, owner_id: MonsterID) -> (status: PersistentStatus)
        ensures
            status.species == species,
            status.id.owner_id == owner_id,
    {
        PersistentStatus { species, id: PersistentStatusID { owner_id } }
    }

    pub fn name(&self) -> (name: &'static str)
        ensures
            name == self.species.name,
    {
        self.species.name
    }

    pub fn dex_number(&self) -> (n: u16)
        ensures
            n == self.species.dex_number,
    {
        self.species.dex_number
    }

    pub fn event_handlers(&self) -> (handlers: EventHandlerSet)
        ensures
            handlers == self.species.event_handlers,
    {
        self.species.event_handlers
    }
}

/// Identifies a volatile status by its owner and its kind.
#[derive(Debug, Clone, Copy, PartialEq, Eq, Structural)]
pub struct VolatileStatusID {
    pub owner_id: MonsterID,
    pub species_dex_number: u16,
}

/// The data that defines a kind of volatile status.
#[derive(Debug, Clone, Copy)]
pub struct VolatileStatusSpecies {
    pub dex_number: u16,
    pub name: &'static str,
    /// The text that follows the monster's name in the message shown when it acquires the status.
    pub on_acquired_message: &'static str,
    pub lifetime_in_turns: Count,
    pub event_handlers: EventHandlerSet,
}

/// The entry of a volatile status in a dex, from which its species is made.
#[derive(Debug, Clone, Copy)]
pub struct VolatileStatusDexEntry {
    pub dex_number: u16,
    pub name: &'static str,
    pub on_acquired_message: &'static str,
    pub lifetime_in_turns: Count,
    pub event_handlers: EventHandlerSet,
}

impl VolatileStatusSpecies {
    pub fn from_dex_entry(dex_entry: VolatileStatusDexEntry) -> (species: VolatileStatusSpecies)
        ensures
            species.dex_number == dex_entry.dex_number,
            species.name == dex_entry.name,
            species.on_acquired_message == dex_entry.on_acquired_message,
            species.lifetime_in_turns == dex_entry.lifetime_in_turns,
            species.event_handlers == dex_entry.event_handlers,
    {
        VolatileStatusSpecies {
            dex_number: dex_entry.dex_number,
            name: dex_entry.name,
            on_acquired_message: dex_entry.on_acquired_message,
            lifetime_in_turns: dex_entry.lifetime_in_turns,
            event_handlers: dex_entry.event_handlers,
        }
    }

    pub fn event_handlers(&self) -> (handlers: EventHandlerSet)
        ensures
            handlers == self.event_handlers,
    {
        self.event_handlers
    }
}

/// A status that a monster loses when it switches out or when its turns run out.
#[derive(Debug, Clone, Copy)]
pub struct VolatileStatus {
    pub id: VolatileStatusID,
    pub species: VolatileStatusSpecies,
    pub remaining_turns: u8,
}

impl VolatileStatus {
    /// The status of `species` on the monster `owner_id`, lasting for a number of turns drawn from
    /// the species' lifetime.
    pub fn from_species(prng: &mut Prng, species: VolatileStatusSpecies, owner_id: MonsterID) -> (status: VolatileStatus)
        requires
            species.lifetime_in_turns.wf(),
        ensures
            status.species == species,
            status.id == (VolatileStatusID { owner_id, species_dex_number: species.dex_number }),
            status.remaining_turns == species.lifetime_in_turns.spec_init(old(prng).current_seed),
            final(prng).current_seed == species.lifetime_in_turns.spec_state_after_init(old(prng).current_seed),
            final(prng).start_seed == old(prng).start_seed,
    {
        let lifetime_in_turns = species.lifetime_in_turns.init(prng);
        VolatileStatus {
            species,
            remaining_turns: lifetime_in_turns,
            id: VolatileStatusID { owner_id, species_dex_number: species.dex_number },
        }
    }

    pub fn name(&self) -> (name: &'static str)
        ensures
            name == self.species.name,
    {
        self.species.name
    }

    pub fn event_handlers(&self) -> (handlers: EventHandlerSet)
        ensures
            handlers == self.species.event_handlers,
    {
        self.species.event_handlers
    }

    pub fn remaining_turns(&self) -> (n: u8)
        ensures
            n == self.remaining_turns,
    {
        self.remaining_turns
    }
}

impl Count {
    /// Whether a count can be drawn: a random range must be non-empty and end at 1 or higher.
    pub open spec fn wf(self) -> bool {
        match self {
            Count::Fixed(_) => true,
            Count::RandomInRange { min, max } => min <= max && max >= 1,
        }
    }

    /// The number that `init` draws for a generator in state `seed`.
    pub open spec fn spec_init(self, seed: u64) -> u8 {
        match self {
            Count::Fixed(n) => n,
            Count::RandomInRange { min, max } => number_in_range(seed, min as u16, max as u16) as u8,
        }
    }

    /// The state that `init` leaves a generator in state `seed` in.
    pub open spec fn spec_state_after_init(self, seed: u64) -> u64 {
        match self {
            Count::Fixed(_) => seed,
            Count::RandomInRange { min, max } => state_after_number_in_range(seed, min as u16, max as u16),
        }
    }
}

} // verus!
