use vstd::prelude::*;

use crate::builder::InitCount;

use crate::events::EventHandlerSet;
use crate::global_constants::Count;
use crate::prng::Prng;
use crate::team::{PerTeam, TeamID};

verus! {

/// Identifies the weather of the battle.
#[derive(Debug, Clone, Copy, PartialEq, Eq, Structural)]
pub struct WeatherID;

/// The data that defines a kind of weather.
#[derive(Debug, Clone, Copy)]
pub struct WeatherSpecies {
    pub dex_number: u16,
    pub name: &'static str,
    pub lifetime_in_turns: Count,
    pub event_handlers: EventHandlerSet,
    pub on_start_message: &'static str,
    pub on_clear_message: &'static str,
}

/// The entry of a weather in a dex, from which its species is made.
#[derive(Debug, Clone, Copy)]
pub struct WeatherDexEntry {
    pub dex_number: u16,
    pub name: &'static str,
    pub lifetime_in_turns: Count,
    pub event_handlers: EventHandlerSet,
    pub on_start_message: &'static str,
    pub on_clear_message: &'static str,
}

impl WeatherSpecies {
    pub fn from_dex_entry(dex_entry: WeatherDexEntry) -> (species: WeatherSpecies)
        ensures
            species.dex_number == dex_entry.dex_number,
            species.name == dex_entry.name,
            species.lifetime_in_turns == dex_entry.lifetime_in_turns,
            species.event_handlers == dex_entry.event_handlers,
            species.on_start_message == dex_entry.on_start_message,
            species.on_clear_message == dex_entry.on_clear_message,
    {
        WeatherSpecies {
            dex_number: dex_entry.dex_number,
            name: dex_entry.name,
            lifetime_in_turns: dex_entry.lifetime_in_turns,
            event_handlers: dex_entry.event_handlers,
            on_start_message: dex_entry.on_start_message,
            on_clear_message: dex_entry.on_clear_message,
        }
    }

    pub fn name(&self) -> (name: &'static str)
        ensures
            name == self.name,
    {
        self.name
    }

    pub fn lifetime_in_turns(&self) -> (count: Count)
        ensures
            count == self.lifetime_in_turns,
    {
        self.lifetime_in_turns
    }
}

/// The weather of the battle.
#[derive(Debug, Clone, Copy)]
pub struct Weather {
    pub species: WeatherSpecies,
    pub remaining_turns: u8,
}

impl Weather {
    pub fn name(&self) -> (name: &'static str)
        ensures
            name == self.species.name,
    {
        self.species.name
    }

    pub fn event_handlers(&self) -> (handlers: EventHandlerSet)
        ensures
            handlers == self.species.event_handlers,
    {
        self.species.event_handlers
    }
}

/// The data that defines a kind of terrain.
#[derive(Debug, Clone, Copy)]
pub struct TerrainSpecies {
    pub dex_number: u16,
    pub name: &'static str,
    pub lifetime_in_turns: Count,
    pub event_handlers: EventHandlerSet,
    pub on_start_message: &'static str,
    pub on_clear_message: &'static str,
}

/// The entry of a terrain in a dex, from which its species is made.
#[derive(Debug, Clone, Copy)]
pub struct TerrainDexEntry {
    pub dex_number: u16,
    pub name: &'static str,
    pub lifetime_in_turns: Count,
    pub event_handlers: EventHandlerSet,
    pub on_start_message: &'static str,
    pub on_clear_message: &'static str,
}

impl TerrainSpecies {
    pub fn from_dex_entry(dex_entry: TerrainDexEntry) -> (species: TerrainSpecies)
        ensures
            species.dex_number == dex_entry.dex_number,
            species.name == dex_entry.name,
            species.lifetime_in_turns == dex_entry.lifetime_in_turns,
            species.event_handlers == dex_entry.event_handlers,
            species.on_start_message == dex_entry.on_start_message,
            species.on_clear_message == dex_entry.on_clear_message,
    {
        TerrainSpecies {
            dex_number: dex_entry.dex_number,
            name: dex_entry.name,
            lifetime_in_turns: dex_entry.lifetime_in_turns,
            event_handlers: dex_entry.event_handlers,
            on_start_message: dex_entry.on_start_message,
            on_clear_message: dex_entry.on_clear_message,
        }
    }

    pub fn name(&self) -> (name: &'static str)
        ensures
            name == self.name,
    {
        self.name
    }

    pub fn lifetime_in_turns(&self) -> (count: Count)
        ensures
            count == self.lifetime_in_turns,
    {
        self.lifetime_in_turns
    }
}

/// The terrain of the battle.
#[derive(Debug, Clone, Copy)]
pub struct Terrain {
    pub species: TerrainSpecies,
    pub remaining_turns: u8,
}

impl Terrain {
    /// A terrain of `species`, lasting for a number of turns drawn from its lifetime.
    pub fn from_species(species: TerrainSpecies, prng: &mut Prng) -> (terrain: Terrain)
        requires
            species.lifetime_in_turns.wf(),
        ensures
            terrain.species == species,
            terrain.remaining_turns == species.lifetime_in_turns.spec_init(old(prng).current_seed),
            final(prng).current_seed == species.lifetime_in_turns.spec_state_after_init(old(prng).current_seed),
            final(prng).start_seed == old(prng).start_seed,
    {
        let remaining_turns = species.lifetime_in_turns.init(prng);
        Terrain { species, remaining_turns }
    }

    pub fn name(&self) -> (name: &'static str)
        ensures
            name == self.species.name,
    {
        self.species.name
    }

    pub fn on_start_message(&self) -> (message: &'static str)
        ensures
            message == self.species.on_start_message,
    {
        self.species.on_start_message
    }

    pub fn on_clear_message(&self) -> (message: &'static str)
        ensures
            message == self.species.on_clear_message,
    {
        self.species.on_clear_message
    }

    pub fn event_handlers(&self) -> (handlers: EventHandlerSet)
        ensures
            handlers == self.species.event_handlers,
    {
        self.species.event_handlers
    }
}

/// Identifies the trap on the side of a team.
#[derive(Debug, Clone, Copy, PartialEq, Eq, Structural)]
pub struct TrapID {
    pub team_id: TeamID,
}

/// The data that defines a kind of trap (entry hazard).
#[derive(Debug, Clone, Copy)]
pub struct TrapSpecies {
    pub dex_number: u16,
    pub name: &'static str,
    pub event_handlers: EventHandlerSet,
    pub on_start_message: &'static str,
    pub on_clear_message: &'static str,
}

/// The entry of a trap in a dex, from which its species is made.
#[derive(Debug, Clone, Copy)]
pub struct TrapDexEntry {
    pub dex_number: u16,
    pub name: &'static str,
    pub event_handlers: EventHandlerSet,
    pub on_start_message: &'static str,
    pub on_clear_message: &'static str,
}

impl TrapSpecies {
    pub fn from_dex_entry(dex_entry: TrapDexEntry) -> (species: TrapSpecies)
        ensures
            species.dex_number == dex_entry.dex_number,
            species.name == dex_entry.name,
            species.event_handlers == dex_entry.event_handlers,
            species.on_start_message == dex_entry.on_start_message,
            species.on_clear_message == dex_entry.on_clear_message,
    {
        TrapSpecies {
            dex_number: dex_entry.dex_number,
            name: dex_entry.name,
            event_handlers: dex_entry.event_handlers,
            on_start_message: dex_entry.on_start_message,
            on_clear_message: dex_entry.on_clear_message,
        }
    }

    pub fn name(&self) -> (name: &'static str)
        ensures
            name == self.name,
    {
        self.name
    }
}

/// A trap laid on the side of a team.
#[derive(Debug, Clone, Copy)]
pub struct Trap {
    pub id: TrapID,
    pub species: TrapSpecies,
}

impl Trap {
    /// A trap of `species` on the side of `team_id`.
    pub fn from_species(species: TrapSpecies, team_id: TeamID) -> (trap: Trap)
        ensures
            trap.species == species,
            trap.id.team_id == team_id,
    {
        Trap { id: TrapID { team_id }, species }
    }

    pub fn name(&self) -> (name: &'static str)
        ensures
            name == self.species.name,
    {
        self.species.name
    }

    pub fn event_handlers(&self) -> (handlers: EventHandlerSet)
        ensures
            handlers == self.species.event_handlers,
    {
        self.species.event_handlers
    }
}

/// The weather, terrain and traps of a battle.
#[derive(Debug, Clone, Copy)]
pub struct Environment {
    pub weather: Option<Weather>,
    pub terrain: Option<Terrain>,
    pub traps: PerTeam<Option<Trap>>,
}

impl Environment {
    pub fn weather(&self) -> (weather: Option<Weather>)
        ensures
            weather == self.weather,
    {
        self.weather
    }

    pub fn terrain(&self) -> (terrain: Option<Terrain>)
        ensures
            terrain == self.terrain,
    {
        self.terrain
    }

    pub fn traps(&self) -> (traps: PerTeam<Option<Trap>>)
        ensures
            traps == self.traps,
    {
        self.traps
    }
}

} // verus!
