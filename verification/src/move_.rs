use vstd::prelude::*;

use crate::events::{EventFilteringOptions, EventHandlerSet};
use crate::global_constants::Count;
use crate::monster::MonsterID;
use crate::targetting::TargetFlags;
use crate::types::Type;

verus! {

/// Whether a move deals physical or special damage, or none.
#[derive(Debug, Clone, Copy, PartialEq, Eq, Structural)]
pub enum MoveCategory {
    Physical,
    Special,
    Status,
}

/// The slot of a move in its owner's moveset.
#[derive(Debug, Clone, Copy, PartialEq, Eq, Hash, Structural)]
pub enum MoveNumber {
    _1,
    _2,
    _3,
    _4,
}

/// The slot number of a move, counted from 0.
pub open spec fn move_number_index(n: MoveNumber) -> int {
    match n {
        MoveNumber::_1 => 0,
        MoveNumber::_2 => 1,
        MoveNumber::_3 => 2,
        MoveNumber::_4 => 3,
    }
}

/// The move number of the slot `i` (0 to 3).
pub open spec fn move_number_at(i: int) -> MoveNumber {
    if i == 0 {
        MoveNumber::_1
    } else if i == 1 {
        MoveNumber::_2
    } else if i == 2 {
        MoveNumber::_3
    } else {
        MoveNumber::_4
    }
}

impl MoveNumber {
    /// The move number of the slot `value` (0 to 3).
    pub fn from_usize(value: usize) -> (n: MoveNumber)
        requires
            value < 4,
        ensures
            move_number_index(n) == value,
            n == move_number_at(value as int),
    {
        if value == 0 {
            MoveNumber::_1
        } else if value == 1 {
            MoveNumber::_2
        } else if value == 2 {
            MoveNumber::_3
        } else {
            MoveNumber::_4
        }
    }

    /// The slot of this move number, counted from 0.
    pub fn index(&self) -> (i: usize)
        ensures
            i == move_number_index(*self),
    {
        match self {
            MoveNumber::_1 => 0,
            MoveNumber::_2 => 1,
            MoveNumber::_3 => 2,
            MoveNumber::_4 => 3,
        }
    }
}

/// Identifies a move by its owner and its slot.
#[derive(Debug, Clone, Copy, PartialEq, Eq, Hash, Structural)]
pub struct MoveID {
    pub owner_id: MonsterID,
    pub move_number: MoveNumber,
}

/// What happens to each target that a move hits.
#[derive(Debug, Clone, Copy, PartialEq, Eq, Structural)]
pub enum MoveEffect {
    /// Deals damage computed with the standard damage formula.
    DealCalculatedDamage,
    /// An effect of the mechanics in use, performed by their `EventResponder`.
    Custom(u16),
}

/// How many times a move hits each target.
#[derive(Debug, Clone, Copy, PartialEq, Eq, Structural)]
pub enum Hits {
    /// Hits the target once.
    Once,
    /// Hits the target a fixed number of times, more than once.
    MultipleTimes(u8),
    /// Hits the target a random number of times in a range (inclusive on both ends).
    RandomlyInRange { min: u8, max: u8 },
}

impl Hits {
    /// The range of hit numbers, as a start and an end that is not in it: `0..1` for one hit,
    /// `0..n` for `n` hits, and `min..max + 1` for a random number of hits, so that both `min`
    /// and `max` are in it.
    pub fn to_range(&self) -> (r: (u16, u16))
        ensures
            *self == Hits::Once ==> r == (0u16, 1u16),
            (*self matches Hits::MultipleTimes(n) ==> r.0 == 0 && r.1 == n),
            (*self matches Hits::RandomlyInRange { min, max } ==> r.0 == min && r.1 == max + 1),
    {
        match *self {
            Hits::Once => (0, 1),
            Hits::MultipleTimes(number_of_hits) => (0, number_of_hits as u16),
            Hits::RandomlyInRange { min: start, max: end } => (start as u16, end as u16 + 1),
        }
    }
}

/// The data that defines a kind of move.
#[derive(Debug, Clone, Copy)]
pub struct MoveSpecies {
    pub dex_number: u16,
    pub name: &'static str,
    pub on_hit_effect: MoveEffect,
    pub hits_per_target: Count,
    /// `None` for a move that never misses.
    pub base_accuracy: Option<u16>,
    pub base_power: u16,
    pub category: MoveCategory,
    pub max_power_points: u8,
    pub priority: i8,
    pub targets: TargetFlags,
    pub type_: Type,
    pub event_handlers: EventHandlerSet,
    pub event_filtering_options: EventFilteringOptions,
}

/// The entry of a move in a dex, from which its species is made.
#[derive(Debug, Clone, Copy)]
pub struct MoveDexEntry {
    pub dex_number: u16,
    pub name: &'static str,
    pub on_hit_effect: MoveEffect,
    pub hits_per_target: Count,
    pub base_accuracy: Option<u16>,
    pub base_power: u16,
    pub category: MoveCategory,
    pub max_power_points: u8,
    pub priority: i8,
    pub targets: TargetFlags,
    pub type_: Type,
    pub event_handlers: EventHandlerSet,
    pub event_filtering_options: EventFilteringOptions,
}

impl MoveSpecies {
    pub fn from_dex_entry(dex_entry: MoveDexEntry) -> (species: MoveSpecies)
        ensures
            species.dex_number == dex_entry.dex_number,
            species.name == dex_entry.name,
            species.on_hit_effect == dex_entry.on_hit_effect,
            species.hits_per_target == dex_entry.hits_per_target,
            species.base_accuracy == dex_entry.base_accuracy,
            species.base_power == dex_entry.base_power,
            species.category == dex_entry.category,
            species.max_power_points == dex_entry.max_power_points,
            species.priority == dex_entry.priority,
            species.targets == dex_entry.targets,
            species.type_ == dex_entry.type_,
            species.event_handlers == dex_entry.event_handlers,
            species.event_filtering_options == dex_entry.event_filtering_options,
    {
        MoveSpecies {
            dex_number: dex_entry.dex_number,
            name: dex_entry.name,
            on_hit_effect: dex_entry.on_hit_effect,
            hits_per_target: dex_entry.hits_per_target,
            base_accuracy: dex_entry.base_accuracy,
            base_power: dex_entry.base_power,
            category: dex_entry.category,
            max_power_points: dex_entry.max_power_points,
            priority: dex_entry.priority,
            targets: dex_entry.targets,
            type_: dex_entry.type_,
            event_handlers: dex_entry.event_handlers,
            event_filtering_options: dex_entry.event_filtering_options,
        }
    }

    /// The number of hits per target can be drawn, and a move that deals calculated damage is
    /// physical or special.
    pub open spec fn wf(self) -> bool {
        &&& self.hits_per_target.wf()
        &&& self.on_hit_effect is DealCalculatedDamage ==> self.category != MoveCategory::Status
    }

    pub fn name(&self) -> (name: &'static str)
        ensures
            name == self.name,
    {
        self.name
    }

    pub fn max_power_points(&self) -> (pp: u8)
        ensures
            pp == self.max_power_points,
    {
        self.max_power_points
    }

    pub fn category(&self) -> (category: MoveCategory)
        ensures
            category == self.category,
    {
        self.category
    }

    pub fn on_hit_effect(&self) -> (effect: MoveEffect)
        ensures
            effect == self.on_hit_effect,
    {
        self.on_hit_effect
    }

    /// Two species are the same species when their dex numbers agree.
    pub fn is_same_species(&self, other: &MoveSpecies) -> (b: bool)
        ensures
            b == (self.dex_number == other.dex_number),
    {
        self.dex_number == other.dex_number
    }
}

/// A move in a monster's moveset.
#[derive(Debug, Clone, Copy)]
pub struct Move {
    pub id: MoveID,
    pub species: MoveSpecies,
    pub current_power_points: u8,
}

impl Move {
    pub fn name(&self) -> (name: &'static str)
        ensures
            name == self.species.name,
    {
        self.species.name
    }

    pub fn on_hit_effect(&self) -> (effect: MoveEffect)
        ensures
            effect == self.species.on_hit_effect,
    {
        self.species.on_hit_effect
    }

    pub fn category(&self) -> (category: MoveCategory)
        ensures
            category == self.species.category,
    {
        self.species.category
    }

    pub fn base_power(&self) -> (power: u16)
        ensures
            power == self.species.base_power,
    {
        self.species.base_power
    }

    pub fn base_accuracy(&self) -> (accuracy: Option<u16>)
        ensures
            accuracy == self.species.base_accuracy,
    {
        self.species.base_accuracy
    }

    pub fn current_power_points(&self) -> (pp: u8)
        ensures
            pp == self.current_power_points,
    {
        self.current_power_points
    }

    pub fn max_power_points(&self) -> (pp: u8)
        ensures
            pp == self.species.max_power_points,
    {
        self.species.max_power_points
    }

    pub fn priority(&self) -> (priority: i8)
        ensures
            priority == self.species.priority,
    {
        self.species.priority
    }

    pub fn allowed_target_position_relation_flags(&self) -> (flags: TargetFlags)
        ensures
            flags == self.species.targets,
    {
        self.species.targets
    }

    pub fn type_(&self) -> (t: Type)
        ensures
            t == self.species.type_,
    {
        self.species.type_
    }

    pub fn is_type(&self, type_: Type) -> (b: bool)
        ensures
            b == (self.species.type_ == type_),
    {
        self.species.type_ == type_
    }

    pub fn species(&self) -> (species: MoveSpecies)
        ensures
            species == self.species,
    {
        self.species
    }

    pub fn hits_per_target(&self) -> (hits: Count)
        ensures
            hits == self.species.hits_per_target,
    {
        self.species.hits_per_target
    }

    pub fn event_handlers(&self) -> (handlers: EventHandlerSet)
        ensures
            handlers == self.species.event_handlers,
    {
        self.species.event_handlers
    }
}

} // verus!
