use vstd::prelude::*;

use crate::events::{EventFilteringOptions, EventHandlerSet};
use crate::global_constants::{Nothing, Outcome};
use crate::monster::MonsterID;

verus! {

/// Identifies an item by the monster that holds it.
#[derive(Debug, Clone, Copy, PartialEq, Eq, Structural)]
pub struct ItemID {
    pub item_holder_id: MonsterID,
}

impl ItemID {
    /// The item held by `owner_id`.
    pub fn from_owner(owner_id: MonsterID) -> (id: ItemID)
        ensures
            id.item_holder_id == owner_id,
    {
        ItemID { item_holder_id: owner_id }
    }

    /// The item held by `item_holder_id`.
    pub fn from_holder(item_holder_id: MonsterID) -> (id: ItemID)
        ensures
            id.item_holder_id == item_holder_id,
    {
        ItemID { item_holder_id }
    }
}

/// Whether an item can still be used.
#[derive(Debug, Clone, Copy, PartialEq, Eq, Structural)]
pub enum ItemState {
    Active,
    Consumed,
    Destroyed,
}

/// The kinds of item, as bits.
#[derive(Debug, Clone, Copy, PartialEq, Eq, Structural)]
pub struct ItemFlags {
    pub bits: u8,
}

/// The bit of berries.
pub const ITEM_BERRY: u8 = 0b0000_0001;

/// The data that defines a kind of item.
#[derive(Debug, Clone, Copy)]
pub struct ItemSpecies {
    pub dex_number: u16,
    pub name: &'static str,
    pub kind: ItemFlags,
    pub is_consumable: bool,
    pub event_handlers: EventHandlerSet,
    pub event_filtering_options: EventFilteringOptions,
}

/// The entry of an item in a dex, from which its species is made.
#[derive(Debug, Clone, Copy)]
pub struct ItemDexData {
    pub dex_number: u16,
    pub name: &'static str,
    pub kind: ItemFlags,
    pub is_consumable: bool,
    pub event_handlers: EventHandlerSet,
    pub event_filtering_options: EventFilteringOptions,
}

impl ItemSpecies {
    pub fn from_dex_data(dex_data: ItemDexData) -> (species: ItemSpecies)
        ensures
            species.dex_number == dex_data.dex_number,
            species.name == dex_data.name,
            species.kind == dex_data.kind,
            species.is_consumable == dex_data.is_consumable,
            species.event_handlers == dex_data.event_handlers,
            species.event_filtering_options == dex_data.event_filtering_options,
    {
        ItemSpecies {
            dex_number: dex_data.dex_number,
            name: dex_data.name,
            kind: dex_data.kind,
            is_consumable: dex_data.is_consumable,
            event_handlers: dex_data.event_handlers,
            event_filtering_options: dex_data.event_filtering_options,
        }
    }

    /// Two species are the same species when their dex numbers agree.
    pub fn is_same_species(&self, other: &ItemSpecies) -> (b: bool)
        ensures
            b == (self.dex_number == other.dex_number),
    {
        self.dex_number == other.dex_number
    }
}

/// An item held by a monster.
#[derive(Debug, Clone, Copy)]
pub struct Item {
    pub id: ItemID,
    pub state: ItemState,
    pub species: ItemSpecies,
}

impl Item {
    pub fn name(&self) -> (name: &'static str)
        ensures
            name == self.species.name,
    {
        self.species.name
    }

    /// Consumes the item if it is consumable and still active.
    pub fn consume(&mut self) -> (outcome: Outcome<Nothing>)
        ensures
            old(self).species.is_consumable && old(self).state == ItemState::Active ==> {
                &&& outcome == Outcome::<Nothing>::Success(())
                &&& final(self).state == ItemState::Consumed
            },
            !(old(self).species.is_consumable && old(self).state == ItemState::Active) ==> {
                &&& outcome is Failure
                &&& final(self).state == old(self).state
            },
            final(self).id == old(self).id,
            final(self).species == old(self).species,
    {
        if self.species.is_consumable && self.state == ItemState::Active {
            self.state = ItemState::Consumed;
            Outcome::Success(())
        } else {
            Outcome::Failure
        }
    }

    pub fn event_handlers(&self) -> (handlers: EventHandlerSet)
        ensures
            handlers == self.species.event_handlers,
    {
        self.species.event_handlers
    }

    pub fn event_filtering_options(&self) -> (options: EventFilteringOptions)
        ensures
            options == self.species.event_filtering_options,
    {
        self.species.event_filtering_options
    }
}

} // verus!
