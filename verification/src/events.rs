use vstd::prelude::*;

use crate::targetting::{TargetFlags, TARGET_ADJACENT, TARGET_NONADJACENT, TARGET_OPPONENTS, TARGET_SELF};

verus! {

/// The events that the battle broadcasts, to which event handlers respond.
#[derive(Debug, Clone, Copy, PartialEq, Eq, Structural)]
pub enum EventID {
    OnTryMove,
    OnMoveUsed,
    OnDamagingMoveUsed,
    OnStatusMoveUsed,
    OnCalculateAccuracy,
    OnCalculateAccuracyStage,
    OnCalculateEvasionStage,
    OnCalculateCritStage,
    OnCalculateCritDamageMultiplier,
    OnTryMoveHit,
    OnMoveHit,
    OnCalculateAttackStat,
    OnCalculateAttackStage,
    OnCalculateDefenseStat,
    OnCalculateDefenseStage,
    OnModifyDamage,
    OnDamageDealt,
    OnHealthRecovered,
    OnTryActivateAbility,
    OnAbilityActivated,
    OnTryStatChange,
    OnModifyStatChange,
    OnStatChanged,
    OnTryInflictVolatileStatus,
    OnVolatileStatusInflicted,
    OnTryInflictPersistentStatus,
    OnPersistentStatusInflicted,
    OnTryUseHeldItem,
    OnHeldItemUsed,
    OnMonsterEnterBattle,
    OnMonsterExitBattle,
    OnTurnEnd,
}

/// The number of distinct events.
pub const NUMBER_OF_EVENTS: usize = 32;

/// The position of an event in an `EventHandlerSet`.
pub open spec fn event_index(event: EventID) -> int {
    match event {
        EventID::OnTryMove => 0,
        EventID::OnMoveUsed => 1,
        EventID::OnDamagingMoveUsed => 2,
        EventID::OnStatusMoveUsed => 3,
        EventID::OnCalculateAccuracy => 4,
        EventID::OnCalculateAccuracyStage => 5,
        EventID::OnCalculateEvasionStage => 6,
        EventID::OnCalculateCritStage => 7,
        EventID::OnCalculateCritDamageMultiplier => 8,
        EventID::OnTryMoveHit => 9,
        EventID::OnMoveHit => 10,
        EventID::OnCalculateAttackStat => 11,
        EventID::OnCalculateAttackStage => 12,
        EventID::OnCalculateDefenseStat => 13,
        EventID::OnCalculateDefenseStage => 14,
        EventID::OnModifyDamage => 15,
        EventID::OnDamageDealt => 16,
        EventID::OnHealthRecovered => 17,
        EventID::OnTryActivateAbility => 18,
        EventID::OnAbilityActivated => 19,
        EventID::OnTryStatChange => 20,
        EventID::OnModifyStatChange => 21,
        EventID::OnStatChanged => 22,
        EventID::OnTryInflictVolatileStatus => 23,
        EventID::OnVolatileStatusInflicted => 24,
        EventID::OnTryInflictPersistentStatus => 25,
        EventID::OnPersistentStatusInflicted => 26,
        EventID::OnTryUseHeldItem => 27,
        EventID::OnHeldItemUsed => 28,
        EventID::OnMonsterEnterBattle => 29,
        EventID::OnMonsterExitBattle => 30,
        EventID::OnTurnEnd => 31,
    }
}

impl EventID {
    /// The position of this event in an `EventHandlerSet`.
    pub fn index(&self) -> (i: usize)
        ensures
            i == event_index(*self),
            i < NUMBER_OF_EVENTS,
    {
        match self {
            EventID::OnTryMove => 0,
            EventID::OnMoveUsed => 1,
            EventID::OnDamagingMoveUsed => 2,
            EventID::OnStatusMoveUsed => 3,
            EventID::OnCalculateAccuracy => 4,
            EventID::OnCalculateAccuracyStage => 5,
            EventID::OnCalculateEvasionStage => 6,
            EventID::OnCalculateCritStage => 7,
            EventID::OnCalculateCritDamageMultiplier => 8,
            EventID::OnTryMoveHit => 9,
            EventID::OnMoveHit => 10,
            EventID::OnCalculateAttackStat => 11,
            EventID::OnCalculateAttackStage => 12,
            EventID::OnCalculateDefenseStat => 13,
            EventID::OnCalculateDefenseStage => 14,
            EventID::OnModifyDamage => 15,
            EventID::OnDamageDealt => 16,
            EventID::OnHealthRecovered => 17,
            EventID::OnTryActivateAbility => 18,
            EventID::OnAbilityActivated => 19,
            EventID::OnTryStatChange => 20,
            EventID::OnModifyStatChange => 21,
            EventID::OnStatChanged => 22,
            EventID::OnTryInflictVolatileStatus => 23,
            EventID::OnVolatileStatusInflicted => 24,
            EventID::OnTryInflictPersistentStatus => 25,
            EventID::OnPersistentStatusInflicted => 26,
            EventID::OnTryUseHeldItem => 27,
            EventID::OnHeldItemUsed => 28,
            EventID::OnMonsterEnterBattle => 29,
            EventID::OnMonsterExitBattle => 30,
            EventID::OnTurnEnd => 31,
        }
    }
}

/// Tells an event handler whether to respond to an event, by the relations between its receiver
/// and the broadcaster and target of the event.
#[derive(Debug, Clone, Copy, PartialEq, Eq, Structural)]
pub struct EventFilteringOptions {
    /// The handler responds only if the broadcaster's relation to the receiver is among these.
    /// Does nothing if there is no broadcaster.
    pub only_if_broadcaster_is: TargetFlags,
    /// The handler responds only if the target's relation to the receiver is among these. Does
    /// nothing if the event has no clear target.
    pub only_if_target_is: TargetFlags,
    /// If `true`, the handler responds only while its receiver is active; if `false`, whether or
    /// not it is active (as for abilities like Regenerator).
    pub only_if_receiver_is_active: bool,
}

impl EventFilteringOptions {
    /// Respond to adjacent or non-adjacent opponents that broadcast, when the receiver itself is
    /// the target, and only while the receiver is active.
    pub fn default() -> (options: EventFilteringOptions)
        ensures
            options.only_if_broadcaster_is.bits == TARGET_ADJACENT | TARGET_NONADJACENT | TARGET_OPPONENTS,
            options.only_if_target_is.bits == TARGET_SELF,
            options.only_if_receiver_is_active,
    {
        EventFilteringOptions {
            only_if_broadcaster_is: TargetFlags::adjacent().union(TargetFlags::nonadjacent()).union(TargetFlags::opponents()),
            only_if_target_is: TargetFlags::itself(),
            only_if_receiver_is_active: true,
        }
    }
}

/// Names the response of an event handler: the `EventResponder` of the battle's mechanics
/// performs it when the handler fires.
#[derive(Debug, Clone, Copy, PartialEq, Eq, Structural)]
pub struct EventResponse(pub u16);

/// A response to one event, with the options that decide when it fires.
#[derive(Debug, Clone, Copy, PartialEq, Eq, Structural)]
pub struct EventHandler {
    pub response: EventResponse,
    pub event_filtering_options: EventFilteringOptions,
}

/// The event handlers of a mechanic (a monster species, ability, item, status, weather, terrain
/// or trap): at most one per event.
#[derive(Debug, Clone, Copy)]
pub struct EventHandlerSet {
    pub handlers: [Option<EventHandler>; 32],
}

/// The older name of `EventHandlerSet`.
pub type EventHandlerDeck = EventHandlerSet;

impl EventHandlerSet {
    /// The handler of this set for `event`, if it has one.
    pub open spec fn spec_handler(self, event: EventID) -> Option<EventHandler> {
        self.handlers[event_index(event)]
    }

    /// A set without handlers.
    pub fn empty() -> (set: EventHandlerSet)
        ensures
            forall|event: EventID| #[trigger] set.spec_handler(event) is None,
    {
        EventHandlerSet { handlers: [None; 32] }
    }

    /// This set with `handler` as its handler for `event`.
    pub fn with(self, event: EventID, handler: EventHandler) -> (set: EventHandlerSet)
        ensures
            set.spec_handler(event) == Some(handler),
            forall|other: EventID| other != event ==> #[trigger] set.spec_handler(other) == self.spec_handler(other),
    {
        let mut set = self;
        let i = event.index();
        set.handlers.set(i, Some(handler));
        proof {
            assert forall|other: EventID| other != event implies #[trigger] set.spec_handler(other) == self.spec_handler(other) by {
                assert(event_index(other) != event_index(event));
            }
        }
        set
    }

    /// The handler of this set for `event`, if it has one.
    pub fn handler(&self, event: EventID) -> (handler: Option<EventHandler>)
        ensures
            handler == self.spec_handler(event),
    {
        self.handlers[event.index()]
    }
}

/// The event `EventID::OnTryMove`.
#[derive(Debug, Clone, Copy, PartialEq, Eq, Structural)]
pub struct OnTryMoveEvent;

impl OnTryMoveEvent {
    pub fn id(&self) -> (event: EventID)
        ensures
            event == EventID::OnTryMove,
    {
        EventID::OnTryMove
    }
}

/// The event `EventID::OnMoveUsed`.
#[derive(Debug, Clone, Copy, PartialEq, Eq, Structural)]
pub struct OnMoveUsedEvent;

impl OnMoveUsedEvent {
    pub fn id(&self) -> (event: EventID)
        ensures
            event == EventID::OnMoveUsed,
    {
        EventID::OnMoveUsed
    }
}

/// The event `EventID::OnDamagingMoveUsed`.
#[derive(Debug, Clone, Copy, PartialEq, Eq, Structural)]
pub struct OnDamagingMoveUsedEvent;

impl OnDamagingMoveUsedEvent {
    pub fn id(&self) -> (event: EventID)
        ensures
            event == EventID::OnDamagingMoveUsed,
    {
        EventID::OnDamagingMoveUsed
    }
}

/// The event `EventID::OnStatusMoveUsed`.
#[derive(Debug, Clone, Copy, PartialEq, Eq, Structural)]
pub struct OnStatusMoveUsedEvent;

impl OnStatusMoveUsedEvent {
    pub fn id(&self) -> (event: EventID)
        ensures
            event == EventID::OnStatusMoveUsed,
    {
        EventID::OnStatusMoveUsed
    }
}

/// The event `EventID::OnCalculateAccuracy`.
#[derive(Debug, Clone, Copy, PartialEq, Eq, Structural)]
pub struct OnCalculateAccuracyEvent;

impl OnCalculateAccuracyEvent {
    pub fn id(&self) -> (event: EventID)
        ensures
            event == EventID::OnCalculateAccuracy,
    {
        EventID::OnCalculateAccuracy
    }
}

/// The event `EventID::OnCalculateAccuracyStage`.
#[derive(Debug, Clone, Copy, PartialEq, Eq, Structural)]
pub struct OnCalculateAccuracyStageEvent;

impl OnCalculateAccuracyStageEvent {
    pub fn id(&self) -> (event: EventID)
        ensures
            event == EventID::OnCalculateAccuracyStage,
    {
        EventID::OnCalculateAccuracyStage
    }
}

/// The event `EventID::OnCalculateEvasionStage`.
#[derive(Debug, Clone, Copy, PartialEq, Eq, Structural)]
pub struct OnCalculateEvasionStageEvent;

impl OnCalculateEvasionStageEvent {
    pub fn id(&self) -> (event: EventID)
        ensures
            event == EventID::OnCalculateEvasionStage,
    {
        EventID::OnCalculateEvasionStage
    }
}

/// The event `EventID::OnCalculateCritStage`.
#[derive(Debug, Clone, Copy, PartialEq, Eq, Structural)]
pub struct OnCalculateCritStageEvent;

impl OnCalculateCritStageEvent {
    pub fn id(&self) -> (event: EventID)
        ensures
            event == EventID::OnCalculateCritStage,
    {
        EventID::OnCalculateCritStage
    }
}

/// The event `EventID::OnCalculateCritDamageMultiplier`.
#[derive(Debug, Clone, Copy, PartialEq, Eq, Structural)]
pub struct OnCalculateCritDamageMultiplierEvent;

impl OnCalculateCritDamageMultiplierEvent {
    pub fn id(&self) -> (event: EventID)
        ensures
            event == EventID::OnCalculateCritDamageMultiplier,
    {
        EventID::OnCalculateCritDamageMultiplier
    }
}

/// The event `EventID::OnTryMoveHit`.
#[derive(Debug, Clone, Copy, PartialEq, Eq, Structural)]
pub struct OnTryMoveHitEvent;

impl OnTryMoveHitEvent {
    pub fn id(&self) -> (event: EventID)
        ensures
            event == EventID::OnTryMoveHit,
    {
        EventID::OnTryMoveHit
    }
}

/// The event `EventID::OnMoveHit`.
#[derive(Debug, Clone, Copy, PartialEq, Eq, Structural)]
pub struct OnMoveHitEvent;

impl OnMoveHitEvent {
    pub fn id(&self) -> (event: EventID)
        ensures
            event == EventID::OnMoveHit,
    {
        EventID::OnMoveHit
    }
}

/// The event `EventID::OnCalculateAttackStat`.
#[derive(Debug, Clone, Copy, PartialEq, Eq, Structural)]
pub struct OnCalculateAttackStatEvent;

impl OnCalculateAttackStatEvent {
    pub fn id(&self) -> (event: EventID)
        ensures
            event == EventID::OnCalculateAttackStat,
    {
        EventID::OnCalculateAttackStat
    }
}

/// The event `EventID::OnCalculateAttackStage`.
#[derive(Debug, Clone, Copy, PartialEq, Eq, Structural)]
pub struct OnCalculateAttackStageEvent;

impl OnCalculateAttackStageEvent {
    pub fn id(&self) -> (event: EventID)
        ensures
            event == EventID::OnCalculateAttackStage,
    {
        EventID::OnCalculateAttackStage
    }
}

/// The event `EventID::OnCalculateDefenseStat`.
#[derive(Debug, Clone, Copy, PartialEq, Eq, Structural)]
pub struct OnCalculateDefenseStatEvent;

impl OnCalculateDefenseStatEvent {
    pub fn id(&self) -> (event: EventID)
        ensures
            event == EventID::OnCalculateDefenseStat,
    {
        EventID::OnCalculateDefenseStat
    }
}

/// The event `EventID::OnCalculateDefenseStage`.
#[derive(Debug, Clone, Copy, PartialEq, Eq, Structural)]
pub struct OnCalculateDefenseStageEvent;

impl OnCalculateDefenseStageEvent {
    pub fn id(&self) -> (event: EventID)
        ensures
            event == EventID::OnCalculateDefenseStage,
    {
        EventID::OnCalculateDefenseStage
    }
}

/// The event `EventID::OnModifyDamage`.
#[derive(Debug, Clone, Copy, PartialEq, Eq, Structural)]
pub struct OnModifyDamageEvent;

impl OnModifyDamageEvent {
    pub fn id(&self) -> (event: EventID)
        ensures
            event == EventID::OnModifyDamage,
    {
        EventID::OnModifyDamage
    }
}

/// The event `EventID::OnDamageDealt`.
#[derive(Debug, Clone, Copy, PartialEq, Eq, Structural)]
pub struct OnDamageDealtEvent;

impl OnDamageDealtEvent {
    pub fn id(&self) -> (event: EventID)
        ensures
            event == EventID::OnDamageDealt,
    {
        EventID::OnDamageDealt
    }
}

/// The event `EventID::OnHealthRecovered`.
#[derive(Debug, Clone, Copy, PartialEq, Eq, Structural)]
pub struct OnHealthRecoveredEvent;

impl OnHealthRecoveredEvent {
    pub fn id(&self) -> (event: EventID)
        ensures
            event == EventID::OnHealthRecovered,
    {
        EventID::OnHealthRecovered
    }
}

/// The event `EventID::OnTryActivateAbility`.
#[derive(Debug, Clone, Copy, PartialEq, Eq, Structural)]
pub struct OnTryActivateAbilityEvent;

impl OnTryActivateAbilityEvent {
    pub fn id(&self) -> (event: EventID)
        ensures
            event == EventID::OnTryActivateAbility,
    {
        EventID::OnTryActivateAbility
    }
}

/// The event `EventID::OnAbilityActivated`.
#[derive(Debug, Clone, Copy, PartialEq, Eq, Structural)]
pub struct OnAbilityActivatedEvent;

impl OnAbilityActivatedEvent {
    pub fn id(&self) -> (event: EventID)
        ensures
            event == EventID::OnAbilityActivated,
    {
        EventID::OnAbilityActivated
    }
}

/// The event `EventID::OnTryStatChange`.
#[derive(Debug, Clone, Copy, PartialEq, Eq, Structural)]
pub struct OnTryStatChangeEvent;

impl OnTryStatChangeEvent {
    pub fn id(&self) -> (event: EventID)
        ensures
            event == EventID::OnTryStatChange,
    {
        EventID::OnTryStatChange
    }
}

/// The event `EventID::OnModifyStatChange`.
#[derive(Debug, Clone, Copy, PartialEq, Eq, Structural)]
pub struct OnModifyStatChangeEvent;

impl OnModifyStatChangeEvent {
    pub fn id(&self) -> (event: EventID)
        ensures
            event == EventID::OnModifyStatChange,
    {
        EventID::OnModifyStatChange
    }
}

/// The event `EventID::OnStatChanged`.
#[derive(Debug, Clone, Copy, PartialEq, Eq, Structural)]
pub struct OnStatChangedEvent;

impl OnStatChangedEvent {
    pub fn id(&self) -> (event: EventID)
        ensures
            event == EventID::OnStatChanged,
    {
        EventID::OnStatChanged
    }
}

/// The event `EventID::OnTryInflictVolatileStatus`.
#[derive(Debug, Clone, Copy, PartialEq, Eq, Structural)]
pub struct OnTryInflictVolatileStatusEvent;

impl OnTryInflictVolatileStatusEvent {
    pub fn id(&self) -> (event: EventID)
        ensures
            event == EventID::OnTryInflictVolatileStatus,
    {
        EventID::OnTryInflictVolatileStatus
    }
}

/// The event `EventID::OnVolatileStatusInflicted`.
#[derive(Debug, Clone, Copy, PartialEq, Eq, Structural)]
pub struct OnVolatileStatusInflictedEvent;

impl OnVolatileStatusInflictedEvent {
    pub fn id(&self) -> (event: EventID)
        ensures
            event == EventID::OnVolatileStatusInflicted,
    {
        EventID::OnVolatileStatusInflicted
    }
}

/// The event `EventID::OnTryInflictPersistentStatus`.
#[derive(Debug, Clone, Copy, PartialEq, Eq, Structural)]
pub struct OnTryInflictPersistentStatusEvent;

impl OnTryInflictPersistentStatusEvent {
    pub fn id(&self) -> (event: EventID)
        ensures
            event == EventID::OnTryInflictPersistentStatus,
    {
        EventID::OnTryInflictPersistentStatus
    }
}

/// The event `EventID::OnPersistentStatusInflicted`.
#[derive(Debug, Clone, Copy, PartialEq, Eq, Structural)]
pub struct OnPersistentStatusInflictedEvent;

impl OnPersistentStatusInflictedEvent {
    pub fn id(&self) -> (event: EventID)
        ensures
            event == EventID::OnPersistentStatusInflicted,
    {
        EventID::OnPersistentStatusInflicted
    }
}

/// The event `EventID::OnTryUseHeldItem`.
#[derive(Debug, Clone, Copy, PartialEq, Eq, Structural)]
pub struct OnTryUseHeldItemEvent;

impl OnTryUseHeldItemEvent {
    pub fn id(&self) -> (event: EventID)
        ensures
            event == EventID::OnTryUseHeldItem,
    {
        EventID::OnTryUseHeldItem
    }
}

/// The event `EventID::OnHeldItemUsed`.
#[derive(Debug, Clone, Copy, PartialEq, Eq, Structural)]
pub struct OnHeldItemUsedEvent;

impl OnHeldItemUsedEvent {
    pub fn id(&self) -> (event: EventID)
        ensures
            event == EventID::OnHeldItemUsed,
    {
        EventID::OnHeldItemUsed
    }
}

/// The event `EventID::OnMonsterEnterBattle`.
#[derive(Debug, Clone, Copy, PartialEq, Eq, Structural)]
pub struct OnMonsterEnterBattleEvent;

impl OnMonsterEnterBattleEvent {
    pub fn id(&self) -> (event: EventID)
        ensures
            event == EventID::OnMonsterEnterBattle,
    {
        EventID::OnMonsterEnterBattle
    }
}

/// The event `EventID::OnMonsterExitBattle`.
#[derive(Debug, Clone, Copy, PartialEq, Eq, Structural)]
pub struct OnMonsterExitBattleEvent;

impl OnMonsterExitBattleEvent {
    pub fn id(&self) -> (event: EventID)
        ensures
            event == EventID::OnMonsterExitBattle,
    {
        EventID::OnMonsterExitBattle
    }
}

/// The event `EventID::OnTurnEnd`.
#[derive(Debug, Clone, Copy, PartialEq, Eq, Structural)]
pub struct OnTurnEndEvent;

impl OnTurnEndEvent {
    pub fn id(&self) -> (event: EventID)
        ensures
            event == EventID::OnTurnEnd,
    {
        EventID::OnTurnEnd
    }
}

} // verus!
