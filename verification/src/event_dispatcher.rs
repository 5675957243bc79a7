use vstd::prelude::*;

use crate::ability::AbilityID;
use crate::battle::{monster_replaced, Battle, BattleState};
use crate::contexts::{AbilityActivationContext, EventContext, ItemUseContext, MoveHitContext};
use crate::environment::{Environment, Terrain, Trap, TrapID, Weather, WeatherID};
use crate::events::{EventFilteringOptions, EventHandler, EventID};
use crate::global_constants::{Nothing, Outcome, Percent};
use crate::item::ItemID;
use crate::monster::{Monster, MonsterID};
use crate::ordering::{activation_sorted, sort_by_activation_order, Activatable, ActivationOrder};
use crate::prng::Prng;
use crate::stats::Stat;
use crate::status::{PersistentStatusID, VolatileStatus, VolatileStatusID};
use crate::targetting::{spec_field_position, spec_relation_flags, FieldPosition};
use crate::team::TeamID;
use crate::types::Type;

verus! {

broadcast use {vstd::seq_lib::group_to_multiset_ensures, vstd::multiset::group_multiset_axioms};

/// The kinds of game mechanic that can own event handlers.
#[derive(Debug, Clone, Copy, PartialEq, Eq, Structural)]
pub enum MechanicKind {
    Monster,
    Move,
    Ability,
    Item,
    VolatileStatus,
    PersistentStatus,
    Weather,
    Terrain,
    Trap { team_id: TeamID },
}

/// The id of the mechanic that owns an event handler.
#[derive(Debug, Clone, Copy, PartialEq, Eq, Structural)]
pub enum MechanicID {
    Monster(MonsterID),
    Ability(AbilityID),
    Item(ItemID),
    VolatileStatus(VolatileStatusID),
    PersistentStatus(PersistentStatusID),
    Weather(WeatherID),
    Terrain,
    Trap(TrapID),
}

/// An event handler together with the monster that receives the event through it (none for the
/// weather, terrain and traps), the mechanic that owns it and the order in which it responds.
#[derive(Debug, Clone, Copy)]
pub struct EventHandlerWithOwner {
    pub event_handler: EventHandler,
    pub receiver_id: Option<MonsterID>,
    pub mechanic_id: MechanicID,
    pub mechanic_kind: MechanicKind,
    pub activation_order: ActivationOrder,
}

impl Activatable for EventHandlerWithOwner {
    open spec fn spec_activation_order(&self) -> ActivationOrder {
        self.activation_order
    }

    fn activation_order(&self) -> (order: ActivationOrder) {
        self.activation_order
    }
}

impl EventHandlerWithOwner {
    pub fn owner_id(&self) -> (id: Option<MonsterID>)
        ensures
            id == self.receiver_id,
    {
        self.receiver_id
    }

    pub fn event_filtering_options(&self) -> (options: EventFilteringOptions)
        ensures
            options == self.event_handler.event_filtering_options,
    {
        self.event_handler.event_filtering_options
    }

    pub fn mechanic_kind(&self) -> (kind: MechanicKind)
        ensures
            kind == self.mechanic_kind,
    {
        self.mechanic_kind
    }
}

// Collecting event handlers ---------------------------------------------------------------- //

/// The handler `handler`, if there is one, with its owner.
pub open spec fn owned_entry(
    handler: Option<EventHandler>,
    receiver_id: Option<MonsterID>,
    mechanic_id: MechanicID,
    mechanic_kind: MechanicKind,
    activation_order: ActivationOrder,
) -> Seq<EventHandlerWithOwner> {
    match handler {
        Some(event_handler) => seq![EventHandlerWithOwner { event_handler, receiver_id, mechanic_id, mechanic_kind, activation_order }],
        None => Seq::empty(),
    }
}

/// The activation order of the handlers of a monster: priority 0, the monster's speed and `order`.
pub open spec fn monster_activation_order(monster: Monster, order: u16) -> ActivationOrder {
    ActivationOrder { priority: 0, speed: monster.spec_stat(Stat::Speed) as u16, order }
}

/// The activation order of the handlers of the weather, the terrain and the traps.
pub open spec fn environment_activation_order() -> ActivationOrder {
    ActivationOrder { priority: 0, speed: 0, order: 0 }
}

/// The handlers for `event` of the volatile statuses `statuses` of `monster`, in order.
pub open spec fn volatile_status_handlers(monster: Monster, statuses: Seq<VolatileStatus>, event: EventID) -> Seq<
    EventHandlerWithOwner,
>
    decreases statuses.len(),
{
    if statuses.len() == 0 {
        Seq::empty()
    } else {
        volatile_status_handlers(monster, statuses.drop_last(), event) + owned_entry(
            statuses.last().species.event_handlers.spec_handler(event),
            Some(monster.id),
            MechanicID::VolatileStatus(statuses.last().id),
            MechanicKind::VolatileStatus,
            monster_activation_order(monster, 0),
        )
    }
}

/// The handlers for `event` of `monster`: that of its species, of its ability (ordered by the
/// ability's order), of each of its volatile statuses, of its persistent status and of its held
/// item, in that order.
pub open spec fn monster_handlers(monster: Monster, event: EventID) -> Seq<EventHandlerWithOwner> {
    let order = monster_activation_order(monster, 0);
    let species_handlers = owned_entry(
        monster.species.event_handlers.spec_handler(event),
        Some(monster.id),
        MechanicID::Monster(monster.id),
        MechanicKind::Monster,
        order,
    );
    let ability_handlers = owned_entry(
        monster.ability.species.event_handlers.spec_handler(event),
        Some(monster.id),
        MechanicID::Ability(monster.ability.id),
        MechanicKind::Ability,
        monster_activation_order(monster, monster.ability.species.order),
    );
    let persistent_status_handlers = match monster.persistent_status {
        Some(status) => owned_entry(
            status.species.event_handlers.spec_handler(event),
            Some(monster.id),
            MechanicID::PersistentStatus(status.id),
            MechanicKind::PersistentStatus,
            order,
        ),
        None => Seq::empty(),
    };
    let item_handlers = match monster.held_item {
        Some(item) => owned_entry(
            item.species.event_handlers.spec_handler(event),
            Some(monster.id),
            MechanicID::Item(item.id),
            MechanicKind::Item,
            order,
        ),
        None => Seq::empty(),
    };
    species_handlers + ability_handlers + volatile_status_handlers(monster, monster.volatile_statuses@, event)
        + persistent_status_handlers + item_handlers
}

/// The handlers for `event` of each of `monsters`, in order.
pub open spec fn monsters_handlers(monsters: Seq<Monster>, event: EventID) -> Seq<EventHandlerWithOwner>
    decreases monsters.len(),
{
    if monsters.len() == 0 {
        Seq::empty()
    } else {
        monsters_handlers(monsters.drop_last(), event) + monster_handlers(monsters.last(), event)
    }
}

/// The handler for `event` of the trap `trap`, if there is one.
pub open spec fn trap_handlers(trap: Option<Trap>, event: EventID) -> Seq<EventHandlerWithOwner> {
    match trap {
        Some(trap) => owned_entry(
            trap.species.event_handlers.spec_handler(event),
            None,
            MechanicID::Trap(trap.id),
            MechanicKind::Trap { team_id: trap.id.team_id },
            environment_activation_order(),
        ),
        None => Seq::empty(),
    }
}

/// The handlers for `event` of the weather, of the terrain and of the traps on the allies' and
/// then the opponents' side.
pub open spec fn environment_handlers(environment: Environment, event: EventID) -> Seq<EventHandlerWithOwner> {
    weather_handlers(environment.weather, event) + terrain_handlers(environment.terrain, event) + trap_handlers(
        environment.traps.ally_team_item,
        event,
    ) + trap_handlers(environment.traps.opponent_team_item, event)
}

/// The handler for `event` of the weather `weather`, if there is one.
pub open spec fn weather_handlers(weather: Option<Weather>, event: EventID) -> Seq<EventHandlerWithOwner> {
    match weather {
        Some(weather) => owned_entry(
            weather.species.event_handlers.spec_handler(event),
            None,
            MechanicID::Weather(WeatherID),
            MechanicKind::Weather,
            environment_activation_order(),
        ),
        None => Seq::empty(),
    }
}

/// The handler for `event` of the terrain `terrain`, if there is one.
pub open spec fn terrain_handlers(terrain: Option<Terrain>, event: EventID) -> Seq<EventHandlerWithOwner> {
    match terrain {
        Some(terrain) => owned_entry(
            terrain.species.event_handlers.spec_handler(event),
            None,
            MechanicID::Terrain,
            MechanicKind::Terrain,
            environment_activation_order(),
        ),
        None => Seq::empty(),
    }
}

/// Every handler for `event` in the battle: those of the ally monsters, of the opponent monsters
/// and of the environment, in that order.
pub open spec fn spec_event_handlers(state: BattleState, event: EventID) -> Seq<EventHandlerWithOwner> {
    monsters_handlers(state.team_monsters(TeamID::Allies), event) + monsters_handlers(
        state.team_monsters(TeamID::Opponents),
        event,
    ) + environment_handlers(state.environment, event)
}

fn push_owned_entry(
    out: &mut Vec<EventHandlerWithOwner>,
    handler: Option<EventHandler>,
    receiver_id: Option<MonsterID>,
    mechanic_id: MechanicID,
    mechanic_kind: MechanicKind,
    activation_order: ActivationOrder,
)
    ensures
        final(out)@ == old(out)@ + owned_entry(handler, receiver_id, mechanic_id, mechanic_kind, activation_order),
{
    match handler {
        Some(event_handler) => {
            out.push(EventHandlerWithOwner { event_handler, receiver_id, mechanic_id, mechanic_kind, activation_order });
        },
        None => {
            assert(old(out)@ + Seq::<EventHandlerWithOwner>::empty() == old(out)@);
        },
    }
}

/// The handlers for `event` of `monster` (see `monster_handlers`).
pub fn monster_event_handlers(monster: &Monster, event: EventID) -> (handlers: Vec<EventHandlerWithOwner>)
    requires
        monster.wf(),
    ensures
        handlers@ == monster_handlers(*monster, event),
{
    let mut out: Vec<EventHandlerWithOwner> = Vec::new();
    let speed = monster.stat(Stat::Speed);
    let order = ActivationOrder { priority: 0, speed, order: 0 };
    assert(order == monster_activation_order(*monster, 0));
    push_owned_entry(
        &mut out,
        monster.species.event_handlers.handler(event),
        Some(monster.id),
        MechanicID::Monster(monster.id),
        MechanicKind::Monster,
        order,
    );
    push_owned_entry(
        &mut out,
        monster.ability.species.event_handlers.handler(event),
        Some(monster.id),
        MechanicID::Ability(monster.ability.id),
        MechanicKind::Ability,
        ActivationOrder { priority: 0, speed, order: monster.ability.species.order },
    );
    let ghost before_statuses = out@;
    let statuses = &monster.volatile_statuses;
    let mut i: usize = 0;
    while i < statuses.len()
        invariant
            i <= statuses@.len(),
            statuses@ == monster.volatile_statuses@,
            order == monster_activation_order(*monster, 0),
            out@ == before_statuses + volatile_status_handlers(*monster, statuses@.take(i as int), event),
        decreases statuses@.len() - i,
    {
        let status = statuses[i];
        assert(statuses@.take(i + 1).drop_last() == statuses@.take(i as int));
        push_owned_entry(
            &mut out,
            status.species.event_handlers.handler(event),
            Some(monster.id),
            MechanicID::VolatileStatus(status.id),
            MechanicKind::VolatileStatus,
            order,
        );
        i += 1;
    }
    assert(statuses@.take(statuses@.len() as int) == statuses@);
    match monster.persistent_status {
        Some(status) => {
            push_owned_entry(
                &mut out,
                status.species.event_handlers.handler(event),
                Some(monster.id),
                MechanicID::PersistentStatus(status.id),
                MechanicKind::PersistentStatus,
                order,
            );
        },
        None => {},
    }
    match monster.held_item {
        Some(item) => {
            push_owned_entry(
                &mut out,
                item.species.event_handlers.handler(event),
                Some(monster.id),
                MechanicID::Item(item.id),
                MechanicKind::Item,
                order,
            );
        },
        None => {},
    }
    assert(out@ == monster_handlers(*monster, event));
    out
}

/// Appends the handlers for `event` of each monster of `monsters`.
fn push_monsters_handlers(out: &mut Vec<EventHandlerWithOwner>, monsters: &Vec<Monster>, event: EventID)
    requires
        forall|i: int| 0 <= i < monsters@.len() ==> (#[trigger] monsters@[i]).wf(),
    ensures
        final(out)@ == old(out)@ + monsters_handlers(monsters@, event),
{
    let ghost start = out@;
    let mut i: usize = 0;
    while i < monsters.len()
        invariant
            i <= monsters@.len(),
            forall|k: int| 0 <= k < monsters@.len() ==> (#[trigger] monsters@[k]).wf(),
            out@ == start + monsters_handlers(monsters@.take(i as int), event),
        decreases monsters@.len() - i,
    {
        let handlers = monster_event_handlers(&monsters[i], event);
        assert(monsters@.take(i + 1).drop_last() == monsters@.take(i as int));
        let ghost before = out@;
        let mut j: usize = 0;
        while j < handlers.len()
            invariant
                j <= handlers@.len(),
                out@ == before + handlers@.take(j as int),
            decreases handlers@.len() - j,
        {
            out.push(handlers[j]);
            assert(handlers@.take(j + 1) == handlers@.take(j as int).push(handlers@[j as int]));
            j += 1;
        }
        assert(handlers@.take(handlers@.len() as int) == handlers@);
        i += 1;
    }
    assert(monsters@.take(monsters@.len() as int) == monsters@);
}

/// Appends the handlers for `event` of the weather, the terrain and the traps.
fn push_environment_handlers(out: &mut Vec<EventHandlerWithOwner>, environment: &Environment, event: EventID)
    ensures
        final(out)@ == old(out)@ + environment_handlers(*environment, event),
{
    let ghost start = out@;
    push_weather_handlers(out, environment.weather, event);
    push_terrain_handlers(out, environment.terrain, event);
    push_trap_handlers(out, environment.traps.ally_team_item, event);
    push_trap_handlers(out, environment.traps.opponent_team_item, event);
    proof {
        let w = weather_handlers(environment.weather, event);
        let t = terrain_handlers(environment.terrain, event);
        let a = trap_handlers(environment.traps.ally_team_item, event);
        let o = trap_handlers(environment.traps.opponent_team_item, event);
        assert(out@ == start + (w + t + a + o));
    }
}

fn push_weather_handlers(out: &mut Vec<EventHandlerWithOwner>, weather: Option<Weather>, event: EventID)
    ensures
        final(out)@ == old(out)@ + weather_handlers(weather, event),
{
    match weather {
        Some(weather) => {
            push_owned_entry(
                out,
                weather.species.event_handlers.handler(event),
                None,
                MechanicID::Weather(WeatherID),
                MechanicKind::Weather,
                ActivationOrder { priority: 0, speed: 0, order: 0 },
            );
        },
        None => {
            assert(old(out)@ + Seq::<EventHandlerWithOwner>::empty() == old(out)@);
        },
    }
}

fn push_terrain_handlers(out: &mut Vec<EventHandlerWithOwner>, terrain: Option<Terrain>, event: EventID)
    ensures
        final(out)@ == old(out)@ + terrain_handlers(terrain, event),
{
    match terrain {
        Some(terrain) => {
            push_owned_entry(
                out,
                terrain.species.event_handlers.handler(event),
                None,
                MechanicID::Terrain,
                MechanicKind::Terrain,
                ActivationOrder { priority: 0, speed: 0, order: 0 },
            );
        },
        None => {
            assert(old(out)@ + Seq::<EventHandlerWithOwner>::empty() == old(out)@);
        },
    }
}

fn push_trap_handlers(out: &mut Vec<EventHandlerWithOwner>, trap: Option<Trap>, event: EventID)
    ensures
        final(out)@ == old(out)@ + trap_handlers(trap, event),
{
    match trap {
        Some(trap) => {
            push_owned_entry(
                out,
                trap.species.event_handlers.handler(event),
                None,
                MechanicID::Trap(trap.id),
                MechanicKind::Trap { team_id: trap.id.team_id },
                ActivationOrder { priority: 0, speed: 0, order: 0 },
            );
        },
        None => {
            assert(old(out)@ + Seq::<EventHandlerWithOwner>::empty() == old(out)@);
        },
    }
}

/// Every handler for `event` in the battle: those of the ally monsters, then those of the
/// opponent monsters, each monster in slot order (see `monster_handlers`), then those of the
/// weather, the terrain and the traps.
pub fn collect_event_handlers_for(battle: &Battle, event: EventID) -> (handlers: Vec<EventHandlerWithOwner>)
    requires
        battle.state.wf(),
    ensures
        handlers@ == spec_event_handlers(battle.state, event),
{
    let mut out: Vec<EventHandlerWithOwner> = Vec::new();
    push_monsters_handlers(&mut out, &battle.state.teams.ally_team_item.monsters, event);
    push_monsters_handlers(&mut out, &battle.state.teams.opponent_team_item.monsters, event);
    push_environment_handlers(&mut out, &battle.state.environment, event);
    assert(out@ == spec_event_handlers(battle.state, event));
    out
}

proof fn lemma_volatile_status_handlers_len(monster: Monster, statuses: Seq<VolatileStatus>, event: EventID)
    ensures
        volatile_status_handlers(monster, statuses, event).len() <= statuses.len(),
    decreases statuses.len(),
{
    if statuses.len() > 0 {
        lemma_volatile_status_handlers_len(monster, statuses.drop_last(), event);
    }
}

proof fn lemma_monsters_handlers_len(monsters: Seq<Monster>, event: EventID)
    requires
        forall|i: int| 0 <= i < monsters.len() ==> (#[trigger] monsters[i]).wf(),
    ensures
        monsters_handlers(monsters, event).len() <= 20 * monsters.len(),
    decreases monsters.len(),
{
    if monsters.len() > 0 {
        let last = monsters.last();
        assert(last == monsters[monsters.len() - 1]);
        lemma_volatile_status_handlers_len(last, last.volatile_statuses@, event);
        assert(forall|i: int| 0 <= i < monsters.drop_last().len() ==> monsters.drop_last()[i] == monsters[i]);
        lemma_monsters_handlers_len(monsters.drop_last(), event);
    }
}

proof fn lemma_volatile_status_handlers_len_is_independent_of_the_monster(
    first: Monster,
    second: Monster,
    statuses: Seq<VolatileStatus>,
    event: EventID,
)
    ensures
        volatile_status_handlers(first, statuses, event).len() == volatile_status_handlers(second, statuses, event).len(),
    decreases statuses.len(),
{
    if statuses.len() > 0 {
        lemma_volatile_status_handlers_len_is_independent_of_the_monster(first, second, statuses.drop_last(), event);
    }
}

/// A monster that has the species, ability, persistent status and held item of `before`, and
/// either its volatile statuses or none, has no handler for `event` when `before` has none.
pub proof fn lemma_same_mechanics_have_no_handlers(before: Monster, after: Monster, event: EventID)
    requires
        monster_handlers(before, event).len() == 0,
        after.species == before.species,
        after.ability == before.ability,
        after.persistent_status == before.persistent_status,
        after.held_item == before.held_item,
        after.volatile_statuses@ == before.volatile_statuses@ || after.volatile_statuses@.len() == 0,
    ensures
        monster_handlers(after, event).len() == 0,
{
    lemma_volatile_status_handlers_len_is_independent_of_the_monster(before, after, before.volatile_statuses@, event);
}

proof fn lemma_monsters_without_handlers(monsters: Seq<Monster>, i: int, event: EventID)
    requires
        0 <= i < monsters.len(),
        monsters_handlers(monsters, event).len() == 0,
    ensures
        monster_handlers(monsters[i], event).len() == 0,
    decreases monsters.len(),
{
    if i < monsters.len() - 1 {
        assert(monsters.drop_last()[i] == monsters[i]);
        lemma_monsters_without_handlers(monsters.drop_last(), i, event);
    }
}

proof fn lemma_replaced_monsters_without_handlers(monsters: Seq<Monster>, i: int, monster: Monster, event: EventID)
    requires
        0 <= i < monsters.len(),
        monsters_handlers(monsters, event).len() == 0,
        monster_handlers(monster, event).len() == 0,
    ensures
        monsters_handlers(monsters.update(i, monster), event).len() == 0,
    decreases monsters.len(),
{
    let updated = monsters.update(i, monster);
    if i == monsters.len() - 1 {
        assert(updated.drop_last() =~= monsters.drop_last());
    } else {
        assert(updated.drop_last() =~= monsters.drop_last().update(i, monster));
        lemma_replaced_monsters_without_handlers(monsters.drop_last(), i, monster, event);
    }
}

/// A monster of a battle without handlers for `event` has none.
pub proof fn lemma_monster_of_a_battle_without_handlers(state: BattleState, id: MonsterID, event: EventID)
    requires
        state.has_monster(id),
        spec_event_handlers(state, event).len() == 0,
    ensures
        monster_handlers(state.spec_monster(id), event).len() == 0,
{
    lemma_monsters_without_handlers(state.team_monsters(id.team_id), crate::monster::monster_number_index(id.monster_number), event);
}

/// Replacing a monster of a battle without handlers for `event` by one without handlers for it
/// leaves the battle without handlers for it.
pub proof fn lemma_replacing_keeps_no_handlers(new: BattleState, old: BattleState, id: MonsterID, monster: Monster, event: EventID)
    requires
        old.has_monster(id),
        monster_replaced(new, old, id, monster),
        spec_event_handlers(old, event).len() == 0,
        monster_handlers(monster, event).len() == 0,
    ensures
        spec_event_handlers(new, event).len() == 0,
{
    lemma_replaced_monsters_without_handlers(
        old.team_monsters(id.team_id),
        crate::monster::monster_number_index(id.monster_number),
        monster,
        event,
    );
    match id.team_id {
        TeamID::Allies => {},
        TeamID::Opponents => {},
    }
}

/// A battle has at most 244 handlers for an event: 20 for each of its at most 12 monsters and 4
/// for the environment.
pub proof fn lemma_event_handlers_len(state: BattleState, event: EventID)
    requires
        state.wf(),
    ensures
        spec_event_handlers(state, event).len() <= 244,
{
    let allies = state.team_monsters(TeamID::Allies);
    let opponents = state.team_monsters(TeamID::Opponents);
    assert(forall|i: int| 0 <= i < allies.len() ==> (#[trigger] allies[i]).wf());
    assert(forall|i: int| 0 <= i < opponents.len() ==> (#[trigger] opponents[i]).wf());
    lemma_monsters_handlers_len(allies, event);
    lemma_monsters_handlers_len(opponents, event);
    lemma_environment_handlers_len(state.environment, event);
    assert(spec_event_handlers(state, event).len() == monsters_handlers(allies, event).len() + monsters_handlers(
        opponents,
        event,
    ).len() + environment_handlers(state.environment, event).len());
}

proof fn lemma_environment_handlers_len(environment: Environment, event: EventID)
    ensures
        environment_handlers(environment, event).len() <= 4,
{
}

// Filtering event handlers ------------------------------------------------------------------ //

/// Whether the position of `other` relative to `reference` is one of those `flags` admits.
pub open spec fn relation_allowed(reference: FieldPosition, other: FieldPosition, flags: crate::targetting::TargetFlags) -> bool {
    flags.spec_contains(spec_relation_flags(reference, other))
}

/// The filter can be evaluated: every monster it names is in the battle, and the receiver (and
/// the broadcaster, if any) stand on the Field wherever the filter needs their positions.
pub open spec fn filters_are_defined(
    state: BattleState,
    broadcaster_id: Option<MonsterID>,
    target_id: Option<MonsterID>,
    receiver_id: Option<MonsterID>,
    mechanic_kind: MechanicKind,
    options: EventFilteringOptions,
) -> bool {
    &&& (broadcaster_id matches Some(b) ==> state.has_monster(b))
    &&& (target_id matches Some(t) ==> state.has_monster(t))
    &&& (receiver_id matches Some(r) ==> state.has_monster(r))
    &&& match mechanic_kind {
        MechanicKind::Trap { .. } | MechanicKind::Terrain | MechanicKind::Weather => true,
        _ => match receiver_id {
            None => true,
            Some(r) => {
                ||| options.only_if_receiver_is_active && !state.spec_monster(r).spec_is_active()
                ||| state.spec_monster(r).spec_is_active() && (broadcaster_id matches Some(b)
                    ==> state.spec_monster(b).spec_is_active())
            },
        },
    }
}

/// Whether a handler of a mechanic of kind `mechanic_kind`, received by `receiver_id`, responds
/// to an event broadcast by `broadcaster_id` that targets `target_id`:
/// - a trap responds only to a broadcaster on its own side;
/// - the weather and the terrain respond to grounded broadcasters, and when there is none;
/// - any other mechanic responds when it has no receiver; otherwise only if its receiver is
///   active (where its options ask that), the broadcaster's position relative to the receiver is
///   among those allowed for broadcasters, and the target's (if it is on the Field) among those
///   allowed for targets.
pub open spec fn spec_passes_filters(
    state: BattleState,
    broadcaster_id: Option<MonsterID>,
    target_id: Option<MonsterID>,
    receiver_id: Option<MonsterID>,
    mechanic_kind: MechanicKind,
    options: EventFilteringOptions,
) -> bool {
    match mechanic_kind {
        MechanicKind::Trap { team_id } => match broadcaster_id {
            Some(b) => team_id == state.spec_monster(b).id.team_id,
            None => false,
        },
        MechanicKind::Terrain | MechanicKind::Weather => match broadcaster_id {
            Some(b) => !state.spec_monster(b).spec_is_type(Type::Flying),
            None => true,
        },
        _ => match receiver_id {
            None => true,
            Some(r) => {
                let receiver = state.spec_monster(r);
                if options.only_if_receiver_is_active && !receiver.spec_is_active() {
                    false
                } else {
                    let receiver_position = spec_field_position(receiver.board_position).unwrap();
                    let broadcaster_allowed = match broadcaster_id {
                        Some(b) => relation_allowed(
                            receiver_position,
                            spec_field_position(state.spec_monster(b).board_position).unwrap(),
                            options.only_if_broadcaster_is,
                        ),
                        None => true,
                    };
                    let target_allowed = match target_id {
                        Some(t) => match spec_field_position(state.spec_monster(t).board_position) {
                            Some(target_position) => relation_allowed(
                                receiver_position,
                                target_position,
                                options.only_if_target_is,
                            ),
                            None => true,
                        },
                        None => true,
                    };
                    broadcaster_allowed && target_allowed
                }
            },
        },
    }
}

/// Whether the filter can be evaluated on this battle (see `filters_are_defined`).
pub fn are_filters_defined(
    battle: &Battle,
    broadcaster_id: Option<MonsterID>,
    target_id: Option<MonsterID>,
    receiver_id: Option<MonsterID>,
    mechanic_kind: MechanicKind,
    options: EventFilteringOptions,
) -> (b: bool)
    ensures
        b == filters_are_defined(battle.state, broadcaster_id, target_id, receiver_id, mechanic_kind, options),
{
    let broadcaster_known = match broadcaster_id {
        Some(b) => b.monster_number.index() < battle.state.teams.get(b.team_id).monsters.len(),
        None => true,
    };
    let target_known = match target_id {
        Some(t) => t.monster_number.index() < battle.state.teams.get(t.team_id).monsters.len(),
        None => true,
    };
    let receiver_known = match receiver_id {
        Some(r) => r.monster_number.index() < battle.state.teams.get(r.team_id).monsters.len(),
        None => true,
    };
    if !(broadcaster_known && target_known && receiver_known) {
        return false;
    }
    match mechanic_kind {
        MechanicKind::Trap { .. } | MechanicKind::Terrain | MechanicKind::Weather => true,
        _ => match receiver_id {
            None => true,
            Some(r) => {
                let receiver_active = battle.monster(r).is_active();
                if options.only_if_receiver_is_active && !receiver_active {
                    true
                } else if !receiver_active {
                    false
                } else {
                    match broadcaster_id {
                        Some(b) => battle.monster(b).is_active(),
                        None => true,
                    }
                }
            },
        },
    }
}

/// Whether a handler responds to an event (see `spec_passes_filters`).
pub fn does_event_handler_pass_filters(
    battle: &Battle,
    broadcaster_id: Option<MonsterID>,
    target_id: Option<MonsterID>,
    receiver_id: Option<MonsterID>,
    mechanic_kind: MechanicKind,
    options: EventFilteringOptions,
) -> (passes: bool)
    requires
        filters_are_defined(battle.state, broadcaster_id, target_id, receiver_id, mechanic_kind, options),
    ensures
        passes == spec_passes_filters(battle.state, broadcaster_id, target_id, receiver_id, mechanic_kind, options),
{
    match mechanic_kind {
        MechanicKind::Trap { team_id } => match broadcaster_id {
            Some(b) => TeamID::are_same(team_id, battle.monster(b).id.team_id),
            None => false,
        },
        MechanicKind::Terrain | MechanicKind::Weather => match broadcaster_id {
            Some(b) => battle.monster(b).is_grounded(),
            None => true,
        },
        _ => {
            let r = match receiver_id {
                Some(r) => r,
                None => {
                    return true;
                },
            };
            let receiver = battle.monster(r);
            let passes_active_check = if options.only_if_receiver_is_active {
                receiver.is_active()
            } else {
                true
            };
            if !passes_active_check {
                return false;
            }
            let receiver_position = match receiver.field_position() {
                Some(position) => position,
                None => {
                    return false;
                },
            };
            let mut passes = true;
            match broadcaster_id {
                Some(b) => {
                    let broadcaster_position = match battle.monster(b).field_position() {
                        Some(position) => position,
                        None => {
                            return false;
                        },
                    };
                    passes =
                        FieldPosition::is_position_relation_allowed_by_flags(
                            receiver_position,
                            broadcaster_position,
                            options.only_if_broadcaster_is,
                        );
                },
                None => {},
            }
            if !passes {
                return false;
            }
            match target_id {
                Some(t) => match battle.monster(t).field_position() {
                    Some(target_position) => {
                        passes =
                            FieldPosition::is_position_relation_allowed_by_flags(
                                receiver_position,
                                target_position,
                                options.only_if_target_is,
                            );
                    },
                    None => {},
                },
                None => {},
            }
            passes
        },
    }
}

// Dispatching events ------------------------------------------------------------------------ //

/// What an event handler relays to the next one, and what an event resolves to.
#[derive(Debug, Clone, Copy)]
pub enum EventValue {
    Nothing,
    Outcome(Outcome<Nothing>),
    U8(u8),
    U16(u16),
    I8(i8),
    Percent(Percent),
}

/// Whether `a` and `b` are values of the same kind.
pub open spec fn same_kind(a: EventValue, b: EventValue) -> bool {
    ||| a is Nothing && b is Nothing
    ||| a is Outcome && b is Outcome
    ||| a is U8 && b is U8
    ||| a is U16 && b is U16
    ||| a is I8 && b is I8
    ||| a is Percent && b is Percent
}

/// Whether `a` and `b` are the same value (any two successes count as the same).
pub open spec fn values_equal(a: EventValue, b: EventValue) -> bool {
    match a {
        EventValue::Nothing => b is Nothing,
        EventValue::Outcome(x) => b matches EventValue::Outcome(y) && (x is Success) == (y is Success),
        EventValue::U8(x) => b matches EventValue::U8(y) && x == y,
        EventValue::U16(x) => b matches EventValue::U16(y) && x == y,
        EventValue::I8(x) => b matches EventValue::I8(y) && x == y,
        EventValue::Percent(x) => b matches EventValue::Percent(y) && x.0 == y.0,
    }
}

impl EventValue {
    /// Whether the two values are equal.
    pub fn equals(&self, other: &EventValue) -> (b: bool)
        ensures
            b == values_equal(*self, *other),
    {

        match *self {
            EventValue::Nothing => match *other {
                EventValue::Nothing => true,
                _ => false,
            },
            EventValue::Outcome(a) => match *other {
                EventValue::Outcome(b) => match (a, b) {
                    (Outcome::Success(_), Outcome::Success(_)) => true,
                    (Outcome::Failure, Outcome::Failure) => true,
                    _ => false,
                },
                _ => false,
            },
            EventValue::U8(a) => match *other {
                EventValue::U8(b) => a == b,
                _ => false,
            },
            EventValue::U16(a) => match *other {
                EventValue::U16(b) => a == b,
                _ => false,
            },
            EventValue::I8(a) => match *other {
                EventValue::I8(b) => a == b,
                _ => false,
            },
            EventValue::Percent(a) => match *other {
                EventValue::Percent(b) => a.0 == b.0,
                _ => false,
            },
        }
    }
}

/// `new` has the same monsters in the same slots as `old` (their states may differ).
pub open spec fn same_roster(new: BattleState, old: BattleState) -> bool {
    &&& new.team_monsters(TeamID::Allies).len() == old.team_monsters(TeamID::Allies).len()
    &&& new.team_monsters(TeamID::Opponents).len() == old.team_monsters(TeamID::Opponents).len()
}

/// Performs the responses of event handlers. The game's mechanics implement it: the response of
/// a handler is named by `handler.event_handler.response`.
///
/// An implementation changes the battle only through this library's operations, and so keeps it
/// well formed, with the same monsters in the same slots; it relays a value of the kind it was
/// given; and what it does is a function of its arguments, named by `response` and
/// `effect_result`. These properties are assumed of every implementation, not proved.
pub trait EventResponder {
    /// The battle and the relayed value that `respond` gives for these arguments.
    spec fn response(
        &self,
        battle: Battle,
        handler: EventHandlerWithOwner,
        broadcaster_id: Option<MonsterID>,
        context: EventContext,
        relay: EventValue,
    ) -> (Battle, EventValue);

    /// The battle and the outcome that `perform_effect` gives for these arguments.
    spec fn effect_result(&self, battle: Battle, effect: MechanicEffect) -> (Battle, Outcome<Nothing>);

    fn respond(
        &self,
        battle: &mut Battle,
        handler: &EventHandlerWithOwner,
        broadcaster_id: Option<MonsterID>,
        context: &EventContext,
        relay: EventValue,
    ) -> (result: EventValue)
        requires
            old(battle).wf(),
        ensures
            final(battle).wf(),
            same_roster(final(battle).state, old(battle).state),
            same_kind(result, relay),
            (*final(battle), result) == self.response(*old(battle), *handler, broadcaster_id, *context, relay),
    ;

    /// Performs the effect `effect` of a move's hit, an ability's activation or an item's use.
    fn perform_effect(&self, battle: &mut Battle, effect: MechanicEffect) -> (outcome: Outcome<Nothing>)
        requires
            old(battle).wf(),
        ensures
            final(battle).wf(),
            same_roster(final(battle).state, old(battle).state),
            (*final(battle), outcome) == self.effect_result(*old(battle), effect),
    ;
}

/// An effect that a game mechanic performs, named by a number that the mechanics choose: that of
/// a move's hit, of an ability's activation or of the use of a held item.
#[derive(Debug, Clone, Copy)]
pub enum MechanicEffect {
    Move { effect: u16, move_hit_context: MoveHitContext },
    Ability { effect: u16, ability_activation_context: AbilityActivationContext },
    Item { effect: u16, item_use_context: ItemUseContext },
}

/// Whether `handler` responds to an event broadcast by `broadcaster_id` against `target_id` in
/// `state`: its filters can be evaluated there and it passes them.
pub open spec fn handler_responds(
    state: BattleState,
    broadcaster_id: Option<MonsterID>,
    target_id: Option<MonsterID>,
    handler: EventHandlerWithOwner,
) -> bool {
    let options = handler.event_handler.event_filtering_options;
    &&& filters_are_defined(state, broadcaster_id, target_id, handler.receiver_id, handler.mechanic_kind, options)
    &&& spec_passes_filters(state, broadcaster_id, target_id, handler.receiver_id, handler.mechanic_kind, options)
}

/// Whether no handler of `event` in `state` responds to it when broadcast by `broadcaster_id`
/// against `target_id`.
#[verifier::opaque]
pub open spec fn no_handler_responds(
    state: BattleState,
    event: EventID,
    broadcaster_id: Option<MonsterID>,
    target_id: Option<MonsterID>,
) -> bool {
    forall|h: EventHandlerWithOwner|
        spec_event_handlers(state, event).contains(h) ==> !#[trigger] handler_responds(state, broadcaster_id, target_id, h)
}

/// `new` is `old` with at most the generator changed.
pub open spec fn only_generator_changed(new: Battle, old: Battle) -> bool {
    &&& new.state == old.state
    &&& new.message_log == old.message_log
    &&& new.turn_number == old.turn_number
    &&& new.format == old.format
}

/// The mechanics without responses: each handler relays what it was given.
pub struct NullEventListener;

impl EventResponder for NullEventListener {
    /// Nothing changes, and the value is relayed.
    open spec fn response(
        &self,
        battle: Battle,
        handler: EventHandlerWithOwner,
        broadcaster_id: Option<MonsterID>,
        context: EventContext,
        relay: EventValue,
    ) -> (Battle, EventValue) {
        (battle, relay)
    }

    /// Nothing changes, and the effect fails.
    open spec fn effect_result(&self, battle: Battle, effect: MechanicEffect) -> (Battle, Outcome<Nothing>) {
        (battle, Outcome::Failure)
    }

    fn respond(
        &self,
        battle: &mut Battle,
        handler: &EventHandlerWithOwner,
        broadcaster_id: Option<MonsterID>,
        context: &EventContext,
        relay: EventValue,
    ) -> (result: EventValue) {
        relay
    }

    /// No effect takes place.
    fn perform_effect(&self, battle: &mut Battle, effect: MechanicEffect) -> (outcome: Outcome<Nothing>) {
        Outcome::Failure
    }
}

/// The battle and the value after the handlers `handlers` from the `index`-th on are offered the
/// event, starting from `battle` and `relay`: each handler that responds (see
/// `handler_responds`) turns them into its response (see `EventResponder::response`), and a
/// response equal to `short_circuit` ends the dispatch.
pub open spec fn relayed<R: EventResponder>(
    responder: &R,
    battle: Battle,
    handlers: Seq<EventHandlerWithOwner>,
    index: int,
    broadcaster_id: Option<MonsterID>,
    context: EventContext,
    relay: EventValue,
    short_circuit: Option<EventValue>,
) -> (Battle, EventValue)
    decreases handlers.len() - index,
{
    if index < 0 || index >= handlers.len() {
        (battle, relay)
    } else if handler_responds(battle.state, broadcaster_id, context.spec_target(), handlers[index]) {
        let response = responder.response(battle, handlers[index], broadcaster_id, context, relay);
        if short_circuit matches Some(value) && values_equal(response.1, value) {
            response
        } else {
            relayed(responder, response.0, handlers, index + 1, broadcaster_id, context, response.1, short_circuit)
        }
    } else {
        relayed(responder, battle, handlers, index + 1, broadcaster_id, context, relay, short_circuit)
    }
}

/// The battle and the value after `event` is dispatched in `battle` (see `dispatch_event`): with
/// no handler, `battle` and `default`; otherwise the handlers are put in activation order (see
/// `activation_sorted`) and offered the event in turn (see `relayed`).
pub open spec fn dispatched<R: EventResponder>(
    responder: &R,
    battle: Battle,
    event: EventID,
    broadcaster_id: Option<MonsterID>,
    context: EventContext,
    default: EventValue,
    short_circuit: Option<EventValue>,
) -> (Battle, EventValue) {
    let handlers = spec_event_handlers(battle.state, event);
    if handlers.len() == 0 {
        (battle, default)
    } else {
        let sorted = activation_sorted(handlers, battle.prng.current_seed);
        let ordered = Battle { prng: Prng { current_seed: sorted.1, ..battle.prng }, ..battle };
        relayed(responder, ordered, sorted.0, 0, broadcaster_id, context, default, short_circuit)
    }
}

/// The battle and the outcome after an event that asks whether something may happen is
/// dispatched in `battle` (see `dispatch_trial_event`).
pub open spec fn trial_dispatched<R: EventResponder>(
    responder: &R,
    battle: Battle,
    event: EventID,
    broadcaster_id: Option<MonsterID>,
    context: EventContext,
) -> (Battle, Outcome<Nothing>) {
    let result = dispatched(
        responder,
        battle,
        event,
        broadcaster_id,
        context,
        EventValue::Outcome(Outcome::Success(())),
        Some(EventValue::Outcome(Outcome::Failure)),
    );
    (result.0, match result.1 {
        EventValue::Outcome(outcome) => outcome,
        _ => Outcome::Success(()),
    })
}

/// Dispatches `event`, broadcast by `broadcaster_id` with `context`, to every handler in the
/// battle: in activation order, each handler that passes its filters responds to the value the
/// previous ones relayed, starting from `default`. When a handler relays `short_circuit`, the
/// dispatch stops and returns it. A handler whose filters cannot be evaluated (its receiver or
/// the broadcaster has left the Field, or an id names no monster) does not respond.
///
/// With no handler for the event, the result is `default` and the battle is unchanged. When no
/// handler responds, the result is `default` and at most the generator has changed, by the
/// ordering of the handlers.
pub fn dispatch_event<R: EventResponder>(
    battle: &mut Battle,
    responder: &R,
    event: EventID,
    broadcaster_id: Option<MonsterID>,
    context: &EventContext,
    default: EventValue,
    short_circuit: Option<EventValue>,
) -> (result: EventValue)
    requires
        old(battle).wf(),
    ensures
        final(battle).wf(),
        same_roster(final(battle).state, old(battle).state),
        same_kind(result, default),
        spec_event_handlers(old(battle).state, event).len() == 0 ==> result == default && *final(battle)
            == *old(battle),
        no_handler_responds(old(battle).state, event, broadcaster_id, context.spec_target()) ==> result == default
            && only_generator_changed(*final(battle), *old(battle)),
        (*final(battle), result) == dispatched(
            responder,
            *old(battle),
            event,
            broadcaster_id,
            *context,
            default,
            short_circuit,
        ),
{
    let ghost none_respond = no_handler_responds(old(battle).state, event, broadcaster_id, context.spec_target());
    proof {
        reveal(no_handler_responds);
    }
    let mut handlers = collect_event_handlers_for(battle, event);
    if handlers.len() == 0 {
        return default;
    }
    proof {
        lemma_event_handlers_len(battle.state, event);
    }
    sort_by_activation_order(&mut battle.prng, &mut handlers);
    let ghost ordered = *battle;
    proof {
        let sorted = activation_sorted(spec_event_handlers(old(battle).state, event), old(battle).prng.current_seed);
        assert(ordered == Battle { prng: Prng { current_seed: sorted.1, ..old(battle).prng }, ..*old(battle) });
    }
    let mut relay = default;
    let mut i: usize = 0;
    while i < handlers.len()
        invariant
            i <= handlers@.len(),
            dispatched(responder, *old(battle), event, broadcaster_id, *context, default, short_circuit) == relayed(
                responder,
                *battle,
                handlers@,
                i as int,
                broadcaster_id,
                *context,
                relay,
                short_circuit,
            ),
            battle.wf(),
            same_roster(battle.state, old(battle).state),
            same_kind(relay, default),
            spec_event_handlers(old(battle).state, event).len() > 0,
            handlers@.to_multiset() == spec_event_handlers(old(battle).state, event).to_multiset(),
            none_respond ==> relay == default && only_generator_changed(*battle, *old(battle)),
            none_respond == no_handler_responds(old(battle).state, event, broadcaster_id, context.spec_target()),
        decreases handlers@.len() - i,
    {
        let handler = handlers[i];
        proof {
            assert(handlers@.contains(handler));
            assert(handlers@.to_multiset().count(handler) > 0);
            assert(spec_event_handlers(old(battle).state, event).to_multiset().count(handler) > 0);
            assert(spec_event_handlers(old(battle).state, event).contains(handler));
            reveal(no_handler_responds);
            if none_respond {
                assert(!handler_responds(old(battle).state, broadcaster_id, context.spec_target(), handler));
            }
        }
        let target_id = context.target();
        let options = handler.event_handler.event_filtering_options;
        if are_filters_defined(battle, broadcaster_id, target_id, handler.receiver_id, handler.mechanic_kind, options)
            && does_event_handler_pass_filters(
            battle,
            broadcaster_id,
            target_id,
            handler.receiver_id,
            handler.mechanic_kind,
            options,
        ) {
            relay = responder.respond(battle, &handler, broadcaster_id, context, relay);
            match short_circuit {
                Some(value) => {
                    if relay.equals(&value) {
                        return relay;
                    }
                },
                None => {},
            }
        }
        i += 1;
    }
    relay
}

/// Dispatches an event that asks whether something may happen: it succeeds unless a handler
/// relays a failure, which ends the dispatch. With no handler, it succeeds and the battle is
/// unchanged.
pub fn dispatch_trial_event<R: EventResponder>(
    battle: &mut Battle,
    responder: &R,
    event: EventID,
    broadcaster_id: Option<MonsterID>,
    context: &EventContext,
) -> (outcome: Outcome<Nothing>)
    requires
        old(battle).wf(),
    ensures
        final(battle).wf(),
        same_roster(final(battle).state, old(battle).state),
        spec_event_handlers(old(battle).state, event).len() == 0 ==> outcome is Success && *final(battle)
            == *old(battle),
        no_handler_responds(old(battle).state, event, broadcaster_id, context.spec_target()) ==> outcome is Success
            && only_generator_changed(*final(battle), *old(battle)),
        (*final(battle), outcome) == trial_dispatched(responder, *old(battle), event, broadcaster_id, *context),
{
    let result = dispatch_event(
        battle,
        responder,
        event,
        broadcaster_id,
        context,
        EventValue::Outcome(Outcome::Success(())),
        Some(EventValue::Outcome(Outcome::Failure)),
    );
    match result {
        EventValue::Outcome(outcome) => outcome,
        _ => Outcome::Success(()),
    }
}

/// Dispatches an event that tells the handlers that something happened. With no handler, the
/// battle is unchanged.
pub fn dispatch_notify_event<R: EventResponder>(
    battle: &mut Battle,
    responder: &R,
    event: EventID,
    broadcaster_id: Option<MonsterID>,
    context: &EventContext,
)
    requires
        old(battle).wf(),
    ensures
        final(battle).wf(),
        same_roster(final(battle).state, old(battle).state),
        spec_event_handlers(old(battle).state, event).len() == 0 ==> *final(battle) == *old(battle),
        no_handler_responds(old(battle).state, event, broadcaster_id, context.spec_target()) ==> only_generator_changed(
            *final(battle),
            *old(battle),
        ),
        *final(battle) == dispatched(responder, *old(battle), event, broadcaster_id, *context, EventValue::Nothing, None).0,
{
    let _ = dispatch_event(battle, responder, event, broadcaster_id, context, EventValue::Nothing, None);
}

/// Dispatches an event that lets the handlers modify a `u16` value, starting from `value`. With
/// no handler, the result is `value` and the battle is unchanged.
pub fn dispatch_u16_event<R: EventResponder>(
    battle: &mut Battle,
    responder: &R,
    event: EventID,
    broadcaster_id: Option<MonsterID>,
    context: &EventContext,
    value: u16,
) -> (result: u16)
    requires
        old(battle).wf(),
    ensures
        final(battle).wf(),
        same_roster(final(battle).state, old(battle).state),
        spec_event_handlers(old(battle).state, event).len() == 0 ==> result == value && *final(battle)
            == *old(battle),
        no_handler_responds(old(battle).state, event, broadcaster_id, context.spec_target()) ==> result == value
            && only_generator_changed(*final(battle), *old(battle)),
        ({
            let dispatch = dispatched(responder, *old(battle), event, broadcaster_id, *context, EventValue::U16(value), None);
            &&& *final(battle) == dispatch.0
            &&& result == match dispatch.1 {
                EventValue::U16(n) => n,
                _ => value,
            }
        }),
{
    let result = dispatch_event(battle, responder, event, broadcaster_id, context, EventValue::U16(value), None);
    match result {
        EventValue::U16(n) => n,
        _ => value,
    }
}

/// Dispatches an event that lets the handlers modify an `i8` value, starting from `value`. With
/// no handler, the result is `value` and the battle is unchanged.
pub fn dispatch_i8_event<R: EventResponder>(
    battle: &mut Battle,
    responder: &R,
    event: EventID,
    broadcaster_id: Option<MonsterID>,
    context: &EventContext,
    value: i8,
) -> (result: i8)
    requires
        old(battle).wf(),
    ensures
        final(battle).wf(),
        same_roster(final(battle).state, old(battle).state),
        spec_event_handlers(old(battle).state, event).len() == 0 ==> result == value && *final(battle)
            == *old(battle),
        no_handler_responds(old(battle).state, event, broadcaster_id, context.spec_target()) ==> result == value
            && only_generator_changed(*final(battle), *old(battle)),
        ({
            let dispatch = dispatched(responder, *old(battle), event, broadcaster_id, *context, EventValue::I8(value), None);
            &&& *final(battle) == dispatch.0
            &&& result == match dispatch.1 {
                EventValue::I8(n) => n,
                _ => value,
            }
        }),
{
    let result = dispatch_event(battle, responder, event, broadcaster_id, context, EventValue::I8(value), None);
    match result {
        EventValue::I8(n) => n,
        _ => value,
    }
}

// Laws ---------------------------------------------------------------------------------------- //

/// A trap responds only to a broadcaster of its own side; the weather and the terrain respond
/// when nobody broadcasts; a handler of any other mechanic with no receiver always responds, and
/// one whose receiver must be active but is benched never does.
pub proof fn law_filtering_by_kind(
    state: BattleState,
    broadcaster_id: Option<MonsterID>,
    target_id: Option<MonsterID>,
    receiver_id: Option<MonsterID>,
    mechanic_kind: MechanicKind,
    options: EventFilteringOptions,
)
    ensures
        mechanic_kind is Trap && spec_passes_filters(state, broadcaster_id, target_id, receiver_id, mechanic_kind, options)
            ==> broadcaster_id is Some && state.spec_monster(broadcaster_id.unwrap()).id.team_id == mechanic_kind->team_id,
        (mechanic_kind == MechanicKind::Weather || mechanic_kind == MechanicKind::Terrain) && broadcaster_id is None
            ==> spec_passes_filters(state, broadcaster_id, target_id, receiver_id, mechanic_kind, options),
        !(mechanic_kind is Trap || mechanic_kind == MechanicKind::Weather || mechanic_kind == MechanicKind::Terrain)
            && receiver_id is None ==> spec_passes_filters(state, broadcaster_id, target_id, receiver_id, mechanic_kind, options),
        !(mechanic_kind is Trap || mechanic_kind == MechanicKind::Weather || mechanic_kind == MechanicKind::Terrain)
            && receiver_id is Some && options.only_if_receiver_is_active && !state.spec_monster(
            receiver_id.unwrap(),
        ).spec_is_active() ==> !spec_passes_filters(state, broadcaster_id, target_id, receiver_id, mechanic_kind, options),
{
}

/// Every handler that a monster contributes is received by that monster and ordered by its
/// speed at priority 0.
pub proof fn law_monster_handlers_are_received_by_the_monster(monster: Monster, event: EventID)
    ensures
        forall|i: int|
            0 <= i < monster_handlers(monster, event).len() ==> (#[trigger] monster_handlers(monster, event)[i]).receiver_id
                == Some(monster.id) && monster_handlers(monster, event)[i].activation_order.priority == 0
                && monster_handlers(monster, event)[i].activation_order.speed == monster.spec_stat(Stat::Speed) as u16,
{
    lemma_volatile_handlers_received_by(monster, monster.volatile_statuses@, event);
}

proof fn lemma_volatile_handlers_received_by(monster: Monster, statuses: Seq<VolatileStatus>, event: EventID)
    ensures
        forall|i: int|
            0 <= i < volatile_status_handlers(monster, statuses, event).len() ==> (#[trigger] volatile_status_handlers(
                monster,
                statuses,
                event,
            )[i]).receiver_id == Some(monster.id) && volatile_status_handlers(monster, statuses, event)[i].activation_order
                == monster_activation_order(monster, 0),
    decreases statuses.len(),
{
    if statuses.len() > 0 {
        lemma_volatile_handlers_received_by(monster, statuses.drop_last(), event);
    }
}

/// The handlers of the weather, the terrain and the traps have no receiver and respond last among
/// equals: at priority 0, speed 0 and order 0.
pub proof fn law_environment_handlers_have_no_receiver(environment: Environment, event: EventID)
    ensures
        forall|i: int|
            0 <= i < environment_handlers(environment, event).len() ==> (#[trigger] environment_handlers(
                environment,
                event,
            )[i]).receiver_id is None && environment_handlers(environment, event)[i].activation_order
                == environment_activation_order(),
{
}

} // verus!
