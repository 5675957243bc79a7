use vstd::prelude::*;

use crate::battle::{lemma_monster_replaced_keeps_wf, lemma_monster_replaced_twice, monster_replaced, Battle, BattleState};
use crate::contexts::{AbilityActivationContext, EventContext, ItemUseContext, MoveHitContext, MoveUseContext, StatChangeContext};
use crate::event_dispatcher::{
    dispatch_i8_event, dispatch_notify_event, dispatch_trial_event, dispatch_u16_event, lemma_monster_of_a_battle_without_handlers,
    lemma_replacing_keeps_no_handlers, lemma_same_mechanics_have_no_handlers, no_handler_responds, only_generator_changed,
    same_roster, spec_event_handlers, dispatched, trial_dispatched, EventResponder, EventValue, MechanicEffect,
};
use crate::item::Item;
use crate::stats::{effective_lowering, effective_raise, modifiable_stat_name, ModifiableStat};
use crate::status::{PersistentStatus, PersistentStatusID, PersistentStatusSpecies, VolatileStatus, VolatileStatusID, VolatileStatusSpecies};
use crate::events::EventID;
use crate::global_constants::{percent_of, ClampedPercent, Count, Nothing, Outcome, Percent};
use crate::monster::{Monster, MonsterID};
use crate::move_::{Move, MoveCategory, MoveEffect, MoveID};
use crate::stats::Stat;
use crate::targetting::{field_position_name, BoardPosition, FieldPosition};
use crate::text::{decimal, number_text};
use crate::types::{dual_type_chart, dual_type_matchup, effectiveness_percent, TypeEffectiveness};
use crate::prng::{chance_outcome, number_in_range, state_after_number_in_range, Prng};
use crate::strike_proofs::{lemma_struck_immune, lemma_struck_landed};

verus! {

// Messages ----------------------------------------------------------------------------------- //

pub open spec fn come_back_message(name: Seq<char>) -> Seq<char> {
    "Come back "@ + name + "!"@
}

pub open spec fn go_message(name: Seq<char>) -> Seq<char> {
    "Go "@ + name + "!"@
}

pub open spec fn took_damage_message(name: Seq<char>, damage: u16) -> Seq<char> {
    name + " took "@ + decimal(damage as nat) + " damage!"@
}

pub open spec fn health_left_message(name: Seq<char>, health: u16) -> Seq<char> {
    name + " has "@ + decimal(health as nat) + " health left."@
}

pub open spec fn fainted_message(name: Seq<char>) -> Seq<char> {
    name + " fainted!"@
}

/// What the battle says when `damage` is dealt to the monster `name`, leaving it `health`: how
/// much it took and has left and, when it has none left, that it fainted and is called back.
#[verifier::opaque]
pub open spec fn damage_messages(name: Seq<char>, damage: u16, health: u16) -> Seq<Seq<char>> {
    if health > 0 {
        seq![took_damage_message(name, damage), health_left_message(name, health)]
    } else {
        seq![took_damage_message(name, damage), health_left_message(name, 0), fainted_message(name), come_back_message(name)]
    }
}

/// What the battle says before a hit after the first of the move `move_name` on `target_name`.
pub open spec fn hit_again_message(move_name: Seq<char>, target_name: Seq<char>) -> Seq<char> {
    move_name + " hit "@ + target_name + " again!"@
}

/// What the battle says at the start of the hit `hit_number` of the move `move_name` on
/// `target_name`: nothing for the first.
#[verifier::opaque]
pub open spec fn hit_start_messages(move_name: Seq<char>, target_name: Seq<char>, hit_number: int) -> Seq<Seq<char>> {
    if hit_number > 1 {
        seq![hit_again_message(move_name, target_name)]
    } else {
        Seq::empty()
    }
}

pub open spec fn missed_message() -> Seq<char> {
    "The move missed!"@
}

pub open spec fn immune_message() -> Seq<char> {
    "It was ineffective..."@
}

pub open spec fn shifted_message(name: Seq<char>, position: FieldPosition) -> Seq<char> {
    name + " was shifted to "@ + field_position_name(position)
}

/// `new`'s messages are `old`'s followed by `texts`, and no more of them have been shown.
pub open spec fn queued(new: Battle, old: Battle, texts: Seq<Seq<char>>) -> bool {
    &&& new.message_log.shown_messages_cursor == old.message_log.shown_messages_cursor
    &&& new.message_log.spec_messages() == old.message_log.spec_messages() + texts
}

/// `new` has the generator, turn and format of `old`.
pub open spec fn same_frame(new: Battle, old: Battle) -> bool {
    &&& new.prng == old.prng
    &&& new.turn_number == old.turn_number
    &&& new.format == old.format
}

/// `new` is `old` with the monster `id` replaced by `monster` and nothing else changed but the
/// messages.
pub open spec fn only_monster_changed(new: Battle, old: Battle, id: MonsterID, monster: Monster) -> bool {
    &&& same_frame(new, old)
    &&& new.state.has_monster(id)
    &&& new.state.spec_monster(id) == monster
    &&& monster_replaced(new.state, old.state, id, monster)
}

/// The message `prefix`, then `name`, then `suffix`.
fn compose(prefix: &str, name: &str, suffix: &str) -> (text: String)
    ensures
        text@ == prefix@ + name@ + suffix@,
{
    let mut text = String::from_str(prefix);
    text.append(name);
    text.append(suffix);
    text
}

/// The message `name`, then `suffix`.
fn compose_name(name: &str, suffix: &str) -> (text: String)
    ensures
        text@ == name@ + suffix@,
{
    let mut text = String::from_str(name);
    text.append(suffix);
    text
}

/// The message `prefix`, then the number `n`, then `suffix`.
fn compose_number(prefix: &str, n: u64, suffix: &str) -> (text: String)
    ensures
        text@ == prefix@ + decimal(n as nat) + suffix@,
{
    let mut text = String::from_str(prefix);
    let number = number_text(n);
    text.append(number.as_str());
    text.append(suffix);
    text
}

/// The message `name`, then `middle`, then the number `n`, then `suffix`.
fn compose_with_number(name: &str, middle: &str, n: u64, suffix: &str) -> (text: String)
    ensures
        text@ == name@ + middle@ + decimal(n as nat) + suffix@,
{
    let mut text = String::from_str(name);
    text.append(middle);
    let number = number_text(n);
    text.append(number.as_str());
    text.append(suffix);
    text
}

// Switching -------------------------------------------------------------------------------- //

/// `new` is `old` with the monster `id` moved to the Bench without its volatile statuses, and
/// "Come back <name>!" said.
pub open spec fn switched_out(new: Battle, old: Battle, id: MonsterID) -> bool {
    let before = old.state.spec_monster(id);
    let after = new.state.spec_monster(id);
    &&& only_monster_changed(new, old, id, after)
    &&& after == (Monster { board_position: BoardPosition::Bench, volatile_statuses: after.volatile_statuses, ..before })
    &&& after.volatile_statuses@.len() == 0
    &&& queued(new, old, seq![come_back_message(before.spec_name())])
}

/// `new` is `old` with the monster `id` put on the tile `position`, and "Go <name>!" said.
pub open spec fn switched_in(new: Battle, old: Battle, id: MonsterID, position: FieldPosition) -> bool {
    &&& only_monster_changed(new, old, id, (Monster { board_position: BoardPosition::Field(position), ..old.state.spec_monster(id) }))
    &&& queued(new, old, seq![go_message(old.state.spec_monster(id).spec_name())])
}

/// `new` is `old` after the active monster `active_id` was switched out and `benched_id` was
/// switched in onto the tile that the first one stood on.
pub open spec fn monsters_switched(new: Battle, old: Battle, active_id: MonsterID, benched_id: MonsterID) -> bool {
    let position = crate::targetting::spec_field_position(old.state.spec_monster(active_id).board_position).unwrap();
    exists|mid: Battle| #[trigger] switched_out(mid, old, active_id) && switched_in(new, mid, benched_id, position)
}

/// Moves the active monster `active_monster_id` to the Bench, where it loses its volatile
/// statuses, and says "Come back <name>!".
pub fn switch_out_monster(battle: &mut Battle, active_monster_id: MonsterID)
    requires
        old(battle).wf(),
        old(battle).state.has_monster(active_monster_id),
    ensures
        final(battle).wf(),
        switched_out(*final(battle), *old(battle), active_monster_id),
{
    let ghost before = battle.state;
    let monster = battle.monster_mut(active_monster_id);
    monster.board_position = BoardPosition::Bench;
    monster.volatile_statuses = Vec::new();
    proof {
        lemma_monster_replaced_keeps_wf(battle.state, before, active_monster_id, battle.state.spec_monster(active_monster_id));
    }
    let name = battle.monster(active_monster_id).name();
    let message = compose("Come back ", name.as_str(), "!");
    let ghost text = message@;
    battle.queue_message(message);
    assert(battle.message_log.spec_messages() =~= old(battle).message_log.spec_messages() + seq![text]);
}

/// Puts the benched monster `benched_monster_id` on the tile `field_position` and says
/// "Go <name>!". The tile is presumed to be empty.
pub fn switch_in_monster(battle: &mut Battle, benched_monster_id: MonsterID, field_position: FieldPosition)
    requires
        old(battle).wf(),
        old(battle).state.has_monster(benched_monster_id),
    ensures
        final(battle).wf(),
        switched_in(*final(battle), *old(battle), benched_monster_id, field_position),
{
    let ghost before = battle.state;
    let monster = battle.monster_mut(benched_monster_id);
    monster.board_position = BoardPosition::Field(field_position);
    proof {
        lemma_monster_replaced_keeps_wf(battle.state, before, benched_monster_id, battle.state.spec_monster(benched_monster_id));
    }
    let name = battle.monster(benched_monster_id).name();
    let message = compose("Go ", name.as_str(), "!");
    let ghost text = message@;
    battle.queue_message(message);
    assert(battle.message_log.spec_messages() =~= old(battle).message_log.spec_messages() + seq![text]);
}

/// Switches the active monster `active_monster_id` out and the benched `benched_monster_id` in,
/// onto the tile the first one stood on.
pub fn switch_monsters(battle: &mut Battle, switch_context: crate::contexts::SwitchContext)
    requires
        old(battle).wf(),
        old(battle).state.has_monster(switch_context.active_monster_id),
        old(battle).state.has_monster(switch_context.benched_monster_id),
        old(battle).state.spec_monster(switch_context.active_monster_id).spec_is_active(),
    ensures
        final(battle).wf(),
        same_frame(*final(battle), *old(battle)),
        same_roster(final(battle).state, old(battle).state),
        final(battle).state.spec_monster(switch_context.benched_monster_id).board_position
            == old(battle).state.spec_monster(switch_context.active_monster_id).board_position,
        switch_context.active_monster_id != switch_context.benched_monster_id
            ==> final(battle).state.spec_monster(switch_context.active_monster_id).board_position == BoardPosition::Bench,
        queued(
            *final(battle),
            *old(battle),
            seq![
                come_back_message(old(battle).state.spec_monster(switch_context.active_monster_id).spec_name()),
                go_message(old(battle).state.spec_monster(switch_context.benched_monster_id).spec_name()),
            ],
        ),
        monsters_switched(*final(battle), *old(battle), switch_context.active_monster_id, switch_context.benched_monster_id),
{
    let active_monster_id = switch_context.active_monster_id;
    let benched_monster_id = switch_context.benched_monster_id;
    let position = match battle.monster(active_monster_id).field_position() {
        Some(position) => position,
        None => {
            return;
        },
    };
    let ghost b0 = *battle;
    switch_out_monster(battle, active_monster_id);
    let ghost b1 = *battle;
    switch_in_monster(battle, benched_monster_id, position);
    proof {
        assert(switched_out(b1, b0, active_monster_id));
        assert(b1.state.spec_monster(benched_monster_id).spec_name() == b0.state.spec_monster(benched_monster_id).spec_name())
            by {
            if benched_monster_id != active_monster_id {
                lemma_monster_replaced_keeps_wf(b1.state, b0.state, active_monster_id, b1.state.spec_monster(active_monster_id));
            }
        }
        assert(battle.message_log.spec_messages() =~= b0.message_log.spec_messages() + seq![
            come_back_message(b0.state.spec_monster(active_monster_id).spec_name()),
            go_message(b0.state.spec_monster(benched_monster_id).spec_name()),
        ]);
    }
}

/// Moves the active monster `monster_id` to the tile `destination_position` and says so; fails,
/// changing nothing, if the monster is on the Bench.
pub fn shift_monster(battle: &mut Battle, monster_id: MonsterID, destination_position: FieldPosition) -> (outcome: crate::global_constants::Outcome<crate::global_constants::Nothing>)
    requires
        old(battle).wf(),
        old(battle).state.has_monster(monster_id),
    ensures
        final(battle).wf(),
        outcome is Success <==> old(battle).state.spec_monster(monster_id).spec_is_active(),
        outcome is Success ==> {
            &&& only_monster_changed(*final(battle), *old(battle), monster_id, (Monster {
                board_position: BoardPosition::Field(destination_position),
                ..old(battle).state.spec_monster(monster_id)
            }))
            &&& queued(*final(battle), *old(battle), seq![shifted_message(old(battle).state.spec_monster(monster_id).spec_name(), destination_position)])
        },
        outcome is Failure ==> *final(battle) == *old(battle),
{
    if battle.monster(monster_id).field_position().is_some() {
        let ghost before = battle.state;
        let monster = battle.monster_mut(monster_id);
        monster.board_position = BoardPosition::Field(destination_position);
        proof {
            lemma_monster_replaced_keeps_wf(battle.state, before, monster_id, battle.state.spec_monster(monster_id));
        }
        let name = battle.monster(monster_id).name();
        let mut message = compose_name(name.as_str(), " was shifted to ");
        message.append(destination_position.name());
        let ghost text = message@;
        battle.queue_message(message);
        assert(battle.message_log.spec_messages() =~= old(battle).message_log.spec_messages() + seq![text]);
        crate::global_constants::Outcome::Success(())
    } else {
        crate::global_constants::Outcome::Failure
    }
}

// Damage ------------------------------------------------------------------------------------ //

/// The damage that `damage` actually deals to a monster with `health` left: all of it, or as
/// much health as is left.
pub open spec fn actual_damage(health: u16, damage: u16) -> u16 {
    if damage >= health {
        health
    } else {
        damage
    }
}

/// `new` is `old` after `damage` was dealt to the monster `target_id`: its health drops by the
/// damage, stopping at 0, and a monster left without health is on the Bench without volatile
/// statuses; nothing else changes.
pub open spec fn damaged_state(new: BattleState, old: BattleState, target_id: MonsterID, damage: u16) -> bool {
    let before = old.spec_monster(target_id);
    let after = new.spec_monster(target_id);
    let health = (before.current_health - actual_damage(before.current_health, damage)) as u16;
    &&& monster_replaced(new, old, target_id, after)
    &&& after.current_health == health
    &&& health > 0 ==> after == (Monster { current_health: health, ..before })
    &&& health == 0 ==> after == (Monster {
        current_health: 0,
        board_position: BoardPosition::Bench,
        volatile_statuses: after.volatile_statuses,
        ..before
    })
    &&& health == 0 ==> after.volatile_statuses@.len() == 0
}

/// `new` is `old` after `damage` was dealt to the monster `target_id` (see `apply_raw_damage`).
pub open spec fn raw_damage_applied(new: Battle, old: Battle, target_id: MonsterID, damage: u16) -> bool {
    let before = old.state.spec_monster(target_id);
    let health = (before.current_health - actual_damage(before.current_health, damage)) as u16;
    let name = before.spec_name();
    &&& new.wf()
    &&& same_frame(new, old)
    &&& damaged_state(new.state, old.state, target_id, damage)
    &&& queued(new, old, damage_messages(name, damage, health))
}

/// Dealing damage gives no monster handlers that it did not have: a battle without handlers for
/// `event` has none after damage is dealt.
pub proof fn lemma_damage_adds_no_handlers(
    new: BattleState,
    old: BattleState,
    target_id: MonsterID,
    damage: u16,
    event: EventID,
)
    requires
        old.has_monster(target_id),
        damaged_state(new, old, target_id, damage),
        spec_event_handlers(old, event).len() == 0,
    ensures
        spec_event_handlers(new, event).len() == 0,
{
    let before = old.spec_monster(target_id);
    let after = new.spec_monster(target_id);
    lemma_monster_of_a_battle_without_handlers(old, target_id, event);
    lemma_same_mechanics_have_no_handlers(before, after, event);
    lemma_replacing_keeps_no_handlers(new, old, target_id, after, event);
}

/// Dealing damage leaves every move as it was.
proof fn lemma_damage_keeps_moves(new: BattleState, old: BattleState, target_id: MonsterID, damage: u16, move_id: MoveID)
    requires
        old.has_monster(target_id),
        damaged_state(new, old, target_id, damage),
        old.has_move(move_id),
    ensures
        new.has_move(move_id),
        new.spec_move(move_id) == old.spec_move(move_id),
{
}

/// Deals `damage` to the monster `target_id`: its health drops by that much, stopping at 0, and
/// the battle says how much it took and how much it has left. If that makes it faint, the battle
/// says so and switches it out (see `switch_out_monster`). Returns the damage actually dealt.
pub fn apply_raw_damage(battle: &mut Battle, target_id: MonsterID, damage: u16) -> (dealt: u16)
    requires
        old(battle).wf(),
        old(battle).state.has_monster(target_id),
    ensures
        final(battle).wf(),
        same_frame(*final(battle), *old(battle)),
        dealt == actual_damage(old(battle).state.spec_monster(target_id).current_health, damage),
        raw_damage_applied(*final(battle), *old(battle), target_id, damage),
{
    proof {
        reveal(damage_messages);
    }
    let ghost old_battle = *battle;
    let ghost before = battle.state;
    let original_health = battle.monster(target_id).current_health;
    let monster = battle.monster_mut(target_id);
    monster.current_health = original_health.saturating_sub(damage);
    proof {
        lemma_monster_replaced_keeps_wf(battle.state, before, target_id, battle.state.spec_monster(target_id));
    }
    let remaining = battle.monster(target_id).current_health;
    let name = battle.monster(target_id).name();
    battle.queue_message(compose_with_number(name.as_str(), " took ", damage as u64, " damage!"));
    battle.queue_message(compose_with_number(name.as_str(), " has ", remaining as u64, " health left."));
    let dealt;
    if remaining == 0 {
        dealt = original_health;
        let fainted = compose_name(name.as_str(), " fainted!");
        battle.queue_message(fainted);
        let ghost mid = *battle;
        switch_out_monster(battle, target_id);
        proof {
            lemma_monster_replaced_twice(
                battle.state,
                mid.state,
                old_battle.state,
                target_id,
                mid.state.spec_monster(target_id),
                battle.state.spec_monster(target_id),
            );
            assert(battle.message_log.spec_messages() =~= old_battle.message_log.spec_messages() + seq![
                took_damage_message(name@, damage),
                health_left_message(name@, 0),
                fainted_message(name@),
                come_back_message(name@),
            ]);
        }
    } else {
        dealt = damage;
        proof {
            assert(battle.message_log.spec_messages() =~= old_battle.message_log.spec_messages() + seq![
                took_damage_message(name@, damage),
                health_left_message(name@, remaining),
            ]);
        }
    }
    dealt
}

/// Deals `damage` to `target_id` (see `apply_raw_damage`), then dispatches `OnDamageDealt`,
/// broadcast by the target. Returns the damage actually dealt: all of it, or as much health as
/// the target had left.
pub fn deal_raw_damage<R: EventResponder>(battle: &mut Battle, responder: &R, target_id: MonsterID, damage: u16) -> (dealt: u16)
    requires
        old(battle).wf(),
        old(battle).state.has_monster(target_id),
    ensures
        final(battle).wf(),
        same_roster(final(battle).state, old(battle).state),
        dealt == actual_damage(old(battle).state.spec_monster(target_id).current_health, damage),
        spec_event_handlers(old(battle).state, EventID::OnDamageDealt).len() == 0 ==> raw_damage_applied(
            *final(battle),
            *old(battle),
            target_id,
            damage,
        ),
        exists|damaged: Battle|
            #[trigger] raw_damage_applied(damaged, *old(battle), target_id, damage) && (no_handler_responds(
                damaged.state,
                EventID::OnDamageDealt,
                Some(target_id),
                None,
            ) ==> only_generator_changed(*final(battle), damaged)),
        exists|damaged: Battle|
            #[trigger] raw_damage_applied(damaged, *old(battle), target_id, damage) && *final(battle) == dispatched(
                responder,
                damaged,
                EventID::OnDamageDealt,
                Some(target_id),
                EventContext::Nothing,
                EventValue::Nothing,
                None,
            ).0,
{
    let dealt = apply_raw_damage(battle, target_id, damage);
    let ghost damaged = *battle;
    dispatch_notify_event(battle, responder, EventID::OnDamageDealt, Some(target_id), &EventContext::Nothing);
    proof {
        assert(raw_damage_applied(damaged, *old(battle), target_id, damage));
        if spec_event_handlers(old(battle).state, EventID::OnDamageDealt).len() == 0 {
            lemma_damage_adds_no_handlers(damaged.state, old(battle).state, target_id, damage, EventID::OnDamageDealt);
        }
    }
    dealt
}

/// `((2 * level) / 5 + 2) * power`, the damage before the stats and multipliers.
pub open spec fn base_damage(level: u16, power: u16) -> int {
    ((2 * level) / 5 + 2) * power
}

/// `damage * attack / defense`, rounded down and capped at `u16::MAX`; with a defense of 0, the
/// cap if both `damage` and `attack` are positive and 0 otherwise.
pub open spec fn scaled_by_stats(damage: int, attack: u16, defense: u16) -> int {
    if defense == 0 {
        if damage > 0 && attack > 0 {
            u16::MAX as int
        } else {
            0
        }
    } else if damage * attack / (defense as int) > u16::MAX {
        u16::MAX as int
    } else {
        damage * attack / (defense as int)
    }
}

/// The damage formula: the base damage scaled by the attack and defense stats, divided by 50
/// plus 2, then scaled in turn by the random, same-type and type-matchup multipliers (each in
/// percent, rounding down and capping at `u16::MAX`).
#[verifier::opaque]
pub open spec fn damage_formula(
    level: u16,
    power: u16,
    attack: u16,
    defense: u16,
    random_percent: u16,
    stab_percent: u16,
    type_percent: u16,
) -> int {
    let scaled = scaled_by_stats(base_damage(level, power), attack, defense);
    let damage = scaled / 50 + 2;
    let damage = percent_of(random_percent, damage as u16);
    let damage = percent_of(stab_percent, damage as u16);
    percent_of(type_percent, damage as u16)
}

/// Computes `damage_formula`.
pub fn calculate_damage(
    level: u16,
    power: u16,
    attack: u16,
    defense: u16,
    random_percent: u16,
    stab_percent: u16,
    type_percent: u16,
) -> (damage: u16)
    ensures
        damage == damage_formula(level, power, attack, defense, random_percent, stab_percent, type_percent),
{
    proof {
        reveal(damage_formula);
    }
    let level_factor: u64 = (2 * level as u64) / 5 + 2;
    proof {
        assert(level_factor * power <= 26216 * 65535) by (nonlinear_arith)
            requires
                level_factor <= 26216,
                power <= 65535,
        ;
    }
    let base: u64 = level_factor * power as u64;
    let scaled: u64 = if defense == 0 {
        if base > 0 && attack > 0 {
            65535
        } else {
            0
        }
    } else {
        proof {
            assert(base * attack <= 26216 * 65535 * 65535) by (nonlinear_arith)
                requires
                    base <= 26216 * 65535,
                    attack <= 65535,
            ;
        }
        let q: u64 = base * attack as u64 / defense as u64;
        if q > 65535 {
            65535
        } else {
            q
        }
    };
    let damage: u16 = (scaled / 50 + 2) as u16;
    let damage = Percent(random_percent).of(damage);
    let damage = Percent(stab_percent).of(damage);
    Percent(type_percent).of(damage)
}

/// How a sequence of hits turns out: it fails if every hit failed, if the target was immune or
/// if every hit missed or failed; it succeeds otherwise.
pub open spec fn spec_damage_outcome(
    number_of_hits: u8,
    miss_count: u8,
    fail_count: u8,
    overall_type_effectiveness: TypeEffectiveness,
) -> bool {
    !(fail_count == number_of_hits || overall_type_effectiveness == TypeEffectiveness::Ineffective || fail_count
        + miss_count == number_of_hits)
}

/// How a sequence of hits turns out (see `spec_damage_outcome`).
pub fn damage_outcome(
    number_of_hits: u8,
    miss_count: u8,
    fail_count: u8,
    overall_type_effectiveness: TypeEffectiveness,
) -> (outcome: Outcome<Nothing>)
    requires
        miss_count + fail_count <= number_of_hits,
    ensures
        outcome is Success <==> spec_damage_outcome(number_of_hits, miss_count, fail_count, overall_type_effectiveness),
{
    let did_every_hit_miss_or_fail = fail_count + miss_count == number_of_hits;
    if fail_count == number_of_hits {
        return Outcome::Failure;
    }
    if overall_type_effectiveness.is_matchup_ineffective() || did_every_hit_miss_or_fail {
        Outcome::Failure
    } else {
        Outcome::Success(())
    }
}

/// Whether `state` has no handler for any event of a hit of a move: `OnTryMoveHit`,
/// `OnCalculateAccuracy`, `OnCalculateAttackStat`, `OnCalculateDefenseStat`, `OnModifyDamage`,
/// `OnDamageDealt` and `OnMoveHit`.
pub open spec fn no_hit_handlers(state: BattleState) -> bool {
    &&& spec_event_handlers(state, EventID::OnTryMoveHit).len() == 0
    &&& spec_event_handlers(state, EventID::OnCalculateAccuracy).len() == 0
    &&& spec_event_handlers(state, EventID::OnCalculateAttackStat).len() == 0
    &&& spec_event_handlers(state, EventID::OnCalculateDefenseStat).len() == 0
    &&& spec_event_handlers(state, EventID::OnModifyDamage).len() == 0
    &&& spec_event_handlers(state, EventID::OnDamageDealt).len() == 0
    &&& spec_event_handlers(state, EventID::OnMoveHit).len() == 0
}

/// Whether the accuracy roll of `move_`, with the generator in state `seed`, lets it hit: a roll
/// of its base accuracy out of 100, and always for a move that cannot miss.
pub open spec fn accuracy_roll_hits(move_: Move, seed: u64) -> bool {
    match move_.species.base_accuracy {
        Some(accuracy) => chance_outcome(seed, accuracy, 100),
        None => true,
    }
}

/// The state of the generator, from state `seed`, after the accuracy roll of `move_`.
pub open spec fn seed_after_accuracy_roll(move_: Move, seed: u64) -> u64 {
    match move_.species.base_accuracy {
        Some(accuracy) => state_after_number_in_range(seed, 1, 100),
        None => seed,
    }
}

/// How effective `move_` is against `defender`.
pub open spec fn hit_effectiveness(move_: Move, defender: Monster) -> TypeEffectiveness {
    dual_type_chart(move_.species.type_, defender.species.primary_type, defender.species.secondary_type)
}

/// The damage of a hit of `move_` by `attacker` on `defender` with the random multiplier
/// `random_percent`: the damage formula with the attacker's level, the move's power, the
/// attacking and defending stats of the move's category, a same-type multiplier of 125% when
/// the attacker has the move's type, and the type matchup.
#[verifier::opaque]
pub open spec fn hit_damage(attacker: Monster, defender: Monster, move_: Move, random_percent: u16) -> u16 {
    let (attack, defense) = match move_.species.category {
        MoveCategory::Physical => (attacker.spec_stat(Stat::PhysicalAttack), defender.spec_stat(Stat::PhysicalDefense)),
        _ => (attacker.spec_stat(Stat::SpecialAttack), defender.spec_stat(Stat::SpecialDefense)),
    };
    let stab_percent: u16 = if attacker.spec_is_type(move_.species.type_) {
        125
    } else {
        100
    };
    damage_formula(
        attacker.level,
        move_.species.base_power,
        attack as u16,
        defense as u16,
        random_percent,
        stab_percent,
        effectiveness_percent(hit_effectiveness(move_, defender)),
    ) as u16
}

/// What became of one hit of a move.
#[derive(Clone, Copy)]
pub enum HitAttempt {
    Failed,
    Missed,
    Immune(TypeEffectiveness),
    Landed(TypeEffectiveness),
}

/// A hit of `move_` that passed its accuracy roll: the damage formula with the stats (as the
/// handlers modify them) and a random multiplier from 85% to 100%; an immune defender takes no
/// damage.
#[verifier::rlimit(100)]
fn strike<R: EventResponder>(
    battle: &mut Battle,
    responder: &R,
    context: MoveHitContext,
    move_: Move,
) -> (attempt: HitAttempt)
    requires
        old(battle).wf(),
        old(battle).state.has_monster(context.move_user_id),
        old(battle).state.has_monster(context.target_id),
        move_.species.category != MoveCategory::Status,
    ensures
        final(battle).wf(),
        same_roster(final(battle).state, old(battle).state),
        attempt is Immune || attempt is Landed,
        attempt matches HitAttempt::Immune(e) ==> e == TypeEffectiveness::Ineffective,
        struck(responder, *old(battle), context, move_, *final(battle), attempt),
        no_hit_handlers(old(battle).state) ==> ({
            let seed = old(battle).prng.current_seed;
            let attacker = old(battle).state.spec_monster(context.move_user_id);
            let defender = old(battle).state.spec_monster(context.target_id);
            let effectiveness = hit_effectiveness(move_, defender);
            let damage = hit_damage(attacker, defender, move_, number_in_range(seed, 85, 100) as u16);
            &&& final(battle).prng.current_seed == state_after_number_in_range(seed, 85, 100)
            &&& final(battle).prng.start_seed == old(battle).prng.start_seed
            &&& final(battle).turn_number == old(battle).turn_number
            &&& final(battle).format == old(battle).format
            &&& effectiveness == TypeEffectiveness::Ineffective ==> attempt is Immune && final(battle).state
                == old(battle).state && queued(*final(battle), *old(battle), seq![immune_message()])
            &&& effectiveness != TypeEffectiveness::Ineffective ==> attempt == HitAttempt::Landed(effectiveness)
                && damaged_state(final(battle).state, old(battle).state, context.target_id, damage) && queued(
                *final(battle),
                *old(battle),
                damage_messages(
                    defender.spec_name(),
                    damage,
                    (defender.current_health - actual_damage(defender.current_health, damage)) as u16,
                ),
            )
        }),
{
    let attacker_id = context.move_user_id;
    let defender_id = context.target_id;
    let event_context = EventContext::MoveHit(context);
    let level = battle.monster(attacker_id).level;
    let move_power = move_.species.base_power;
    let (attacking_stat, defense_stat) = match move_.species.category {
        MoveCategory::Physical => (
            battle.monster(attacker_id).stat(Stat::PhysicalAttack),
            battle.monster(defender_id).stat(Stat::PhysicalDefense),
        ),
        _ => (battle.monster(attacker_id).stat(Stat::SpecialAttack), battle.monster(defender_id).stat(Stat::SpecialDefense)),
    };
    let ghost stats = (attacking_stat, defense_stat);
    let ghost started = *battle;
    let attacking_stat = dispatch_u16_event(
        battle,
        responder,
        EventID::OnCalculateAttackStat,
        Some(attacker_id),
        &event_context,
        attacking_stat,
    );
    let ghost attacked = *battle;
    let defense_stat = dispatch_u16_event(
        battle,
        responder,
        EventID::OnCalculateDefenseStat,
        Some(attacker_id),
        &event_context,
        defense_stat,
    );
    let ghost defended = *battle;
    let random_multiplier = battle.roll_random_number_in_range(85, 100);
    let ghost rolled = *battle;
    assert(rolled == with_seed(defended, state_after_number_in_range(defended.prng.current_seed, 85, 100)));
    let random_multiplier = ClampedPercent::from_u16(random_multiplier);
    let move_type = move_.species.type_;
    let stab_multiplier: u16 = if battle.monster(attacker_id).is_type(move_type) {
        125
    } else {
        100
    };
    let target_type = battle.monster(defender_id).species.type_();
    let type_effectiveness = dual_type_matchup(move_type, target_type);
    if type_effectiveness.is_matchup_ineffective() {
        let ghost log_before = battle.message_log.spec_messages();
        let message = String::from_str("It was ineffective...");
        battle.queue_message(message);
        assert(battle.message_log.spec_messages() =~= log_before + seq![immune_message()]);
        proof {
            lemma_struck_immune(
                responder,
                started,
                context,
                move_,
                stats,
                attacked,
                defended,
                rolled,
                *battle,
            );
        }
        return HitAttempt::Immune(type_effectiveness);
    }
    let type_matchup_multiplier = type_effectiveness.as_percent();
    let damage = calculate_damage(
        level,
        move_power,
        attacking_stat,
        defense_stat,
        random_multiplier.0,
        stab_multiplier,
        type_matchup_multiplier.0,
    );
    let ghost damage_before_handlers = damage;
    let damage = dispatch_u16_event(battle, responder, EventID::OnModifyDamage, Some(attacker_id), &event_context, damage);
    proof {
        reveal(hit_damage);
    }
    let ghost before_damage = *battle;
    let _ = deal_raw_damage(battle, responder, defender_id, damage);
    let ghost damaged = *battle;
    let ghost raw = choose|raw: Battle|
        #[trigger] raw_damage_applied(raw, before_damage, defender_id, damage) && damaged == dispatched(
            responder,
            raw,
            EventID::OnDamageDealt,
            Some(defender_id),
            EventContext::Nothing,
            EventValue::Nothing,
            None,
        ).0;
    proof {
        if no_hit_handlers(old(battle).state) {
            assert(raw_damage_applied(damaged, before_damage, defender_id, damage));
            assert(before_damage.message_log == old(battle).message_log);
            assert(before_damage.state == old(battle).state);
            lemma_damage_adds_no_handlers(damaged.state, before_damage.state, defender_id, damage, EventID::OnMoveHit);
        }
    }
    dispatch_notify_event(battle, responder, EventID::OnMoveHit, Some(attacker_id), &event_context);
    proof {
        lemma_struck_landed(
            responder,
            started,
            context,
            move_,
            stats,
            attacked,
            attacking_stat,
            defended,
            defense_stat,
            rolled,
            damage_before_handlers,
            before_damage,
            damage,
            raw,
            *battle,
        );
    }
    HitAttempt::Landed(type_effectiveness)
}

/// The stats that a hit of `move_` by the attacker of `context` on its defender pits against
/// each other in `battle`: attack and defense of the move's category.
pub open spec fn hit_stats(battle: Battle, context: MoveHitContext, move_: Move) -> (u16, u16) {
    let attacker = battle.state.spec_monster(context.move_user_id);
    let defender = battle.state.spec_monster(context.target_id);
    match move_.species.category {
        MoveCategory::Physical => (
            attacker.spec_stat(Stat::PhysicalAttack) as u16,
            defender.spec_stat(Stat::PhysicalDefense) as u16,
        ),
        _ => (attacker.spec_stat(Stat::SpecialAttack) as u16, defender.spec_stat(Stat::SpecialDefense) as u16),
    }
}

/// The stat dispatches and the random roll of a hit lead from `old` to `rolled`, through
/// `attacked` and `defended` (see `struck`).
pub open spec fn stats_dispatched_and_rolled<R: EventResponder>(
    responder: &R,
    old: Battle,
    context: MoveHitContext,
    move_: Move,
    attacked: Battle,
    defended: Battle,
    rolled: Battle,
) -> bool {
    let stats = hit_stats(old, context, move_);
    let user = Some(context.move_user_id);
    let event_context = EventContext::MoveHit(context);
    &&& attacked == dispatched(responder, old, EventID::OnCalculateAttackStat, user, event_context, EventValue::U16(stats.0), None).0
    &&& defended == dispatched(
        responder,
        attacked,
        EventID::OnCalculateDefenseStat,
        user,
        event_context,
        EventValue::U16(stats.1),
        None,
    ).0
    &&& rolled == with_seed(defended, state_after_number_in_range(defended.prng.current_seed, 85, 100))
}

/// The accuracy roll of a hit of `move_`: a roll of its accuracy (as the handlers modify it) out
/// of 100, and a hit for a move that cannot miss.
fn roll_accuracy<R: EventResponder>(battle: &mut Battle, responder: &R, context: MoveHitContext, move_: Move) -> (hits: bool)
    requires
        old(battle).wf(),
    ensures
        final(battle).wf(),
        same_roster(final(battle).state, old(battle).state),
        (*final(battle), hits) == accuracy_rolled(responder, *old(battle), context, move_),
        no_hit_handlers(old(battle).state) ==> {
            &&& hits == accuracy_roll_hits(move_, old(battle).prng.current_seed)
            &&& final(battle).prng.current_seed == seed_after_accuracy_roll(move_, old(battle).prng.current_seed)
            &&& final(battle).prng.start_seed == old(battle).prng.start_seed
            &&& final(battle).state == old(battle).state
            &&& final(battle).message_log == old(battle).message_log
        },
{
    match move_.species.base_accuracy {
        Some(base_accuracy) => {
            let modified_accuracy = dispatch_u16_event(
                battle,
                responder,
                EventID::OnCalculateAccuracy,
                Some(context.move_user_id),
                &EventContext::MoveHit(context),
                base_accuracy,
            );
            battle.roll_chance(modified_accuracy, 100)
        },
        None => true,
    }
}

/// The start of the hit `hit_number` of `move_`: it fails, and the battle says so, if a handler
/// of `OnTryMoveHit` stops it; otherwise the battle says that the move hits again, for a hit
/// after the first.
fn begin_hit<R: EventResponder>(
    battle: &mut Battle,
    responder: &R,
    context: MoveHitContext,
    hit_number: u16,
    move_: Move,
) -> (goes_on: bool)
    requires
        old(battle).wf(),
        old(battle).state.has_monster(context.target_id),
    ensures
        final(battle).wf(),
        same_roster(final(battle).state, old(battle).state),
        final(battle).state.has_monster(context.target_id),
        hit_begun(responder, *old(battle), context, move_, hit_number as int, *final(battle), goes_on),
        no_hit_handlers(old(battle).state) ==> {
            &&& goes_on
            &&& final(battle).state == old(battle).state
            &&& final(battle).prng == old(battle).prng
            &&& queued(
                *final(battle),
                *old(battle),
                hit_start_messages(
                    move_.species.name@,
                    old(battle).state.spec_monster(context.target_id).spec_name(),
                    hit_number as int,
                ),
            )
        },
{
    let defender_id = context.target_id;
    let event_context = EventContext::MoveHit(context);
    let try_move_hit_outcome = dispatch_trial_event(
        battle,
        responder,
        EventID::OnTryMoveHit,
        Some(context.move_user_id),
        &event_context,
    );
    if try_move_hit_outcome.is_failure() {
        let name = battle.monster(defender_id).name();
        let message = compose("The move failed to hit ", name.as_str(), "!");
        let ghost log_before = battle.message_log.spec_messages();
        let ghost text = message@;
        battle.queue_message(message);
        assert(battle.message_log.spec_messages() =~= log_before + seq![text]);
        return false;
    }
    let ghost start_log = battle.message_log.spec_messages();
    proof {
        reveal(hit_start_messages);
    }
    if hit_number > 1 {
        let name = battle.monster(defender_id).name();
        let mut message = String::from_str(move_.name());
        message.append(" hit ");
        message.append(name.as_str());
        message.append(" again!");
        let ghost text = message@;
        battle.queue_message(message);
        assert(text == hit_again_message(move_.species.name@, battle.state.spec_monster(defender_id).spec_name()));
    }
    assert(battle.message_log.spec_messages() =~= start_log + hit_start_messages(
        move_.species.name@,
        battle.state.spec_monster(defender_id).spec_name(),
        hit_number as int,
    ));
    true
}

/// One hit of `move_` (number `hit_number`) by the attacker on the defender of `context`.
#[verifier::rlimit(80)]
fn attempt_hit<R: EventResponder>(
    battle: &mut Battle,
    responder: &R,
    context: MoveHitContext,
    hit_number: u16,
    move_: Move,
) -> (attempt: HitAttempt)
    requires
        old(battle).wf(),
        old(battle).state.has_monster(context.move_user_id),
        old(battle).state.has_monster(context.target_id),
        move_.species.category != MoveCategory::Status,
    ensures
        final(battle).wf(),
        same_roster(final(battle).state, old(battle).state),
        attempt matches HitAttempt::Immune(e) ==> e == TypeEffectiveness::Ineffective,
        hit_attempted(responder, *old(battle), context, move_, hit_number as int, *final(battle), attempt),
        no_hit_handlers(old(battle).state) ==> ({
            let seed = old(battle).prng.current_seed;
            let seed1 = seed_after_accuracy_roll(move_, seed);
            let random_percent = number_in_range(seed1, 85, 100) as u16;
            let attacker = old(battle).state.spec_monster(context.move_user_id);
            let defender = old(battle).state.spec_monster(context.target_id);
            let effectiveness = hit_effectiveness(move_, defender);
            let damage = hit_damage(attacker, defender, move_, random_percent);
            let start = hit_start_messages(move_.species.name@, defender.spec_name(), hit_number as int);
            &&& final(battle).prng.start_seed == old(battle).prng.start_seed
            &&& !accuracy_roll_hits(move_, seed) ==> queued(*final(battle), *old(battle), start + seq![missed_message()])
            &&& accuracy_roll_hits(move_, seed) && effectiveness == TypeEffectiveness::Ineffective ==> queued(
                *final(battle),
                *old(battle),
                start + seq![immune_message()],
            )
            &&& accuracy_roll_hits(move_, seed) && effectiveness != TypeEffectiveness::Ineffective ==> queued(
                *final(battle),
                *old(battle),
                start + damage_messages(
                    defender.spec_name(),
                    damage,
                    (defender.current_health - actual_damage(defender.current_health, damage)) as u16,
                ),
            )
            &&& !accuracy_roll_hits(move_, seed) ==> attempt is Missed && final(battle).state == old(battle).state
                && final(battle).prng.current_seed == seed1
            &&& accuracy_roll_hits(move_, seed) ==> final(battle).prng.current_seed == state_after_number_in_range(
                seed1,
                85,
                100,
            )
            &&& accuracy_roll_hits(move_, seed) && effectiveness == TypeEffectiveness::Ineffective ==> attempt is Immune
                && final(battle).state == old(battle).state
            &&& accuracy_roll_hits(move_, seed) && effectiveness != TypeEffectiveness::Ineffective ==> attempt
                == HitAttempt::Landed(effectiveness) && damaged_state(
                final(battle).state,
                old(battle).state,
                context.target_id,
                hit_damage(attacker, defender, move_, random_percent),
            )
        }),
{
    let attacker_id = context.move_user_id;
    let defender_id = context.target_id;
    let event_context = EventContext::MoveHit(context);
    let goes_on = begin_hit(battle, responder, context, hit_number, move_);
    let ghost begun = *battle;
    assert(hit_begun(responder, *old(battle), context, move_, hit_number as int, begun, goes_on));
    if !goes_on {
        return HitAttempt::Failed;
    }
    let ghost after_start = battle.message_log.spec_messages();
    if !roll_accuracy(battle, responder, context, move_) {
        let message = String::from_str("The move missed!");
        let ghost log_before = battle.message_log.spec_messages();
        battle.queue_message(message);
        assert(battle.message_log.spec_messages() =~= log_before + seq![missed_message()]);
        proof {
            if no_hit_handlers(old(battle).state) {
                assert(log_before == after_start);
                assert(battle.message_log.spec_messages() =~= old(battle).message_log.spec_messages() + (
                hit_start_messages(
                    move_.species.name@,
                    old(battle).state.spec_monster(defender_id).spec_name(),
                    hit_number as int,
                ) + seq![missed_message()]));
            }
        }
        return HitAttempt::Missed;
    }
    let ghost before_strike = *battle;
    let attempt = strike(battle, responder, context, move_);
    proof {
        if no_hit_handlers(old(battle).state) {
            assert(before_strike.message_log.spec_messages() == after_start);
            assert(before_strike.state == old(battle).state);
            let start = hit_start_messages(
                move_.species.name@,
                old(battle).state.spec_monster(defender_id).spec_name(),
                hit_number as int,
            );
            let seed = old(battle).prng.current_seed;
            let attacker = old(battle).state.spec_monster(context.move_user_id);
            let defender = old(battle).state.spec_monster(context.target_id);
            let damage = hit_damage(attacker, defender, move_, number_in_range(seed_after_accuracy_roll(move_, seed), 85, 100) as u16);
            let strike_messages = if hit_effectiveness(move_, defender) == TypeEffectiveness::Ineffective {
                seq![immune_message()]
            } else {
                damage_messages(
                    defender.spec_name(),
                    damage,
                    (defender.current_health - actual_damage(defender.current_health, damage)) as u16,
                )
            };
            assert(battle.message_log.spec_messages() == after_start + strike_messages);
            assert(old(battle).message_log.spec_messages() + start + strike_messages =~= old(battle).message_log.spec_messages() + (start
                + strike_messages));
        }
    }
    attempt
}

/// What the battle says during the hit `hit_number` of `move_` with `context` (see
/// `hits_lead_to`), in state `state` with the generator in state `seed`: that the move hits
/// again, after the first hit, then that it missed, that the target is immune, or the damage.
pub open spec fn hit_messages(state: BattleState, seed: u64, context: MoveHitContext, move_: Move, hit_number: int) -> Seq<
    Seq<char>,
> {
    let defender = state.spec_monster(context.target_id);
    let start = hit_start_messages(move_.species.name@, defender.spec_name(), hit_number);
    if !accuracy_roll_hits(move_, seed) {
        start + seq![missed_message()]
    } else {
        let seed1 = seed_after_accuracy_roll(move_, seed);
        let attacker = state.spec_monster(context.move_user_id);
        let damage = hit_damage(attacker, defender, move_, number_in_range(seed1, 85, 100) as u16);
        if hit_effectiveness(move_, defender) == TypeEffectiveness::Ineffective {
            start + seq![immune_message()]
        } else {
            start + damage_messages(
                defender.spec_name(),
                damage,
                (defender.current_health - actual_damage(defender.current_health, damage)) as u16,
            )
        }
    }
}

/// Whether the hits `hit_number` to `context.number_of_hits` of `move_`, when no handler takes
/// part, take a battle in state `state`, with the generator in state `seed` and `tally` (the
/// misses, the failures and the effectiveness so far), to `end_state`, `end_seed` and
/// `end_tally`. A hit on a target without health fails, and so do the hits after it; a
/// hit whose accuracy roll fails misses; a hit on an immune target fails and ends the hits; any
/// other hit deals the damage of `hit_damage` with the next random multiplier.
pub open spec fn hits_lead_to(
    state: BattleState,
    seed: u64,
    context: MoveHitContext,
    move_: Move,
    hit_number: int,
    tally: (int, int, TypeEffectiveness, Seq<Seq<char>>),
    end_state: BattleState,
    end_seed: u64,
    end_tally: (int, int, TypeEffectiveness, Seq<Seq<char>>),
) -> bool
    decreases context.number_of_hits + 1 - hit_number,
{
    if hit_number < 1 || hit_number > context.number_of_hits {
        end_state == state && end_seed == seed && end_tally == tally
    } else if state.spec_monster(context.target_id).current_health == 0 {
        end_state == state && end_seed == seed && end_tally == (tally.0, tally.1 + context.number_of_hits - hit_number + 1, tally.2, tally.3)
    } else if !accuracy_roll_hits(move_, seed) {
        hits_lead_to(
            state,
            seed_after_accuracy_roll(move_, seed),
            context,
            move_,
            hit_number + 1,
            (tally.0 + 1, tally.1, tally.2, tally.3 + hit_messages(state, seed, context, move_, hit_number)),
            end_state,
            end_seed,
            end_tally,
        )
    } else {
        let seed1 = seed_after_accuracy_roll(move_, seed);
        let seed2 = state_after_number_in_range(seed1, 85, 100);
        let attacker = state.spec_monster(context.move_user_id);
        let defender = state.spec_monster(context.target_id);
        let effectiveness = hit_effectiveness(move_, defender);
        let damage = hit_damage(attacker, defender, move_, number_in_range(seed1, 85, 100) as u16);
        if effectiveness == TypeEffectiveness::Ineffective {
            end_state == state && end_seed == seed2 && end_tally == (tally.0, tally.1 + 1, effectiveness, tally.3 + hit_messages(state, seed, context, move_, hit_number))
        } else {
            exists|damaged: BattleState|
                #[trigger] damaged_state(damaged, state, context.target_id, damage) && hits_lead_to(
                    damaged,
                    seed2,
                    context,
                    move_,
                    hit_number + 1,
                    (tally.0, tally.1, effectiveness, tally.3 + hit_messages(state, seed, context, move_, hit_number)),
                    end_state,
                    end_seed,
                    end_tally,
                )
        }
    }
}

/// What the hits of `move_` with `context` make of `old` when no handler takes part (see
/// `hits_lead_to`): `new` and `outcome` are the battle and the outcome afterwards, which
/// `spec_damage_outcome` gives from the misses, failures and effectiveness of the hits.
pub open spec fn hits_result(new: Battle, old: Battle, outcome: Outcome<Nothing>, context: MoveHitContext, move_: Move) -> bool {
    exists|tally: (int, int, TypeEffectiveness, Seq<Seq<char>>)|
        #[trigger] hits_lead_to(
            old.state,
            old.prng.current_seed,
            context,
            move_,
            1,
            (0, 0, TypeEffectiveness::Effective, Seq::<Seq<char>>::empty()),
            new.state,
            new.prng.current_seed,
            tally,
        ) && (outcome is Success <==> spec_damage_outcome(context.number_of_hits, tally.0 as u8, tally.1 as u8, tally.2))
            && new.message_log.spec_messages() == old.message_log.spec_messages() + tally.3 + closing_messages(
            context.number_of_hits as int,
            move_,
            tally,
        ) && new.message_log.shown_messages_cursor == old.message_log.shown_messages_cursor
}

/// Whether the battle says how many times a move with the hit count of `move_` hit: for a range,
/// or a fixed count above one.
pub open spec fn tells_hit_count(move_: Move) -> bool {
    match move_.species.hits_per_target {
        Count::Fixed(n) => n > 1,
        Count::RandomInRange { .. } => true,
    }
}

/// What the battle says after `number_of_hits` hits of `move_` with `tally` (see
/// `hits_lead_to`): how effective the move was, unless every hit missed or failed, and how many
/// times it hit, unless every hit failed, when the move tells its hit count.
pub open spec fn closing_messages(number_of_hits: int, move_: Move, tally: (int, int, TypeEffectiveness, Seq<Seq<char>>)) -> Seq<
    Seq<char>,
> {
    let effectiveness = if tally.0 + tally.1 == number_of_hits {
        Seq::empty()
    } else {
        seq!["It was "@ + crate::types::effectiveness_text(tally.2) + "!"@]
    };
    let hit_count = if tally.1 != number_of_hits && tells_hit_count(move_) {
        seq!["The move hit "@ + decimal((number_of_hits - tally.0 - tally.1) as nat) + " time(s)."@]
    } else {
        Seq::empty()
    };
    effectiveness + hit_count
}

/// The number that a `u16` event relayed as `value`, or `default` for a value of another kind.
pub open spec fn u16_value_or(value: EventValue, default: u16) -> u16 {
    match value {
        EventValue::U16(n) => n,
        _ => default,
    }
}

/// `battle` with its generator in state `seed`.
pub open spec fn with_seed(battle: Battle, seed: u64) -> Battle {
    Battle { prng: Prng { current_seed: seed, ..battle.prng }, ..battle }
}

/// `new` is `old` after the battle said `texts`, with nothing else changed.
pub open spec fn said(new: Battle, old: Battle, texts: Seq<Seq<char>>) -> bool {
    &&& new.state == old.state
    &&& same_frame(new, old)
    &&& queued(new, old, texts)
}

/// What the battle says when a handler of `OnTryMoveHit` stops a hit on `target_name`.
pub open spec fn failed_to_hit_message(target_name: Seq<char>) -> Seq<char> {
    "The move failed to hit "@ + target_name + "!"@
}

/// What the start of the hit `hit_number` of `move_` with `context` (see `begin_hit`) makes of
/// `old`, with the handlers answering as `responder` says: `OnTryMoveHit` is dispatched; when it
/// fails, the battle says that the move failed to hit the target and the hit goes no further;
/// otherwise the battle says what `hit_start_messages` gives.
pub open spec fn hit_begun<R: EventResponder>(
    responder: &R,
    old: Battle,
    context: MoveHitContext,
    move_: Move,
    hit_number: int,
    new: Battle,
    goes_on: bool,
) -> bool {
    let trial = trial_dispatched(responder, old, EventID::OnTryMoveHit, Some(context.move_user_id), EventContext::MoveHit(context));
    let name = trial.0.state.spec_monster(context.target_id).spec_name();
    &&& goes_on == (trial.1 is Success)
    &&& trial.1 is Failure ==> said(new, trial.0, seq![failed_to_hit_message(name)])
    &&& trial.1 is Success ==> said(new, trial.0, hit_start_messages(move_.species.name@, name, hit_number))
}

/// The battle after the accuracy roll of a hit of `move_` with `context` (see `roll_accuracy`)
/// in `battle`, and whether the hit goes on: `OnCalculateAccuracy` is dispatched with the move's
/// accuracy, and a roll of the accuracy it relays out of 100 decides; a move that cannot miss
/// goes on with the battle unchanged.
pub open spec fn accuracy_rolled<R: EventResponder>(
    responder: &R,
    battle: Battle,
    context: MoveHitContext,
    move_: Move,
) -> (Battle, bool) {
    match move_.species.base_accuracy {
        Some(accuracy) => {
            let modified = dispatched(
                responder,
                battle,
                EventID::OnCalculateAccuracy,
                Some(context.move_user_id),
                EventContext::MoveHit(context),
                EventValue::U16(accuracy),
                None,
            );
            let seed = modified.0.prng.current_seed;
            (
                with_seed(modified.0, state_after_number_in_range(seed, 1, 100)),
                chance_outcome(seed, u16_value_or(modified.1, accuracy), 100),
            )
        },
        None => (battle, true),
    }
}

/// The battle after the stat dispatches and the random roll of a hit of `move_` with `context`
/// in `old` (see `struck`): `OnCalculateAttackStat` and then `OnCalculateDefenseStat` are
/// dispatched with the stats of `hit_stats`, and a random multiplier from 85% to 100% is drawn.
pub open spec fn hit_rolled<R: EventResponder>(responder: &R, old: Battle, context: MoveHitContext, move_: Move) -> Battle {
    let stats = hit_stats(old, context, move_);
    let user = Some(context.move_user_id);
    let event_context = EventContext::MoveHit(context);
    let attack = dispatched(responder, old, EventID::OnCalculateAttackStat, user, event_context, EventValue::U16(stats.0), None);
    let defense = dispatched(
        responder,
        attack.0,
        EventID::OnCalculateDefenseStat,
        user,
        event_context,
        EventValue::U16(stats.1),
        None,
    );
    with_seed(defense.0, state_after_number_in_range(defense.0.prng.current_seed, 85, 100))
}

/// The damage formula for a hit of `move_` with `context` in `old` (see `struck`): the stats
/// that the handlers relayed for `hit_stats`, the attacker's level, the move's power, the random
/// multiplier drawn, a same-type multiplier of 125% when the attacker has the move's type, and
/// the type matchup.
pub open spec fn hit_formula_damage<R: EventResponder>(responder: &R, old: Battle, context: MoveHitContext, move_: Move) -> u16 {
    let stats = hit_stats(old, context, move_);
    let user = Some(context.move_user_id);
    let event_context = EventContext::MoveHit(context);
    let attack = dispatched(responder, old, EventID::OnCalculateAttackStat, user, event_context, EventValue::U16(stats.0), None);
    let defense = dispatched(
        responder,
        attack.0,
        EventID::OnCalculateDefenseStat,
        user,
        event_context,
        EventValue::U16(stats.1),
        None,
    );
    let rolled = hit_rolled(responder, old, context, move_);
    let stab_percent: u16 = if rolled.state.spec_monster(context.move_user_id).spec_is_type(move_.species.type_) {
        125
    } else {
        100
    };
    damage_formula(
        old.state.spec_monster(context.move_user_id).level,
        move_.species.base_power,
        u16_value_or(attack.1, stats.0),
        u16_value_or(defense.1, stats.1),
        number_in_range(defense.0.prng.current_seed, 85, 100) as u16,
        stab_percent,
        effectiveness_percent(hit_effectiveness(move_, rolled.state.spec_monster(context.target_id))),
    ) as u16
}

/// The battle after `OnModifyDamage` is dispatched for a hit of `move_` with `context` in `old`,
/// and the damage that the handlers relay from `hit_formula_damage` (see `struck`).
pub open spec fn hit_damage_modified<R: EventResponder>(
    responder: &R,
    old: Battle,
    context: MoveHitContext,
    move_: Move,
) -> (Battle, u16) {
    let damage = hit_formula_damage(responder, old, context, move_);
    let modified = dispatched(
        responder,
        hit_rolled(responder, old, context, move_),
        EventID::OnModifyDamage,
        Some(context.move_user_id),
        EventContext::MoveHit(context),
        EventValue::U16(damage),
        None,
    );
    (modified.0, u16_value_or(modified.1, damage))
}

/// The battle after a hit with `context` has dealt its damage in `damaged`: `OnDamageDealt` and
/// then `OnMoveHit` are dispatched.
pub open spec fn hit_landed<R: EventResponder>(responder: &R, damaged: Battle, context: MoveHitContext) -> Battle {
    dispatched(
        responder,
        dispatched(
            responder,
            damaged,
            EventID::OnDamageDealt,
            Some(context.target_id),
            EventContext::Nothing,
            EventValue::Nothing,
            None,
        ).0,
        EventID::OnMoveHit,
        Some(context.move_user_id),
        EventContext::MoveHit(context),
        EventValue::Nothing,
        None,
    ).0
}

/// What a hit of `move_` with `context` that passed its accuracy roll (see `strike`) makes of
/// `old`, with the handlers answering as `responder` says: the stats are dispatched and the
/// random multiplier drawn (see `hit_rolled`); an immune defender takes no damage and the
/// battle says so; otherwise `OnModifyDamage` is dispatched with the damage of the formula (see
/// `hit_damage_modified`), the damage it relays is dealt, and `OnDamageDealt` and then
/// `OnMoveHit` are dispatched (see `hit_landed`).
#[verifier::opaque]
pub open spec fn struck<R: EventResponder>(
    responder: &R,
    old: Battle,
    context: MoveHitContext,
    move_: Move,
    new: Battle,
    attempt: HitAttempt,
) -> bool {
    let rolled = hit_rolled(responder, old, context, move_);
    let effectiveness = hit_effectiveness(move_, rolled.state.spec_monster(context.target_id));
    let modified = hit_damage_modified(responder, old, context, move_);
    if effectiveness == TypeEffectiveness::Ineffective {
        attempt == HitAttempt::Immune(effectiveness) && said(new, rolled, seq![immune_message()])
    } else {
        attempt == HitAttempt::Landed(effectiveness) && exists|damaged: Battle|
            #[trigger] raw_damage_applied(damaged, modified.0, context.target_id, modified.1) && new == hit_landed(
                responder,
                damaged,
                context,
            )
    }
}

/// What the hit `hit_number` of `move_` with `context` (see `attempt_hit`) makes of `old`, with
/// the handlers answering as `responder` says: it starts (see `hit_begun`) and fails if a
/// handler stops it; otherwise the accuracy is rolled (see `accuracy_rolled`), and the hit
/// misses, which the battle says, or strikes (see `struck`).
pub open spec fn hit_attempted<R: EventResponder>(
    responder: &R,
    old: Battle,
    context: MoveHitContext,
    move_: Move,
    hit_number: int,
    new: Battle,
    attempt: HitAttempt,
) -> bool {
    exists|begun: Battle, goes_on: bool|
        #[trigger] hit_begun(responder, old, context, move_, hit_number, begun, goes_on) && {
            let rolled = accuracy_rolled(responder, begun, context, move_);
            if !goes_on {
                attempt is Failed && new == begun
            } else if !rolled.1 {
                attempt is Missed && said(new, rolled.0, seq![missed_message()])
            } else {
                struck(responder, rolled.0, context, move_, new, attempt)
            }
        }
}

/// Whether the hits `hit_number` to `context.number_of_hits` of `move_`, with the handlers
/// answering as `responder` says, take `battle` and `tally` (the misses, the failures and the
/// effectiveness so far) to `end` and `end_tally`. A hit on a target without health fails, and
/// so do the hits after it; otherwise each hit does what `hit_attempted` says, and one that
/// meets an immune target ends the hits.
pub open spec fn hits_run<R: EventResponder>(
    responder: &R,
    battle: Battle,
    context: MoveHitContext,
    move_: Move,
    hit_number: int,
    tally: (int, int, TypeEffectiveness),
    end: Battle,
    end_tally: (int, int, TypeEffectiveness),
) -> bool
    decreases context.number_of_hits + 1 - hit_number,
{
    if hit_number < 1 || hit_number > context.number_of_hits {
        end == battle && end_tally == tally
    } else if battle.state.spec_monster(context.target_id).current_health == 0 {
        end == battle && end_tally == (tally.0, tally.1 + context.number_of_hits - hit_number + 1, tally.2)
    } else {
        exists|hit: Battle, attempt: HitAttempt|
            #[trigger] hit_attempted(responder, battle, context, move_, hit_number, hit, attempt) && match attempt {
                HitAttempt::Failed => hits_run(
                    responder,
                    hit,
                    context,
                    move_,
                    hit_number + 1,
                    (tally.0, tally.1 + 1, tally.2),
                    end,
                    end_tally,
                ),
                HitAttempt::Missed => hits_run(
                    responder,
                    hit,
                    context,
                    move_,
                    hit_number + 1,
                    (tally.0 + 1, tally.1, tally.2),
                    end,
                    end_tally,
                ),
                HitAttempt::Immune(effectiveness) => end == hit && end_tally == (tally.0, tally.1 + 1, effectiveness),
                HitAttempt::Landed(effectiveness) => hits_run(
                    responder,
                    hit,
                    context,
                    move_,
                    hit_number + 1,
                    (tally.0, tally.1, effectiveness),
                    end,
                    end_tally,
                ),
            }
    }
}

/// What dealing calculated damage with `move_` and `context` (see `deal_calculated_damage`)
/// makes of `old`, with the handlers answering as `responder` says: the hits run (see
/// `hits_run`), the battle closes them (see `closing_messages`), and `outcome` is what
/// `spec_damage_outcome` gives from the misses, the failures and the effectiveness.
pub open spec fn calculated_damage_dealt<R: EventResponder>(
    responder: &R,
    old: Battle,
    context: MoveHitContext,
    move_: Move,
    new: Battle,
    outcome: Outcome<Nothing>,
) -> bool {
    exists|hit: Battle, tally: (int, int, TypeEffectiveness)|
        #[trigger] hits_run(responder, old, context, move_, 1, (0, 0, TypeEffectiveness::Effective), hit, tally)
            && said(
            new,
            hit,
            closing_messages(context.number_of_hits as int, move_, (tally.0, tally.1, tally.2, Seq::<Seq<char>>::empty())),
        ) && (outcome is Success <==> spec_damage_outcome(context.number_of_hits, tally.0 as u8, tally.1 as u8, tally.2))
}

/// The hits of a move leave the moves as they were, and give no monster handlers for `event`
/// that it did not have.
proof fn lemma_hits_keep_moves_and_handlers(
    state: BattleState,
    seed: u64,
    context: MoveHitContext,
    move_: Move,
    hit_number: int,
    tally: (int, int, TypeEffectiveness, Seq<Seq<char>>),
    end_state: BattleState,
    end_seed: u64,
    end_tally: (int, int, TypeEffectiveness, Seq<Seq<char>>),
    move_id: MoveID,
    event: EventID,
)
    requires
        hits_lead_to(state, seed, context, move_, hit_number, tally, end_state, end_seed, end_tally),
        state.has_monster(context.target_id),
        state.has_move(move_id),
        spec_event_handlers(state, event).len() == 0,
    ensures
        end_state.has_move(move_id),
        end_state.spec_move(move_id) == state.spec_move(move_id),
        spec_event_handlers(end_state, event).len() == 0,
        end_state.has_monster(context.target_id),
    decreases context.number_of_hits + 1 - hit_number,
{
    if hit_number < 1 || hit_number > context.number_of_hits {
    } else if state.spec_monster(context.target_id).current_health == 0 {
    } else if !accuracy_roll_hits(move_, seed) {
        lemma_hits_keep_moves_and_handlers(
            state,
            seed_after_accuracy_roll(move_, seed),
            context,
            move_,
            hit_number + 1,
            (tally.0 + 1, tally.1, tally.2, tally.3 + hit_messages(state, seed, context, move_, hit_number)),
            end_state,
            end_seed,
            end_tally,
            move_id,
            event,
        );
    } else {
        let seed1 = seed_after_accuracy_roll(move_, seed);
        let seed2 = state_after_number_in_range(seed1, 85, 100);
        let attacker = state.spec_monster(context.move_user_id);
        let defender = state.spec_monster(context.target_id);
        let effectiveness = hit_effectiveness(move_, defender);
        let damage = hit_damage(attacker, defender, move_, number_in_range(seed1, 85, 100) as u16);
        if effectiveness != TypeEffectiveness::Ineffective {
            let damaged = choose|damaged: BattleState|
                #[trigger] damaged_state(damaged, state, context.target_id, damage) && hits_lead_to(
                    damaged,
                    seed2,
                    context,
                    move_,
                    hit_number + 1,
                    (tally.0, tally.1, effectiveness, tally.3 + hit_messages(state, seed, context, move_, hit_number)),
                    end_state,
                    end_seed,
                    end_tally,
                );
            lemma_damage_keeps_moves(damaged, state, context.target_id, damage, move_id);
            lemma_damage_adds_no_handlers(damaged, state, context.target_id, damage, event);
            lemma_hits_keep_moves_and_handlers(
                damaged,
                seed2,
                context,
                move_,
                hit_number + 1,
                (tally.0, tally.1, effectiveness, tally.3 + hit_messages(state, seed, context, move_, hit_number)),
                end_state,
                end_seed,
                end_tally,
                move_id,
                event,
            );
        }
    }
}

/// The hits of a move leave a battle without hit handlers without them.
proof fn lemma_hits_keep_no_hit_handlers(
    state: BattleState,
    seed: u64,
    context: MoveHitContext,
    move_: Move,
    end_tally: (int, int, TypeEffectiveness, Seq<Seq<char>>),
    end_state: BattleState,
    end_seed: u64,
)
    requires
        hits_lead_to(state, seed, context, move_, 1, (0, 0, TypeEffectiveness::Effective, Seq::<Seq<char>>::empty()), end_state, end_seed, end_tally),
        state.has_monster(context.target_id),
        state.has_move(context.move_used_id),
        no_hit_handlers(state),
    ensures
        no_hit_handlers(end_state),
{
    let init = (0int, 0int, TypeEffectiveness::Effective, Seq::<Seq<char>>::empty());
    let id = context.move_used_id;
    lemma_hits_keep_moves_and_handlers(state, seed, context, move_, 1, init, end_state, end_seed, end_tally, id, EventID::OnTryMoveHit);
    lemma_hits_keep_moves_and_handlers(state, seed, context, move_, 1, init, end_state, end_seed, end_tally, id, EventID::OnCalculateAccuracy);
    lemma_hits_keep_moves_and_handlers(state, seed, context, move_, 1, init, end_state, end_seed, end_tally, id, EventID::OnCalculateAttackStat);
    lemma_hits_keep_moves_and_handlers(state, seed, context, move_, 1, init, end_state, end_seed, end_tally, id, EventID::OnCalculateDefenseStat);
    lemma_hits_keep_moves_and_handlers(state, seed, context, move_, 1, init, end_state, end_seed, end_tally, id, EventID::OnModifyDamage);
    lemma_hits_keep_moves_and_handlers(state, seed, context, move_, 1, init, end_state, end_seed, end_tally, id, EventID::OnDamageDealt);
    lemma_hits_keep_moves_and_handlers(state, seed, context, move_, 1, init, end_state, end_seed, end_tally, id, EventID::OnMoveHit);
}

/// Dealing damage leaves a battle without hit handlers without them.
proof fn lemma_damage_keeps_no_hit_handlers(new: BattleState, old: BattleState, target_id: MonsterID, damage: u16)
    requires
        old.has_monster(target_id),
        damaged_state(new, old, target_id, damage),
        no_hit_handlers(old),
    ensures
        no_hit_handlers(new),
{
    lemma_damage_adds_no_handlers(new, old, target_id, damage, EventID::OnTryMoveHit);
    lemma_damage_adds_no_handlers(new, old, target_id, damage, EventID::OnCalculateAccuracy);
    lemma_damage_adds_no_handlers(new, old, target_id, damage, EventID::OnCalculateAttackStat);
    lemma_damage_adds_no_handlers(new, old, target_id, damage, EventID::OnCalculateDefenseStat);
    lemma_damage_adds_no_handlers(new, old, target_id, damage, EventID::OnModifyDamage);
    lemma_damage_adds_no_handlers(new, old, target_id, damage, EventID::OnDamageDealt);
    lemma_damage_adds_no_handlers(new, old, target_id, damage, EventID::OnMoveHit);
}

/// A hit that misses or deals damage leads on to the next one: whatever the hits from the next
/// one on lead to, the hits from this one on lead to.
proof fn lemma_hit_leads_on(
    state: BattleState,
    next_state: BattleState,
    seed: u64,
    next_seed: u64,
    context: MoveHitContext,
    move_: Move,
    hit_number: int,
    tally: (int, int, TypeEffectiveness, Seq<Seq<char>>),
    next_tally: (int, int, TypeEffectiveness, Seq<Seq<char>>),
)
    requires
        1 <= hit_number <= context.number_of_hits,
        state.spec_monster(context.target_id).current_health > 0,
        !accuracy_roll_hits(move_, seed) ==> next_state == state && next_seed == seed_after_accuracy_roll(move_, seed)
            && next_tally == (tally.0 + 1, tally.1, tally.2, tally.3 + hit_messages(state, seed, context, move_, hit_number)),
        accuracy_roll_hits(move_, seed) ==> ({
            let seed1 = seed_after_accuracy_roll(move_, seed);
            let attacker = state.spec_monster(context.move_user_id);
            let defender = state.spec_monster(context.target_id);
            let effectiveness = hit_effectiveness(move_, defender);
            &&& effectiveness != TypeEffectiveness::Ineffective
            &&& next_seed == state_after_number_in_range(seed1, 85, 100)
            &&& next_tally == (tally.0, tally.1, effectiveness, tally.3 + hit_messages(state, seed, context, move_, hit_number))
            &&& damaged_state(
                next_state,
                state,
                context.target_id,
                hit_damage(attacker, defender, move_, number_in_range(seed1, 85, 100) as u16),
            )
        }),
    ensures
        forall|end_state: BattleState, end_seed: u64, end_tally: (int, int, TypeEffectiveness, Seq<Seq<char>>)|
            #[trigger] hits_lead_to(next_state, next_seed, context, move_, hit_number + 1, next_tally, end_state, end_seed, end_tally)
                ==> hits_lead_to(state, seed, context, move_, hit_number, tally, end_state, end_seed, end_tally),
{
    assert forall|end_state: BattleState, end_seed: u64, end_tally: (int, int, TypeEffectiveness, Seq<Seq<char>>)|
        #[trigger] hits_lead_to(next_state, next_seed, context, move_, hit_number + 1, next_tally, end_state, end_seed, end_tally)
            implies hits_lead_to(state, seed, context, move_, hit_number, tally, end_state, end_seed, end_tally) by {
        if accuracy_roll_hits(move_, seed) {
            let seed1 = seed_after_accuracy_roll(move_, seed);
            let attacker = state.spec_monster(context.move_user_id);
            let defender = state.spec_monster(context.target_id);
            assert(damaged_state(
                next_state,
                state,
                context.target_id,
                hit_damage(attacker, defender, move_, number_in_range(seed1, 85, 100) as u16),
            ));
        }
    }
}

/// Two steps of `hits_lead_to` make one.
proof fn lemma_hits_chain(
    first_state: BattleState,
    first_seed: u64,
    state: BattleState,
    seed: u64,
    next_state: BattleState,
    next_seed: u64,
    context: MoveHitContext,
    move_: Move,
    hit_number: int,
    tally: (int, int, TypeEffectiveness, Seq<Seq<char>>),
    next_tally: (int, int, TypeEffectiveness, Seq<Seq<char>>),
)
    requires
        forall|end_state: BattleState, end_seed: u64, end_tally: (int, int, TypeEffectiveness, Seq<Seq<char>>)|
            #[trigger] hits_lead_to(state, seed, context, move_, hit_number, tally, end_state, end_seed, end_tally)
                ==> hits_lead_to(first_state, first_seed, context, move_, 1, (0, 0, TypeEffectiveness::Effective, Seq::<Seq<char>>::empty()), end_state, end_seed, end_tally),
        forall|end_state: BattleState, end_seed: u64, end_tally: (int, int, TypeEffectiveness, Seq<Seq<char>>)|
            #[trigger] hits_lead_to(next_state, next_seed, context, move_, hit_number + 1, next_tally, end_state, end_seed, end_tally)
                ==> hits_lead_to(state, seed, context, move_, hit_number, tally, end_state, end_seed, end_tally),
    ensures
        forall|end_state: BattleState, end_seed: u64, end_tally: (int, int, TypeEffectiveness, Seq<Seq<char>>)|
            #[trigger] hits_lead_to(next_state, next_seed, context, move_, hit_number + 1, next_tally, end_state, end_seed, end_tally)
                ==> hits_lead_to(first_state, first_seed, context, move_, 1, (0, 0, TypeEffectiveness::Effective, Seq::<Seq<char>>::empty()), end_state, end_seed, end_tally),
{
    assert forall|end_state: BattleState, end_seed: u64, end_tally: (int, int, TypeEffectiveness, Seq<Seq<char>>)|
        #[trigger] hits_lead_to(next_state, next_seed, context, move_, hit_number + 1, next_tally, end_state, end_seed, end_tally)
            implies hits_lead_to(first_state, first_seed, context, move_, 1, (0, 0, TypeEffectiveness::Effective, Seq::<Seq<char>>::empty()), end_state, end_seed, end_tally) by {
        assert(hits_lead_to(state, seed, context, move_, hit_number, tally, end_state, end_seed, end_tally));
    }
}

/// What a single hit of `move_` with `context` makes of `old` when no handler takes part (see
/// `no_hit_handlers`) and the target has health left: the accuracy roll decides whether it
/// misses, an immune target takes no damage, and otherwise the target takes the damage of the
/// formula with the next random multiplier (see `hit_damage`). `new` and `outcome` are the
/// battle and the outcome afterwards.
pub open spec fn single_hit_result(
    new: Battle,
    old: Battle,
    outcome: Outcome<Nothing>,
    context: MoveHitContext,
    move_: Move,
) -> bool {
    let seed = old.prng.current_seed;
    let seed1 = seed_after_accuracy_roll(move_, seed);
    let attacker = old.state.spec_monster(context.move_user_id);
    let defender = old.state.spec_monster(context.target_id);
    let effectiveness = hit_effectiveness(move_, defender);
    &&& !accuracy_roll_hits(move_, seed) ==> outcome is Failure && new.state == old.state && new.prng.current_seed == seed1
    &&& accuracy_roll_hits(move_, seed) ==> new.prng.current_seed == state_after_number_in_range(seed1, 85, 100)
    &&& accuracy_roll_hits(move_, seed) && effectiveness == TypeEffectiveness::Ineffective ==> outcome is Failure
        && new.state == old.state
    &&& accuracy_roll_hits(move_, seed) && effectiveness != TypeEffectiveness::Ineffective ==> outcome is Success
        && damaged_state(
        new.state,
        old.state,
        context.target_id,
        hit_damage(attacker, defender, move_, number_in_range(seed1, 85, 100) as u16),
    )
}

/// Deals damage to `move_hit_context.target_id` with the move `move_hit_context.move_used_id`
/// of `move_hit_context.move_user_id`, once per hit, using the damage formula. Each hit can fail
/// (the target fainted, or a handler stopped it), miss (the accuracy roll), or meet an immune
/// target, which ends the hits. Afterwards the battle says how effective the move was, and, for
/// a move with several hits, how many hit.
///
/// Returns success unless every hit failed, the target was immune, or every hit missed or failed
/// (see `damage_outcome`). With no hits, or on a target without health left, it fails and
/// changes nothing. With the handlers answering as `responder` says, the battle and the outcome
/// are what `calculated_damage_dealt` says. When no handler takes part, the hits are those of
/// `hits_result` (for a single hit, `single_hit_result`).
pub fn deal_calculated_damage<R: EventResponder>(
    battle: &mut Battle,
    responder: &R,
    move_hit_context: MoveHitContext,
) -> (outcome: Outcome<Nothing>)
    requires
        old(battle).wf(),
        old(battle).state.has_monster(move_hit_context.move_user_id),
        old(battle).state.has_monster(move_hit_context.target_id),
        old(battle).state.has_move(move_hit_context.move_used_id),
        old(battle).state.spec_move(move_hit_context.move_used_id).species.category != MoveCategory::Status,
    ensures
        final(battle).wf(),
        same_roster(final(battle).state, old(battle).state),
        move_hit_context.number_of_hits == 0 ==> outcome is Failure && *final(battle) == *old(battle),
        move_hit_context.number_of_hits > 0 && old(battle).state.spec_monster(move_hit_context.target_id).current_health
            == 0 ==> outcome is Failure && *final(battle) == *old(battle),
        no_hit_handlers(old(battle).state) ==> hits_result(
            *final(battle),
            *old(battle),
            outcome,
            move_hit_context,
            old(battle).state.spec_move(move_hit_context.move_used_id),
        ),
        calculated_damage_dealt(
            responder,
            *old(battle),
            move_hit_context,
            old(battle).state.spec_move(move_hit_context.move_used_id),
            *final(battle),
            outcome,
        ),
        move_hit_context.number_of_hits == 1 && no_hit_handlers(old(battle).state) && old(battle).state.spec_monster(
            move_hit_context.target_id,
        ).current_health > 0 ==> single_hit_result(
            *final(battle),
            *old(battle),
            outcome,
            move_hit_context,
            old(battle).state.spec_move(move_hit_context.move_used_id),
        ),
{
    let move_ = *battle.state.move_(move_hit_context.move_used_id);
    proof {
        let owner = battle.state.spec_monster(move_hit_context.move_used_id.owner_id);
        assert(owner.moveset@[crate::move_::move_number_index(move_hit_context.move_used_id.move_number)] == move_);
    }
    let outcome = deal_calculated_damage_with(battle, responder, move_hit_context, move_);
    proof {
        if move_hit_context.number_of_hits == 1 && no_hit_handlers(old(battle).state) && old(battle).state.spec_monster(
            move_hit_context.target_id,
        ).current_health > 0 {
            lemma_single_hit(*battle, *old(battle), outcome, move_hit_context, move_);
        }
    }
    outcome
}

/// A single hit, when no handler takes part and the target has health left, does what
/// `single_hit_result` says.
proof fn lemma_single_hit(new: Battle, old: Battle, outcome: Outcome<Nothing>, context: MoveHitContext, move_: Move)
    requires
        context.number_of_hits == 1,
        old.state.spec_monster(context.target_id).current_health > 0,
        hits_result(new, old, outcome, context, move_),
    ensures
        single_hit_result(new, old, outcome, context, move_),
{
    let tally = choose|tally: (int, int, TypeEffectiveness, Seq<Seq<char>>)|
        #[trigger] hits_lead_to(
            old.state,
            old.prng.current_seed,
            context,
            move_,
            1,
            (0, 0, TypeEffectiveness::Effective, Seq::<Seq<char>>::empty()),
            new.state,
            new.prng.current_seed,
            tally,
        ) && (outcome is Success <==> spec_damage_outcome(context.number_of_hits, tally.0 as u8, tally.1 as u8, tally.2));
    let seed = old.prng.current_seed;
    let seed1 = seed_after_accuracy_roll(move_, seed);
    if !accuracy_roll_hits(move_, seed) {
        assert(hits_lead_to(
            old.state,
            seed1,
            context,
            move_,
            2,
            (1, 0, TypeEffectiveness::Effective, hit_messages(old.state, seed, context, move_, 1)),
            new.state,
            new.prng.current_seed,
            tally,
        ));
    } else {
        let attacker = old.state.spec_monster(context.move_user_id);
        let defender = old.state.spec_monster(context.target_id);
        let effectiveness = hit_effectiveness(move_, defender);
        let damage = hit_damage(attacker, defender, move_, number_in_range(seed1, 85, 100) as u16);
        if effectiveness != TypeEffectiveness::Ineffective {
            let damaged = choose|damaged: BattleState|
                #[trigger] damaged_state(damaged, old.state, context.target_id, damage) && hits_lead_to(
                    damaged,
                    state_after_number_in_range(seed1, 85, 100),
                    context,
                    move_,
                    2,
                    (0, 0, effectiveness, hit_messages(old.state, seed, context, move_, 1)),
                    new.state,
                    new.prng.current_seed,
                    tally,
                );
            assert(hits_lead_to(
                damaged,
                state_after_number_in_range(seed1, 85, 100),
                context,
                move_,
                2,
                (0, 0, effectiveness, hit_messages(old.state, seed, context, move_, 1)),
                new.state,
                new.prng.current_seed,
                tally,
            ));
            assert(new.state == damaged);
        }
    }
}

/// The hits of `move_` with `context` in turn (see `attempt_hit`), until the target has no
/// health left or is immune. Returns the number of hits that missed and that failed, and the
/// effectiveness of the last hit that met the target.
#[verifier::rlimit(60)]
fn run_hits<R: EventResponder>(
    battle: &mut Battle,
    responder: &R,
    move_hit_context: MoveHitContext,
    move_: Move,
) -> (tally: (u8, u8, TypeEffectiveness))
    requires
        old(battle).wf(),
        old(battle).state.has_monster(move_hit_context.move_user_id),
        old(battle).state.has_monster(move_hit_context.target_id),
        move_.species.category != MoveCategory::Status,
    ensures
        final(battle).wf(),
        same_roster(final(battle).state, old(battle).state),
        tally.0 + tally.1 <= move_hit_context.number_of_hits,
        move_hit_context.number_of_hits == 0 ==> tally == (0u8, 0u8, TypeEffectiveness::Effective) && *final(battle) == *old(battle),
        move_hit_context.number_of_hits > 0 && old(battle).state.spec_monster(move_hit_context.target_id).current_health
            == 0 ==> tally.0 == 0 && tally.1 == move_hit_context.number_of_hits && tally.2 == TypeEffectiveness::Effective
            && *final(battle) == *old(battle),
        no_hit_handlers(old(battle).state) ==> exists|log: Seq<Seq<char>>|
            #[trigger] hits_lead_to(
                old(battle).state,
                old(battle).prng.current_seed,
                move_hit_context,
                move_,
                1,
                (0, 0, TypeEffectiveness::Effective, Seq::<Seq<char>>::empty()),
                final(battle).state,
                final(battle).prng.current_seed,
                (tally.0 as int, tally.1 as int, tally.2, log),
            ) && final(battle).message_log.spec_messages() == old(battle).message_log.spec_messages() + log,
        no_hit_handlers(old(battle).state) ==> final(battle).prng.start_seed == old(battle).prng.start_seed,
        no_hit_handlers(old(battle).state) ==> final(battle).message_log.shown_messages_cursor == old(
            battle,
        ).message_log.shown_messages_cursor,
        hits_run(
            responder,
            *old(battle),
            move_hit_context,
            move_,
            1,
            (0, 0, TypeEffectiveness::Effective),
            *final(battle),
            (tally.0 as int, tally.1 as int, tally.2),
        ),
{
    let number_of_hits = move_hit_context.number_of_hits;
    let mut overall_type_effectiveness = TypeEffectiveness::Effective;
    let mut miss_count: u8 = 0;
    let mut fail_count: u8 = 0;
    let mut i: u16 = 1;
    let ghost fainted_at_start = number_of_hits > 0 && battle.state.spec_monster(move_hit_context.target_id).current_health
        == 0;
    let ghost quiet = no_hit_handlers(battle.state);
    let ghost seed = battle.prng.current_seed;
    let ghost mut hits_log: Seq<Seq<char>> = Seq::empty();
    assert(battle.message_log.spec_messages() =~= old(battle).message_log.spec_messages() + hits_log);
    while i <= number_of_hits as u16
        invariant_except_break
            1 <= i <= number_of_hits as u16 + 1,
            miss_count + fail_count <= i - 1,
            forall|end: Battle, end_tally: (int, int, TypeEffectiveness)|
                #[trigger] hits_run(
                    responder,
                    *battle,
                    move_hit_context,
                    move_,
                    i as int,
                    (miss_count as int, fail_count as int, overall_type_effectiveness),
                    end,
                    end_tally,
                ) ==> hits_run(
                    responder,
                    *old(battle),
                    move_hit_context,
                    move_,
                    1,
                    (0, 0, TypeEffectiveness::Effective),
                    end,
                    end_tally,
                ),
            i > number_of_hits ==> hits_run(
                responder,
                *old(battle),
                move_hit_context,
                move_,
                1,
                (0, 0, TypeEffectiveness::Effective),
                *battle,
                (miss_count as int, fail_count as int, overall_type_effectiveness),
            ),
            quiet ==> forall|end_state: BattleState, end_seed: u64, end_tally: (int, int, TypeEffectiveness, Seq<Seq<char>>)|
                #[trigger] hits_lead_to(
                    battle.state,
                    battle.prng.current_seed,
                    move_hit_context,
                    move_,
                    i as int,
                    (miss_count as int, fail_count as int, overall_type_effectiveness, hits_log),
                    end_state,
                    end_seed,
                    end_tally,
                ) ==> hits_lead_to(
                    old(battle).state,
                    seed,
                    move_hit_context,
                    move_,
                    1,
                    (0, 0, TypeEffectiveness::Effective, Seq::<Seq<char>>::empty()),
                    end_state,
                    end_seed,
                    end_tally,
                ),
            quiet && i > number_of_hits ==> hits_lead_to(
                old(battle).state,
                seed,
                move_hit_context,
                move_,
                1,
                (0, 0, TypeEffectiveness::Effective, Seq::<Seq<char>>::empty()),
                battle.state,
                battle.prng.current_seed,
                (miss_count as int, fail_count as int, overall_type_effectiveness, hits_log),
            ),
        invariant
            quiet == no_hit_handlers(old(battle).state),
            seed == old(battle).prng.current_seed,
            number_of_hits == 0 ==> overall_type_effectiveness == TypeEffectiveness::Effective,
            quiet ==> battle.prng.start_seed == old(battle).prng.start_seed,
            quiet ==> battle.message_log.spec_messages() == old(battle).message_log.spec_messages() + hits_log,
            quiet ==> battle.message_log.shown_messages_cursor == old(battle).message_log.shown_messages_cursor,
            number_of_hits == move_hit_context.number_of_hits,
            quiet ==> no_hit_handlers(battle.state),
            fainted_at_start ==> i == 1 && miss_count == 0 && (fail_count == 0 || fail_count == number_of_hits)
                && *battle == *old(battle) && overall_type_effectiveness == TypeEffectiveness::Effective,
            fainted_at_start == (number_of_hits > 0 && old(battle).state.spec_monster(move_hit_context.target_id).current_health == 0),
            miss_count + fail_count <= number_of_hits,
            battle.wf(),
            same_roster(battle.state, old(battle).state),
            battle.state.has_monster(move_hit_context.move_user_id),
            battle.state.has_monster(move_hit_context.target_id),
            move_.species.category != MoveCategory::Status,
            number_of_hits == 0 ==> *battle == *old(battle),
        ensures
            fainted_at_start ==> miss_count == 0 && fail_count == number_of_hits,
            hits_run(
                responder,
                *old(battle),
                move_hit_context,
                move_,
                1,
                (0, 0, TypeEffectiveness::Effective),
                *battle,
                (miss_count as int, fail_count as int, overall_type_effectiveness),
            ),
            number_of_hits == 0 ==> miss_count == 0 && fail_count == 0 && overall_type_effectiveness
                == TypeEffectiveness::Effective,
            quiet ==> hits_lead_to(
                old(battle).state,
                seed,
                move_hit_context,
                move_,
                1,
                (0, 0, TypeEffectiveness::Effective, Seq::<Seq<char>>::empty()),
                battle.state,
                battle.prng.current_seed,
                (miss_count as int, fail_count as int, overall_type_effectiveness, hits_log),
            ),
        decreases number_of_hits as u16 + 1 - i,
    {
        let ghost state_before = battle.state;
        let ghost seed_before = battle.prng.current_seed;
        let ghost tally_before = (miss_count as int, fail_count as int, overall_type_effectiveness, hits_log);
        let ghost battle_before = *battle;
        if battle.monster(move_hit_context.target_id).is_fainted() {
            fail_count = fail_count + (number_of_hits - i as u8) + 1;
            assert(hits_run(
                responder,
                battle_before,
                move_hit_context,
                move_,
                i as int,
                (tally_before.0, tally_before.1, tally_before.2),
                *battle,
                (miss_count as int, fail_count as int, overall_type_effectiveness),
            ));
            proof {
                if quiet {
                    assert(hits_lead_to(
                        state_before,
                        seed_before,
                        move_hit_context,
                        move_,
                        i as int,
                        tally_before,
                        battle.state,
                        battle.prng.current_seed,
                        (miss_count as int, fail_count as int, overall_type_effectiveness, hits_log),
                    ));
                }
            }
            break;
        }
        let attempt = attempt_hit(battle, responder, move_hit_context, i, move_);
        proof {
            if quiet {
                let messages = hit_messages(state_before, seed_before, move_hit_context, move_, i as int);
                let log_before = old(battle).message_log.spec_messages() + hits_log;
                assert(battle.message_log.spec_messages() == log_before + messages);
                hits_log = hits_log + messages;
                assert(battle.message_log.spec_messages() =~= old(battle).message_log.spec_messages() + hits_log);
            }
        }
        match attempt {
            HitAttempt::Failed => {
                fail_count = fail_count + 1;
            },
            HitAttempt::Missed => {
                miss_count = miss_count + 1;
            },
            HitAttempt::Immune(type_effectiveness) => {
                overall_type_effectiveness = type_effectiveness;
                fail_count = fail_count + 1;
                assert(hits_run(
                    responder,
                    battle_before,
                    move_hit_context,
                    move_,
                    i as int,
                    (tally_before.0, tally_before.1, tally_before.2),
                    *battle,
                    (miss_count as int, fail_count as int, overall_type_effectiveness),
                ));
                proof {
                    if quiet {
                        assert(hits_lead_to(
                            state_before,
                            seed_before,
                            move_hit_context,
                            move_,
                            i as int,
                            tally_before,
                            battle.state,
                            battle.prng.current_seed,
                            (miss_count as int, fail_count as int, overall_type_effectiveness, hits_log),
                        ));
                    }
                }
                break;
            },
            HitAttempt::Landed(type_effectiveness) => {
                overall_type_effectiveness = type_effectiveness;
            },
        }
        proof {
            let next = (miss_count as int, fail_count as int, overall_type_effectiveness);
            assert forall|end: Battle, end_tally: (int, int, TypeEffectiveness)|
                #[trigger] hits_run(responder, *battle, move_hit_context, move_, i + 1, next, end, end_tally) implies hits_run(
                responder,
                *old(battle),
                move_hit_context,
                move_,
                1,
                (0, 0, TypeEffectiveness::Effective),
                end,
                end_tally,
            ) by {
                assert(hit_attempted(responder, battle_before, move_hit_context, move_, i as int, *battle, attempt));
                assert(hits_run(
                    responder,
                    battle_before,
                    move_hit_context,
                    move_,
                    i as int,
                    (tally_before.0, tally_before.1, tally_before.2),
                    end,
                    end_tally,
                ));
            }
            if i as int + 1 > number_of_hits {
                assert(hits_run(responder, *battle, move_hit_context, move_, i + 1, next, *battle, next));
            }
            if quiet {
                let seed1 = seed_after_accuracy_roll(move_, seed_before);
                let attacker = state_before.spec_monster(move_hit_context.move_user_id);
                let defender = state_before.spec_monster(move_hit_context.target_id);
                let damage = hit_damage(attacker, defender, move_, number_in_range(seed1, 85, 100) as u16);
                if accuracy_roll_hits(move_, seed_before) {
                    lemma_damage_keeps_no_hit_handlers(battle.state, state_before, move_hit_context.target_id, damage);
                }
                let next_tally = (miss_count as int, fail_count as int, overall_type_effectiveness, hits_log);
                lemma_hit_leads_on(
                    state_before,
                    battle.state,
                    seed_before,
                    battle.prng.current_seed,
                    move_hit_context,
                    move_,
                    i as int,
                    tally_before,
                    next_tally,
                );
                lemma_hits_chain(
                    old(battle).state,
                    seed,
                    state_before,
                    seed_before,
                    battle.state,
                    battle.prng.current_seed,
                    move_hit_context,
                    move_,
                    i as int,
                    tally_before,
                    next_tally,
                );
                if i as int + 1 > number_of_hits {
                    assert(hits_lead_to(
                        battle.state,
                        battle.prng.current_seed,
                        move_hit_context,
                        move_,
                        i + 1,
                        next_tally,
                        battle.state,
                        battle.prng.current_seed,
                        next_tally,
                    ));
                }
            }
        }
        i = i + 1;
    }
    let tally = (miss_count, fail_count, overall_type_effectiveness);
    proof {
        if quiet {
            assert(hits_lead_to(
                old(battle).state,
                old(battle).prng.current_seed,
                move_hit_context,
                move_,
                1,
                (0, 0, TypeEffectiveness::Effective, Seq::<Seq<char>>::empty()),
                battle.state,
                battle.prng.current_seed,
                (tally.0 as int, tally.1 as int, tally.2, hits_log),
            ));
            assert(battle.message_log.spec_messages() == old(battle).message_log.spec_messages() + hits_log);
        }
    }
    tally
}

/// `deal_calculated_damage` with the move `move_`.
#[verifier::rlimit(60)]
fn deal_calculated_damage_with<R: EventResponder>(
    battle: &mut Battle,
    responder: &R,
    move_hit_context: MoveHitContext,
    move_: Move,
) -> (outcome: Outcome<Nothing>)
    requires
        old(battle).wf(),
        old(battle).state.has_monster(move_hit_context.move_user_id),
        old(battle).state.has_monster(move_hit_context.target_id),
        move_.species.category != MoveCategory::Status,
    ensures
        final(battle).wf(),
        same_roster(final(battle).state, old(battle).state),
        move_hit_context.number_of_hits == 0 ==> outcome is Failure && *final(battle) == *old(battle),
        move_hit_context.number_of_hits > 0 && old(battle).state.spec_monster(move_hit_context.target_id).current_health
            == 0 ==> outcome is Failure && *final(battle) == *old(battle),
        no_hit_handlers(old(battle).state) ==> hits_result(*final(battle), *old(battle), outcome, move_hit_context, move_),
        no_hit_handlers(old(battle).state) ==> final(battle).prng.start_seed == old(battle).prng.start_seed,
        calculated_damage_dealt(responder, *old(battle), move_hit_context, move_, *final(battle), outcome),
{
    let number_of_hits = move_hit_context.number_of_hits;
    let (miss_count, fail_count, overall_type_effectiveness) = run_hits(battle, responder, move_hit_context, move_);
    let ghost hit = *battle;
    let ghost effectiveness_messages: Seq<Seq<char>> = Seq::empty();
    let did_every_hit_miss_or_fail = fail_count + miss_count == number_of_hits;
    if !did_every_hit_miss_or_fail {
        let text = overall_type_effectiveness.as_text();
        let message = compose("It was ", text.as_str(), "!");
        proof {
            effectiveness_messages = seq![message@];
        }
        battle.queue_message(message);
    }
    let ghost after_effectiveness = *battle;
    assert(after_effectiveness.message_log.spec_messages() =~= hit.message_log.spec_messages() + effectiveness_messages);
    let ghost run_tally = (miss_count as int, fail_count as int, overall_type_effectiveness);
    assert(hits_run(responder, *old(battle), move_hit_context, move_, 1, (0, 0, TypeEffectiveness::Effective), hit, run_tally));
    if fail_count == number_of_hits {
        assert(closing_messages(
            number_of_hits as int,
            move_,
            (run_tally.0, run_tally.1, run_tally.2, Seq::<Seq<char>>::empty()),
        ) =~= effectiveness_messages);
        proof {
            if no_hit_handlers(old(battle).state) {
                let log = choose|log: Seq<Seq<char>>|
                    #[trigger] hits_lead_to(
                        old(battle).state,
                        old(battle).prng.current_seed,
                        move_hit_context,
                        move_,
                        1,
                        (0, 0, TypeEffectiveness::Effective, Seq::<Seq<char>>::empty()),
                        hit.state,
                        hit.prng.current_seed,
                        (miss_count as int, fail_count as int, overall_type_effectiveness, log),
                    ) && hit.message_log.spec_messages() == old(battle).message_log.spec_messages() + log;
                let tally = (miss_count as int, fail_count as int, overall_type_effectiveness, log);
                assert(closing_messages(number_of_hits as int, move_, tally) =~= effectiveness_messages);
                assert(battle.message_log.spec_messages() =~= old(battle).message_log.spec_messages() + tally.3
                    + closing_messages(number_of_hits as int, move_, tally));
            }
        }
        return Outcome::Failure;
    }
    let actual_hit_count = number_of_hits - miss_count - fail_count;
    let tells_hit_count = match move_.species.hits_per_target {
        Count::Fixed(n) => n > 1,
        Count::RandomInRange { .. } => true,
    };
    let ghost count_messages: Seq<Seq<char>> = Seq::empty();
    if tells_hit_count {
        let message = compose_number("The move hit ", actual_hit_count as u64, " time(s).");
        proof {
            count_messages = seq![message@];
        }
        battle.queue_message(message);
    }
    assert(battle.message_log.spec_messages() =~= after_effectiveness.message_log.spec_messages() + count_messages);
    let outcome = damage_outcome(number_of_hits, miss_count, fail_count, overall_type_effectiveness);
    assert(closing_messages(
        number_of_hits as int,
        move_,
        (run_tally.0, run_tally.1, run_tally.2, Seq::<Seq<char>>::empty()),
    ) =~= effectiveness_messages + count_messages);
    assert(battle.message_log.spec_messages() =~= hit.message_log.spec_messages() + (effectiveness_messages + count_messages));
    assert(said(*battle, hit, closing_messages(
        number_of_hits as int,
        move_,
        (run_tally.0, run_tally.1, run_tally.2, Seq::<Seq<char>>::empty()),
    )));
    proof {
        if no_hit_handlers(old(battle).state) {
            let log = choose|log: Seq<Seq<char>>|
                #[trigger] hits_lead_to(
                    old(battle).state,
                    old(battle).prng.current_seed,
                    move_hit_context,
                    move_,
                    1,
                    (0, 0, TypeEffectiveness::Effective, Seq::<Seq<char>>::empty()),
                    hit.state,
                    hit.prng.current_seed,
                    (miss_count as int, fail_count as int, overall_type_effectiveness, log),
                ) && hit.message_log.spec_messages() == old(battle).message_log.spec_messages() + log;
            let tally = (miss_count as int, fail_count as int, overall_type_effectiveness, log);
            assert(closing_messages(number_of_hits as int, move_, tally) =~= effectiveness_messages + count_messages);
            assert(battle.message_log.spec_messages() =~= old(battle).message_log.spec_messages() + tally.3
                + closing_messages(number_of_hits as int, move_, tally));
        }
    }
    outcome
}

// Using moves -------------------------------------------------------------------------------- //

pub open spec fn no_targets_message(user_name: Seq<char>, move_name: Seq<char>) -> Seq<char> {
    user_name + "'s "@ + move_name + " has no targets..."@
}

/// The number of hits that a move with hit count `hits` lands on a target, drawn with `prng`
/// when the count is a range.
pub fn number_of_hits_for(battle: &mut Battle, hits: Count) -> (number_of_hits: u8)
    requires
        hits.wf(),
    ensures
        number_of_hits == hits.spec_init(old(battle).prng.current_seed),
        final(battle).prng.current_seed == hits.spec_state_after_init(old(battle).prng.current_seed),
        final(battle).prng.start_seed == old(battle).prng.start_seed,
        final(battle).state == old(battle).state,
        final(battle).message_log == old(battle).message_log,
        final(battle).turn_number == old(battle).turn_number,
        final(battle).format == old(battle).format,
{
    match hits {
        Count::Fixed(number_of_hits) => number_of_hits,
        Count::RandomInRange { min, max } => battle.roll_random_number_in_range(min as u16, max as u16) as u8,
    }
}

/// The message that `attacker` used `move_name` on `target` ("itself" when it targets itself).
fn move_use_message(battle: &Battle, attacker_id: MonsterID, move_name: &str, target_id: MonsterID) -> (text: String)
    requires
        battle.state.has_monster(attacker_id),
        battle.state.has_monster(target_id),
    ensures
        text@ == move_use_text(battle.state, attacker_id, move_name@, target_id),
{
    let attacker = battle.monster(attacker_id).name();
    let mut text = compose_name(attacker.as_str(), " used ");
    text.append(move_name);
    text.append(" on ");
    if attacker_id == target_id {
        text.append("itself");
    } else {
        let target = battle.monster(target_id).name();
        text.append(target.as_str());
    }
    assert(text@ =~= move_use_text(battle.state, attacker_id, move_name@, target_id));
    text
}

/// What the battle says when the monster `user_id` uses the move `move_name` on `target_id`.
pub open spec fn move_use_text(state: BattleState, user_id: MonsterID, move_name: Seq<char>, target_id: MonsterID) -> Seq<char> {
    let target = if user_id == target_id {
        "itself"@
    } else {
        state.spec_monster(target_id).spec_name()
    };
    state.spec_monster(user_id).spec_name() + " used "@ + move_name + " on "@ + target
}

/// Whether the move `move_` (with the id `move_id`) of `user_id`, used on the targets `targets`
/// from the `index`-th on when no handler takes part, takes a battle in state `state`, with the
/// generator in state `seed` and the messages `log` said so far, to `end_state`, `end_seed` and
/// `end_log`: for each target in turn, the battle says that the move is used on it, a number of
/// hits is drawn (see `Count::spec_init`), the hits do what `hits_lead_to` says, and the battle
/// closes them (see `closing_messages`).
pub open spec fn move_use_leads_to(
    state: BattleState,
    seed: u64,
    log: Seq<Seq<char>>,
    user_id: MonsterID,
    move_id: MoveID,
    move_: Move,
    targets: Seq<MonsterID>,
    index: int,
    end_state: BattleState,
    end_seed: u64,
    end_log: Seq<Seq<char>>,
) -> bool
    decreases targets.len() - index,
{
    if index < 0 || index >= targets.len() {
        end_state == state && end_seed == seed && end_log == log
    } else {
        let hits = move_.species.hits_per_target;
        let context = MoveHitContext {
            move_user_id: user_id,
            move_used_id: move_id,
            target_id: targets[index],
            number_of_hits: hits.spec_init(seed),
            number_of_targets: targets.len() as u8,
        };
        let used = move_use_text(state, user_id, move_.species.name@, targets[index]);
        exists|hit_state: BattleState, hit_seed: u64, tally: (int, int, TypeEffectiveness, Seq<Seq<char>>)|
            #[trigger] hits_lead_to(
                state,
                hits.spec_state_after_init(seed),
                context,
                move_,
                1,
                (0, 0, TypeEffectiveness::Effective, Seq::<Seq<char>>::empty()),
                hit_state,
                hit_seed,
                tally,
            ) && move_use_leads_to(
                hit_state,
                hit_seed,
                log + seq![used] + tally.3 + closing_messages(context.number_of_hits as int, move_, tally),
                user_id,
                move_id,
                move_,
                targets,
                index + 1,
                end_state,
                end_seed,
                end_log,
            )
    }
}

/// What using the move `move_id` of `user_id` on `targets` makes of `old` when no handler takes
/// part (see `move_use_leads_to`): the hits on each target, then a power point spent.
pub open spec fn move_used_without_handlers(
    new: Battle,
    old: Battle,
    user_id: MonsterID,
    move_id: MoveID,
    targets: Seq<MonsterID>,
) -> bool {
    exists|hit_state: BattleState, hit_seed: u64, hit_log: Seq<Seq<char>>|
        #[trigger] move_use_leads_to(
            old.state,
            old.prng.current_seed,
            Seq::empty(),
            user_id,
            move_id,
            old.state.spec_move(move_id),
            targets,
            0,
            hit_state,
            hit_seed,
            hit_log,
        ) && power_point_spent(new.state, hit_state, move_id) && new.prng.current_seed == hit_seed
            && new.prng.start_seed == old.prng.start_seed && new.message_log.spec_messages()
            == old.message_log.spec_messages() + hit_log && new.message_log.shown_messages_cursor
            == old.message_log.shown_messages_cursor
}

/// What the effect of `move_` on the target of `context` makes of `battle`, with the handlers
/// answering as `responder` says: calculated damage (see `calculated_damage_dealt`), or an
/// effect of the mechanics, which the responder performs (see `EventResponder::effect_result`).
pub open spec fn move_effect_performed<R: EventResponder>(
    responder: &R,
    battle: Battle,
    context: MoveHitContext,
    move_: Move,
    new: Battle,
) -> bool {
    match move_.species.on_hit_effect {
        MoveEffect::DealCalculatedDamage => exists|outcome: Outcome<Nothing>|
            #[trigger] calculated_damage_dealt(responder, battle, context, move_, new, outcome),
        MoveEffect::Custom(effect) => new == responder.effect_result(
            battle,
            MechanicEffect::Move { effect, move_hit_context: context },
        ).0,
    }
}

/// Whether the move `move_` (with the id `move_id`) of `user_id`, used on the targets `targets`
/// from the `index`-th on with the handlers answering as `responder` says, takes `battle` to
/// `end`: for each target in turn, a number of hits is drawn (see `Count::spec_init`), the
/// battle says that the move is used on it, and the move's effect is performed once on it (see
/// `move_effect_performed`).
pub open spec fn targets_hit<R: EventResponder>(
    responder: &R,
    battle: Battle,
    user_id: MonsterID,
    move_id: MoveID,
    move_: Move,
    targets: Seq<MonsterID>,
    index: int,
    end: Battle,
) -> bool
    decreases targets.len() - index,
{
    if index < 0 || index >= targets.len() {
        end == battle
    } else {
        let hits = move_.species.hits_per_target;
        let seed = battle.prng.current_seed;
        let drawn = with_seed(battle, hits.spec_state_after_init(seed));
        let context = MoveHitContext {
            move_user_id: user_id,
            move_used_id: move_id,
            target_id: targets[index],
            number_of_hits: hits.spec_init(seed),
            number_of_targets: targets.len() as u8,
        };
        exists|announced: Battle, effected: Battle|
            #[trigger] move_effect_performed(responder, announced, context, move_, effected) && said(
                announced,
                drawn,
                seq![move_use_text(drawn.state, user_id, move_.species.name@, targets[index])],
            ) && targets_hit(responder, effected, user_id, move_id, move_, targets, index + 1, end)
    }
}

/// Whether `event_context` describes the use of the move `move_id` by `user_id` on `targets`.
pub open spec fn is_move_use_event(event_context: EventContext, user_id: MonsterID, move_id: MoveID, targets: Seq<MonsterID>) -> bool {
    &&& event_context matches EventContext::MoveUse(context)
    &&& context.move_user_id == user_id
    &&& context.move_used_id == move_id
    &&& context.target_ids@ == targets
}

/// What using the move `move_id` of `user_id` on `targets` (see `use_move`) makes of `old`, with
/// the handlers answering as `responder` says and `event_context` describing the use:
/// `OnTryMove` is dispatched, and when it fails the battle says that the move failed. Otherwise,
/// with no targets, the battle says so. Otherwise the move's effect is performed on each target
/// in turn (see `targets_hit`), the move loses one power point, and `OnDamagingMoveUsed` (or
/// `OnStatusMoveUsed`, for a status move) is dispatched. Power points are only spent in that
/// last case.
pub open spec fn move_used<R: EventResponder>(
    responder: &R,
    old: Battle,
    user_id: MonsterID,
    move_id: MoveID,
    targets: Seq<MonsterID>,
    event_context: EventContext,
    new: Battle,
) -> bool {
    let move_ = old.state.spec_move(move_id);
    let trial = trial_dispatched(responder, old, EventID::OnTryMove, Some(user_id), event_context);
    if trial.1 is Failure {
        said(new, trial.0, seq!["The move failed!"@])
    } else if targets.len() == 0 {
        said(new, trial.0, seq![no_targets_message(trial.0.state.spec_monster(user_id).spec_name(), move_.species.name@)])
    } else {
        exists|hit: Battle, spent: Battle|
            #[trigger] targets_hit(responder, trial.0, user_id, move_id, move_, targets, 0, hit) && #[trigger] power_point_taken(
                spent,
                hit,
                move_id,
            ) && new == dispatched(
                responder,
                spent,
                if move_.species.category == MoveCategory::Status {
                    EventID::OnStatusMoveUsed
                } else {
                    EventID::OnDamagingMoveUsed
                },
                Some(user_id),
                event_context,
                EventValue::Nothing,
                None,
            ).0
    }
}

/// Whether `state` has no handler for the events of using a damaging move: `OnTryMove`, those
/// of a hit (see `no_hit_handlers`) and `OnDamagingMoveUsed`.
pub open spec fn no_move_use_handlers(state: BattleState) -> bool {
    &&& spec_event_handlers(state, EventID::OnTryMove).len() == 0
    &&& no_hit_handlers(state)
    &&& spec_event_handlers(state, EventID::OnDamagingMoveUsed).len() == 0
}

/// Uses the move `move_use_context.move_used_id` of `move_use_context.move_user_id` on each of
/// `move_use_context.target_ids`. The move fails if a handler of `OnTryMove` stops it, and does
/// nothing but say so if it has no targets. Otherwise, for each target, a number of hits is drawn
/// and the move's effect is performed: the damage formula (see `deal_calculated_damage`) or an
/// effect of the mechanics. Then the move loses a power point and `OnDamagingMoveUsed` or
/// `OnStatusMoveUsed` is dispatched. With the handlers answering as `responder` says, the use
/// is what `move_used` says: a move that fails or has no targets keeps its power points, and
/// otherwise its effect is performed once per target, in order, before it loses one. When no
/// handler takes part, a move that deals calculated damage does what `move_use_leads_to` says
/// and then loses a power point.
#[verifier::rlimit(60)]
pub fn use_move<R: EventResponder>(battle: &mut Battle, responder: &R, move_use_context: &MoveUseContext)
    requires
        old(battle).wf(),
        old(battle).state.has_monster(move_use_context.move_user_id),
        old(battle).state.has_move(move_use_context.move_used_id),
        old(battle).state.spec_move(move_use_context.move_used_id).current_power_points > 0,
        forall|i: int|
            0 <= i < move_use_context.target_ids@.len() ==> old(battle).state.has_monster(
                #[trigger] move_use_context.target_ids@[i],
            ),
        move_use_context.target_ids@.len() <= 6,
    ensures
        final(battle).wf(),
        same_roster(final(battle).state, old(battle).state),
        spec_event_handlers(old(battle).state, EventID::OnTryMove).len() == 0 && move_use_context.target_ids@.len() == 0
            ==> {
            &&& final(battle).state == old(battle).state
            &&& same_frame(*final(battle), *old(battle))
            &&& queued(*final(battle), *old(battle), seq![no_targets_message(
                old(battle).state.spec_monster(move_use_context.move_user_id).spec_name(),
                old(battle).state.spec_move(move_use_context.move_used_id).species.name@,
            )])
        },
        move_use_context.target_ids@.len() > 0 && no_move_use_handlers(old(battle).state) && old(
            battle,
        ).state.spec_move(move_use_context.move_used_id).species.on_hit_effect == MoveEffect::DealCalculatedDamage
            ==> move_used_without_handlers(
            *final(battle),
            *old(battle),
            move_use_context.move_user_id,
            move_use_context.move_used_id,
            move_use_context.target_ids@,
        ),
        exists|event_context: EventContext|
            #[trigger] is_move_use_event(
                event_context,
                move_use_context.move_user_id,
                move_use_context.move_used_id,
                move_use_context.target_ids@,
            ) && move_used(
                responder,
                *old(battle),
                move_use_context.move_user_id,
                move_use_context.move_used_id,
                move_use_context.target_ids@,
                event_context,
                *final(battle),
            ),
{
    let move_user_id = move_use_context.move_user_id;
    let move_used_id = move_use_context.move_used_id;
    let move_ = *battle.state.move_(move_used_id);
    proof {
        let owner = battle.state.spec_monster(move_used_id.owner_id);
        assert(owner.moveset@[crate::move_::move_number_index(move_used_id.move_number)] == move_);
    }
    let event_context = EventContext::MoveUse(
        MoveUseContext { move_user_id, move_used_id, target_ids: move_use_context.target_ids.clone() },
    );
    proof {
        let context = event_context->MoveUse_0;
        assert(context.target_ids@ =~= move_use_context.target_ids@);
        assert(is_move_use_event(event_context, move_user_id, move_used_id, move_use_context.target_ids@));
    }
    let try_use_move_outcome = dispatch_trial_event(battle, responder, EventID::OnTryMove, Some(move_user_id), &event_context);
    let ghost after_trial = *battle;
    if try_use_move_outcome.is_failure() {
        let message = String::from_str("The move failed!");
        let ghost log_before = battle.message_log.spec_messages();
        battle.queue_message(message);
        assert(battle.message_log.spec_messages() =~= log_before + seq!["The move failed!"@]);
        assert(move_used(responder, *old(battle), move_user_id, move_used_id, move_use_context.target_ids@, event_context, *battle));
        return;
    }
    let number_of_targets = move_use_context.target_ids.len();
    if number_of_targets == 0 {
        let user_name = battle.monster(move_user_id).name();
        let mut message = compose_name(user_name.as_str(), "'s ");
        message.append(move_.name());
        message.append(" has no targets...");
        let ghost text = message@;
        let ghost log_before = battle.message_log.spec_messages();
        battle.queue_message(message);
        assert(battle.message_log.spec_messages() =~= log_before + seq![text]);
        assert(move_used(responder, *old(battle), move_user_id, move_used_id, move_use_context.target_ids@, event_context, *battle));
        return;
    }
    let ghost quiet = no_move_use_handlers(old(battle).state) && move_.species.on_hit_effect
        == MoveEffect::DealCalculatedDamage;
    let ghost targets = move_use_context.target_ids@;
    let ghost mut use_log: Seq<Seq<char>> = Seq::empty();
    proof {
        if quiet {
            assert(battle.message_log.spec_messages() =~= old(battle).message_log.spec_messages() + use_log);
        }
    }
    let mut j: usize = 0;
    while j < number_of_targets
        invariant
            j <= number_of_targets == move_use_context.target_ids@.len() <= 6,
            battle.wf(),
            same_roster(battle.state, old(battle).state),
            battle.state.has_monster(move_user_id),
            move_user_id == move_use_context.move_user_id,
            move_used_id == move_use_context.move_used_id,
            move_.species.wf(),
            move_ == old(battle).state.spec_move(move_used_id),
            targets == move_use_context.target_ids@,
            forall|i: int|
                0 <= i < move_use_context.target_ids@.len() ==> battle.state.has_monster(
                    #[trigger] move_use_context.target_ids@[i],
                ),
            quiet == (no_move_use_handlers(old(battle).state) && move_.species.on_hit_effect
                == MoveEffect::DealCalculatedDamage),
            quiet ==> battle.prng.start_seed == old(battle).prng.start_seed,
            quiet ==> no_hit_handlers(battle.state),
            quiet ==> spec_event_handlers(battle.state, EventID::OnDamagingMoveUsed).len() == 0,
            quiet ==> battle.state.has_move(move_used_id) && battle.state.spec_move(move_used_id) == move_,
            quiet ==> battle.message_log.spec_messages() == old(battle).message_log.spec_messages() + use_log,
            quiet ==> battle.message_log.shown_messages_cursor == old(battle).message_log.shown_messages_cursor,
            forall|end: Battle|
                #[trigger] targets_hit(responder, *battle, move_user_id, move_used_id, move_, targets, j as int, end)
                    ==> targets_hit(responder, after_trial, move_user_id, move_used_id, move_, targets, 0, end),
            quiet ==> forall|end_state: BattleState, end_seed: u64, end_log: Seq<Seq<char>>|
                #[trigger] move_use_leads_to(
                    battle.state,
                    battle.prng.current_seed,
                    use_log,
                    move_user_id,
                    move_used_id,
                    move_,
                    targets,
                    j as int,
                    end_state,
                    end_seed,
                    end_log,
                ) ==> move_use_leads_to(
                    old(battle).state,
                    old(battle).prng.current_seed,
                    Seq::empty(),
                    move_user_id,
                    move_used_id,
                    move_,
                    targets,
                    0,
                    end_state,
                    end_seed,
                    end_log,
                ),
        decreases number_of_targets - j,
    {
        let ghost state_before = battle.state;
        let ghost seed_before = battle.prng.current_seed;
        let ghost log_before = use_log;
        let ghost battle_before = *battle;
        let target_id = move_use_context.target_ids[j];
        let number_of_hits = number_of_hits_for(battle, move_.species.hits_per_target);
        let ghost drawn = *battle;
        assert(drawn == with_seed(battle_before, move_.species.hits_per_target.spec_state_after_init(seed_before)));
        let move_hit_context = MoveHitContext {
            move_user_id,
            move_used_id,
            target_id,
            number_of_hits,
            number_of_targets: number_of_targets as u8,
        };
        let message = move_use_message(battle, move_user_id, move_.name(), target_id);
        let ghost text = message@;
        battle.queue_message(message);
        let ghost before_hit = *battle;
        assert(before_hit.message_log.spec_messages() =~= drawn.message_log.spec_messages() + seq![text]);
        assert(said(before_hit, drawn, seq![move_use_text(drawn.state, move_user_id, move_.species.name@, target_id)]));
        match move_.species.on_hit_effect {
            MoveEffect::DealCalculatedDamage => {
                let outcome = deal_calculated_damage_with(battle, responder, move_hit_context, move_);
                proof {
                    if quiet {
                        let tally = choose|tally: (int, int, TypeEffectiveness, Seq<Seq<char>>)|
                            #[trigger] hits_lead_to(
                                before_hit.state,
                                before_hit.prng.current_seed,
                                move_hit_context,
                                move_,
                                1,
                                (0, 0, TypeEffectiveness::Effective, Seq::<Seq<char>>::empty()),
                                battle.state,
                                battle.prng.current_seed,
                                tally,
                            ) && (outcome is Success <==> spec_damage_outcome(
                                move_hit_context.number_of_hits,
                                tally.0 as u8,
                                tally.1 as u8,
                                tally.2,
                            )) && battle.message_log.spec_messages() == before_hit.message_log.spec_messages() + tally.3
                                + closing_messages(move_hit_context.number_of_hits as int, move_, tally)
                                && battle.message_log.shown_messages_cursor == before_hit.message_log.shown_messages_cursor;
                        let used = move_use_text(state_before, move_user_id, move_.species.name@, target_id);
                        assert(before_hit.message_log.spec_messages() == old(battle).message_log.spec_messages() + log_before
                            + seq![used]);
                        use_log = log_before + seq![used] + tally.3 + closing_messages(
                            move_hit_context.number_of_hits as int,
                            move_,
                            tally,
                        );
                        assert(battle.message_log.spec_messages() =~= old(battle).message_log.spec_messages() + use_log);
                        lemma_hits_keep_moves_and_handlers(
                            before_hit.state,
                            before_hit.prng.current_seed,
                            move_hit_context,
                            move_,
                            1,
                            (0, 0, TypeEffectiveness::Effective, Seq::<Seq<char>>::empty()),
                            battle.state,
                            battle.prng.current_seed,
                            tally,
                            move_used_id,
                            EventID::OnDamagingMoveUsed,
                        );
                        lemma_hits_keep_no_hit_handlers(
                            before_hit.state,
                            before_hit.prng.current_seed,
                            move_hit_context,
                            move_,
                            tally,
                            battle.state,
                            battle.prng.current_seed,
                        );
                        assert forall|end_state: BattleState, end_seed: u64, end_log: Seq<Seq<char>>|
                            #[trigger] move_use_leads_to(
                                battle.state,
                                battle.prng.current_seed,
                                use_log,
                                move_user_id,
                                move_used_id,
                                move_,
                                targets,
                                j + 1,
                                end_state,
                                end_seed,
                                end_log,
                            ) implies move_use_leads_to(
                            old(battle).state,
                            old(battle).prng.current_seed,
                            Seq::empty(),
                            move_user_id,
                            move_used_id,
                            move_,
                            targets,
                            0,
                            end_state,
                            end_seed,
                            end_log,
                        ) by {
                            assert(move_use_leads_to(
                                state_before,
                                seed_before,
                                log_before,
                                move_user_id,
                                move_used_id,
                                move_,
                                targets,
                                j as int,
                                end_state,
                                end_seed,
                                end_log,
                            ));
                        }
                    }
                }
            },
            MoveEffect::Custom(effect) => {
                let _ = responder.perform_effect(battle, MechanicEffect::Move { effect, move_hit_context });
            },
        }
        proof {
            assert(move_effect_performed(responder, before_hit, move_hit_context, move_, *battle));
            assert forall|end: Battle|
                #[trigger] targets_hit(responder, *battle, move_user_id, move_used_id, move_, targets, j + 1, end) implies targets_hit(
                responder,
                after_trial,
                move_user_id,
                move_used_id,
                move_,
                targets,
                0,
                end,
            ) by {
                assert(targets_hit(responder, battle_before, move_user_id, move_used_id, move_, targets, j as int, end));
            }
        }
        j += 1;
    }
    let ghost hit = *battle;
    proof {
        if quiet {
            assert(move_use_leads_to(
                hit.state,
                hit.prng.current_seed,
                use_log,
                move_user_id,
                move_used_id,
                move_,
                targets,
                number_of_targets as int,
                hit.state,
                hit.prng.current_seed,
                use_log,
            ));
        }
    }
    proof {
        assert(targets_hit(responder, hit, move_user_id, move_used_id, move_, targets, number_of_targets as int, hit));
        assert(targets_hit(responder, after_trial, move_user_id, move_used_id, move_, targets, 0, hit));
    }
    decrement_power_points(battle, move_used_id);
    let ghost spent = *battle;
    proof {
        if quiet {
            lemma_spending_adds_no_handlers(battle.state, hit.state, move_used_id, EventID::OnDamagingMoveUsed);
        }
    }
    match move_.species.category {
        MoveCategory::Physical | MoveCategory::Special => {
            dispatch_notify_event(battle, responder, EventID::OnDamagingMoveUsed, Some(move_user_id), &event_context);
        },
        MoveCategory::Status => {
            dispatch_notify_event(battle, responder, EventID::OnStatusMoveUsed, Some(move_user_id), &event_context);
        },
    }
    proof {
        assert(targets_hit(responder, after_trial, move_user_id, move_used_id, move_, targets, 0, hit));
        assert(power_point_taken(spent, hit, move_used_id));
        assert(move_used(responder, *old(battle), move_user_id, move_used_id, targets, event_context, *battle));
    }
}

/// `new` is `old` after `decrement_power_points`: one power point taken from the move `move_id`
/// if it names a move that has one left (see `power_point_spent`), and nothing else changed.
pub open spec fn power_point_taken(new: Battle, old: Battle, move_id: MoveID) -> bool {
    &&& same_frame(new, old)
    &&& new.message_log == old.message_log
    &&& old.state.has_move(move_id) && old.state.spec_move(move_id).current_power_points > 0 ==> power_point_spent(
        new.state,
        old.state,
        move_id,
    )
    &&& !(old.state.has_move(move_id) && old.state.spec_move(move_id).current_power_points > 0) ==> new == old
}

/// `new` is `old` with one power point taken from the move `move_id`, and nothing else changed.
pub open spec fn power_point_spent(new: BattleState, old: BattleState, move_id: MoveID) -> bool {
    let before = old.spec_monster(move_id.owner_id);
    let after = new.spec_monster(move_id.owner_id);
    let spent = old.spec_move(move_id);
    &&& monster_replaced(new, old, move_id.owner_id, after)
    &&& after == (Monster { moveset: after.moveset, ..before })
    &&& after.moveset@ == before.moveset@.update(
        crate::move_::move_number_index(move_id.move_number),
        (Move { current_power_points: (spent.current_power_points - 1) as u8, ..spent }),
    )
}

/// Spending a power point gives no monster handlers that it did not have.
pub proof fn lemma_spending_adds_no_handlers(new: BattleState, old: BattleState, move_id: MoveID, event: EventID)
    requires
        old.has_monster(move_id.owner_id),
        power_point_spent(new, old, move_id),
        spec_event_handlers(old, event).len() == 0,
    ensures
        spec_event_handlers(new, event).len() == 0,
{
    let before = old.spec_monster(move_id.owner_id);
    let after = new.spec_monster(move_id.owner_id);
    lemma_monster_of_a_battle_without_handlers(old, move_id.owner_id, event);
    lemma_same_mechanics_have_no_handlers(before, after, event);
    lemma_replacing_keeps_no_handlers(new, old, move_id.owner_id, after, event);
}

/// Takes one power point from the move `move_id`, if it names a move that has one left.
pub fn decrement_power_points(battle: &mut Battle, move_id: MoveID)
    requires
        old(battle).wf(),
    ensures
        final(battle).wf(),
        same_frame(*final(battle), *old(battle)),
        final(battle).message_log == old(battle).message_log,
        same_roster(final(battle).state, old(battle).state),
        old(battle).state.has_move(move_id) && old(battle).state.spec_move(move_id).current_power_points > 0 ==> {
            &&& final(battle).state.has_move(move_id)
            &&& final(battle).state.spec_move(move_id) == (Move {
                current_power_points: (old(battle).state.spec_move(move_id).current_power_points - 1) as u8,
                ..old(battle).state.spec_move(move_id)
            })
            &&& power_point_spent(final(battle).state, old(battle).state, move_id)
        },
        !(old(battle).state.has_move(move_id) && old(battle).state.spec_move(move_id).current_power_points > 0)
            ==> *final(battle) == *old(battle),
        power_point_taken(*final(battle), *old(battle), move_id),
{
    let owner_id = move_id.owner_id;
    let index = move_id.move_number.index();
    let team = battle.state.teams.get(owner_id.team_id);
    if owner_id.monster_number.index() >= team.monsters.len() {
        return;
    }
    if index >= battle.monster(owner_id).moveset.len() {
        return;
    }
    let mut move_ = battle.monster(owner_id).moveset[index];
    if move_.current_power_points == 0 {
        return;
    }
    move_.current_power_points = move_.current_power_points - 1;
    let ghost before = battle.state;
    let monster = battle.monster_mut(owner_id);
    monster.moveset.set(index, move_);
    proof {
        let after = battle.state.spec_monster(owner_id);
        assert forall|i: int| 0 <= i < after.moveset@.len() implies (#[trigger] after.moveset@[i]).species.wf() by {
            if i != index as int {
                assert(after.moveset@[i] == before.spec_monster(owner_id).moveset@[i]);
            }
        }
        lemma_monster_replaced_keeps_wf(battle.state, before, owner_id, after);
    }
}

// Stat changes -------------------------------------------------------------------------------- //

/// The number of stages by which a change of `stages` actually moves a stat at stage `current`:
/// negative when lowering, positive when raising, stopping at -6 and +6.
pub open spec fn stat_change_effect(current: i8, stages: i8) -> int {
    if stages < 0 {
        -effective_lowering(current, (-stages) as u8)
    } else if stages == 0 {
        0
    } else {
        effective_raise(current, stages as u8)
    }
}

/// What the battle says when a change of `stages` moves the stat `stat` of the monster `name` by
/// `effect` stages.
pub open spec fn stat_change_message(name: Seq<char>, stat: ModifiableStat, stages: i8, effect: int) -> Seq<char> {
    if stages < 0 {
        if effect == 0 {
            name + "'s stats cannot get any lower."@
        } else {
            name + "'s "@ + modifiable_stat_name(stat) + " was lowered by "@ + decimal((-effect) as nat) + " stage(s)!"@
        }
    } else if stages == 0 {
        "But "@ + name + "'s stats ended up unchanged!"@
    } else if effect == 0 {
        name + "'s stats cannot get any higher."@
    } else {
        name + "'s "@ + modifiable_stat_name(stat) + " was raised by "@ + decimal(effect as nat) + " stage(s)!"@
    }
}

/// `new` is `old` after the stat `stat` of `monster_id` was changed by `stages` (see
/// `apply_stat_change`).
pub open spec fn stat_change_applied(new: Battle, old: Battle, monster_id: MonsterID, stat: ModifiableStat, stages: i8) -> bool {
    let before = old.state.spec_monster(monster_id);
    let effect = stat_change_effect(before.stat_modifiers.spec_get(stat), stages);
    &&& new.wf()
    &&& only_monster_changed(new, old, monster_id, (Monster {
        stat_modifiers: before.stat_modifiers.spec_set(stat, (before.stat_modifiers.spec_get(stat) + effect) as i8),
        ..before
    }))
    &&& queued(new, old, seq![stat_change_message(before.spec_name(), stat, stages, effect)])
}

/// Changes the stat `stat` of `monster_id` by `stages` (-6 to 6), stopping at -6 and +6, says
/// how it changed and returns the number of stages it actually moved (negative when lowered).
pub fn apply_stat_change(battle: &mut Battle, monster_id: MonsterID, stat: ModifiableStat, stages: i8) -> (effect: i8)
    requires
        old(battle).wf(),
        old(battle).state.has_monster(monster_id),
        -6 <= stages <= 6,
    ensures
        final(battle).wf(),
        effect == stat_change_effect(old(battle).state.spec_monster(monster_id).stat_modifiers.spec_get(stat), stages),
        only_monster_changed(*final(battle), *old(battle), monster_id, (Monster {
            stat_modifiers: old(battle).state.spec_monster(monster_id).stat_modifiers.spec_set(
                stat,
                (old(battle).state.spec_monster(monster_id).stat_modifiers.spec_get(stat) + effect) as i8,
            ),
            ..old(battle).state.spec_monster(monster_id)
        })),
        queued(
            *final(battle),
            *old(battle),
            seq![stat_change_message(old(battle).state.spec_monster(monster_id).spec_name(), stat, stages, effect as int)],
        ),
{
    let ghost before = battle.state;
    let name = battle.monster(monster_id).name();
    let ghost log_before = battle.message_log.spec_messages();
    if stages < 0 {
        let by: u8 = (0 - stages as i16) as u8;
        let monster = battle.monster_mut(monster_id);
        let lowered = monster.stat_modifiers.lower_stat(stat, by);
        proof {
            lemma_monster_replaced_keeps_wf(battle.state, before, monster_id, battle.state.spec_monster(monster_id));
        }
        let message = if lowered == 0 {
            compose_name(name.as_str(), "'s stats cannot get any lower.")
        } else {
            let mut message = compose_name(name.as_str(), "'s ");
            message.append(stat.name());
            let rest = compose_number(" was lowered by ", lowered as u64, " stage(s)!");
            message.append(rest.as_str());
            message
        };
        let ghost text = message@;
        assert(text =~= stat_change_message(name@, stat, stages, -(lowered as int)));
        battle.queue_message(message);
        assert(battle.message_log.spec_messages() =~= log_before + seq![text]);
        -(lowered as i8)
    } else if stages == 0 {
        let message = compose("But ", name.as_str(), "'s stats ended up unchanged!");
        let ghost text = message@;
        battle.queue_message(message);
        assert(battle.message_log.spec_messages() =~= log_before + seq![text]);
        proof {
            let m = before.spec_monster(monster_id);
            assert(m.stat_modifiers.spec_set(stat, m.stat_modifiers.spec_get(stat)) == m.stat_modifiers);
            assert(before.team_monsters(monster_id.team_id).update(
                crate::monster::monster_number_index(monster_id.monster_number),
                m,
            ) =~= before.team_monsters(monster_id.team_id));
        }
        0
    } else {
        let monster = battle.monster_mut(monster_id);
        let raised = monster.stat_modifiers.raise_stat(stat, stages as u8);
        proof {
            lemma_monster_replaced_keeps_wf(battle.state, before, monster_id, battle.state.spec_monster(monster_id));
        }
        let message = if raised == 0 {
            compose_name(name.as_str(), "'s stats cannot get any higher.")
        } else {
            let mut message = compose_name(name.as_str(), "'s ");
            message.append(stat.name());
            let rest = compose_number(" was raised by ", raised as u64, " stage(s)!");
            message.append(rest.as_str());
            message
        };
        let ghost text = message@;
        assert(text =~= stat_change_message(name@, stat, stages, raised as int));
        battle.queue_message(message);
        assert(battle.message_log.spec_messages() =~= log_before + seq![text]);
        raised as i8
    }
}

/// The number that an `i8` event relayed as `value`, or `default` for a value of another kind.
pub open spec fn i8_value_or(value: EventValue, default: i8) -> i8 {
    match value {
        EventValue::I8(n) => n,
        _ => default,
    }
}

/// Changes the stat `stat` of `affected_monster_id` by `number_of_stages`. Handlers of
/// `OnModifyStatChange` may first modify the number of stages; then the change fails if a handler
/// of `OnTryStatChange` stops it, or if the modified number lies outside -6 to 6. Otherwise it is
/// applied (see `apply_stat_change`), `OnStatChanged` is dispatched, and the result is the number
/// of stages that the stat actually moved.
pub fn change_stat<R: EventResponder>(
    battle: &mut Battle,
    responder: &R,
    affected_monster_id: MonsterID,
    stat: ModifiableStat,
    number_of_stages: i8,
) -> (outcome: Outcome<i8>)
    requires
        old(battle).wf(),
        old(battle).state.has_monster(affected_monster_id),
    ensures
        final(battle).wf(),
        same_roster(final(battle).state, old(battle).state),
        outcome matches Outcome::Success(effect) ==> -6 <= effect <= 6,
        spec_event_handlers(old(battle).state, EventID::OnModifyStatChange).len() == 0 && spec_event_handlers(
            old(battle).state,
            EventID::OnTryStatChange,
        ).len() == 0 ==> {
            &&& -6 <= number_of_stages <= 6 ==> outcome == Outcome::Success(
                stat_change_effect(
                    old(battle).state.spec_monster(affected_monster_id).stat_modifiers.spec_get(stat),
                    number_of_stages,
                ) as i8,
            )
            &&& !(-6 <= number_of_stages <= 6) ==> outcome is Failure && *final(battle) == *old(battle)
            &&& -6 <= number_of_stages <= 6 ==> exists|changed: Battle|
                #[trigger] stat_change_applied(changed, *old(battle), affected_monster_id, stat, number_of_stages)
                    && (no_handler_responds(changed.state, EventID::OnStatChanged, Some(affected_monster_id), None)
                    ==> only_generator_changed(*final(battle), changed))
        },
        ({
            let modify = dispatched(
                responder,
                *old(battle),
                EventID::OnModifyStatChange,
                Some(affected_monster_id),
                EventContext::StatChange((StatChangeContext { affected_monster_id, stat, number_of_stages })),
                EventValue::I8(number_of_stages),
                None,
            );
            let stages = i8_value_or(modify.1, number_of_stages);
            let event_context = EventContext::StatChange(
                (StatChangeContext { affected_monster_id, stat, number_of_stages: stages }),
            );
            let trial = trial_dispatched(responder, modify.0, EventID::OnTryStatChange, Some(affected_monster_id), event_context);
            let current = trial.0.state.spec_monster(affected_monster_id).stat_modifiers.spec_get(stat);
            &&& !(trial.1 is Success && -6 <= stages <= 6) ==> outcome is Failure && *final(battle) == trial.0
            &&& trial.1 is Success && -6 <= stages <= 6 ==> outcome == Outcome::Success(
                stat_change_effect(current, stages) as i8,
            ) && exists|changed: Battle|
                #[trigger] stat_change_applied(changed, trial.0, affected_monster_id, stat, stages) && *final(battle)
                    == dispatched(
                    responder,
                    changed,
                    EventID::OnStatChanged,
                    Some(affected_monster_id),
                    event_context,
                    EventValue::Nothing,
                    None,
                ).0
        }),
{
    let stat_change_context = StatChangeContext { affected_monster_id, stat, number_of_stages };
    let modified_number_of_stages = dispatch_i8_event(
        battle,
        responder,
        EventID::OnModifyStatChange,
        Some(affected_monster_id),
        &EventContext::StatChange(stat_change_context),
        number_of_stages,
    );
    let stat_change_context = StatChangeContext { affected_monster_id, stat, number_of_stages: modified_number_of_stages };
    let event_context = EventContext::StatChange(stat_change_context);
    let stat_change_outcome = dispatch_trial_event(battle, responder, EventID::OnTryStatChange, Some(affected_monster_id), &event_context);
    if stat_change_outcome.is_success() && -6 <= modified_number_of_stages && modified_number_of_stages <= 6 {
        let ghost unchanged = *battle;
        let effect = apply_stat_change(battle, affected_monster_id, stat, modified_number_of_stages);
        let ghost changed = *battle;
        dispatch_notify_event(battle, responder, EventID::OnStatChanged, Some(affected_monster_id), &event_context);
        proof {
            assert(stat_change_applied(changed, unchanged, affected_monster_id, stat, modified_number_of_stages));
        }
        Outcome::Success(effect)
    } else {
        Outcome::Failure
    }
}

// Statuses ------------------------------------------------------------------------------------ //

/// Whether `monster` has a volatile status of the kind with dex number `dex_number`.
pub open spec fn has_volatile_status(monster: Monster, dex_number: u16) -> bool {
    exists|i: int| 0 <= i < monster.volatile_statuses@.len() && #[trigger] monster.volatile_statuses@[i].species.dex_number == dex_number
}

/// `new` is `old` after the monster `id` was given a volatile status of `species` (see
/// `inflict_volatile_status`).
pub open spec fn volatile_status_inflicted(new: Battle, old: Battle, id: MonsterID, species: VolatileStatusSpecies) -> bool {
    let before = old.state.spec_monster(id);
    let after = new.state.spec_monster(id);
    let seed = old.prng.current_seed;
    &&& new.wf()
    &&& new.prng.current_seed == species.lifetime_in_turns.spec_state_after_init(seed)
    &&& new.prng.start_seed == old.prng.start_seed
    &&& new.turn_number == old.turn_number
    &&& new.format == old.format
    &&& monster_replaced(new.state, old.state, id, after)
    &&& after == (Monster { volatile_statuses: after.volatile_statuses, ..before })
    &&& after.volatile_statuses@ == before.volatile_statuses@.push(VolatileStatus {
        id: VolatileStatusID { owner_id: id, species_dex_number: species.dex_number },
        species: species,
        remaining_turns: species.lifetime_in_turns.spec_init(seed),
    })
    &&& queued(new, old, seq![before.spec_name() + species.on_acquired_message@])
}

/// Gives `affected_monster_id` a volatile status of `status_species`, lasting for a number of
/// turns drawn from the species' lifetime, and says so with the species' message. Fails,
/// changing nothing, if the monster already has a status of that kind, or already has 16.
pub fn inflict_volatile_status(
    battle: &mut Battle,
    affected_monster_id: MonsterID,
    status_species: VolatileStatusSpecies,
) -> (outcome: Outcome<Nothing>)
    requires
        old(battle).wf(),
        old(battle).state.has_monster(affected_monster_id),
        status_species.lifetime_in_turns.wf(),
    ensures
        final(battle).wf(),
        ({
            let before = old(battle).state.spec_monster(affected_monster_id);
            let after = final(battle).state.spec_monster(affected_monster_id);
            let seed = old(battle).prng.current_seed;
            let refused = has_volatile_status(before, status_species.dex_number) || before.volatile_statuses@.len()
                >= crate::monster::max_volatile_statuses();
            &&& refused ==> outcome is Failure && *final(battle) == *old(battle)
            &&& !refused ==> {
                &&& outcome is Success
                &&& final(battle).prng.current_seed == status_species.lifetime_in_turns.spec_state_after_init(seed)
                &&& final(battle).prng.start_seed == old(battle).prng.start_seed
                &&& final(battle).turn_number == old(battle).turn_number
                &&& final(battle).format == old(battle).format
                &&& monster_replaced(final(battle).state, old(battle).state, affected_monster_id, after)
                &&& after == (Monster { volatile_statuses: after.volatile_statuses, ..before })
                &&& after.volatile_statuses@ == before.volatile_statuses@.push(VolatileStatus {
                    id: VolatileStatusID { owner_id: affected_monster_id, species_dex_number: status_species.dex_number },
                    species: status_species,
                    remaining_turns: status_species.lifetime_in_turns.spec_init(seed),
                })
                &&& queued(*final(battle), *old(battle), seq![before.spec_name() + status_species.on_acquired_message@])
            }
        }),
{
    if battle.monster(affected_monster_id).volatile_status(status_species).is_some() {
        return Outcome::Failure;
    }
    if battle.monster(affected_monster_id).volatile_statuses.len() >= 16 {
        return Outcome::Failure;
    }
    let volatile_status = VolatileStatus::from_species(&mut battle.prng, status_species, affected_monster_id);
    let ghost before = battle.state;
    let monster = battle.monster_mut(affected_monster_id);
    monster.volatile_statuses.push(volatile_status);
    proof {
        lemma_monster_replaced_keeps_wf(battle.state, before, affected_monster_id, battle.state.spec_monster(affected_monster_id));
    }
    let name = battle.monster(affected_monster_id).name();
    let message = compose_name(name.as_str(), status_species.on_acquired_message);
    let ghost text = message@;
    battle.queue_message(message);
    assert(battle.message_log.spec_messages() =~= old(battle).message_log.spec_messages() + seq![text]);
    Outcome::Success(())
}

/// Gives `affected_monster_id` a volatile status of `status_species` (see
/// `inflict_volatile_status`), unless a handler of `OnTryInflictVolatileStatus` stops it; on
/// success, `OnVolatileStatusInflicted` is dispatched.
pub fn add_volatile_status<R: EventResponder>(
    battle: &mut Battle,
    responder: &R,
    affected_monster_id: MonsterID,
    status_species: VolatileStatusSpecies,
) -> (outcome: Outcome<Nothing>)
    requires
        old(battle).wf(),
        old(battle).state.has_monster(affected_monster_id),
        status_species.lifetime_in_turns.wf(),
    ensures
        final(battle).wf(),
        same_roster(final(battle).state, old(battle).state),
        spec_event_handlers(old(battle).state, EventID::OnTryInflictVolatileStatus).len() == 0 && (has_volatile_status(
            old(battle).state.spec_monster(affected_monster_id),
            status_species.dex_number,
        ) || old(battle).state.spec_monster(affected_monster_id).volatile_statuses@.len()
            >= crate::monster::max_volatile_statuses()) ==> outcome is Failure && *final(battle) == *old(battle),
        spec_event_handlers(old(battle).state, EventID::OnTryInflictVolatileStatus).len() == 0 && !(has_volatile_status(
            old(battle).state.spec_monster(affected_monster_id),
            status_species.dex_number,
        ) || old(battle).state.spec_monster(affected_monster_id).volatile_statuses@.len()
            >= crate::monster::max_volatile_statuses()) ==> outcome is Success && exists|inflicted: Battle|
            #[trigger] volatile_status_inflicted(inflicted, *old(battle), affected_monster_id, status_species)
                && (no_handler_responds(
                inflicted.state,
                EventID::OnVolatileStatusInflicted,
                Some(affected_monster_id),
                None,
            ) ==> only_generator_changed(*final(battle), inflicted)),
        ({
            let trial = trial_dispatched(
                responder,
                *old(battle),
                EventID::OnTryInflictVolatileStatus,
                Some(affected_monster_id),
                EventContext::Nothing,
            );
            let monster = trial.0.state.spec_monster(affected_monster_id);
            let refused = has_volatile_status(monster, status_species.dex_number) || monster.volatile_statuses@.len()
                >= crate::monster::max_volatile_statuses();
            &&& !(trial.1 is Success) || refused ==> outcome is Failure && *final(battle) == trial.0
            &&& trial.1 is Success && !refused ==> outcome is Success && exists|inflicted: Battle|
                #[trigger] volatile_status_inflicted(inflicted, trial.0, affected_monster_id, status_species)
                    && *final(battle) == dispatched(
                    responder,
                    inflicted,
                    EventID::OnVolatileStatusInflicted,
                    Some(affected_monster_id),
                    EventContext::Nothing,
                    EventValue::Nothing,
                    None,
                ).0
        }),
{
    let ghost unchanged = *battle;
    let try_inflict_status = dispatch_trial_event(
        battle,
        responder,
        EventID::OnTryInflictVolatileStatus,
        Some(affected_monster_id),
        &EventContext::Nothing,
    );
    if try_inflict_status.is_success() {
        let ghost tried = *battle;
        let outcome = inflict_volatile_status(battle, affected_monster_id, status_species);
        let ghost inflicted = *battle;
        if outcome.is_success() {
            proof {
                assert(volatile_status_inflicted(inflicted, tried, affected_monster_id, status_species));
                if tried == unchanged {
                    assert(volatile_status_inflicted(inflicted, unchanged, affected_monster_id, status_species));
                }
            }
            dispatch_notify_event(
                battle,
                responder,
                EventID::OnVolatileStatusInflicted,
                Some(affected_monster_id),
                &EventContext::Nothing,
            );
        }
        outcome
    } else {
        Outcome::Failure
    }
}

/// `new` is `old` after the monster `id` was given a persistent status of `species` (see
/// `inflict_persistent_status`).
pub open spec fn persistent_status_inflicted(new: Battle, old: Battle, id: MonsterID, species: PersistentStatusSpecies) -> bool {
    let before = old.state.spec_monster(id);
    &&& new.wf()
    &&& only_monster_changed(new, old, id, (Monster {
        persistent_status: Some(PersistentStatus { id: PersistentStatusID { owner_id: id }, species: species }),
        ..before
    }))
    &&& queued(new, old, seq![before.spec_name() + species.on_acquired_message@])
}

/// Gives `affected_monster_id` a persistent status of `status_species` and says so with the
/// species' message. Fails, changing nothing, if the monster already has a persistent status.
pub fn inflict_persistent_status(
    battle: &mut Battle,
    affected_monster_id: MonsterID,
    status_species: PersistentStatusSpecies,
) -> (outcome: Outcome<Nothing>)
    requires
        old(battle).wf(),
        old(battle).state.has_monster(affected_monster_id),
    ensures
        final(battle).wf(),
        ({
            let before = old(battle).state.spec_monster(affected_monster_id);
            &&& before.persistent_status is Some ==> outcome is Failure && *final(battle) == *old(battle)
            &&& before.persistent_status is None ==> {
                &&& outcome is Success
                &&& only_monster_changed(*final(battle), *old(battle), affected_monster_id, (Monster {
                    persistent_status: Some(PersistentStatus {
                        id: PersistentStatusID { owner_id: affected_monster_id },
                        species: status_species,
                    }),
                    ..before
                }))
                &&& queued(*final(battle), *old(battle), seq![before.spec_name() + status_species.on_acquired_message@])
            }
        }),
{
    if battle.monster(affected_monster_id).persistent_status.is_some() {
        return Outcome::Failure;
    }
    let persistent_status = PersistentStatus::from_species(status_species, affected_monster_id);
    let ghost before = battle.state;
    let monster = battle.monster_mut(affected_monster_id);
    monster.persistent_status = Some(persistent_status);
    proof {
        lemma_monster_replaced_keeps_wf(battle.state, before, affected_monster_id, battle.state.spec_monster(affected_monster_id));
    }
    let name = battle.monster(affected_monster_id).name();
    let message = compose_name(name.as_str(), status_species.on_acquired_message);
    let ghost text = message@;
    battle.queue_message(message);
    assert(battle.message_log.spec_messages() =~= old(battle).message_log.spec_messages() + seq![text]);
    Outcome::Success(())
}

/// Gives `affected_monster_id` a persistent status of `status_species` (see
/// `inflict_persistent_status`), unless a handler of `OnTryInflictPersistentStatus` stops it; on
/// success, `OnPersistentStatusInflicted` is dispatched.
pub fn add_persistent_status<R: EventResponder>(
    battle: &mut Battle,
    responder: &R,
    affected_monster_id: MonsterID,
    status_species: PersistentStatusSpecies,
) -> (outcome: Outcome<Nothing>)
    requires
        old(battle).wf(),
        old(battle).state.has_monster(affected_monster_id),
    ensures
        final(battle).wf(),
        same_roster(final(battle).state, old(battle).state),
        spec_event_handlers(old(battle).state, EventID::OnTryInflictPersistentStatus).len() == 0 && old(
            battle,
        ).state.spec_monster(affected_monster_id).persistent_status is Some ==> outcome is Failure && *final(battle)
            == *old(battle),
        spec_event_handlers(old(battle).state, EventID::OnTryInflictPersistentStatus).len() == 0 && old(
            battle,
        ).state.spec_monster(affected_monster_id).persistent_status is None ==> outcome is Success && exists|
            inflicted: Battle,
        |
            #[trigger] persistent_status_inflicted(inflicted, *old(battle), affected_monster_id, status_species)
                && (no_handler_responds(
                inflicted.state,
                EventID::OnPersistentStatusInflicted,
                Some(affected_monster_id),
                None,
            ) ==> only_generator_changed(*final(battle), inflicted)),
        ({
            let trial = trial_dispatched(
                responder,
                *old(battle),
                EventID::OnTryInflictPersistentStatus,
                Some(affected_monster_id),
                EventContext::Nothing,
            );
            let refused = trial.0.state.spec_monster(affected_monster_id).persistent_status is Some;
            &&& !(trial.1 is Success) || refused ==> outcome is Failure && *final(battle) == trial.0
            &&& trial.1 is Success && !refused ==> outcome is Success && exists|inflicted: Battle|
                #[trigger] persistent_status_inflicted(inflicted, trial.0, affected_monster_id, status_species)
                    && *final(battle) == dispatched(
                    responder,
                    inflicted,
                    EventID::OnPersistentStatusInflicted,
                    Some(affected_monster_id),
                    EventContext::Nothing,
                    EventValue::Nothing,
                    None,
                ).0
        }),
{
    let ghost unchanged = *battle;
    let try_inflict_status = dispatch_trial_event(
        battle,
        responder,
        EventID::OnTryInflictPersistentStatus,
        Some(affected_monster_id),
        &EventContext::Nothing,
    );
    if try_inflict_status.is_success() {
        let ghost tried = *battle;
        let outcome = inflict_persistent_status(battle, affected_monster_id, status_species);
        let ghost inflicted = *battle;
        if outcome.is_success() {
            proof {
                assert(persistent_status_inflicted(inflicted, tried, affected_monster_id, status_species));
                if tried == unchanged {
                    assert(persistent_status_inflicted(inflicted, unchanged, affected_monster_id, status_species));
                }
            }
            dispatch_notify_event(
                battle,
                responder,
                EventID::OnPersistentStatusInflicted,
                Some(affected_monster_id),
                &EventContext::Nothing,
            );
        }
        outcome
    } else {
        Outcome::Failure
    }
}

// Abilities and items -------------------------------------------------------------------------- //

/// Activates the ability of `ability_owner_id`: unless a handler of `OnTryActivateAbility` stops
/// it, the mechanics perform the effect `effect`, `OnAbilityActivated` is dispatched, and the
/// result is the effect's outcome.
pub fn activate_ability<R: EventResponder>(
    battle: &mut Battle,
    responder: &R,
    ability_owner_id: MonsterID,
    effect: u16,
) -> (outcome: Outcome<Nothing>)
    requires
        old(battle).wf(),
    ensures
        final(battle).wf(),
        same_roster(final(battle).state, old(battle).state),
        ({
            let context = (AbilityActivationContext {
                ability_owner_id,
                ability_used_id: crate::ability::AbilityID { owner_id: ability_owner_id },
            });
            let event_context = EventContext::AbilityActivation(context);
            let trial = trial_dispatched(
                responder,
                *old(battle),
                EventID::OnTryActivateAbility,
                Some(ability_owner_id),
                event_context,
            );
            let performed = responder.effect_result(
                trial.0,
                MechanicEffect::Ability { effect, ability_activation_context: context },
            );
            &&& trial.1 is Success ==> outcome == performed.1 && *final(battle) == dispatched(
                responder,
                performed.0,
                EventID::OnAbilityActivated,
                Some(ability_owner_id),
                event_context,
                EventValue::Nothing,
                None,
            ).0
            &&& !(trial.1 is Success) ==> outcome is Failure && *final(battle) == trial.0
        }),
{
    let ability_activation_context = AbilityActivationContext::from_owner(ability_owner_id);
    let event_context = EventContext::AbilityActivation(ability_activation_context);
    let try_activate_ability_outcome = dispatch_trial_event(
        battle,
        responder,
        EventID::OnTryActivateAbility,
        Some(ability_owner_id),
        &event_context,
    );
    if try_activate_ability_outcome.is_success() {
        let activation_outcome = responder.perform_effect(
            battle,
            MechanicEffect::Ability { effect, ability_activation_context },
        );
        dispatch_notify_event(battle, responder, EventID::OnAbilityActivated, Some(ability_owner_id), &event_context);
        activation_outcome
    } else {
        Outcome::Failure
    }
}

/// `new` is `old` after the held item of `item_holder_id` was taken for use (see
/// `take_held_item_for_use`).
pub open spec fn held_item_taken(new: Battle, old: Battle, item_holder_id: MonsterID) -> bool {
    let holder = old.state.spec_monster(item_holder_id);
    match holder.held_item {
        Some(held) => if held.species.is_consumable {
            &&& only_monster_changed(
                new,
                old,
                item_holder_id,
                (Monster { consumed_item: Some(held), held_item: None, ..holder }),
            )
            &&& new.message_log == old.message_log
            &&& new.wf()
        } else {
            new == old
        },
        None => new == old,
    }
}

/// Takes the held item of `item_holder_id` for use: a consumable item moves from the held item to
/// the consumed item (where moves like Recycle find it); any other stays held. Returns the item
/// that was held.
pub fn take_held_item_for_use(battle: &mut Battle, item_holder_id: MonsterID) -> (item: Option<Item>)
    requires
        old(battle).wf(),
        old(battle).state.has_monster(item_holder_id),
    ensures
        final(battle).wf(),
        item == old(battle).state.spec_monster(item_holder_id).held_item,
        item matches Some(held) ==> (held.species.is_consumable ==> only_monster_changed(
            *final(battle),
            *old(battle),
            item_holder_id,
            (Monster { consumed_item: Some(held), held_item: None, ..old(battle).state.spec_monster(item_holder_id) }),
        ) && final(battle).message_log == old(battle).message_log),
        item matches Some(held) ==> (!held.species.is_consumable ==> *final(battle) == *old(battle)),
        item is None ==> *final(battle) == *old(battle),
{
    let held_item = battle.monster(item_holder_id).held_item;
    match held_item {
        Some(item) => {
            if item.species.is_consumable {
                let ghost before = battle.state;
                let monster = battle.monster_mut(item_holder_id);
                monster.consumed_item = Some(item);
                monster.held_item = None;
                proof {
                    lemma_monster_replaced_keeps_wf(battle.state, before, item_holder_id, battle.state.spec_monster(item_holder_id));
                }
            }
        },
        None => {},
    }
    held_item
}

/// Uses the item held by `item_holder_id`: unless a handler of `OnTryUseHeldItem` stops it or the
/// monster holds no item, the item is taken for use (see `take_held_item_for_use`), the mechanics
/// perform the effect `effect`, `OnHeldItemUsed` is dispatched, and the result is a success
/// carrying the effect's outcome.
pub fn use_item<R: EventResponder>(
    battle: &mut Battle,
    responder: &R,
    item_holder_id: MonsterID,
    effect: u16,
) -> (outcome: Outcome<Outcome<Nothing>>)
    requires
        old(battle).wf(),
        old(battle).state.has_monster(item_holder_id),
    ensures
        final(battle).wf(),
        same_roster(final(battle).state, old(battle).state),
        spec_event_handlers(old(battle).state, EventID::OnTryUseHeldItem).len() == 0 && old(battle).state.spec_monster(
            item_holder_id,
        ).held_item is None ==> outcome is Failure && *final(battle) == *old(battle),
        spec_event_handlers(old(battle).state, EventID::OnTryUseHeldItem).len() == 0 && old(battle).state.spec_monster(
            item_holder_id,
        ).held_item is Some ==> outcome is Success,
        ({
            let context = (ItemUseContext { item_id: crate::item::ItemID { item_holder_id }, item_holder_id });
            let event_context = EventContext::ItemUse(context);
            let trial = trial_dispatched(responder, *old(battle), EventID::OnTryUseHeldItem, Some(item_holder_id), event_context);
            let held = trial.0.state.spec_monster(item_holder_id).held_item;
            &&& !(trial.1 is Success) || held is None ==> outcome is Failure && *final(battle) == trial.0
            &&& trial.1 is Success && held is Some ==> exists|taken: Battle|
                #[trigger] held_item_taken(taken, trial.0, item_holder_id) && ({
                    let performed = responder.effect_result(taken, MechanicEffect::Item { effect, item_use_context: context });
                    &&& outcome == Outcome::Success(performed.1)
                    &&& *final(battle) == dispatched(
                        responder,
                        performed.0,
                        EventID::OnHeldItemUsed,
                        Some(item_holder_id),
                        event_context,
                        EventValue::Nothing,
                        None,
                    ).0
                })
        }),
{
    let item_use_context = ItemUseContext::from_holder(item_holder_id);
    let event_context = EventContext::ItemUse(item_use_context);
    let try_use_item = dispatch_trial_event(battle, responder, EventID::OnTryUseHeldItem, Some(item_holder_id), &event_context);
    if try_use_item.is_success() {
        let ghost tried = *battle;
        let taken_item = take_held_item_for_use(battle, item_holder_id);
        proof {
            assert(held_item_taken(*battle, tried, item_holder_id));
        }
        match taken_item {
            Some(_) => {
                let on_use_outcome = responder.perform_effect(battle, MechanicEffect::Item { effect, item_use_context });
                dispatch_notify_event(battle, responder, EventID::OnHeldItemUsed, Some(item_holder_id), &event_context);
                Outcome::Success(on_use_outcome)
            },
            None => Outcome::Failure,
        }
    } else {
        Outcome::Failure
    }
}

// Actions ------------------------------------------------------------------------------------- //

/// The monsters standing on `positions` that have health left, in the order of the positions
/// (the allies' monster first where a position has more than one).
pub open spec fn targets_on(state: crate::battle::BattleState, positions: Seq<Option<FieldPosition>>) -> Seq<MonsterID>
    decreases positions.len(),
{
    if positions.len() == 0 {
        Seq::empty()
    } else {
        let rest = targets_on(state, positions.drop_last());
        match positions.last() {
            Some(position) => match crate::choice::first_monster_at(state.all_monsters(), position) {
                Some(monster) => if monster.current_health > 0 {
                    rest.push(monster.id)
                } else {
                    rest
                },
                None => rest,
            },
            None => rest,
        }
    }
}

/// The monsters standing on the given target positions that have not fainted (see `targets_on`).
fn targets_at_positions(battle: &Battle, target_positions: [Option<FieldPosition>; 6]) -> (targets: Vec<MonsterID>)
    requires
        battle.wf(),
    ensures
        targets@.len() <= 6,
        forall|i: int| 0 <= i < targets@.len() ==> battle.state.has_monster(#[trigger] targets@[i]),
        targets@ == targets_on(battle.state, target_positions@),
{
    let mut targets: Vec<MonsterID> = Vec::new();
    let mut k: usize = 0;
    while k < 6
        invariant
            k <= 6,
            targets@.len() <= k,
            battle.wf(),
            forall|i: int| 0 <= i < targets@.len() ==> battle.state.has_monster(#[trigger] targets@[i]),
            targets@ == targets_on(battle.state, target_positions@.take(k as int)),
        decreases 6 - k,
    {
        assert(target_positions@.take(k + 1).drop_last() =~= target_positions@.take(k as int));
        match target_positions[k] {
            Some(position) => match battle.state.monster_at_position(position) {
                Some(monster) => {
                    proof {
                        let all = battle.state.all_monsters();
                        let i = choose|i: int| 0 <= i < all.len() && #[trigger] all[i] == *monster;
                        lemma_all_monsters_are_in_the_battle(battle.state, i);
                    }
                    if !monster.is_fainted() {
                        targets.push(monster.id);
                    }
                },
                None => {},
            },
            None => {},
        }
        k += 1;
    }
    assert(target_positions@.take(6) =~= target_positions@);
    targets
}

/// Each monster of the battle names itself: its id is the slot it stands in.
proof fn lemma_all_monsters_are_in_the_battle(state: crate::battle::BattleState, i: int)
    requires
        state.wf(),
        0 <= i < state.all_monsters().len(),
    ensures
        state.has_monster(state.all_monsters()[i].id),
        state.spec_monster(state.all_monsters()[i].id) == state.all_monsters()[i],
{
    let allies = state.team_monsters(crate::team::TeamID::Allies);
    if i < allies.len() {
        assert(state.all_monsters()[i] == allies[i]);
        assert(allies[i].id == crate::team::MonsterTeam::slot_id(crate::team::TeamID::Allies, i));
    } else {
        let j = i - allies.len();
        let opponents = state.team_monsters(crate::team::TeamID::Opponents);
        assert(state.all_monsters()[i] == opponents[j]);
        assert(opponents[j].id == crate::team::MonsterTeam::slot_id(crate::team::TeamID::Opponents, j));
    }
}

/// Performs a chosen action. A move is used (see `use_move`) by its owner on the monsters that
/// stand on its target positions and have not fainted, unless the owner has fainted, has left
/// the Field or the move has no power points left; the use is then what `move_used` says, with
/// the handlers answering as `responder` says. A switch (see `switch_monsters`) happens unless
/// the monster to switch out has left the Field. An action that does not happen changes
/// nothing.
pub fn perform_action<R: EventResponder>(battle: &mut Battle, responder: &R, action: crate::choice::FullySpecifiedActionChoice)
    requires
        old(battle).wf(),
        action matches crate::choice::FullySpecifiedActionChoice::Move { move_id, .. } ==> old(battle).state.has_move(move_id),
        action matches crate::choice::FullySpecifiedActionChoice::SwitchOut { active_monster_id, benched_monster_id, .. }
            ==> old(battle).state.has_monster(active_monster_id) && old(battle).state.has_monster(benched_monster_id),
    ensures
        final(battle).wf(),
        same_roster(final(battle).state, old(battle).state),
        action matches crate::choice::FullySpecifiedActionChoice::Move { move_id, .. } ==> ({
            let user = old(battle).state.spec_monster(move_id.owner_id);
            user.current_health == 0 || !user.spec_is_active() || old(battle).state.spec_move(move_id).current_power_points == 0
        } ==> *final(battle) == *old(battle)),
        action matches crate::choice::FullySpecifiedActionChoice::Move { move_id, target_positions, .. } ==> ({
            let user = old(battle).state.spec_monster(move_id.owner_id);
            let move_ = old(battle).state.spec_move(move_id);
            let targets = targets_on(old(battle).state, target_positions@);
            user.current_health > 0 && user.spec_is_active() && move_.current_power_points > 0 && targets.len() > 0
                && no_move_use_handlers(old(battle).state) && move_.species.on_hit_effect
                == MoveEffect::DealCalculatedDamage ==> move_used_without_handlers(
                *final(battle),
                *old(battle),
                move_id.owner_id,
                move_id,
                targets,
            )
        }),
        action matches crate::choice::FullySpecifiedActionChoice::Move { move_id, target_positions, .. } ==> ({
            let user = old(battle).state.spec_monster(move_id.owner_id);
            let targets = targets_on(old(battle).state, target_positions@);
            user.current_health > 0 && user.spec_is_active() && old(battle).state.spec_move(move_id).current_power_points > 0
                ==> exists|event_context: EventContext|
                #[trigger] is_move_use_event(event_context, move_id.owner_id, move_id, targets) && move_used(
                    responder,
                    *old(battle),
                    move_id.owner_id,
                    move_id,
                    targets,
                    event_context,
                    *final(battle),
                )
        }),
        action matches crate::choice::FullySpecifiedActionChoice::SwitchOut { active_monster_id, .. } ==> (
            !old(battle).state.spec_monster(active_monster_id).spec_is_active() ==> *final(battle) == *old(battle)),
        action matches crate::choice::FullySpecifiedActionChoice::SwitchOut { active_monster_id, benched_monster_id, .. }
            ==> (old(battle).state.spec_monster(active_monster_id).spec_is_active() ==> monsters_switched(
            *final(battle),
            *old(battle),
            active_monster_id,
            benched_monster_id,
        )),
{
    match action {
        crate::choice::FullySpecifiedActionChoice::Move { move_id, target_positions, .. } => {
            let user = battle.monster(move_id.owner_id);
            if user.is_fainted() || !user.is_active() {
                return;
            }
            if battle.state.move_(move_id).current_power_points == 0 {
                return;
            }
            let targets = targets_at_positions(battle, target_positions);
            let context = MoveUseContext::new(move_id, targets);
            use_move(battle, responder, &context);
        },
        crate::choice::FullySpecifiedActionChoice::SwitchOut { active_monster_id, benched_monster_id, .. } => {
            if !battle.monster(active_monster_id).is_active() {
                return;
            }
            switch_monsters(battle, crate::contexts::SwitchContext::new(active_monster_id, benched_monster_id));
        },
    }
}

// Laws ---------------------------------------------------------------------------------------- //

/// Damage never exceeds the health left, and the health left afterwards is the health before
/// minus the damage dealt.
pub proof fn law_damage_is_capped_by_health(health: u16, damage: u16)
    ensures
        actual_damage(health, damage) <= health,
        actual_damage(health, damage) <= damage,
        actual_damage(health, damage) == damage || actual_damage(health, damage) == health,
        damage >= health ==> health - actual_damage(health, damage) == 0,
        damage < health ==> health - actual_damage(health, damage) > 0,
{
}

/// A target immune to the move's type takes no damage from the formula.
pub proof fn law_immunity_means_no_damage(
    level: u16,
    power: u16,
    attack: u16,
    defense: u16,
    random_percent: u16,
    stab_percent: u16,
)
    ensures
        damage_formula(level, power, attack, defense, random_percent, stab_percent, 0) == 0,
{
    reveal(damage_formula);
}

/// With every multiplier at 100%, the formula is the base damage scaled by the stats, divided
/// by 50, plus 2.
pub proof fn law_neutral_multipliers_keep_damage(level: u16, power: u16, attack: u16, defense: u16)
    ensures
        damage_formula(level, power, attack, defense, 100, 100, 100) == scaled_by_stats(
            base_damage(level, power),
            attack,
            defense,
        ) / 50 + 2,
{
    reveal(damage_formula);
    let scaled = scaled_by_stats(base_damage(level, power), attack, defense);
    assert(0 <= scaled <= u16::MAX);
    let damage = scaled / 50 + 2;
    assert(percent_of(100, damage as u16) == damage) by (nonlinear_arith)
        requires
            0 <= damage <= 1312,
    ;
}

/// A change of 0 stages moves no stat, and a change never moves a stat past -6 or +6.
pub proof fn law_stat_change_stays_in_bounds(current: i8, stages: i8)
    requires
        -6 <= current <= 6,
        -6 <= stages <= 6,
    ensures
        stages == 0 ==> stat_change_effect(current, stages) == 0,
        -6 <= current + stat_change_effect(current, stages) <= 6,
        stages > 0 ==> 0 <= stat_change_effect(current, stages) <= stages,
        stages < 0 ==> stages <= stat_change_effect(current, stages) <= 0,
{
}

/// Every sequence of hits in which all hits failed, or all missed or failed, fails.
pub proof fn law_all_hits_missed_or_failed_is_failure(number_of_hits: u8, miss_count: u8, fail_count: u8, effectiveness: TypeEffectiveness)
    requires
        miss_count + fail_count == number_of_hits,
    ensures
        !spec_damage_outcome(number_of_hits, miss_count, fail_count, effectiveness),
{
}

/// A sequence of hits succeeds exactly when at least one hit neither missed nor failed and the
/// target was not immune: one landed hit on a target that is not immune is a success, whatever
/// the other hits did.
pub proof fn law_one_landed_hit_succeeds(
    number_of_hits: u8,
    miss_count: u8,
    fail_count: u8,
    effectiveness: TypeEffectiveness,
)
    requires
        miss_count + fail_count <= number_of_hits,
    ensures
        spec_damage_outcome(number_of_hits, miss_count, fail_count, effectiveness) <==> (miss_count + fail_count
            < number_of_hits && effectiveness != TypeEffectiveness::Ineffective),
{
}

/// Switching a monster out and back in onto the tile it stood on gives back the monster as it
/// was, but for its volatile statuses, which it has lost; the rest of the battle is unchanged.
pub proof fn law_switching_out_and_back_in_restores_the_monster(b0: Battle, b1: Battle, b2: Battle, id: MonsterID)
    requires
        b0.wf(),
        b0.state.has_monster(id),
        b0.state.spec_monster(id).board_position is Field,
        switched_out(b1, b0, id),
        switched_in(b2, b1, id, b0.state.spec_monster(id).board_position->0),
    ensures
        b2.state.spec_monster(id) == (Monster {
            volatile_statuses: b2.state.spec_monster(id).volatile_statuses,
            ..b0.state.spec_monster(id)
        }),
        b2.state.spec_monster(id).volatile_statuses@.len() == 0,
        monster_replaced(b2.state, b0.state, id, b2.state.spec_monster(id)),
        same_frame(b2, b0),
{
    lemma_monster_replaced_twice(b2.state, b1.state, b0.state, id, b1.state.spec_monster(id), b2.state.spec_monster(id));
}

/// Once a consumable item has been taken for use, its holder holds nothing, so taking again
/// finds no item.
pub proof fn law_consumed_items_are_gone(b0: Battle, b1: Battle, id: MonsterID, item: Item)
    requires
        b0.state.has_monster(id),
        b0.state.spec_monster(id).held_item == Some(item),
        item.species.is_consumable,
        only_monster_changed(b1, b0, id, (Monster { consumed_item: Some(item), held_item: None, ..b0.state.spec_monster(id) })),
    ensures
        b1.state.spec_monster(id).held_item is None,
        b1.state.spec_monster(id).consumed_item == Some(item),
{
}

} // verus!
