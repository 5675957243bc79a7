use monsim::ultimate::{MegaEvolution, UltimateKind};
use monsim::ability::{AbilityDexEntry, AbilitySpecies};
use monsim::battle::Battle;
use monsim::builder::{BattleFormat, MonsterBuilder, MonsterTeamBuilder};
use monsim::contexts::{EventContext, MoveHitContext, MoveUseContext, SwitchContext};
use monsim::effects::{
    apply_raw_damage, calculate_damage, change_stat, deal_calculated_damage, deal_raw_damage, inflict_persistent_status,
    inflict_volatile_status, shift_monster, switch_monsters, use_item, use_move, activate_ability,
};
use monsim::event_dispatcher::{
    collect_event_handlers_for, dispatch_event, dispatch_trial_event, does_event_handler_pass_filters, EventHandlerWithOwner,
    EventResponder, EventValue, MechanicEffect, MechanicKind, NullEventListener,
};
use monsim::events::{EventFilteringOptions, EventHandler, EventHandlerSet, EventID, EventResponse};
use monsim::global_constants::{Count, Outcome};
use monsim::item::{ItemDexData, ItemFlags, ItemSpecies};
use monsim::monster::{Monster, MonsterDexEntry, MonsterID, MonsterNumber, MonsterSpecies};
use monsim::move_::{MoveCategory, MoveDexEntry, MoveEffect, MoveID, MoveNumber, MoveSpecies};
use monsim::prng::Prng;
use monsim::ordering::sort_by_activation_order;
use monsim::stats::{ModifiableStat, Stat, StatSet};
use monsim::status::{PersistentStatusDexEntry, PersistentStatusSpecies, VolatileStatusDexEntry, VolatileStatusSpecies};
use monsim::targetting::{BoardPosition, FieldPosition, TargetFlags};
use monsim::team::{MonsterTeam, TeamID};
use monsim::types::Type;

const FLASH_FIRE_CHECK: u16 = 1;
const FLASH_FIRE_EFFECT: u16 = 2;

fn species(name: &'static str, dex_number: u16, primary_type: Type, secondary_type: Option<Type>, base_stats: StatSet) -> MonsterSpecies {
    MonsterSpecies::from_dex_entry(MonsterDexEntry {
        dex_number,
        name,
        primary_type,
        secondary_type,
        base_stats,
        event_handlers: EventHandlerSet::empty(),
    })
}

fn dandyleo() -> MonsterSpecies {
    species("Dandyleo", 252, Type::Grass, None, StatSet::new(40, 45, 35, 65, 55, 70))
}

fn squirecoal() -> MonsterSpecies {
    species("Squirecoal", 255, Type::Fire, None, StatSet::new(45, 60, 40, 70, 50, 45))
}

fn merkey() -> MonsterSpecies {
    species("Merkey", 258, Type::Water, Some(Type::Bug), StatSet::new(50, 70, 50, 50, 50, 40))
}

fn zombler() -> MonsterSpecies {
    species("Zombler", 425, Type::Ghost_, Some(Type::Dark), StatSet::new(90, 50, 34, 60, 44, 71))
}

fn opponents_and_adjacent() -> TargetFlags {
    TargetFlags::adjacent().union(TargetFlags::opponents()).union(TargetFlags::allies())
}

fn damaging_move(name: &'static str, dex_number: u16, type_: Type, category: MoveCategory, base_power: u16) -> MoveSpecies {
    MoveSpecies::from_dex_entry(MoveDexEntry {
        dex_number,
        name,
        on_hit_effect: MoveEffect::DealCalculatedDamage,
        hits_per_target: Count::Fixed(1),
        base_accuracy: Some(100),
        base_power,
        category,
        max_power_points: 35,
        priority: 0,
        targets: opponents_and_adjacent(),
        type_,
        event_handlers: EventHandlerSet::empty(),
        event_filtering_options: EventFilteringOptions::default(),
    })
}

fn tackle() -> MoveSpecies {
    damaging_move("Tackle", 1, Type::Normal, MoveCategory::Physical, 40)
}

fn scratch() -> MoveSpecies {
    damaging_move("Scratch", 2, Type::Normal, MoveCategory::Physical, 40)
}

fn ember() -> MoveSpecies {
    damaging_move("Ember", 3, Type::Fire, MoveCategory::Special, 40)
}

fn bubble() -> MoveSpecies {
    damaging_move("Bubble", 4, Type::Water, MoveCategory::Special, 40)
}

fn flash_fire() -> AbilitySpecies {
    AbilitySpecies::from_dex_entry(AbilityDexEntry {
        dex_number: 1,
        name: "Flash Fire",
        event_handlers: EventHandlerSet::empty().with(
            EventID::OnTryMoveHit,
            EventHandler { response: EventResponse(FLASH_FIRE_CHECK), event_filtering_options: EventFilteringOptions::default() },
        ),
        order: 0,
    })
}

fn no_ability() -> AbilitySpecies {
    AbilitySpecies::from_dex_entry(AbilityDexEntry { dex_number: 2, name: "Nothing", event_handlers: EventHandlerSet::empty(), order: 0 })
}

fn burned() -> PersistentStatusSpecies {
    PersistentStatusSpecies::from_dex_entry(PersistentStatusDexEntry {
        dex_number: 1,
        name: "Burned",
        on_acquired_message: " was burned!",
        event_handlers: EventHandlerSet::empty(),
    })
}

fn confused() -> VolatileStatusSpecies {
    VolatileStatusSpecies::from_dex_entry(VolatileStatusDexEntry {
        dex_number: 1,
        name: "Confused",
        on_acquired_message: " became confused!",
        lifetime_in_turns: Count::RandomInRange { min: 2, max: 4 },
        event_handlers: EventHandlerSet::empty(),
    })
}

fn berry() -> ItemSpecies {
    ItemSpecies::from_dex_data(ItemDexData {
        dex_number: 1,
        name: "Passho Berry",
        kind: ItemFlags { bits: 1 },
        is_consumable: true,
        event_handlers: EventHandlerSet::empty(),
        event_filtering_options: EventFilteringOptions::default(),
    })
}

/// The mechanics of the tests: Flash Fire makes its owner immune to Fire moves.
struct TestMechanics;

impl EventResponder for TestMechanics {
    fn response(
        &self,
        battle: Battle,
        handler: EventHandlerWithOwner,
        broadcaster_id: Option<MonsterID>,
        context: EventContext,
        relay: EventValue,
    ) -> (Battle, EventValue) {
        let mut battle = battle;
        let result = self.respond(&mut battle, &handler, broadcaster_id, &context, relay);
        (battle, result)
    }

    fn effect_result(&self, battle: Battle, effect: MechanicEffect) -> (Battle, Outcome<()>) {
        let mut battle = battle;
        let outcome = self.perform_effect(&mut battle, effect);
        (battle, outcome)
    }

    fn respond(
        &self,
        battle: &mut Battle,
        handler: &EventHandlerWithOwner,
        _broadcaster_id: Option<MonsterID>,
        context: &EventContext,
        relay: EventValue,
    ) -> EventValue {
        match (handler.event_handler.response.0, context, handler.receiver_id) {
            (FLASH_FIRE_CHECK, EventContext::MoveHit(hit), Some(receiver_id)) => {
                let is_fire = battle.state.move_(hit.move_used_id).is_type(Type::Fire);
                if is_fire && hit.target_id == receiver_id {
                    let outcome = activate_ability(battle, self, receiver_id, FLASH_FIRE_EFFECT);
                    EventValue::Outcome(outcome.opposite())
                } else {
                    relay
                }
            },
            _ => relay,
        }
    }

    fn perform_effect(&self, battle: &mut Battle, effect: MechanicEffect) -> Outcome<()> {
        match effect {
            MechanicEffect::Ability { effect: FLASH_FIRE_EFFECT, ability_activation_context } => {
                let name = battle.monster(ability_activation_context.ability_owner_id).name();
                battle.queue_message(format!("{name}'s Flash Fire activated!"));
                Outcome::Success(())
            },
            _ => Outcome::Failure,
        }
    }
}

fn monster(species: MonsterSpecies, first_move: MoveSpecies, ability: AbilitySpecies) -> MonsterBuilder {
    species.spawn((first_move.spawn(), Some(scratch().spawn()), None, None), ability.spawn())
}

/// Ruby the Squirecoal and Merkey against Cheerio the Zombler, in a single battle.
fn test_battle(seed: u64) -> Battle {
    Battle::spawn()
        .with_ally_team(
            MonsterTeam::spawn()
                .with_monster(monster(squirecoal(), ember(), flash_fire()).with_nickname("Ruby"))
                .with_monster(monster(merkey(), bubble(), no_ability()).with_item(berry().spawn())),
        )
        .with_opponent_team(
            MonsterTeam::spawn().with_monster(monster(zombler(), tackle(), flash_fire()).with_nickname("Cheerio")),
        )
        .build_with_prng(Prng::new(seed))
}

fn ally(n: MonsterNumber) -> MonsterID {
    MonsterID::ally(n)
}

fn opponent(n: MonsterNumber) -> MonsterID {
    MonsterID::opponent(n)
}

fn messages(battle: &Battle) -> Vec<String> {
    battle.message_log.as_vec().clone()
}

#[test]
fn built_monsters_start_with_full_health_at_level_50() {
    let battle = test_battle(1);
    let ruby = battle.monster(ally(MonsterNumber::_1));
    assert_eq!(ruby.level, 50);
    // ((2 * 45 + 31 + 63) * 50) / 100 + 50 + 10 = 152
    assert_eq!(ruby.max_health(), 152);
    assert_eq!(ruby.current_health, 152);
    // ((2 * 45 + 31 + 63) * 50) / 100 + 5 = 97
    assert_eq!(ruby.stat(Stat::Speed), 97);
    assert_eq!(ruby.name(), "Ruby");
    assert_eq!(ruby.full_name(), "Ruby the Squirecoal");
    assert_eq!(battle.monster(ally(MonsterNumber::_2)).name(), "Merkey");
    assert_eq!(ruby.board_position, BoardPosition::Field(FieldPosition::AllyCentre));
    assert_eq!(battle.monster(ally(MonsterNumber::_2)).board_position, BoardPosition::Bench);
    assert_eq!(battle.monster(opponent(MonsterNumber::_1)).board_position, BoardPosition::Field(FieldPosition::OpponentCentre));
    assert_eq!(ruby.moveset.len(), 2);
    assert_eq!(ruby.moveset[1].id, MoveID { owner_id: ally(MonsterNumber::_1), move_number: MoveNumber::_2 });
    assert_eq!(ruby.moveset[0].current_power_points, 35);
    assert!(!battle.is_finished());
}

#[test]
fn monster_summary_lists_type_ability_and_moves() {
    let battle = test_battle(1);
    let summary = battle.monster(opponent(MonsterNumber::_1)).summary();
    let expected = "Cheerio the Zombler (First Opponent) [HP: 197/197]\n\t│\t│\n\t│\t├── type Ghost/Dark \n\t│\t├── abl Flash Fire\n\t│\t├── mov Tackle\n\t│\t└── mov Scratch\n";
    assert_eq!(summary, expected);
}

#[test]
fn raw_damage_is_capped_by_remaining_health() {
    let mut battle = test_battle(2);
    let target = opponent(MonsterNumber::_1);
    let dealt = apply_raw_damage(&mut battle, target, 50);
    assert_eq!(dealt, 50);
    assert_eq!(battle.monster(target).current_health, 147);
    let dealt = deal_raw_damage(&mut battle, &NullEventListener, target, 1000);
    assert_eq!(dealt, 147);
    assert!(battle.monster(target).is_fainted());
    assert_eq!(battle.monster(target).board_position, BoardPosition::Bench);
    assert!(battle.is_finished());
    assert_eq!(
        messages(&battle),
        vec![
            "Cheerio took 50 damage!",
            "Cheerio has 147 health left.",
            "Cheerio took 1000 damage!",
            "Cheerio has 0 health left.",
            "Cheerio fainted!",
            "Come back Cheerio!",
        ]
    );
}

#[test]
fn damage_formula_exact_values() {
    // ((2 * 50) / 5 + 2) * 40 = 880; 880 * 100 / 100 = 880; 880 / 50 + 2 = 19.
    assert_eq!(calculate_damage(50, 40, 100, 100, 100, 100, 100), 19);
    // 19 * 85% = 16; 16 * 125% = 20; 20 * 200% = 40.
    assert_eq!(calculate_damage(50, 40, 100, 100, 85, 125, 200), 40);
    // Immune targets take nothing.
    assert_eq!(calculate_damage(50, 40, 100, 100, 100, 100, 0), 0);
    // A defense of 0 caps the scaled damage: 65535 / 50 + 2 = 1312.
    assert_eq!(calculate_damage(50, 40, 100, 0, 100, 100, 100), 1312);
    assert_eq!(calculate_damage(50, 40, 0, 0, 100, 100, 100), 2);
}

#[test]
fn flash_fire_blocks_fire_moves() {
    let mut battle = test_battle(3);
    let ember_id = MoveID { owner_id: ally(MonsterNumber::_1), move_number: MoveNumber::_1 };
    let context = MoveHitContext::new(ember_id, opponent(MonsterNumber::_1), 1, 1);
    let outcome = deal_calculated_damage(&mut battle, &TestMechanics, context);
    assert!(outcome.is_failure());
    assert_eq!(battle.monster(opponent(MonsterNumber::_1)).current_health, 197);
    assert_eq!(
        messages(&battle),
        vec!["Cheerio's Flash Fire activated!", "The move failed to hit Cheerio!"]
    );
}

#[test]
fn immune_target_takes_no_damage() {
    let mut battle = test_battle(4);
    // Tackle is a Normal move; Zombler is a Ghost.
    let scratch_id = MoveID { owner_id: ally(MonsterNumber::_1), move_number: MoveNumber::_2 };
    let context = MoveHitContext::new(scratch_id, opponent(MonsterNumber::_1), 1, 1);
    let outcome = deal_calculated_damage(&mut battle, &NullEventListener, context);
    assert!(outcome.is_failure());
    assert_eq!(battle.monster(opponent(MonsterNumber::_1)).current_health, 197);
    assert_eq!(messages(&battle), vec!["It was ineffective..."]);
}

#[test]
fn zero_hits_fail_without_change() {
    let mut battle = test_battle(5);
    let ember_id = MoveID { owner_id: ally(MonsterNumber::_1), move_number: MoveNumber::_1 };
    let context = MoveHitContext::new(ember_id, opponent(MonsterNumber::_1), 0, 1);
    let outcome = deal_calculated_damage(&mut battle, &NullEventListener, context);
    assert!(outcome.is_failure());
    assert!(messages(&battle).is_empty());
}

#[test]
fn hits_on_a_fainted_target_change_no_monster() {
    let mut battle = test_battle(5);
    let target = opponent(MonsterNumber::_1);
    let _ = apply_raw_damage(&mut battle, target, 1000);
    assert!(battle.monster(target).is_fainted());
    let state_before = battle.state.clone();
    let ember_id = MoveID { owner_id: ally(MonsterNumber::_1), move_number: MoveNumber::_1 };
    let context = MoveHitContext::new(ember_id, target, 1, 1);
    let messages_before = messages(&battle);
    let outcome = deal_calculated_damage(&mut battle, &NullEventListener, context);
    assert!(outcome.is_failure());
    assert_eq!(battle.monster(target).current_health, 0);
    assert_eq!(battle.monster(ally(MonsterNumber::_1)).current_health, state_before.monster(ally(MonsterNumber::_1)).current_health);
    assert_eq!(messages(&battle), messages_before);
}

fn confusion() -> MoveSpecies {
    damaging_move("Confusion", 93, Type::Psychic, MoveCategory::Special, 50)
}

#[test]
fn a_dark_secondary_type_stops_a_psychic_move_while_handlers_listen() {
    let mut battle = Battle::spawn()
        .with_ally_team(MonsterTeam::spawn().with_monster(monster(dandyleo(), confusion(), flash_fire())))
        .with_opponent_team(MonsterTeam::spawn().with_monster(monster(zombler(), tackle(), flash_fire())))
        .build_with_prng(Prng::new(7));
    let target = opponent(MonsterNumber::_1);
    let health_before = battle.monster(target).current_health;
    let confusion_id = MoveID { owner_id: ally(MonsterNumber::_1), move_number: MoveNumber::_1 };
    let outcome = deal_calculated_damage(&mut battle, &TestMechanics, MoveHitContext::new(confusion_id, target, 1, 1));
    assert!(outcome.is_failure());
    assert_eq!(battle.monster(target).current_health, health_before);
    assert_eq!(messages(&battle), vec!["It was ineffective..."]);
}

#[test]
fn a_move_whose_hits_are_stopped_spends_a_power_point_and_one_without_targets_does_not() {
    let mut battle = test_battle(3);
    let ember_id = MoveID { owner_id: ally(MonsterNumber::_1), move_number: MoveNumber::_1 };
    let power_points_before = battle.state.move_(ember_id).current_power_points;
    let context = MoveUseContext::new(ember_id, vec![opponent(MonsterNumber::_1)]);
    use_move(&mut battle, &TestMechanics, &context);
    assert_eq!(battle.state.move_(ember_id).current_power_points, power_points_before - 1);
    assert_eq!(battle.monster(opponent(MonsterNumber::_1)).current_health, 197);
    let no_targets = MoveUseContext::new(ember_id, vec![]);
    use_move(&mut battle, &TestMechanics, &no_targets);
    assert_eq!(battle.state.move_(ember_id).current_power_points, power_points_before - 1);
}

#[test]
fn a_single_hit_without_handlers_deals_the_formula_damage() {
    // Merkey's Bubble on Zombler, neither with an ability that responds.
    let mut battle = Battle::spawn()
        .with_ally_team(MonsterTeam::spawn().with_monster(monster(merkey(), bubble(), no_ability())))
        .with_opponent_team(MonsterTeam::spawn().with_monster(monster(zombler(), tackle(), no_ability()).with_nickname("Cheerio")))
        .build_with_prng(Prng::new(1));
    let bubble_id = MoveID { owner_id: ally(MonsterNumber::_1), move_number: MoveNumber::_1 };
    let target = opponent(MonsterNumber::_1);
    let context = MoveHitContext::new(bubble_id, target, 1, 1);
    let outcome = deal_calculated_damage(&mut battle, &NullEventListener, context);
    assert!(outcome.is_success());
    // Special attack 102, special defense 96: (22 * 40) * 102 / 96 = 935; 935 / 50 + 2 = 20.
    // The random multiplier from seed 1 is 99%: 19; Merkey is a Water type: 125%, 23.
    assert_eq!(battle.monster(target).current_health, 197 - 23);
    assert_eq!(battle.prng.current_seed, 0xe3b543e45af1de8b);
    assert_eq!(
        messages(&battle),
        vec!["Cheerio took 23 damage!", "Cheerio has 174 health left.", "It was effective!"]
    );
}

#[test]
fn every_hit_of_a_multi_hit_move_draws_its_own_damage() {
    let triple_bubble = MoveSpecies::from_dex_entry(MoveDexEntry {
        dex_number: 5,
        name: "Triple Bubble",
        on_hit_effect: MoveEffect::DealCalculatedDamage,
        hits_per_target: Count::Fixed(3),
        base_accuracy: Some(100),
        base_power: 40,
        category: MoveCategory::Special,
        max_power_points: 10,
        priority: 0,
        targets: opponents_and_adjacent(),
        type_: Type::Water,
        event_handlers: EventHandlerSet::empty(),
        event_filtering_options: EventFilteringOptions::default(),
    });
    let mut battle = Battle::spawn()
        .with_ally_team(MonsterTeam::spawn().with_monster(monster(merkey(), triple_bubble, no_ability())))
        .with_opponent_team(MonsterTeam::spawn().with_monster(monster(zombler(), tackle(), no_ability()).with_nickname("Cheerio")))
        .build_with_prng(Prng::new(1));
    let move_id = MoveID { owner_id: ally(MonsterNumber::_1), move_number: MoveNumber::_1 };
    let target = opponent(MonsterNumber::_1);
    let outcome = deal_calculated_damage(&mut battle, &NullEventListener, MoveHitContext::new(move_id, target, 3, 1));
    assert!(outcome.is_success());
    // Random multipliers of 99%, 88% and 92%: 23, 21 and 22 damage.
    assert_eq!(battle.monster(target).current_health, 131);
    assert_eq!(battle.prng.current_seed, 0x79ca54143e86a56f);
    assert_eq!(
        messages(&battle),
        vec![
            "Cheerio took 23 damage!",
            "Cheerio has 174 health left.",
            "Triple Bubble hit Cheerio again!",
            "Cheerio took 21 damage!",
            "Cheerio has 153 health left.",
            "Triple Bubble hit Cheerio again!",
            "Cheerio took 22 damage!",
            "Cheerio has 131 health left.",
            "It was effective!",
            "The move hit 3 time(s).",
        ]
    );
}

#[test]
fn using_a_move_damages_and_spends_a_power_point() {
    let mut battle = test_battle(6);
    let tackle_id = MoveID { owner_id: opponent(MonsterNumber::_1), move_number: MoveNumber::_1 };
    let context = MoveUseContext::new(tackle_id, vec![ally(MonsterNumber::_1)]);
    use_move(&mut battle, &TestMechanics, &context);
    let ruby = battle.monster(ally(MonsterNumber::_1));
    assert!(ruby.current_health < 152);
    assert_eq!(battle.monster(opponent(MonsterNumber::_1)).moveset[0].current_power_points, 34);
    let log = messages(&battle);
    assert_eq!(log[0], "Cheerio used Tackle on Ruby");
    assert!(log[1].starts_with("Ruby took "));
    assert_eq!(log.last().unwrap(), "It was effective!");
}

#[test]
fn using_a_move_without_handlers_hits_once_and_spends_a_power_point() {
    let mut battle = Battle::spawn()
        .with_ally_team(MonsterTeam::spawn().with_monster(monster(merkey(), bubble(), no_ability())))
        .with_opponent_team(MonsterTeam::spawn().with_monster(monster(zombler(), tackle(), no_ability()).with_nickname("Cheerio")))
        .build_with_prng(Prng::new(1));
    let bubble_id = MoveID { owner_id: ally(MonsterNumber::_1), move_number: MoveNumber::_1 };
    let context = MoveUseContext::new(bubble_id, vec![opponent(MonsterNumber::_1)]);
    use_move(&mut battle, &NullEventListener, &context);
    assert_eq!(battle.monster(opponent(MonsterNumber::_1)).current_health, 174);
    assert_eq!(battle.monster(ally(MonsterNumber::_1)).moveset[0].current_power_points, 34);
    assert_eq!(battle.prng.current_seed, 0xe3b543e45af1de8b);
    assert_eq!(
        messages(&battle),
        vec!["Merkey used Bubble on Cheerio", "Cheerio took 23 damage!", "Cheerio has 174 health left.", "It was effective!"]
    );
}

#[test]
fn a_move_without_handlers_hits_each_target_in_turn() {
    let mut battle = Battle::spawn()
        .with_ally_team(
            MonsterTeam::spawn()
                .with_monster(monster(merkey(), bubble(), no_ability()))
                .with_monster(monster(dandyleo(), tackle(), no_ability())),
        )
        .with_opponent_team(
            MonsterTeam::spawn()
                .with_monster(monster(zombler(), tackle(), no_ability()).with_nickname("Cheerio"))
                .with_monster(monster(squirecoal(), ember(), no_ability())),
        )
        .with_format(BattleFormat::Double)
        .build_with_prng(Prng::new(1));
    let bubble_id = MoveID { owner_id: ally(MonsterNumber::_1), move_number: MoveNumber::_1 };
    let context = MoveUseContext::new(bubble_id, vec![opponent(MonsterNumber::_1), opponent(MonsterNumber::_2)]);
    use_move(&mut battle, &NullEventListener, &context);
    // Cheerio as before; Squirecoal: (22 * 40) * 102 / 102 = 880, 880 / 50 + 2 = 19, then 88%,
    // 125% and, against a Fire type, 200%: 40.
    assert_eq!(battle.monster(opponent(MonsterNumber::_1)).current_health, 174);
    assert_eq!(battle.monster(opponent(MonsterNumber::_2)).current_health, 112);
    assert_eq!(battle.monster(ally(MonsterNumber::_1)).moveset[0].current_power_points, 34);
    assert_eq!(battle.prng.current_seed, 0x3fe714a2cb968b85);
    assert_eq!(
        messages(&battle),
        vec![
            "Merkey used Bubble on Cheerio",
            "Cheerio took 23 damage!",
            "Cheerio has 174 health left.",
            "It was effective!",
            "Merkey used Bubble on Squirecoal",
            "Squirecoal took 40 damage!",
            "Squirecoal has 112 health left.",
            "It was super effective!",
        ]
    );
}

#[test]
fn a_move_without_targets_says_so() {
    let mut battle = test_battle(7);
    let tackle_id = MoveID { owner_id: opponent(MonsterNumber::_1), move_number: MoveNumber::_1 };
    let context = MoveUseContext::new(tackle_id, vec![]);
    use_move(&mut battle, &NullEventListener, &context);
    assert_eq!(messages(&battle), vec!["Cheerio's Tackle has no targets..."]);
    assert_eq!(battle.monster(opponent(MonsterNumber::_1)).moveset[0].current_power_points, 35);
}

#[test]
fn stat_changes_stop_at_six_stages() {
    let mut battle = test_battle(8);
    let ruby = ally(MonsterNumber::_1);
    assert_eq!(change_stat(&mut battle, &NullEventListener, ruby, ModifiableStat::Speed, 4), Outcome::Success(4));
    assert_eq!(change_stat(&mut battle, &NullEventListener, ruby, ModifiableStat::Speed, 4), Outcome::Success(2));
    assert_eq!(change_stat(&mut battle, &NullEventListener, ruby, ModifiableStat::Speed, 1), Outcome::Success(0));
    assert_eq!(change_stat(&mut battle, &NullEventListener, ruby, ModifiableStat::Speed, -3), Outcome::Success(-3));
    assert_eq!(change_stat(&mut battle, &NullEventListener, ruby, ModifiableStat::Speed, 0), Outcome::Success(0));
    assert_eq!(change_stat(&mut battle, &NullEventListener, ruby, ModifiableStat::Speed, 7), Outcome::Failure);
    assert_eq!(battle.monster(ruby).stat_modifier(ModifiableStat::Speed), 3);
    assert_eq!(
        messages(&battle),
        vec![
            "Ruby's Speed was raised by 4 stage(s)!",
            "Ruby's Speed was raised by 2 stage(s)!",
            "Ruby's stats cannot get any higher.",
            "Ruby's Speed was lowered by 3 stage(s)!",
            "But Ruby's stats ended up unchanged!",
        ]
    );
}

#[test]
fn statuses_are_given_once() {
    let mut battle = test_battle(9);
    let cheerio = opponent(MonsterNumber::_1);
    assert!(inflict_persistent_status(&mut battle, cheerio, burned()).is_success());
    assert!(inflict_persistent_status(&mut battle, cheerio, burned()).is_failure());
    assert!(inflict_volatile_status(&mut battle, cheerio, confused()).is_success());
    assert!(inflict_volatile_status(&mut battle, cheerio, confused()).is_failure());
    let turns = battle.monster(cheerio).volatile_statuses[0].remaining_turns;
    assert!((2..=4).contains(&turns));
    assert_eq!(messages(&battle), vec!["Cheerio was burned!", "Cheerio became confused!"]);
}

#[test]
fn consumable_items_are_remembered_after_use() {
    let mut battle = test_battle(10);
    let merkey = ally(MonsterNumber::_2);
    let outcome = use_item(&mut battle, &NullEventListener, merkey, 7);
    assert_eq!(outcome, Outcome::Success(Outcome::Failure));
    assert!(battle.monster(merkey).held_item.is_none());
    assert_eq!(battle.monster(merkey).consumed_item.unwrap().species.name, "Passho Berry");
    assert_eq!(use_item(&mut battle, &NullEventListener, merkey, 7), Outcome::Failure);
}

#[test]
fn switching_puts_the_benched_monster_on_the_same_tile() {
    let mut battle = test_battle(11);
    let ruby = ally(MonsterNumber::_1);
    let merkey = ally(MonsterNumber::_2);
    switch_monsters(&mut battle, SwitchContext::new(ruby, merkey));
    assert_eq!(battle.monster(ruby).board_position, BoardPosition::Bench);
    assert_eq!(battle.monster(merkey).board_position, BoardPosition::Field(FieldPosition::AllyCentre));
    assert_eq!(messages(&battle), vec!["Come back Ruby!", "Go Merkey!"]);
    assert!(shift_monster(&mut battle, ruby, FieldPosition::AllyLeft).is_failure());
    assert!(shift_monster(&mut battle, merkey, FieldPosition::AllyLeft).is_success());
    assert_eq!(messages(&battle).last().unwrap(), "Merkey was shifted to AllyLeft");
}

#[test]
fn handlers_are_collected_from_every_mechanic() {
    let battle = test_battle(12);
    let handlers = collect_event_handlers_for(&battle, EventID::OnTryMoveHit);
    assert_eq!(handlers.len(), 2);
    assert_eq!(handlers[0].receiver_id, Some(ally(MonsterNumber::_1)));
    assert_eq!(handlers[0].mechanic_kind, MechanicKind::Ability);
    assert_eq!(handlers[0].activation_order.speed, 97);
    assert_eq!(handlers[1].receiver_id, Some(opponent(MonsterNumber::_1)));
    assert!(collect_event_handlers_for(&battle, EventID::OnTurnEnd).is_empty());
}

#[test]
fn filters_follow_positions() {
    let battle = test_battle(13);
    let options = EventFilteringOptions::default();
    let ruby = Some(ally(MonsterNumber::_1));
    let cheerio = Some(opponent(MonsterNumber::_1));
    // An opponent broadcasting at its own target passes the default filters.
    assert!(does_event_handler_pass_filters(&battle, ruby, cheerio, cheerio, MechanicKind::Ability, options));
    // The receiver is not the target.
    assert!(!does_event_handler_pass_filters(&battle, ruby, ruby, cheerio, MechanicKind::Ability, options));
    // A benched receiver does not respond.
    let merkey = Some(ally(MonsterNumber::_2));
    assert!(!does_event_handler_pass_filters(&battle, cheerio, merkey, merkey, MechanicKind::Item, options));
    // No receiver: always responds.
    assert!(does_event_handler_pass_filters(&battle, ruby, cheerio, None, MechanicKind::Ability, options));
}

#[test]
fn dispatch_without_handlers_returns_the_default() {
    let mut battle = test_battle(14);
    let result = dispatch_event(
        &mut battle,
        &TestMechanics,
        EventID::OnModifyDamage,
        Some(ally(MonsterNumber::_1)),
        &EventContext::Nothing,
        EventValue::U16(42),
        None,
    );
    assert!(matches!(result, EventValue::U16(42)));
    let outcome = dispatch_trial_event(&mut battle, &TestMechanics, EventID::OnTryMove, None, &EventContext::Nothing);
    assert!(outcome.is_success());
}

/// Mechanics in which every handler that responds stops what it is asked about.
struct ObstinateMechanics;

impl EventResponder for ObstinateMechanics {
    fn response(
        &self,
        battle: Battle,
        handler: EventHandlerWithOwner,
        broadcaster_id: Option<MonsterID>,
        context: EventContext,
        relay: EventValue,
    ) -> (Battle, EventValue) {
        let mut battle = battle;
        let result = self.respond(&mut battle, &handler, broadcaster_id, &context, relay);
        (battle, result)
    }

    fn effect_result(&self, battle: Battle, effect: MechanicEffect) -> (Battle, Outcome<()>) {
        let mut battle = battle;
        let outcome = self.perform_effect(&mut battle, effect);
        (battle, outcome)
    }

    fn respond(
        &self,
        _battle: &mut Battle,
        _handler: &EventHandlerWithOwner,
        _broadcaster_id: Option<MonsterID>,
        _context: &EventContext,
        relay: EventValue,
    ) -> EventValue {
        match relay {
            EventValue::Outcome(_) => EventValue::Outcome(Outcome::Failure),
            other => other,
        }
    }

    fn perform_effect(&self, _battle: &mut Battle, _effect: MechanicEffect) -> Outcome<()> {
        Outcome::Failure
    }
}

#[test]
fn handlers_that_filter_the_event_out_do_not_respond() {
    let mut battle = test_battle(14);
    let ruby = ally(MonsterNumber::_1);
    let cheerio = opponent(MonsterNumber::_1);
    let ember_id = MoveID { owner_id: ruby, move_number: MoveNumber::_1 };
    // Both Flash Fire handlers exist, but Ruby does not answer herself, and Cheerio is not the
    // target: nobody responds.
    let at_ruby = EventContext::MoveHit(MoveHitContext::new(ember_id, ruby, 1, 1));
    let outcome = dispatch_trial_event(&mut battle, &ObstinateMechanics, EventID::OnTryMoveHit, Some(ruby), &at_ruby);
    assert!(outcome.is_success());
    assert!(messages(&battle).is_empty());
    // Aimed at Cheerio, Cheerio's handler responds.
    let at_cheerio = EventContext::MoveHit(MoveHitContext::new(ember_id, cheerio, 1, 1));
    let outcome = dispatch_trial_event(&mut battle, &ObstinateMechanics, EventID::OnTryMoveHit, Some(ruby), &at_cheerio);
    assert!(outcome.is_failure());
}

#[test]
fn available_choices_list_usable_moves_and_switches() {
    let battle = test_battle(15);
    let ruby = battle.monster(ally(MonsterNumber::_1));
    let choices = battle.state.available_choices_for_monster(ruby, &vec![]);
    assert_eq!(choices.count(), 3);
    assert_eq!(choices.switch_index, 2);
    let switchable = battle.state.switchable_benched_monster_ids(TeamID::Allies, &vec![]);
    assert_eq!(switchable, vec![ally(MonsterNumber::_2)]);
    let none = battle.state.switchable_benched_monster_ids(TeamID::Allies, &vec![ally(MonsterNumber::_2)]);
    assert!(none.is_empty());
    assert_eq!(battle.state.active_monster_ids(), vec![ally(MonsterNumber::_1), opponent(MonsterNumber::_1)]);
    let at_centre = battle.state.monster_at_position(FieldPosition::OpponentCentre).unwrap();
    assert_eq!(at_centre.id, opponent(MonsterNumber::_1));
    assert!(battle.state.monster_at_position(FieldPosition::AllyLeft).is_none());
}

#[test]
fn formats_place_monsters() {
    assert_eq!(BattleFormat::Double.valid_positions().len(), 4);
    assert_eq!(BattleFormat::Triple.ally_board_positions()[1], BoardPosition::Field(FieldPosition::AllyLeft));
    let team: MonsterTeamBuilder = MonsterTeam::spawn().with_monster(monster(dandyleo(), tackle(), no_ability()));
    assert!(team.maybe_monsters.is_some());
}

#[test]
fn test_display_battle() {
    let test_battle = Battle::spawn()
        .with_ally_team(
            MonsterTeam::spawn()
                .with_monster(monster(squirecoal(), ember(), flash_fire()).with_nickname("Ruby"))
                .with_monster(monster(merkey(), tackle(), flash_fire()).with_item(berry().spawn()))
                .with_monster(monster(dandyleo(), scratch(), flash_fire()).with_nickname("Emerald")),
        )
        .with_opponent_team(MonsterTeam::spawn().with_monster(monster(zombler(), scratch(), flash_fire()).with_nickname("Cheerio")))
        .build_with_prng(Prng::new(20));
    let allies: Vec<String> = test_battle.state.teams.ally_team_item.monsters.iter().map(|m| format!("{}\n", m.full_name())).collect();
    let opponents: Vec<String> = test_battle.state.teams.opponent_team_item.monsters.iter().map(|m| format!("{}\n", m.full_name())).collect();
    let tree = test_battle.tree(&allies, &opponents);
    println!("{}", tree);
    assert!(tree.starts_with("Ally Team\n\t├── Ruby the Squirecoal\n\t│\t│\n\t│\t├──    type: Fire\n\t│\t├── ability: Flash Fire\n\t│\t├──    move: Ember\n\t│\t└──    move: Scratch\n\t│\t\n"));
    assert!(tree.contains("\t└── Emerald the Dandyleo\n\t \t│\n"));
    assert!(tree.contains("Opponent Team\n\t└── Cheerio the Zombler\n\t \t│\n\t \t├──    type: Ghost/Dark\n"));
}

#[test]
fn mega_evolution_needs_the_mega_stone() {
    let battle = test_battle(21);
    let mega = MegaEvolution { mega_stone: berry(), mega_evolved_form: zombler() };
    assert_eq!(mega.kind(), UltimateKind::mega());
    assert!(mega.is_condition_met(&battle.state, ally(MonsterNumber::_2)));
    assert!(!mega.is_condition_met(&battle.state, ally(MonsterNumber::_1)));
    assert_eq!(mega.call_to_action(), "Mega Evolve");
}

fn handler_owner_names(battle: &Battle, handlers: &[EventHandlerWithOwner]) -> Vec<String> {
    handlers.iter().map(|handler| battle.monster(handler.receiver_id.unwrap()).name()).collect()
}

#[test]
fn test_if_priority_sorting_is_deterministic() {
    let mut result = [Vec::new(), Vec::new()];
    for i in 0..=1 {
        let test_battle = Battle::spawn()
            .with_ally_team(
                MonsterTeam::spawn()
                    .with_monster(squirecoal().spawn((scratch().spawn(), Some(ember().spawn()), None, None), flash_fire().spawn()).with_nickname("Ruby"))
                    .with_monster(merkey().spawn((tackle().spawn(), Some(bubble().spawn()), None, None), flash_fire().spawn()).with_nickname("Sapphire"))
                    .with_monster(dandyleo().spawn((scratch().spawn(), Some(ember().spawn()), None, None), flash_fire().spawn()).with_nickname("Emerald")),
            )
            .with_opponent_team(
                MonsterTeam::spawn().with_monster(zombler().spawn((scratch().spawn(), Some(ember().spawn()), None, None), flash_fire().spawn())),
            )
            .build();

        let mut prng = Prng::from_current_time();
        let mut owned_event_handlers = collect_event_handlers_for(&test_battle, EventID::OnTryMoveHit);
        sort_by_activation_order(&mut prng, &mut owned_event_handlers);
        result[i] = handler_owner_names(&test_battle, &owned_event_handlers);
    }

    assert_eq!(result[0], result[1]);
    assert_eq!(result[0][0], "Zombler");
    assert_eq!(result[0][1], "Emerald");
    assert_eq!(result[0][2], "Ruby");
    assert_eq!(result[0][3], "Sapphire");
}

#[test]
fn test_priority_sorting_with_speed_ties() {
    let mut result = [Vec::new(), Vec::new()];
    for i in 0..=1 {
        let squirecoal_named = |name: &'static str| {
            squirecoal().spawn((scratch().spawn(), Some(ember().spawn()), None, None), flash_fire().spawn()).with_nickname(name)
        };
        let test_battle = Battle::spawn()
            .with_ally_team(
                MonsterTeam::spawn()
                    .with_monster(zombler().spawn((scratch().spawn(), Some(ember().spawn()), None, None), flash_fire().spawn()).with_nickname("A"))
                    .with_monster(squirecoal_named("B"))
                    .with_monster(squirecoal_named("C"))
                    .with_monster(squirecoal_named("D"))
                    .with_monster(squirecoal_named("E"))
                    .with_monster(squirecoal_named("F")),
            )
            .with_opponent_team(
                MonsterTeam::spawn()
                    .with_monster(squirecoal_named("G"))
                    .with_monster(squirecoal_named("H"))
                    .with_monster(squirecoal_named("I"))
                    .with_monster(squirecoal_named("J"))
                    .with_monster(squirecoal_named("K"))
                    .with_monster(merkey().spawn((scratch().spawn(), Some(ember().spawn()), None, None), flash_fire().spawn()).with_nickname("L")),
            )
            .build();
        let mut prng = Prng::new(i as u64);
        let mut owned_event_handlers = collect_event_handlers_for(&test_battle, EventID::OnTryMoveHit);
        sort_by_activation_order(&mut prng, &mut owned_event_handlers);
        result[i] = handler_owner_names(&test_battle, &owned_event_handlers);
    }

    // The two runs are not equal: there is an infinitesimal chance they are by coincidence.
    assert_ne!(result[0], result[1]);
    // Zombler is in front.
    assert_eq!(result[0][0], "A");
    // The Squirecoals are all in the middle.
    for name in ["B", "C", "D", "E", "F", "G", "H", "I", "J", "K"].iter() {
        assert!(result[0].contains(&name.to_string()));
    }
    // The Merkey is last.
    assert_eq!(result[0][11], "L");
}

#[test]
fn test_event_filtering_for_event_sources() {
    let test_battle = Battle::spawn()
        .with_ally_team(
            MonsterTeam::spawn()
                .with_monster(squirecoal().spawn((ember().spawn(), Some(scratch().spawn()), None, None), flash_fire().spawn()).with_nickname("Ruby"))
                .with_monster(merkey().spawn((tackle().spawn(), Some(bubble().spawn()), None, None), flash_fire().spawn()).with_nickname("Sapphire")),
        )
        .with_opponent_team(
            MonsterTeam::spawn().with_monster(dandyleo().spawn((scratch().spawn(), Some(ember().spawn()), None, None), flash_fire().spawn()).with_nickname("Emerald")),
        )
        .build();

    let passed_filter = does_event_handler_pass_filters(
        &test_battle,
        Some(MonsterID { team_id: TeamID::Allies, monster_number: MonsterNumber::_1 }),
        None,
        Some(MonsterID { team_id: TeamID::Opponents, monster_number: MonsterNumber::_1 }),
        MechanicKind::Ability,
        EventFilteringOptions::default(),
    );
    assert!(passed_filter);
}

#[test]
fn test_print_owned_event_handler() {
    let owner = MonsterID { team_id: TeamID::Allies, monster_number: MonsterNumber::_1 };
    let owned_event_handler = EventHandlerWithOwner {
        event_handler: flash_fire().event_handlers().handler(EventID::OnTryMoveHit).unwrap(),
        activation_order: monsim::ordering::ActivationOrder { priority: 0, speed: 11, order: flash_fire().order() },
        receiver_id: Some(owner),
        mechanic_id: monsim::event_dispatcher::MechanicID::Ability(monsim::ability::AbilityID { owner_id: owner }),
        mechanic_kind: MechanicKind::Ability,
    };
    println!("{:#?}", owned_event_handler);
}

#[test]
fn health_bar_rounds_to_the_nearest_segment() {
    let mut battle = test_battle(22);
    let cheerio = opponent(MonsterNumber::_1);
    assert_eq!(battle.monster(cheerio).health_bar_filled_segments(), 10);
    // 197 - 100 = 97 left: 4.92 segments, rounded to 5.
    let _ = apply_raw_damage(&mut battle, cheerio, 100);
    assert_eq!(battle.monster(cheerio).health_bar_filled_segments(), 5);
    // 97 - 88 = 9 left: 0.46 segments, rounded to 0.
    let _ = apply_raw_damage(&mut battle, cheerio, 88);
    assert_eq!(battle.monster(cheerio).health_bar_filled_segments(), 0);
}

#[test]
fn a_chosen_move_hits_the_monsters_on_its_target_positions() {
    let mut battle = Battle::spawn()
        .with_ally_team(MonsterTeam::spawn().with_monster(monster(merkey(), bubble(), no_ability())))
        .with_opponent_team(MonsterTeam::spawn().with_monster(monster(zombler(), tackle(), no_ability()).with_nickname("Cheerio")))
        .build_with_prng(Prng::new(1));
    let bubble_id = MoveID { owner_id: ally(MonsterNumber::_1), move_number: MoveNumber::_1 };
    let mut target_positions = [None; 6];
    // The opponent's centre, and an empty tile.
    target_positions[0] = Some(FieldPosition::OpponentCentre);
    target_positions[1] = Some(FieldPosition::OpponentLeft);
    let order = monsim::ordering::ActivationOrder { priority: 0, speed: 45, order: 0 };
    let action = monsim::choice::FullySpecifiedActionChoice::Move { move_id: bubble_id, target_positions, activation_order: order };
    monsim::effects::perform_action(&mut battle, &NullEventListener, action);
    assert_eq!(battle.monster(opponent(MonsterNumber::_1)).current_health, 174);
    assert_eq!(battle.monster(ally(MonsterNumber::_1)).moveset[0].current_power_points, 34);
    assert_eq!(messages(&battle)[0], "Merkey used Bubble on Cheerio");
    assert_eq!(messages(&battle).len(), 4);
}

#[test]
fn actions_of_fainted_or_benched_monsters_do_nothing() {
    let mut battle = test_battle(23);
    let tackle_id = MoveID { owner_id: opponent(MonsterNumber::_1), move_number: MoveNumber::_1 };
    let order = monsim::ordering::ActivationOrder { priority: 0, speed: 123, order: 0 };
    let mut target_positions = [None; 6];
    target_positions[0] = Some(FieldPosition::AllyCentre);
    let action = monsim::choice::FullySpecifiedActionChoice::Move { move_id: tackle_id, target_positions, activation_order: order };
    monsim::effects::perform_action(&mut battle, &NullEventListener, action);
    assert_eq!(messages(&battle)[0], "Cheerio used Tackle on Ruby");
    // A switch out of a benched monster does not happen.
    let switch = monsim::choice::FullySpecifiedActionChoice::SwitchOut {
        active_monster_id: ally(MonsterNumber::_2),
        benched_monster_id: ally(MonsterNumber::_1),
        activation_order: order,
    };
    let before = messages(&battle).len();
    monsim::effects::perform_action(&mut battle, &NullEventListener, switch);
    assert_eq!(messages(&battle).len(), before);
    // A fainted monster does not act.
    let _ = apply_raw_damage(&mut battle, opponent(MonsterNumber::_1), 1000);
    let before = messages(&battle).len();
    monsim::effects::perform_action(&mut battle, &NullEventListener, action);
    assert_eq!(messages(&battle).len(), before);
}

#[test]
fn status_lines_show_the_health_bar_and_the_statuses() {
    let mut battle = test_battle(22);
    let cheerio = opponent(MonsterNumber::_1);
    let _ = apply_raw_damage(&mut battle, cheerio, 100);
    let monster = battle.monster(cheerio);
    let (filled, empty) = monster.health_bar();
    assert_eq!(filled, "▓▓▓▓▓");
    assert_eq!(empty, "░░░░░");
    let position = match monster.board_position {
        BoardPosition::Field(p) => p.name(),
        BoardPosition::Bench => "Bench",
    };
    let expected = format!(
        "Cheerio the Zombler ({}) HP:[#-] 97/197 | Position: {} | Persistent Status: None | Volatile Statuses: [] | Held Item: None\n",
        monster.id.name(),
        position
    );
    assert_eq!(monster.status_line("#", "-"), expected);
    assert!(monster.status_string().contains("97/197 | Position: "));
}

#[test]
fn a_status_string_paints_the_health_bar_or_leaves_it_plain() {
    let mut battle = test_battle(22);
    let cheerio = opponent(MonsterNumber::_1);
    let _ = apply_raw_damage(&mut battle, cheerio, 100);
    let monster = battle.monster(cheerio);
    let plain = monster.status_line("▓▓▓▓▓", "░░░░░");
    let painted = monster.status_line("\x1B[32m▓▓▓▓▓\x1B[0m", "\x1B[31m░░░░░\x1B[0m");
    let line = monster.status_string();
    assert!(line == plain || line == painted, "{line:?}");
}

#[test]
fn a_turn_performs_the_actions_in_activation_order() {
    let mut battle = test_battle(23);
    let ember_id = MoveID { owner_id: ally(MonsterNumber::_1), move_number: MoveNumber::_1 };
    let tackle_id = MoveID { owner_id: opponent(MonsterNumber::_1), move_number: MoveNumber::_1 };
    let mut at_opponent = [None; 6];
    at_opponent[0] = Some(FieldPosition::OpponentCentre);
    let mut at_ally = [None; 6];
    at_ally[0] = Some(FieldPosition::AllyCentre);
    let slow = monsim::ordering::ActivationOrder { priority: 0, speed: 45, order: 0 };
    let fast = monsim::ordering::ActivationOrder { priority: 0, speed: 123, order: 0 };
    let ember = monsim::choice::FullySpecifiedActionChoice::Move { move_id: ember_id, target_positions: at_opponent, activation_order: slow };
    let tackle = monsim::choice::FullySpecifiedActionChoice::Move { move_id: tackle_id, target_positions: at_ally, activation_order: fast };
    // A move of a monster that the battle does not have is passed over.
    let missing = monsim::choice::FullySpecifiedActionChoice::Move {
        move_id: MoveID { owner_id: opponent(MonsterNumber::_6), move_number: MoveNumber::_1 },
        target_positions: at_ally,
        activation_order: fast,
    };
    monsim::turn::play_turn(&mut battle, &NullEventListener, vec![ember, missing, tackle]);
    let said = messages(&battle);
    assert_eq!(said[0], "Cheerio used Tackle on Ruby");
    assert!(said.iter().any(|m| m == "Ruby used Ember on Cheerio"));
    assert_eq!(battle.turn_number, 1);
    assert_eq!(battle.monster(ally(MonsterNumber::_1)).moveset[0].current_power_points, 34);
    assert_eq!(battle.monster(opponent(MonsterNumber::_1)).moveset[0].current_power_points, 34);
}

#[test]
fn a_fainted_active_monster_is_replaced_by_the_first_that_can_switch_in() {
    let mut battle = test_battle(24);
    let before = messages(&battle).len();
    monsim::turn::replace_fainted_monster(&mut battle, TeamID::Allies);
    assert_eq!(messages(&battle).len(), before);
    let _ = apply_raw_damage(&mut battle, ally(MonsterNumber::_1), 1000);
    assert!(!battle.monster(ally(MonsterNumber::_1)).is_active());
    monsim::turn::replace_fainted_monster(&mut battle, TeamID::Allies);
    assert_eq!(battle.monster(ally(MonsterNumber::_2)).board_position, BoardPosition::Field(FieldPosition::AllyCentre));
    assert_eq!(messages(&battle).last().unwrap(), "Go Merkey!");
}
