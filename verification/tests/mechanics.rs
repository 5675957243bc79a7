use monsim::builder::InitCount;
use monsim::global_constants::Count;
use monsim::move_::Hits;
use monsim::global_constants::{ClampedPercent, Outcome, Percent};
use monsim::message_log::MessageLog;
use monsim::ordering::{sort_by_activation_order, ActivationOrder};
use monsim::choice::FullySpecifiedActionChoice;
use monsim::monster::{MonsterID, MonsterNumber};
use monsim::prng::Prng;
use monsim::stats::{ModifiableStat, StatModifierSet};
use monsim::targetting::{BoardPosition, FieldPosition, TargetFlags};
use monsim::team::TeamID;
use monsim::text::{number_text, signed_number_text};
use monsim::types::{dual_type_matchup, type_matchup, Type, TypeEffectiveness};

#[test]
fn single_type_matchups_follow_the_chart() {
    assert_eq!(type_matchup(Type::Bug, Type::Dark), TypeEffectiveness::SuperEffective);
    assert_eq!(type_matchup(Type::Bug, Type::Fire), TypeEffectiveness::NotVeryEffective);
    assert_eq!(type_matchup(Type::Dragon, Type::Fairy), TypeEffectiveness::Ineffective);
    assert_eq!(type_matchup(Type::Electric, Type::Ground), TypeEffectiveness::Ineffective);
    assert_eq!(type_matchup(Type::Electric, Type::Water), TypeEffectiveness::SuperEffective);
    assert_eq!(type_matchup(Type::Dark, Type::Ghost_), TypeEffectiveness::SuperEffective);
    assert_eq!(type_matchup(Type::Dragon, Type::Fire), TypeEffectiveness::Effective);
}

#[test]
fn dual_type_matchups_multiply() {
    assert_eq!(dual_type_matchup(Type::Electric, (Type::Water, Some(Type::Flying))), TypeEffectiveness::DoubleSuperEffective);
    assert_eq!(dual_type_matchup(Type::Bug, (Type::Ghost_, Some(Type::Dark))), TypeEffectiveness::Effective);
    assert_eq!(dual_type_matchup(Type::Electric, (Type::Water, Some(Type::Ground))), TypeEffectiveness::Ineffective);
    assert_eq!(dual_type_matchup(Type::Bug, (Type::Fire, None)), TypeEffectiveness::NotVeryEffective);
    // The order of the target's types does not matter.
    assert_eq!(
        dual_type_matchup(Type::Fairy, (Type::Dragon, Some(Type::Fire))),
        dual_type_matchup(Type::Fairy, (Type::Fire, Some(Type::Dragon)))
    );
}

#[test]
fn effectiveness_percentages_and_text() {
    assert_eq!(TypeEffectiveness::DoubleNotVeryEffective.as_percent(), Percent(25));
    assert_eq!(TypeEffectiveness::DoubleSuperEffective.as_percent(), Percent(400));
    assert_eq!(TypeEffectiveness::from_percent(Percent(50)), TypeEffectiveness::NotVeryEffective);
    assert_eq!(TypeEffectiveness::SuperEffective.mul(TypeEffectiveness::NotVeryEffective), TypeEffectiveness::Effective);
    assert_eq!(TypeEffectiveness::Ineffective.mul(TypeEffectiveness::DoubleSuperEffective), TypeEffectiveness::Ineffective);
    assert_eq!(TypeEffectiveness::DoubleSuperEffective.as_text(), "super effective");
    assert_eq!(TypeEffectiveness::NotVeryEffective.as_text(), "not very effective");
    assert!(TypeEffectiveness::Ineffective.is_matchup_ineffective());
    assert!(TypeEffectiveness::SuperEffective.is_matchup_super_effective());
    assert_eq!(Type::Ghost_.name(), "Ghost");
}

#[test]
fn stat_stages_saturate_and_undo() {
    let mut set = StatModifierSet::blank();
    assert_eq!(set.raise_stat(ModifiableStat::PhysicalAttack, 6), 6);
    assert_eq!(set.raise_stat(ModifiableStat::PhysicalAttack, 1), 0);
    assert_eq!(set.lower_stat(ModifiableStat::PhysicalAttack, 6), 6);
    assert_eq!(set.get(ModifiableStat::PhysicalAttack), 0);
    assert_eq!(set.raise_stat(ModifiableStat::Evasion, 2), 2);
    assert_eq!(set.lower_stat(ModifiableStat::Evasion, 2), 2);
    assert_eq!(set, StatModifierSet::blank());
    assert_eq!(set.lower_stat(ModifiableStat::Speed, 6), 6);
    assert_eq!(set.lower_stat(ModifiableStat::Speed, 3), 0);
    assert_eq!(set.get(ModifiableStat::Speed), -6);
    assert_eq!(ModifiableStat::SpecialDefense.name(), "Special Defense");
}

#[test]
fn positions_and_relations() {
    let centre = FieldPosition::AllyCentre;
    assert!(centre.is_adjacent_to(FieldPosition::OpponentCentre));
    assert!(centre.is_adjacent_to(FieldPosition::AllyLeft));
    assert!(!centre.is_adjacent_to(centre));
    assert!(!FieldPosition::AllyLeft.is_adjacent_to(FieldPosition::AllyRight));
    assert_eq!(centre.adjacent_positions().len(), 5);
    assert!(centre.is_on_the_opposite_side_of(FieldPosition::OpponentLeft));
    assert!(centre.is_on_the_same_side_as(FieldPosition::AllyRight));
    let relation = FieldPosition::relation_flags(centre, FieldPosition::OpponentCentre);
    assert_eq!(relation, TargetFlags::opponents().union(TargetFlags::adjacent()));
    assert_eq!(FieldPosition::relation_flags(centre, centre), TargetFlags::itself());
    assert!(FieldPosition::is_position_relation_allowed_by_flags(
        centre,
        FieldPosition::OpponentRight,
        TargetFlags::opponents().union(TargetFlags::adjacent())
    ));
    assert!(!FieldPosition::is_position_relation_allowed_by_flags(centre, FieldPosition::AllyRight, TargetFlags::opponents()));
    assert_eq!(BoardPosition::Bench.field_position(), None);
    assert_eq!(BoardPosition::Field(centre).field_position(), Some(centre));
    assert!(TargetFlags::all().contains(TargetFlags::allies()));
    assert_eq!(TargetFlags::empty().bits(), 0);
}

fn switch(order: ActivationOrder) -> FullySpecifiedActionChoice {
    let id = MonsterID { team_id: TeamID::Allies, monster_number: MonsterNumber::_1 };
    FullySpecifiedActionChoice::SwitchOut { active_monster_id: id, benched_monster_id: id, activation_order: order }
}

fn order_of(choice: &FullySpecifiedActionChoice) -> ActivationOrder {
    match choice {
        FullySpecifiedActionChoice::Move { activation_order, .. } => *activation_order,
        FullySpecifiedActionChoice::SwitchOut { activation_order, .. } => *activation_order,
    }
}

#[test]
fn sorting_puts_priority_then_speed_then_order_first() {
    let orders = [
        ActivationOrder { priority: 0, speed: 50, order: 0 },
        ActivationOrder { priority: 1, speed: 10, order: 0 },
        ActivationOrder { priority: 0, speed: 50, order: 3 },
        ActivationOrder { priority: -1, speed: 200, order: 0 },
        ActivationOrder { priority: 0, speed: 90, order: 0 },
    ];
    let mut choices: Vec<FullySpecifiedActionChoice> = orders.iter().map(|o| switch(*o)).collect();
    let mut prng = Prng::new(7);
    sort_by_activation_order(&mut prng, &mut choices);
    let sorted: Vec<ActivationOrder> = choices.iter().map(order_of).collect();
    assert_eq!(
        sorted,
        vec![orders[1], orders[4], orders[2], orders[0], orders[3]]
    );
    // Without ties the result does not depend on the generator.
    let mut again: Vec<FullySpecifiedActionChoice> = orders.iter().rev().map(|o| switch(*o)).collect();
    let mut other = Prng::new(99);
    sort_by_activation_order(&mut other, &mut again);
    assert_eq!(again.iter().map(order_of).collect::<Vec<_>>(), sorted);
}

#[test]
fn ties_are_broken_but_keep_every_item() {
    let tie = ActivationOrder { priority: 0, speed: 10, order: 0 };
    let mut choices: Vec<FullySpecifiedActionChoice> = (0..6).map(|_| switch(tie)).collect();
    choices.push(switch(ActivationOrder { priority: 1, speed: 0, order: 0 }));
    let mut prng = Prng::new(11);
    sort_by_activation_order(&mut prng, &mut choices);
    assert_eq!(choices.len(), 7);
    assert_eq!(order_of(&choices[0]).priority, 1);
    assert!(choices[1..].iter().all(|c| order_of(c) == tie));
}

fn switch_to(benched: MonsterNumber, order: ActivationOrder) -> FullySpecifiedActionChoice {
    let id = MonsterID { team_id: TeamID::Allies, monster_number: MonsterNumber::_1 };
    let benched_monster_id = MonsterID { team_id: TeamID::Allies, monster_number: benched };
    FullySpecifiedActionChoice::SwitchOut { active_monster_id: id, benched_monster_id, activation_order: order }
}

fn benched_of(choice: &FullySpecifiedActionChoice) -> MonsterNumber {
    match choice {
        FullySpecifiedActionChoice::SwitchOut { benched_monster_id, .. } => benched_monster_id.monster_number,
        FullySpecifiedActionChoice::Move { .. } => MonsterNumber::_6,
    }
}

#[test]
fn ties_are_broken_by_the_generator() {
    let tie = ActivationOrder { priority: 0, speed: 10, order: 0 };
    // Reversed after the stable sort, the tie reads [second, first]; from seed 0 the generator
    // steps to 0x269EC3, below 2^63, so the two-sided die shows 0 and the second one stays first.
    let mut choices = vec![switch_to(MonsterNumber::_1, tie), switch_to(MonsterNumber::_2, tie)];
    let mut prng = Prng::new(0);
    sort_by_activation_order(&mut prng, &mut choices);
    assert_eq!(choices.iter().map(benched_of).collect::<Vec<_>>(), vec![MonsterNumber::_2, MonsterNumber::_1]);
    assert_eq!(prng.current_seed, 0x269EC3);
    // The same items with a generator in the same state come out the same way.
    let numbers = [MonsterNumber::_1, MonsterNumber::_2, MonsterNumber::_3, MonsterNumber::_4, MonsterNumber::_5];
    let mut first: Vec<FullySpecifiedActionChoice> = numbers.iter().map(|n| switch_to(*n, tie)).collect();
    let mut second = first.clone();
    let mut first_prng = Prng::new(12345);
    let mut second_prng = Prng::new(12345);
    sort_by_activation_order(&mut first_prng, &mut first);
    sort_by_activation_order(&mut second_prng, &mut second);
    assert_eq!(first.iter().map(benched_of).collect::<Vec<_>>(), second.iter().map(benched_of).collect::<Vec<_>>());
    assert_eq!(first_prng, second_prng);
}

#[test]
fn percentages() {
    assert_eq!(Percent::new(50).of(101), 50);
    assert_eq!(Percent(130).of(100), 130);
    assert_eq!(Percent(400).of(60000), 65535);
    assert_eq!(Percent(60).add(Percent(70)), Percent(100));
    assert_eq!(Percent(20).sub(Percent(70)), Percent(0));
    assert_eq!(ClampedPercent::from_u16(150).0, 100);
    assert_eq!(ClampedPercent::from_u16(85).of(20), 17);
}

#[test]
fn outcomes() {
    assert_eq!(Outcome::from_bool(true), Outcome::Success(()));
    assert_eq!(Outcome::Success(()).opposite(), Outcome::Failure);
    assert_eq!(Outcome::<()>::Failure.opposite().opposite(), Outcome::Failure);
    assert!(Outcome::Success(3u8).is_success());
    assert!(!Outcome::<()>::Failure.to_bool());
}

#[test]
fn numbers_as_text() {
    assert_eq!(number_text(0), "0");
    assert_eq!(number_text(1234567890), "1234567890");
    assert_eq!(signed_number_text(-42), "-42");
    assert_eq!(signed_number_text(7), "7");
}

#[test]
fn message_log_shows_each_message_once() {
    let mut log = MessageLog::new();
    log.push("first".to_string());
    log.extend(&vec!["second".to_string(), "third".to_string()]);
    assert_eq!(log.len(), 3);
    assert_eq!(log.take_new_messages(), vec!["first", "second", "third"]);
    assert!(log.take_new_messages().is_empty());
    log.push("fourth".to_string());
    assert_eq!(log.take_new_messages(), vec!["fourth"]);
    assert_eq!(log.as_vec().len(), 4);
}

#[test]
fn counts_are_drawn_in_their_range() {
    let mut prng = Prng::new(5);
    assert_eq!(Count::Fixed(3).init(&mut prng), 3);
    assert_eq!(prng.current_seed, 5);
    for _ in 0..100 {
        let n = Count::RandomInRange { min: 2, max: 5 }.init(&mut prng);
        assert!((2..=5).contains(&n));
    }
}

#[test]
fn hit_ranges_include_both_ends_of_a_random_count() {
    assert_eq!(Hits::Once.to_range(), (0, 1));
    assert_eq!(Hits::MultipleTimes(3).to_range(), (0, 3));
    assert_eq!(Hits::RandomlyInRange { min: 2, max: 5 }.to_range(), (2, 6));
    assert_eq!(Hits::RandomlyInRange { min: 255, max: 255 }.to_range(), (255, 256));
}
