use vstd::prelude::*;

use crate::ability::{Ability, AbilityID, AbilitySpecies};
use crate::battle::{Battle, BattleState};
use crate::environment::{Environment, Terrain, TerrainSpecies, Weather, WeatherSpecies};
use crate::item::{Item, ItemID, ItemSpecies, ItemState};
use crate::monster::{
    max_health_formula, monster_number_at, monster_number_index, Monster, MonsterID, MonsterNumber, MonsterSpecies,
};
use crate::move_::{move_number_index, Move, MoveID, MoveNumber, MoveSpecies};
use crate::global_constants::Count;
use crate::prng::Prng;
use crate::stats::{MonsterNature, Stat, StatModifierSet, StatSet};
use crate::targetting::{BoardPosition, FieldPosition};
use crate::team::{MonsterTeam, PerTeam, TeamID};

verus! {

/// How many monsters of each team stand on the Field at once: one, two or three.
#[derive(Debug, Clone, Copy, PartialEq, Eq, Structural)]
pub enum BattleFormat {
    Single,
    Double,
    Triple,
}

/// The tiles in play in `format`, the allies' first.
pub open spec fn spec_valid_positions(format: BattleFormat) -> Seq<FieldPosition> {
    match format {
        BattleFormat::Single => seq![FieldPosition::AllyCentre, FieldPosition::OpponentCentre],
        BattleFormat::Double => seq![
            FieldPosition::AllyCentre,
            FieldPosition::AllyRight,
            FieldPosition::OpponentCentre,
            FieldPosition::OpponentRight,
        ],
        BattleFormat::Triple => seq![
            FieldPosition::AllyLeft,
            FieldPosition::AllyCentre,
            FieldPosition::AllyRight,
            FieldPosition::OpponentLeft,
            FieldPosition::OpponentCentre,
            FieldPosition::OpponentRight,
        ],
    }
}

/// The starting board positions of the six slots of the ally team in `format`.
pub open spec fn spec_ally_board_positions(format: BattleFormat) -> Seq<BoardPosition> {
    match format {
        BattleFormat::Single => seq![
            BoardPosition::Field(FieldPosition::AllyCentre),
            BoardPosition::Bench,
            BoardPosition::Bench,
            BoardPosition::Bench,
            BoardPosition::Bench,
            BoardPosition::Bench,
        ],
        BattleFormat::Double => seq![
            BoardPosition::Field(FieldPosition::AllyCentre),
            BoardPosition::Field(FieldPosition::AllyRight),
            BoardPosition::Bench,
            BoardPosition::Bench,
            BoardPosition::Bench,
            BoardPosition::Bench,
        ],
        BattleFormat::Triple => seq![
            BoardPosition::Field(FieldPosition::AllyCentre),
            BoardPosition::Field(FieldPosition::AllyLeft),
            BoardPosition::Field(FieldPosition::AllyRight),
            BoardPosition::Bench,
            BoardPosition::Bench,
            BoardPosition::Bench,
        ],
    }
}

/// The starting board positions of the six slots of the opponent team in `format`.
pub open spec fn spec_opponent_board_positions(format: BattleFormat) -> Seq<BoardPosition> {
    match format {
        BattleFormat::Single => seq![
            BoardPosition::Field(FieldPosition::OpponentCentre),
            BoardPosition::Bench,
            BoardPosition::Bench,
            BoardPosition::Bench,
            BoardPosition::Bench,
            BoardPosition::Bench,
        ],
        BattleFormat::Double => seq![
            BoardPosition::Field(FieldPosition::OpponentCentre),
            BoardPosition::Field(FieldPosition::OpponentRight),
            BoardPosition::Bench,
            BoardPosition::Bench,
            BoardPosition::Bench,
            BoardPosition::Bench,
        ],
        BattleFormat::Triple => seq![
            BoardPosition::Field(FieldPosition::OpponentCentre),
            BoardPosition::Field(FieldPosition::OpponentLeft),
            BoardPosition::Field(FieldPosition::OpponentRight),
            BoardPosition::Bench,
            BoardPosition::Bench,
            BoardPosition::Bench,
        ],
    }
}

impl BattleFormat {
    /// The tiles in play in this format, the allies' first.
    pub fn valid_positions(&self) -> (positions: Vec<FieldPosition>)
        ensures
            positions@ == spec_valid_positions(*self),
    {
        match self {
            BattleFormat::Single => vec![FieldPosition::AllyCentre, FieldPosition::OpponentCentre],
            BattleFormat::Double => vec![
                FieldPosition::AllyCentre,
                FieldPosition::AllyRight,
                FieldPosition::OpponentCentre,
                FieldPosition::OpponentRight,
            ],
            BattleFormat::Triple => vec![
                FieldPosition::AllyLeft,
                FieldPosition::AllyCentre,
                FieldPosition::AllyRight,
                FieldPosition::OpponentLeft,
                FieldPosition::OpponentCentre,
                FieldPosition::OpponentRight,
            ],
        }
    }

    /// The starting board positions of the six slots of the ally team.
    pub fn ally_board_positions(&self) -> (positions: [BoardPosition; 6])
        ensures
            positions@ == spec_ally_board_positions(*self),
    {
        match self {
            BattleFormat::Single => [
                BoardPosition::Field(FieldPosition::AllyCentre),
                BoardPosition::Bench,
                BoardPosition::Bench,
                BoardPosition::Bench,
                BoardPosition::Bench,
                BoardPosition::Bench,
            ],
            BattleFormat::Double => [
                BoardPosition::Field(FieldPosition::AllyCentre),
                BoardPosition::Field(FieldPosition::AllyRight),
                BoardPosition::Bench,
                BoardPosition::Bench,
                BoardPosition::Bench,
                BoardPosition::Bench,
            ],
            BattleFormat::Triple => [
                BoardPosition::Field(FieldPosition::AllyCentre),
                BoardPosition::Field(FieldPosition::AllyLeft),
                BoardPosition::Field(FieldPosition::AllyRight),
                BoardPosition::Bench,
                BoardPosition::Bench,
                BoardPosition::Bench,
            ],
        }
    }

    /// The starting board positions of the six slots of the opponent team.
    pub fn opponent_board_positions(&self) -> (positions: [BoardPosition; 6])
        ensures
            positions@ == spec_opponent_board_positions(*self),
    {
        match self {
            BattleFormat::Single => [
                BoardPosition::Field(FieldPosition::OpponentCentre),
                BoardPosition::Bench,
                BoardPosition::Bench,
                BoardPosition::Bench,
                BoardPosition::Bench,
                BoardPosition::Bench,
            ],
            BattleFormat::Double => [
                BoardPosition::Field(FieldPosition::OpponentCentre),
                BoardPosition::Field(FieldPosition::OpponentRight),
                BoardPosition::Bench,
                BoardPosition::Bench,
                BoardPosition::Bench,
                BoardPosition::Bench,
            ],
            BattleFormat::Triple => [
                BoardPosition::Field(FieldPosition::OpponentCentre),
                BoardPosition::Field(FieldPosition::OpponentLeft),
                BoardPosition::Field(FieldPosition::OpponentRight),
                BoardPosition::Bench,
                BoardPosition::Bench,
                BoardPosition::Bench,
            ],
        }
    }
}

// Moves, abilities and items ----------------------------------------------------------------- //

/// The power points that the move of `builder` starts with.
pub open spec fn starting_power_points(builder: MoveBuilder) -> u8 {
    match builder.power_points {
        Some(pp) => pp,
        None => builder.species.max_power_points,
    }
}

/// The move that `builder` builds with id `move_id`.
pub open spec fn built_move(builder: MoveBuilder, move_id: MoveID) -> Move {
    Move { id: move_id, species: builder.species, current_power_points: starting_power_points(builder) }
}

/// The moves of a tuple of builders: the first, then each of the others that is given.
pub open spec fn given_moves(moves: (MoveBuilder, Option<MoveBuilder>, Option<MoveBuilder>, Option<MoveBuilder>)) -> Seq<
    MoveBuilder,
> {
    seq![moves.0] + optional_move(moves.1) + optional_move(moves.2) + optional_move(moves.3)
}

pub open spec fn optional_move(builder: Option<MoveBuilder>) -> Seq<MoveBuilder> {
    match builder {
        Some(m) => seq![m],
        None => Seq::empty(),
    }
}

/// A move to be built for a monster.
#[derive(Debug, Clone, Copy)]
pub struct MoveBuilder {
    pub species: MoveSpecies,
    pub power_points: Option<u8>,
}

impl MoveSpecies {
    /// A builder for a move of this species.
    pub fn spawn(&self) -> (builder: MoveBuilder)
        ensures
            builder.species == *self,
            builder.power_points is None,
    {
        Move::builder(*self)
    }
}

impl Move {
    /// A builder for a move of `species`, with full power points.
    pub fn builder(species: MoveSpecies) -> (builder: MoveBuilder)
        ensures
            builder.species == species,
            builder.power_points is None,
    {
        MoveBuilder { species, power_points: None }
    }
}

impl MoveBuilder {
    /// The power points the move starts with: fewer than its species' maximum.
    pub fn with_power_points(self, power_points: u8) -> (builder: MoveBuilder)
        requires
            power_points < self.species.max_power_points,
        ensures
            builder.species == self.species,
            builder.power_points == Some(power_points),
    {
        MoveBuilder { power_points: Some(power_points), ..self }
    }

    /// The move with id `move_id`: the power points given, or else its species' maximum.
    pub fn build(self, move_id: MoveID) -> (move_: Move)
        ensures
            move_ == built_move(self, move_id),
    {
        let current_power_points = match self.power_points {
            Some(pp) => pp,
            None => self.species.max_power_points,
        };
        Move { id: move_id, current_power_points, species: self.species }
    }
}

/// An ability to be built for a monster.
#[derive(Debug, Clone, Copy)]
pub struct AbilityBuilder {
    pub species: AbilitySpecies,
}

impl AbilitySpecies {
    pub fn spawn(&self) -> (builder: AbilityBuilder)
        ensures
            builder.species == *self,
    {
        Ability::builder(*self)
    }
}

impl Ability {
    /// A builder for an ability of `species`.
    pub fn builder(species: AbilitySpecies) -> (builder: AbilityBuilder)
        ensures
            builder.species == species,
    {
        AbilityBuilder { species }
    }
}

impl AbilityBuilder {
    pub fn build(self, id: AbilityID) -> (ability: Ability)
        ensures
            ability == (Ability { id, species: self.species }),
    {
        Ability { id, species: self.species }
    }
}

/// An item to be built for a monster to hold.
#[derive(Debug, Clone, Copy)]
pub struct ItemBuilder {
    pub species: ItemSpecies,
}

impl ItemSpecies {
    pub fn spawn(&self) -> (builder: ItemBuilder)
        ensures
            builder.species == *self,
    {
        Item::builder(*self)
    }
}

impl Item {
    /// A builder for an item of `species`.
    pub fn builder(species: ItemSpecies) -> (builder: ItemBuilder)
        ensures
            builder.species == species,
    {
        ItemBuilder { species }
    }
}

impl ItemBuilder {
    /// The item with id `id`, ready for use.
    pub fn build(self, id: ItemID) -> (item: Item)
        ensures
            item == (Item { id, state: ItemState::Active, species: self.species }),
    {
        Item { id, state: ItemState::Active, species: self.species }
    }
}

// Monsters ------------------------------------------------------------------------------------ //

/// The level of a built monster.
pub open spec fn built_level() -> u16 {
    50
}

/// The individual value of a built monster in each stat.
pub open spec fn built_iv() -> u16 {
    31
}

/// The effort value of a built monster in each stat.
pub open spec fn built_ev() -> u16 {
    252
}

/// The largest base stat with which the stats of a built monster (level 50, individual values
/// 31, effort values 252) fit in a `u16`.
pub open spec fn max_buildable_base_stat() -> u16 {
    608
}

/// Every base stat of `species` is at most `max_buildable_base_stat`.
pub open spec fn is_buildable_species(species: MonsterSpecies) -> bool {
    forall|stat: Stat| #[trigger] species.base_stats.spec_get(stat) <= max_buildable_base_stat()
}

/// The maximum health of a built monster of `species`.
pub open spec fn built_max_health(species: MonsterSpecies) -> int {
    max_health_formula(species.base_stats.spec_get(Stat::Hp), built_iv(), built_ev(), built_level())
}

/// The item that `item` builds for the holder `holder`, if there is one.
pub open spec fn built_item(item: Option<ItemBuilder>, holder: MonsterID) -> Option<Item> {
    match item {
        Some(item) => Some(Item { id: ItemID { item_holder_id: holder }, state: ItemState::Active, species: item.species }),
        None => None,
    }
}

/// The health that a monster built by `builder` starts with: the health given, or else its
/// maximum health.
pub open spec fn starting_health(builder: MonsterBuilder) -> int {
    match builder.current_health {
        Some(hp) => hp as int,
        None => built_max_health(builder.species),
    }
}

/// The value of a built monster in every stat: `value`.
pub open spec fn uniform_stats(value: u16) -> StatSet {
    StatSet { hp: value, att: value, def: value, spa: value, spd: value, spe: value }
}

/// A monster to be built for a team.
#[derive(Debug, Clone)]
pub struct MonsterBuilder {
    pub species: MonsterSpecies,
    pub moves: Vec<MoveBuilder>,
    pub ability: AbilityBuilder,
    pub item: Option<ItemBuilder>,
    pub nickname: Option<&'static str>,
    pub current_health: Option<u16>,
}

impl MonsterBuilder {
    /// The builder is well formed: the species is buildable, there are 1 to 4 moves, each of a
    /// well-formed species, and the starting health is at most the maximum.
    pub open spec fn wf(self) -> bool {
        &&& is_buildable_species(self.species)
        &&& 1 <= self.moves@.len() <= 4
        &&& forall|i: int| 0 <= i < self.moves@.len() ==> (#[trigger] self.moves@[i]).species.wf()
        &&& self.current_health matches Some(hp) ==> hp <= built_max_health(self.species)
    }
}

impl MonsterSpecies {
    /// A builder for a monster of this species with the moves `moves` (the first one, then each
    /// of the others that is given) and the ability `ability`.
    pub fn spawn(
        &self,
        moves: (MoveBuilder, Option<MoveBuilder>, Option<MoveBuilder>, Option<MoveBuilder>),
        ability: AbilityBuilder,
    ) -> (builder: MonsterBuilder)
        ensures
            builder.species == *self,
            builder.moves@ == given_moves(moves),
            builder.ability == ability,
            builder.item is None,
            builder.nickname is None,
            builder.current_health is None,
    {
        Monster::with(*self, moves, ability)
    }
}

impl Monster {
    /// A builder for a monster of `species` with the moves `moves` (the first one, then each of
    /// the others that is given) and the ability `ability`.
    pub fn with(
        species: MonsterSpecies,
        moves: (MoveBuilder, Option<MoveBuilder>, Option<MoveBuilder>, Option<MoveBuilder>),
        ability: AbilityBuilder,
    ) -> (builder: MonsterBuilder)
        ensures
            builder.species == species,
            builder.moves@ == given_moves(moves),
            builder.ability == ability,
            builder.item is None,
            builder.nickname is None,
            builder.current_health is None,
    {
        let mut move_builders: Vec<MoveBuilder> = Vec::new();
        move_builders.push(moves.0);
        let ghost first = move_builders@;
        match moves.1 {
            Some(m) => move_builders.push(m),
            None => {},
        }
        let ghost second = move_builders@;
        match moves.2 {
            Some(m) => move_builders.push(m),
            None => {},
        }
        let ghost third = move_builders@;
        match moves.3 {
            Some(m) => move_builders.push(m),
            None => {},
        }
        proof {
            let o1 = optional_move(moves.1);
            let o2 = optional_move(moves.2);
            let o3 = optional_move(moves.3);
            assert(second =~= first + o1);
            assert(third =~= first + o1 + o2);
            assert(move_builders@ =~= first + o1 + o2 + o3);
        }
        MonsterBuilder { species, moves: move_builders, ability, item: None, nickname: None, current_health: None }
    }
}

/// `monster` is the monster that `builder` builds with id `monster_id` at `board_position`.
pub open spec fn is_built_from(
    monster: Monster,
    builder: MonsterBuilder,
    monster_id: MonsterID,
    board_position: BoardPosition,
) -> bool {
    &&& monster.id == monster_id
    &&& monster.species == builder.species
    &&& monster.nickname == builder.nickname
    &&& monster.effort_values == uniform_stats(built_ev())
    &&& monster.individual_values == uniform_stats(built_iv())
    &&& monster.level == built_level()
    &&& monster.nature == MonsterNature::Serious
    &&& monster.board_position == board_position
    &&& forall|stat: crate::stats::ModifiableStat| #[trigger] monster.stat_modifiers.spec_get(stat) == 0
    &&& monster.moveset@.len() == builder.moves@.len()
    &&& forall|i: int|
        0 <= i < builder.moves@.len() ==> #[trigger] monster.moveset@[i] == built_move(
            builder.moves@[i],
            MoveID { owner_id: monster_id, move_number: crate::move_::move_number_at(i) },
        )
    &&& monster.ability == (Ability { id: AbilityID { owner_id: monster_id }, species: builder.ability.species })
    &&& monster.persistent_status is None
    &&& monster.volatile_statuses@.len() == 0
    &&& monster.held_item == built_item(builder.item, monster_id)
    &&& monster.consumed_item is None
    &&& monster.current_health == starting_health(builder)
}

impl MonsterBuilder {
    pub fn with_nickname(self, nickname: &'static str) -> (builder: MonsterBuilder)
        ensures
            builder == (MonsterBuilder { nickname: Some(nickname), ..self }),
    {
        MonsterBuilder { nickname: Some(nickname), ..self }
    }

    pub fn with_item(self, item: ItemBuilder) -> (builder: MonsterBuilder)
        ensures
            builder == (MonsterBuilder { item: Some(item), ..self }),
    {
        MonsterBuilder { item: Some(item), ..self }
    }

    /// The health the monster starts with: at most its maximum health.
    pub fn with_hitpoints(self, hitpoints: u16) -> (builder: MonsterBuilder)
        requires
            hitpoints <= built_max_health(self.species),
        ensures
            builder == (MonsterBuilder { current_health: Some(hitpoints), ..self }),
    {
        MonsterBuilder { current_health: Some(hitpoints), ..self }
    }

    /// The monster with id `monster_id` at `board_position`: level 50, individual values 31 and
    /// effort values 252 in every stat, a Serious nature, stats at stage 0, no statuses, the
    /// given moves (numbered in order), ability, item and nickname, and the given health or else
    /// full health.
    pub fn build(&self, monster_id: MonsterID, board_position: BoardPosition) -> (monster: Monster)
        requires
            self.wf(),
        ensures
            monster.wf(),
            is_built_from(monster, *self, monster_id, board_position),
    {
        let mut moveset: Vec<Move> = Vec::new();
        let mut i: usize = 0;
        while i < self.moves.len()
            invariant
                i <= self.moves@.len() <= 4,
                moveset@.len() == i,
                forall|k: int|
                    0 <= k < i ==> #[trigger] moveset@[k] == built_move(
                        self.moves@[k],
                        MoveID { owner_id: monster_id, move_number: crate::move_::move_number_at(k) },
                    ),
            decreases self.moves@.len() - i,
        {
            let move_id = MoveID { owner_id: monster_id, move_number: MoveNumber::from_usize(i) };
            moveset.push(self.moves[i].build(move_id));
            i += 1;
        }
        let ability = self.ability.build(AbilityID { owner_id: monster_id });
        let held_item = match self.item {
            Some(item) => Some(item.build(ItemID { item_holder_id: monster_id })),
            None => None,
        };
        let base_hp = self.species.base_stat(Stat::Hp);
        proof {
            lemma_buildable_stats_fit(self.species);
        }
        let max_health = Monster::calculate_max_health(base_hp, 31, 252, 50);
        let current_health = match self.current_health {
            Some(hp) => hp,
            None => max_health,
        };
        let monster = Monster {
            id: monster_id,
            species: self.species,
            nickname: self.nickname,
            effort_values: StatSet::new(252, 252, 252, 252, 252, 252),
            current_health,
            individual_values: StatSet::new(31, 31, 31, 31, 31, 31),
            level: 50,
            nature: MonsterNature::Serious,
            board_position,
            stat_modifiers: StatModifierSet::blank(),
            moveset,
            ability,
            persistent_status: None,
            volatile_statuses: Vec::new(),
            held_item,
            consumed_item: None,
        };
        proof {
            assert forall|k: int| 0 <= k < monster.moveset@.len() implies (#[trigger] monster.moveset@[k]).species.wf() by {
                assert(monster.moveset@[k].species == self.moves@[k].species);
            }
        }
        monster
    }
}

/// The stats of a built monster of a buildable species fit in a `u16`.
proof fn lemma_buildable_stats_fit(species: MonsterSpecies)
    requires
        is_buildable_species(species),
    ensures
        forall|stat: Stat| #[trigger] crate::monster::stat_formula_fits(species.base_stats.spec_get(stat), 31, 252, 50),
{
    assert forall|stat: Stat| #[trigger] crate::monster::stat_formula_fits(species.base_stats.spec_get(stat), 31, 252, 50) by {
        let base = species.base_stats.spec_get(stat);
        assert(base <= 608);
    }
}

// Teams --------------------------------------------------------------------------------------- //

/// The monsters to be built for a team: none yet, or one to six.
#[derive(Debug, Clone)]
pub struct MonsterTeamBuilder {
    pub maybe_monsters: Option<Vec<MonsterBuilder>>,
}

/// The builders of `builder`'s monsters, in order.
pub open spec fn team_builders(builder: MonsterTeamBuilder) -> Seq<MonsterBuilder> {
    match builder.maybe_monsters {
        Some(monsters) => monsters@,
        None => Seq::empty(),
    }
}

impl MonsterTeamBuilder {
    /// The builder has one to six monsters, each of a well-formed builder.
    pub open spec fn wf(self) -> bool {
        &&& 1 <= team_builders(self).len() <= 6
        &&& forall|i: int| 0 <= i < team_builders(self).len() ==> (#[trigger] team_builders(self)[i]).wf()
    }

    /// Adds `monster` after the others; a team has at most six.
    pub fn with_monster(self, monster: MonsterBuilder) -> (builder: MonsterTeamBuilder)
        requires
            team_builders(self).len() < 6,
        ensures
            team_builders(builder) == team_builders(self).push(monster),
    {
        match self.maybe_monsters {
            Some(monsters) => {
                let mut monsters = monsters;
                monsters.push(monster);
                MonsterTeamBuilder { maybe_monsters: Some(monsters) }
            },
            None => {
                let mut monsters: Vec<MonsterBuilder> = Vec::new();
                monsters.push(monster);
                MonsterTeamBuilder { maybe_monsters: Some(monsters) }
            },
        }
    }

    /// The team `team_id`: the monster in slot `i` is built from the `i`th builder, with the id
    /// of that slot and the board position `board_positions[i]`.
    pub fn build(self, board_positions: [BoardPosition; 6], team_id: TeamID) -> (team: MonsterTeam)
        requires
            self.wf(),
        ensures
            team.wf(),
            team.id == team_id,
            team.monsters@.len() == team_builders(self).len(),
            forall|i: int|
                0 <= i < team.monsters@.len() ==> is_built_from(
                    #[trigger] team.monsters@[i],
                    team_builders(self)[i],
                    MonsterTeam::slot_id(team_id, i),
                    board_positions@[i],
                ),
    {
        let builders = match self.maybe_monsters {
            Some(monsters) => monsters,
            None => Vec::new(),
        };
        let mut monsters: Vec<Monster> = Vec::new();
        let mut i: usize = 0;
        while i < builders.len()
            invariant
                i <= builders@.len() <= 6,
                builders@ == team_builders(self),
                forall|k: int| 0 <= k < builders@.len() ==> (#[trigger] builders@[k]).wf(),
                monsters@.len() == i,
                forall|k: int|
                    0 <= k < i ==> (#[trigger] monsters@[k]).wf() && is_built_from(
                        monsters@[k],
                        builders@[k],
                        MonsterTeam::slot_id(team_id, k),
                        board_positions@[k],
                    ),
            decreases builders@.len() - i,
        {
            let id = MonsterID { team_id, monster_number: MonsterNumber::from_usize(i) };
            let monster = builders[i].build(id, board_positions[i]);
            monsters.push(monster);
            i += 1;
        }
        let team = MonsterTeam::new(monsters, team_id);
        proof {
            assert forall|k: int| 0 <= k < team.monsters@.len() implies (#[trigger] team.monsters@[k]).id
                == MonsterTeam::slot_id(team.id, k) && team.monsters@[k].wf() by {
                assert(is_built_from(
                    team.monsters@[k],
                    builders@[k],
                    MonsterTeam::slot_id(team_id, k),
                    board_positions@[k],
                ));
            }
        }
        team
    }
}

impl MonsterTeam {
    /// A builder for a team, with no monsters yet.
    pub fn spawn() -> (builder: MonsterTeamBuilder)
        ensures
            builder.maybe_monsters is None,
    {
        MonsterTeamBuilder { maybe_monsters: None }
    }
}

// Environment --------------------------------------------------------------------------------- //

/// A weather to be built.
#[derive(Debug, Clone, Copy)]
pub struct WeatherBuilder {
    pub species: WeatherSpecies,
}

impl WeatherBuilder {
    /// The weather, lasting for a number of turns drawn from its species' lifetime with `prng`.
    pub fn build(self, prng: &mut Prng) -> (weather: Weather)
        requires
            self.species.lifetime_in_turns.wf(),
        ensures
            weather.species == self.species,
            weather.remaining_turns == self.species.lifetime_in_turns.spec_init(old(prng).current_seed),
            final(prng).current_seed == self.species.lifetime_in_turns.spec_state_after_init(old(prng).current_seed),
            final(prng).start_seed == old(prng).start_seed,
    {
        let remaining_turns = self.species.lifetime_in_turns.init(prng);
        Weather { species: self.species, remaining_turns }
    }
}

impl WeatherSpecies {
    pub fn spawn(&self) -> (builder: WeatherBuilder)
        ensures
            builder.species == *self,
    {
        WeatherBuilder { species: *self }
    }
}

/// A terrain to be built.
#[derive(Debug, Clone, Copy)]
pub struct TerrainBuilder {
    pub species: TerrainSpecies,
}

impl TerrainBuilder {
    /// The terrain, lasting for a number of turns drawn from its species' lifetime with `prng`.
    pub fn build(self, prng: &mut Prng) -> (terrain: Terrain)
        requires
            self.species.lifetime_in_turns.wf(),
        ensures
            terrain.species == self.species,
            terrain.remaining_turns == self.species.lifetime_in_turns.spec_init(old(prng).current_seed),
            final(prng).current_seed == self.species.lifetime_in_turns.spec_state_after_init(old(prng).current_seed),
            final(prng).start_seed == old(prng).start_seed,
    {
        Terrain::from_species(self.species, prng)
    }
}

/// The weather and terrain to start a battle with.
#[derive(Debug, Clone, Copy)]
pub struct EnvironmentBuilder {
    pub maybe_weather: Option<WeatherBuilder>,
    pub maybe_terrain: Option<TerrainBuilder>,
}

impl EnvironmentBuilder {
    /// The lifetimes of the weather and terrain can be drawn.
    pub open spec fn wf(self) -> bool {
        &&& self.maybe_weather matches Some(w) ==> w.species.lifetime_in_turns.wf()
        &&& self.maybe_terrain matches Some(t) ==> t.species.lifetime_in_turns.wf()
    }

    pub fn with_weather(self, species: WeatherSpecies) -> (builder: EnvironmentBuilder)
        ensures
            builder == (EnvironmentBuilder { maybe_weather: Some(WeatherBuilder { species }), ..self }),
    {
        EnvironmentBuilder { maybe_weather: Some(WeatherBuilder { species }), ..self }
    }

    pub fn with_terrain(self, species: TerrainSpecies) -> (builder: EnvironmentBuilder)
        ensures
            builder == (EnvironmentBuilder { maybe_terrain: Some(TerrainBuilder { species }), ..self }),
    {
        EnvironmentBuilder { maybe_terrain: Some(TerrainBuilder { species }), ..self }
    }

    /// The environment: the weather and terrain, if any, with lifetimes drawn with `prng` (the
    /// weather's first), and no traps.
    pub fn build(self, prng: &mut Prng) -> (environment: Environment)
        requires
            self.wf(),
        ensures
            environment.weather matches Some(w) ==> self.maybe_weather matches Some(b) && w.species == b.species,
            environment.weather is None <==> self.maybe_weather is None,
            environment.terrain matches Some(t) ==> self.maybe_terrain matches Some(b) && t.species == b.species,
            environment.terrain is None <==> self.maybe_terrain is None,
            environment.traps.ally_team_item is None,
            environment.traps.opponent_team_item is None,
            final(prng).start_seed == old(prng).start_seed,
    {
        let weather = match self.maybe_weather {
            Some(builder) => Some(builder.build(prng)),
            None => None,
        };
        let terrain = match self.maybe_terrain {
            Some(builder) => Some(builder.build(prng)),
            None => None,
        };
        Environment { weather, terrain, traps: PerTeam::new(None, None) }
    }
}

impl Environment {
    /// A builder for an environment with no weather and no terrain.
    pub fn spawn() -> (builder: EnvironmentBuilder)
        ensures
            builder.maybe_weather is None,
            builder.maybe_terrain is None,
    {
        EnvironmentBuilder { maybe_weather: None, maybe_terrain: None }
    }
}

// Battles ------------------------------------------------------------------------------------- //

/// The teams, environment and format to start a battle with.
#[derive(Debug, Clone)]
pub struct BattleBuilder {
    pub maybe_ally_team: Option<MonsterTeamBuilder>,
    pub maybe_opponent_team: Option<MonsterTeamBuilder>,
    pub environment: EnvironmentBuilder,
    pub format: BattleFormat,
}

impl BattleBuilder {
    /// Both teams are given and well formed, and so is the environment.
    pub open spec fn wf(self) -> bool {
        &&& self.maybe_ally_team matches Some(team) && team.wf()
        &&& self.maybe_opponent_team matches Some(team) && team.wf()
        &&& self.environment.wf()
    }
}

impl Battle {
    /// A builder for a battle in the Single format, with no teams yet and an empty environment.
    pub fn spawn() -> (builder: BattleBuilder)
        ensures
            builder.maybe_ally_team is None,
            builder.maybe_opponent_team is None,
            builder.environment.maybe_weather is None,
            builder.environment.maybe_terrain is None,
            builder.format == BattleFormat::Single,
    {
        BattleBuilder {
            maybe_ally_team: None,
            maybe_opponent_team: None,
            environment: Environment::spawn(),
            format: BattleFormat::Single,
        }
    }
}

impl BattleBuilder {
    /// Sets the ally team; a battle has one.
    pub fn with_ally_team(self, ally_team_builder: MonsterTeamBuilder) -> (builder: BattleBuilder)
        requires
            self.maybe_ally_team is None,
        ensures
            builder.maybe_ally_team == Some(ally_team_builder),
            builder.maybe_opponent_team == self.maybe_opponent_team,
            builder.environment == self.environment,
            builder.format == self.format,
    {
        BattleBuilder { maybe_ally_team: Some(ally_team_builder), ..self }
    }

    /// Sets the opponent team; a battle has one.
    pub fn with_opponent_team(self, opponent_team: MonsterTeamBuilder) -> (builder: BattleBuilder)
        requires
            self.maybe_opponent_team is None,
        ensures
            builder.maybe_opponent_team == Some(opponent_team),
            builder.maybe_ally_team == self.maybe_ally_team,
            builder.environment == self.environment,
            builder.format == self.format,
    {
        BattleBuilder { maybe_opponent_team: Some(opponent_team), ..self }
    }

    pub fn with_environment(self, environment: EnvironmentBuilder) -> (builder: BattleBuilder)
        ensures
            builder.environment == environment,
            builder.maybe_ally_team == self.maybe_ally_team,
            builder.maybe_opponent_team == self.maybe_opponent_team,
            builder.format == self.format,
    {
        BattleBuilder { environment, ..self }
    }

    pub fn with_format(self, battle_format: BattleFormat) -> (builder: BattleBuilder)
        ensures
            builder.format == battle_format,
            builder.maybe_ally_team == self.maybe_ally_team,
            builder.maybe_opponent_team == self.maybe_opponent_team,
            builder.environment == self.environment,
    {
        BattleBuilder { format: battle_format, ..self }
    }

    /// The battle, with a generator seeded from the current time (see `build_with_prng`): turn 0,
    /// no messages, the ally team built in the ally slots at the format's ally board positions,
    /// and the opponent team likewise.
    pub fn build(self) -> (battle: Battle)
        requires
            self.wf(),
        ensures
            battle.wf(),
            battle.format == self.format,
            battle.turn_number == 0,
            battle.message_log.messages@.len() == 0,
            ({
                let allies = battle.state.team_monsters(TeamID::Allies);
                let builders = team_builders(self.maybe_ally_team.unwrap());
                &&& allies.len() == builders.len()
                &&& forall|i: int|
                    0 <= i < allies.len() ==> is_built_from(
                        #[trigger] allies[i],
                        builders[i],
                        MonsterTeam::slot_id(TeamID::Allies, i),
                        spec_ally_board_positions(self.format)[i],
                    )
            }),
            ({
                let opponents = battle.state.team_monsters(TeamID::Opponents);
                let builders = team_builders(self.maybe_opponent_team.unwrap());
                &&& opponents.len() == builders.len()
                &&& forall|i: int|
                    0 <= i < opponents.len() ==> is_built_from(
                        #[trigger] opponents[i],
                        builders[i],
                        MonsterTeam::slot_id(TeamID::Opponents, i),
                        spec_opponent_board_positions(self.format)[i],
                    )
            }),
    {
        let prng = Prng::from_current_time();
        self.build_with_prng(prng)
    }

    /// The battle at turn 0 with no messages: the ally team built in the ally slots and the
    /// format's ally board positions, the opponent team likewise, and the environment built with
    /// `prng`, which the battle then keeps.
    pub fn build_with_prng(self, prng: Prng) -> (battle: Battle)
        requires
            self.wf(),
        ensures
            battle.wf(),
            battle.format == self.format,
            battle.turn_number == 0,
            battle.message_log.messages@.len() == 0,
            battle.prng.start_seed == prng.start_seed,
            ({
                let allies = battle.state.team_monsters(TeamID::Allies);
                let builders = team_builders(self.maybe_ally_team.unwrap());
                &&& allies.len() == builders.len()
                &&& forall|i: int|
                    0 <= i < allies.len() ==> is_built_from(
                        #[trigger] allies[i],
                        builders[i],
                        MonsterTeam::slot_id(TeamID::Allies, i),
                        spec_ally_board_positions(self.format)[i],
                    )
            }),
            ({
                let opponents = battle.state.team_monsters(TeamID::Opponents);
                let builders = team_builders(self.maybe_opponent_team.unwrap());
                &&& opponents.len() == builders.len()
                &&& forall|i: int|
                    0 <= i < opponents.len() ==> is_built_from(
                        #[trigger] opponents[i],
                        builders[i],
                        MonsterTeam::slot_id(TeamID::Opponents, i),
                        spec_opponent_board_positions(self.format)[i],
                    )
            }),
    {
        let mut prng = prng;
        let ally_board_positions = self.format.ally_board_positions();
        let ally_team = self.maybe_ally_team.unwrap().build(ally_board_positions, TeamID::Allies);
        let opponent_board_positions = self.format.opponent_board_positions();
        let opponent_team = self.maybe_opponent_team.unwrap().build(opponent_board_positions, TeamID::Opponents);
        let environment = self.environment.build(&mut prng);
        Battle::new(ally_team, opponent_team, environment, self.format, prng)
    }
}

// Counts -------------------------------------------------------------------------------------- //

/// Things that yield a number when a battle starts or a status begins: a number of turns or of
/// hits.
pub trait InitCount {
    /// Whether a number can be drawn.
    spec fn can_init(&self) -> bool;

    /// The number drawn for a generator in state `seed`.
    spec fn initial_number(&self, seed: u64) -> u8;

    /// The state in which drawing leaves a generator in state `seed`.
    spec fn state_after_init(&self, seed: u64) -> u64;

    /// Draws the number with `prng`.
    fn init(&self, prng: &mut Prng) -> (n: u8)
        requires
            self.can_init(),
        ensures
            n == self.initial_number(old(prng).current_seed),
            final(prng).current_seed == self.state_after_init(old(prng).current_seed),
            final(prng).start_seed == old(prng).start_seed,
    ;
}

impl InitCount for Count {
    open spec fn can_init(&self) -> bool {
        self.wf()
    }

    open spec fn initial_number(&self, seed: u64) -> u8 {
        self.spec_init(seed)
    }

    open spec fn state_after_init(&self, seed: u64) -> u64 {
        self.spec_state_after_init(seed)
    }

    /// A fixed count, or a number drawn from the range with `prng`.
    fn init(&self, prng: &mut Prng) -> (n: u8) {
        match *self {
            Count::Fixed(number) => number,
            Count::RandomInRange { min, max } => prng.generate_random_number_in_range(min as u16, max as u16) as u8,
        }
    }
}

/// A drawn count lies in its range.
pub proof fn law_drawn_count_is_in_range(count: Count, seed: u64)
    requires
        count.wf(),
    ensures
        count matches Count::RandomInRange { min, max } ==> min <= count.spec_init(seed) <= max,
{
    match count {
        Count::RandomInRange { min, max } => {
            crate::prng::law_number_in_range_is_in_range(seed, min as u16, max as u16);
        },
        Count::Fixed(_) => {},
    }
}

} // verus!
