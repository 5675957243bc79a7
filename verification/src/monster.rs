use vstd::prelude::*;

use colored::Colorize;

use crate::ability::Ability;
use crate::events::EventHandlerSet;
use crate::item::Item;
use crate::move_::{move_number_at, Move, MoveID};
use crate::stats::{ModifiableStat, MonsterNature, Stat, StatModifierSet, StatSet};
use crate::status::{PersistentStatus, VolatileStatus, VolatileStatusSpecies};
use crate::targetting::{field_position_name, spec_field_position, BoardPosition, FieldPosition};
use crate::team::TeamID;
use crate::text::{decimal, number_text};
use crate::types::{spec_type_name, Type};

verus! {

/// The slot of a monster in its team.
#[derive(Debug, Clone, Copy, PartialEq, Eq, Hash, Default, Structural)]
pub enum MonsterNumber {
    #[default]
    _1,
    _2,
    _3,
    _4,
    _5,
    _6,
}

/// The slot number of a monster, counted from 0.
pub open spec fn monster_number_index(n: MonsterNumber) -> int {
    match n {
        MonsterNumber::_1 => 0,
        MonsterNumber::_2 => 1,
        MonsterNumber::_3 => 2,
        MonsterNumber::_4 => 3,
        MonsterNumber::_5 => 4,
        MonsterNumber::_6 => 5,
    }
}

/// The monster number of the slot `i` (0 to 5).
pub open spec fn monster_number_at(i: int) -> MonsterNumber {
    if i == 0 {
        MonsterNumber::_1
    } else if i == 1 {
        MonsterNumber::_2
    } else if i == 2 {
        MonsterNumber::_3
    } else if i == 3 {
        MonsterNumber::_4
    } else if i == 4 {
        MonsterNumber::_5
    } else {
        MonsterNumber::_6
    }
}

impl MonsterNumber {
    /// The monster number of the slot `value` (0 to 5).
    pub fn from_usize(value: usize) -> (n: MonsterNumber)
        requires
            value < 6,
        ensures
            monster_number_index(n) == value,
            n == monster_number_at(value as int),
    {
        if value == 0 {
            MonsterNumber::_1
        } else if value == 1 {
            MonsterNumber::_2
        } else if value == 2 {
            MonsterNumber::_3
        } else if value == 3 {
            MonsterNumber::_4
        } else if value == 4 {
            MonsterNumber::_5
        } else {
            MonsterNumber::_6
        }
    }

    /// The slot of this monster number, counted from 0.
    pub fn index(&self) -> (i: usize)
        ensures
            i == monster_number_index(*self),
            monster_number_at(i as int) == *self,
    {
        match self {
            MonsterNumber::_1 => 0,
            MonsterNumber::_2 => 1,
            MonsterNumber::_3 => 2,
            MonsterNumber::_4 => 3,
            MonsterNumber::_5 => 4,
            MonsterNumber::_6 => 5,
        }
    }
}

/// Identifies a monster by its team and its slot in the team.
#[derive(Debug, Clone, Copy, PartialEq, Eq, Hash, Default, Structural)]
pub struct MonsterID {
    pub team_id: TeamID,
    pub monster_number: MonsterNumber,
}

/// How the monster `id` is referred to: "First Ally" to "Sixth Opponent".
pub open spec fn monster_id_name(id: MonsterID) -> Seq<char> {
    match id.team_id {
        TeamID::Allies => match id.monster_number {
            MonsterNumber::_1 => "First Ally"@,
            MonsterNumber::_2 => "Second Ally"@,
            MonsterNumber::_3 => "Third Ally"@,
            MonsterNumber::_4 => "Fourth Ally"@,
            MonsterNumber::_5 => "Fifth Ally"@,
            MonsterNumber::_6 => "Sixth Ally"@,
        },
        TeamID::Opponents => match id.monster_number {
            MonsterNumber::_1 => "First Opponent"@,
            MonsterNumber::_2 => "Second Opponent"@,
            MonsterNumber::_3 => "Third Opponent"@,
            MonsterNumber::_4 => "Fourth Opponent"@,
            MonsterNumber::_5 => "Fifth Opponent"@,
            MonsterNumber::_6 => "Sixth Opponent"@,
        },
    }
}

impl MonsterID {
    /// The ally in slot `number`.
    pub fn ally(number: MonsterNumber) -> (id: MonsterID)
        ensures
            id == (MonsterID { team_id: TeamID::Allies, monster_number: number }),
    {
        MonsterID { team_id: TeamID::Allies, monster_number: number }
    }

    /// The opponent in slot `number`.
    pub fn opponent(number: MonsterNumber) -> (id: MonsterID)
        ensures
            id == (MonsterID { team_id: TeamID::Opponents, monster_number: number }),
    {
        MonsterID { team_id: TeamID::Opponents, monster_number: number }
    }

    /// How the monster is referred to: "First Ally" to "Sixth Opponent".
    pub fn name(&self) -> (name: &'static str)
        ensures
            name@ == monster_id_name(*self),
    {
        match self.team_id {
            TeamID::Allies => match self.monster_number {
                MonsterNumber::_1 => "First Ally",
                MonsterNumber::_2 => "Second Ally",
                MonsterNumber::_3 => "Third Ally",
                MonsterNumber::_4 => "Fourth Ally",
                MonsterNumber::_5 => "Fifth Ally",
                MonsterNumber::_6 => "Sixth Ally",
            },
            TeamID::Opponents => match self.monster_number {
                MonsterNumber::_1 => "First Opponent",
                MonsterNumber::_2 => "Second Opponent",
                MonsterNumber::_3 => "Third Opponent",
                MonsterNumber::_4 => "Fourth Opponent",
                MonsterNumber::_5 => "Fifth Opponent",
                MonsterNumber::_6 => "Sixth Opponent",
            },
        }
    }
}

/// The data that a dex gives for a species of monster.
#[derive(Debug, Clone, Copy)]
pub struct MonsterDexEntry {
    pub dex_number: u16,
    pub name: &'static str,
    pub primary_type: Type,
    pub secondary_type: Option<Type>,
    pub base_stats: StatSet,
    pub event_handlers: EventHandlerSet,
}

/// A species of monster.
#[derive(Debug, Clone, Copy)]
pub struct MonsterSpecies {
    pub dex_number: u16,
    pub name: &'static str,
    pub primary_type: Type,
    pub secondary_type: Option<Type>,
    pub base_stats: StatSet,
    pub event_handlers: EventHandlerSet,
}

impl MonsterSpecies {
    pub fn from_dex_entry(dex_entry: MonsterDexEntry) -> (species: MonsterSpecies)
        ensures
            species.dex_number == dex_entry.dex_number,
            species.name == dex_entry.name,
            species.primary_type == dex_entry.primary_type,
            species.secondary_type == dex_entry.secondary_type,
            species.base_stats == dex_entry.base_stats,
            species.event_handlers == dex_entry.event_handlers,
    {
        MonsterSpecies {
            dex_number: dex_entry.dex_number,
            name: dex_entry.name,
            primary_type: dex_entry.primary_type,
            secondary_type: dex_entry.secondary_type,
            base_stats: dex_entry.base_stats,
            event_handlers: dex_entry.event_handlers,
        }
    }

    pub fn name(&self) -> (name: &'static str)
        ensures
            name == self.name,
    {
        self.name
    }

    pub fn type_(&self) -> (t: (Type, Option<Type>))
        ensures
            t == (self.primary_type, self.secondary_type),
    {
        (self.primary_type, self.secondary_type)
    }

    pub fn primary_type(&self) -> (t: Type)
        ensures
            t == self.primary_type,
    {
        self.primary_type
    }

    pub fn secondary_type(&self) -> (t: Option<Type>)
        ensures
            t == self.secondary_type,
    {
        self.secondary_type
    }

    pub fn base_stat(&self, stat: Stat) -> (v: u16)
        ensures
            v == self.base_stats.spec_get(stat),
    {
        self.base_stats.get(stat)
    }

    pub fn event_handlers(&self) -> (handlers: EventHandlerSet)
        ensures
            handlers == self.event_handlers,
    {
        self.event_handlers
    }

    /// Two species are the same when their dex numbers are.
    pub fn is_same_species(&self, other: &MonsterSpecies) -> (b: bool)
        ensures
            b == (self.dex_number == other.dex_number),
    {
        self.dex_number == other.dex_number
    }
}

/// `2 * base + iv + ev / 4`, the part of the stat formulas that the level multiplies.
pub open spec fn stat_growth(base: u16, iv: u16, ev: u16) -> int {
    2 * base + iv + ev / 4
}

/// The maximum health of a monster: `((2 * base + iv + ev / 4) * level) / 100 + level + 10`.
pub open spec fn max_health_formula(base: u16, iv: u16, ev: u16, level: u16) -> int {
    (stat_growth(base, iv, ev) * level) / 100 + level + 10
}

/// Any other stat of a monster: `((2 * base + iv + ev / 4) * level) / 100 + 5`.
pub open spec fn stat_formula(base: u16, iv: u16, ev: u16, level: u16) -> int {
    (stat_growth(base, iv, ev) * level) / 100 + 5
}

/// Every step of the stat formulas fits in a `u16`.
pub open spec fn stat_formula_fits(base: u16, iv: u16, ev: u16, level: u16) -> bool {
    &&& stat_growth(base, iv, ev) <= u16::MAX
    &&& stat_growth(base, iv, ev) * level <= u16::MAX
    &&& max_health_formula(base, iv, ev, level) <= u16::MAX
}

/// The greatest number of moves that a monster knows.
pub open spec fn max_moves() -> int {
    4
}

/// The greatest number of volatile statuses that a monster has at once.
pub open spec fn max_volatile_statuses() -> int {
    16
}

/// A monster in a battle.
#[derive(Debug, Clone)]
pub struct Monster {
    pub id: MonsterID,
    pub species: MonsterSpecies,
    pub nickname: Option<&'static str>,
    pub effort_values: StatSet,
    pub current_health: u16,
    pub individual_values: StatSet,
    pub level: u16,
    pub nature: MonsterNature,
    pub board_position: BoardPosition,
    pub stat_modifiers: StatModifierSet,
    pub moveset: Vec<Move>,
    pub ability: Ability,
    pub persistent_status: Option<PersistentStatus>,
    pub volatile_statuses: Vec<VolatileStatus>,
    pub held_item: Option<Item>,
    pub consumed_item: Option<Item>,
}

impl Monster {
    /// The value of a stat with this monster's base stats, individual and effort values and level.
    pub open spec fn spec_stat(self, stat: Stat) -> int {
        let base = self.species.base_stats.spec_get(stat);
        let iv = self.individual_values.spec_get(stat);
        let ev = self.effort_values.spec_get(stat);
        match stat {
            Stat::Hp => max_health_formula(base, iv, ev, self.level),
            _ => stat_formula(base, iv, ev, self.level),
        }
    }

    /// The maximum health of this monster.
    pub open spec fn spec_max_health(self) -> int {
        self.spec_stat(Stat::Hp)
    }

    pub open spec fn stat_fits(self, stat: Stat) -> bool {
        stat_formula_fits(
            self.species.base_stats.spec_get(stat),
            self.individual_values.spec_get(stat),
            self.effort_values.spec_get(stat),
            self.level,
        )
    }

    /// The monster's stats can be computed; it knows 1 to 4 moves, whose hit counts can be drawn
    /// and whose ids name the monster and their slot; it has at most 16 volatile statuses; and its
    /// stat stages lie between -6 and +6.
    pub open spec fn wf(self) -> bool {
        &&& self.stat_fits(Stat::Hp)
        &&& self.stat_fits(Stat::PhysicalAttack)
        &&& self.stat_fits(Stat::PhysicalDefense)
        &&& self.stat_fits(Stat::SpecialAttack)
        &&& self.stat_fits(Stat::SpecialDefense)
        &&& self.stat_fits(Stat::Speed)
        &&& 1 <= self.moveset@.len() <= max_moves()
        &&& forall|i: int|
            0 <= i < self.moveset@.len() ==> (#[trigger] self.moveset@[i]).species.wf() && self.moveset@[i].id == (MoveID {
                owner_id: self.id,
                move_number: move_number_at(i),
            })
        &&& self.volatile_statuses@.len() <= max_volatile_statuses()
        &&& self.stat_modifiers.wf()
    }

    /// The name that the monster goes by: its nickname, or else its species' name.
    pub open spec fn spec_name(self) -> Seq<char> {
        match self.nickname {
            Some(nickname) => nickname@,
            None => self.species.name@,
        }
    }

    /// The nickname followed by "the" and the species' name, or the species' name alone.
    pub open spec fn spec_full_name(self) -> Seq<char> {
        match self.nickname {
            Some(nickname) => nickname@ + " the "@ + self.species.name@,
            None => self.species.name@,
        }
    }

    pub open spec fn spec_is_type(self, t: Type) -> bool {
        self.species.primary_type == t || self.species.secondary_type == Some(t)
    }

    pub open spec fn spec_is_active(self) -> bool {
        self.board_position is Field
    }

    pub fn name(&self) -> (name: String)
        ensures
            name@ == self.spec_name(),
    {
        match self.nickname {
            Some(nickname) => String::from_str(nickname),
            None => String::from_str(self.species.name),
        }
    }

    pub fn full_name(&self) -> (name: String)
        ensures
            name@ == self.spec_full_name(),
    {
        match self.nickname {
            Some(nickname) => {
                let mut name = String::from_str(nickname);
                name.append(" the ");
                name.append(self.species.name);
                name
            },
            None => String::from_str(self.species.name),
        }
    }

    pub fn is_type(&self, test_type: Type) -> (b: bool)
        ensures
            b == self.spec_is_type(test_type),
    {
        self.species.primary_type == test_type || match self.species.secondary_type {
            Some(t) => t == test_type,
            None => false,
        }
    }

    /// Whether the monster stands on the ground: every monster but a Flying one.
    pub fn is_grounded(&self) -> (b: bool)
        ensures
            b == !self.spec_is_type(Type::Flying),
    {
        !self.is_type(Type::Flying)
    }

    pub fn calculate_max_health(base_hp: u16, hp_iv: u16, hp_ev: u16, level: u16) -> (hp: u16)
        requires
            stat_formula_fits(base_hp, hp_iv, hp_ev, level),
        ensures
            hp == max_health_formula(base_hp, hp_iv, hp_ev, level),
    {
        ((2 * base_hp + hp_iv + (hp_ev / 4)) * level) / 100 + level + 10
    }

    pub fn max_health(&self) -> (hp: u16)
        requires
            self.stat_fits(Stat::Hp),
        ensures
            hp == self.spec_max_health(),
    {
        Monster::calculate_max_health(
            self.species.base_stat(Stat::Hp),
            self.individual_values.get(Stat::Hp),
            self.effort_values.get(Stat::Hp),
            self.level,
        )
    }

    pub fn stat(&self, stat: Stat) -> (v: u16)
        requires
            self.stat_fits(stat),
        ensures
            v == self.spec_stat(stat),
    {
        match stat {
            Stat::Hp => self.max_health(),
            _ => {
                let base = self.species.base_stat(stat);
                let iv = self.individual_values.get(stat);
                let ev = self.effort_values.get(stat);
                ((2 * base + iv + (ev / 4)) * self.level) / 100 + 5
            },
        }
    }

    pub fn current_health(&self) -> (hp: u16)
        ensures
            hp == self.current_health,
    {
        self.current_health
    }

    pub fn nature(&self) -> (nature: MonsterNature)
        ensures
            nature == self.nature,
    {
        self.nature
    }

    pub fn is_fainted(&self) -> (b: bool)
        ensures
            b == (self.current_health == 0),
    {
        self.current_health == 0
    }

    pub fn stat_modifier(&self, stat: ModifiableStat) -> (stage: i8)
        ensures
            stage == self.stat_modifiers.spec_get(stat),
    {
        self.stat_modifiers.get(stat)
    }

    pub fn ability(&self) -> (ability: &Ability)
        ensures
            *ability == self.ability,
    {
        &self.ability
    }

    pub fn moveset(&self) -> (moveset: &Vec<Move>)
        ensures
            moveset@ == self.moveset@,
    {
        &self.moveset
    }

    pub fn species(&self) -> (species: MonsterSpecies)
        ensures
            species == self.species,
    {
        self.species
    }

    pub fn iv_in_stat(&self, stat: Stat) -> (v: u16)
        ensures
            v == self.individual_values.spec_get(stat),
    {
        self.individual_values.get(stat)
    }

    pub fn ev_in_stat(&self, stat: Stat) -> (v: u16)
        ensures
            v == self.effort_values.spec_get(stat),
    {
        self.effort_values.get(stat)
    }

    pub fn held_item(&self) -> (item: Option<Item>)
        ensures
            item == self.held_item,
    {
        self.held_item
    }

    pub fn consumed_item(&self) -> (item: Option<Item>)
        ensures
            item == self.consumed_item,
    {
        self.consumed_item
    }

    pub fn field_position(&self) -> (p: Option<FieldPosition>)
        ensures
            p == spec_field_position(self.board_position),
    {
        match self.board_position {
            BoardPosition::Bench => None,
            BoardPosition::Field(field_position) => Some(field_position),
        }
    }

    pub fn is_active(&self) -> (b: bool)
        ensures
            b == self.spec_is_active(),
    {
        match self.board_position {
            BoardPosition::Field(_) => true,
            BoardPosition::Bench => false,
        }
    }

    /// The first of the monster's volatile statuses whose species has the dex number of
    /// `species`, if it has one.
    pub fn volatile_status(&self, species: VolatileStatusSpecies) -> (status: Option<VolatileStatus>)
        ensures
            status is None <==> forall|i: int|
                0 <= i < self.volatile_statuses@.len() ==> #[trigger] self.volatile_statuses@[i].species.dex_number
                    != species.dex_number,
            status matches Some(s) ==> exists|i: int|
                0 <= i < self.volatile_statuses@.len() && #[trigger] self.volatile_statuses@[i] == s
                    && s.species.dex_number == species.dex_number && forall|j: int|
                    0 <= j < i ==> #[trigger] self.volatile_statuses@[j].species.dex_number
                        != species.dex_number,
    {
        let mut i: usize = 0;
        while i < self.volatile_statuses.len()
            invariant
                i <= self.volatile_statuses@.len(),
                forall|j: int| 0 <= j < i ==> #[trigger] self.volatile_statuses@[j].species.dex_number
                    != species.dex_number,
            decreases self.volatile_statuses@.len() - i,
        {
            if self.volatile_statuses[i].species.dex_number == species.dex_number {
                return Some(self.volatile_statuses[i]);
            }
            i += 1;
        }
        None
    }

    pub fn type_(&self) -> (t: (Type, Option<Type>))
        ensures
            t == (self.species.primary_type, self.species.secondary_type),
    {
        self.species.type_()
    }
}

// Summary ------------------------------------------------------------------------------------- //

/// The tree branch that leads to a line of a monster's summary: the last line gets a corner.
pub open spec fn summary_branch(is_last: bool) -> Seq<char> {
    if is_last {
        "\t\u{2502}\t\u{2514}\u{2500}\u{2500} "@
    } else {
        "\t\u{2502}\t\u{251c}\u{2500}\u{2500} "@
    }
}

/// The lines of the moves `moves`, of which the one at index `count - 1` is the last.
pub open spec fn summary_move_lines(moves: Seq<Move>, count: int) -> Seq<char>
    decreases moves.len(),
{
    if moves.len() == 0 {
        Seq::empty()
    } else {
        summary_move_lines(moves.drop_last(), count) + summary_branch(moves.len() - 1 >= count - 1) + "mov "@
            + moves.last().species.name@ + "\n"@
    }
}

impl Monster {
    /// The summary of the monster: its name (with its species after a nickname), id and health,
    /// then, as branches of a tree, its type, its ability and each of its moves.
    pub open spec fn spec_summary(self) -> Seq<char> {
        let header = match self.nickname {
            Some(nickname) => nickname@ + " the "@ + self.species.name@,
            None => self.species.name@,
        } + " ("@ + monster_id_name(self.id) + ") [HP: "@ + decimal(self.current_health as nat) + "/"@ + decimal(
            self.spec_max_health() as nat,
        ) + "]\n\t\u{2502}\t\u{2502}\n"@;
        let type_line = summary_branch(false) + match self.species.secondary_type {
            Some(secondary) => "type "@ + spec_type_name(self.species.primary_type) + "/"@ + spec_type_name(secondary) + " \n"@,
            None => "type "@ + spec_type_name(self.species.primary_type) + " \n"@,
        };
        let ability_line = summary_branch(false) + "abl "@ + self.ability.species.name@ + "\n"@;
        header + type_line + ability_line + summary_move_lines(self.moveset@, self.moveset@.len() as int)
    }

    /// The summary of the monster (see `spec_summary`).
    pub fn summary(&self) -> (text: String)
        requires
            self.wf(),
        ensures
            text@ == self.spec_summary(),
    {
        let mut text = match self.nickname {
            Some(nickname) => {
                let mut name = String::from_str(nickname);
                name.append(" the ");
                name.append(self.species.name);
                name
            },
            None => String::from_str(self.species.name),
        };
        text.append(" (");
        text.append(self.id.name());
        text.append(") [HP: ");
        let health = number_text(self.current_health as u64);
        text.append(health.as_str());
        text.append("/");
        let max_health = number_text(self.max_health() as u64);
        text.append(max_health.as_str());
        text.append("]\n\t\u{2502}\t\u{2502}\n");
        text.append("\t\u{2502}\t\u{251c}\u{2500}\u{2500} ");
        match self.species.secondary_type {
            Some(secondary) => {
                text.append("type ");
                text.append(self.species.primary_type.name());
                text.append("/");
                text.append(secondary.name());
                text.append(" \n");
            },
            None => {
                text.append("type ");
                text.append(self.species.primary_type.name());
                text.append(" \n");
            },
        }
        text.append("\t\u{2502}\t\u{251c}\u{2500}\u{2500} ");
        text.append("abl ");
        text.append(self.ability.species.name);
        text.append("\n");
        let ghost prefix = text@;
        let count = self.moveset.len();
        let mut i: usize = 0;
        while i < count
            invariant
                i <= count == self.moveset@.len(),
                text@ == prefix + summary_move_lines(self.moveset@.take(i as int), count as int),
            decreases count - i,
        {
            assert(self.moveset@.take(i + 1).drop_last() == self.moveset@.take(i as int));
            if i + 1 < count {
                text.append("\t\u{2502}\t\u{251c}\u{2500}\u{2500} ");
            } else {
                text.append("\t\u{2502}\t\u{2514}\u{2500}\u{2500} ");
            }
            text.append("mov ");
            text.append(self.moveset[i].species.name);
            text.append("\n");
            i += 1;
        }
        assert(self.moveset@.take(count as int) == self.moveset@);
        text
    }
}

/// The number of the ten segments of a health bar that `health` out of `max_health` fills: ten
/// times the fraction of health left, rounded to the nearest whole number (halves up).
pub open spec fn filled_health_segments(health: u16, max_health: u16) -> int {
    (20 * health as int + max_health as int) / (2 * max_health as int)
}

impl Monster {
    /// How many of the ten segments of the monster's health bar its health fills.
    pub fn health_bar_filled_segments(&self) -> (segments: u64)
        requires
            self.stat_fits(Stat::Hp),
        ensures
            segments == filled_health_segments(self.current_health, self.spec_max_health() as u16),
    {
        let max_health = self.max_health();
        let numerator: u64 = 20 * self.current_health as u64 + max_health as u64;
        let denominator: u64 = 2 * max_health as u64;
        numerator / denominator
    }
}

// Status lines ------------------------------------------------------------------------------- //

/// The code that ends a painting on a terminal.
pub open spec fn reset_code() -> Seq<char> {
    "\x1B[0m"@
}

/// Whether the code that ends a painting starts at `i` in `text`.
pub open spec fn reset_code_at(text: Seq<char>, i: int) -> bool {
    0 <= i && i + 4 <= text.len() && text.subrange(i, i + 4) == reset_code()
}

/// Whether `text` holds the code that ends a painting.
pub open spec fn has_reset_code(text: Seq<char>) -> bool {
    exists|i: int| #[trigger] reset_code_at(text, i)
}

/// Whether `painted` is `text` either left plain or painted with the style code `style`: the
/// style code, the text, then the reset code.
pub open spec fn painted_as(painted: Seq<char>, text: Seq<char>, style: Seq<char>) -> bool {
    painted == text || painted == style + text + reset_code()
}

/// `text` painted green for a terminal.
///
/// Calls `colored::Colorize::green` on `text` and writes the result out with `to_string`.
/// colored's `Display` writes the text unchanged when it decides not to paint (it reads the
/// environment and the terminal to decide), and otherwise the style code of green
/// (`ESC[32m`), the text with any inner reset code escaped, and the reset code (`ESC[0m`).
/// Which of the two comes out is not claimed; for a text without a reset code, the result is
/// one of them.
#[verifier::external_body]
fn painted_green(text: &str) -> (painted: String)
    ensures
        !has_reset_code(text@) ==> painted_as(painted@, text@, "\x1B[32m"@),
{
    text.green().to_string()
}

/// `text` painted red for a terminal.
///
/// Calls `colored::Colorize::red` on `text` and writes the result out with `to_string`: the
/// text unchanged when colored decides not to paint, and otherwise the style code of red
/// (`ESC[31m`), the text with any inner reset code escaped, and the reset code (`ESC[0m`).
/// Which of the two comes out is not claimed; for a text without a reset code, the result is
/// one of them.
#[verifier::external_body]
fn painted_red(text: &str) -> (painted: String)
    ensures
        !has_reset_code(text@) ==> painted_as(painted@, text@, "\x1B[31m"@),
{
    text.red().to_string()
}

/// A run of one character other than the escape character holds no reset code.
proof fn lemma_run_has_no_reset_code(c: char, count: nat)
    requires
        c != '\x1B',
    ensures
        !has_reset_code(repeated(c, count)),
{
    reveal_strlit("\x1B[0m");
    assert forall|i: int| !#[trigger] reset_code_at(repeated(c, count), i) by {
        if 0 <= i && i + 4 <= repeated(c, count).len() {
        assert(repeated(c, count).subrange(i, i + 4)[0] == c);
        assert(reset_code()[0] == '\x1B');
        }
    }
}

/// `count` copies of `c`.
pub open spec fn repeated(c: char, count: nat) -> Seq<char> {
    Seq::new(count, |_i: int| c)
}

/// How many of the ten segments of the health bar of `monster` are filled.
pub open spec fn filled_segments(monster: Monster) -> nat {
    let filled = filled_health_segments(monster.current_health, monster.spec_max_health() as u16);
    if filled >= 10 {
        10
    } else {
        filled as nat
    }
}

/// The name of a board position: that of its field position, or "Bench".
pub open spec fn board_position_text(position: BoardPosition) -> Seq<char> {
    match position {
        BoardPosition::Bench => "Bench"@,
        BoardPosition::Field(p) => field_position_name(p),
    }
}

/// `name` between double quotes.
pub open spec fn quoted(name: Seq<char>) -> Seq<char> {
    "\""@ + name + "\""@
}

/// The names of `statuses`, each quoted, separated by commas.
pub open spec fn joined_status_names(statuses: Seq<VolatileStatus>) -> Seq<char>
    decreases statuses.len(),
{
    if statuses.len() == 0 {
        Seq::empty()
    } else if statuses.len() == 1 {
        quoted(statuses[0].species.name@)
    } else {
        joined_status_names(statuses.drop_last()) + ", "@ + quoted(statuses.last().species.name@)
    }
}

/// The status line of `monster`, with its health bar drawn as `filled` then `empty`: its full
/// name, its id, the bar, its health out of its maximum, its position, its persistent status,
/// its volatile statuses and its held item.
pub open spec fn status_text(monster: Monster, filled: Seq<char>, empty: Seq<char>) -> Seq<char> {
    let persistent = match monster.persistent_status {
        Some(status) => status.species.name@,
        None => "None"@,
    };
    let held = match monster.held_item {
        Some(item) => item.species.name@,
        None => "None"@,
    };
    monster.spec_full_name() + " ("@ + monster_id_name(monster.id) + ") HP:["@ + filled + empty + "] "@ + decimal(
        monster.current_health as nat,
    ) + "/"@ + decimal(monster.spec_max_health() as nat) + " | Position: "@ + board_position_text(monster.board_position)
        + " | Persistent Status: "@ + persistent + " | Volatile Statuses: ["@ + joined_status_names(
        monster.volatile_statuses@,
    ) + "] | Held Item: "@ + held + "\n"@
}

impl Monster {
    /// The two parts of the health bar: a '▓' per filled segment (see
    /// `health_bar_filled_segments`, at most ten), then a '░' per empty one, ten in all.
    pub fn health_bar(&self) -> (bar: (String, String))
        requires
            self.stat_fits(Stat::Hp),
        ensures
            bar.0@ == repeated('▓', filled_segments(*self)),
            bar.1@ == repeated('░', (10 - filled_segments(*self)) as nat),
    {
        let health_fraction = self.health_bar_filled_segments();
        let mut filled = String::new();
        let mut empty = String::new();
        let mut i: u64 = 1;
        while i <= 10
            invariant
                1 <= i <= 11,
                health_fraction == filled_health_segments(self.current_health, self.spec_max_health() as u16),
                filled@ =~= repeated('▓', if health_fraction >= i - 1 { (i - 1) as nat } else { health_fraction as nat }),
                empty@ =~= repeated('░', if health_fraction >= i - 1 { 0 } else { (i - 1 - health_fraction) as nat }),
            decreases 11 - i,
        {
            proof {
                reveal_strlit("▓");
                reveal_strlit("░");
            }
            if i <= health_fraction {
                filled.append("▓");
            } else {
                empty.append("░");
            }
            i = i + 1;
        }
        (filled, empty)
    }

    /// The status line of the monster with its health bar drawn as `filled` then `empty` (see
    /// `status_text`).
    pub fn status_line(&self, filled: &str, empty: &str) -> (line: String)
        requires
            self.stat_fits(Stat::Hp),
        ensures
            line@ == status_text(*self, filled@, empty@),
    {
        let mut line = self.full_name();
        line.append(" (");
        line.append(self.id.name());
        line.append(") HP:[");
        line.append(filled);
        line.append(empty);
        line.append("] ");
        line.append(number_text(self.current_health as u64).as_str());
        line.append("/");
        line.append(number_text(self.max_health() as u64).as_str());
        line.append(" | Position: ");
        match self.board_position {
            BoardPosition::Bench => line.append("Bench"),
            BoardPosition::Field(p) => line.append(p.name()),
        }
        line.append(" | Persistent Status: ");
        match self.persistent_status {
            Some(status) => line.append(status.name()),
            None => line.append("None"),
        }
        line.append(" | Volatile Statuses: [");
        let ghost before_list = line@;
        let mut i: usize = 0;
        while i < self.volatile_statuses.len()
            invariant
                i <= self.volatile_statuses@.len(),
                line@ == before_list + joined_status_names(self.volatile_statuses@.subrange(0, i as int)),
            decreases self.volatile_statuses@.len() - i,
        {
            let ghost prefix = self.volatile_statuses@.subrange(0, i as int);
            if i > 0 {
                line.append(", ");
            }
            line.append("\"");
            line.append(self.volatile_statuses[i].name());
            line.append("\"");
            proof {
                let next = self.volatile_statuses@.subrange(0, i + 1);
                assert(next.drop_last() =~= prefix);
                assert(next.last() == self.volatile_statuses@[i as int]);
                if i == 0 {
                    assert(prefix.len() == 0);
                }
            }
            i = i + 1;
        }
        assert(self.volatile_statuses@.subrange(0, self.volatile_statuses@.len() as int) =~= self.volatile_statuses@);
        line.append("] | Held Item: ");
        match self.held_item {
            Some(item) => line.append(item.name()),
            None => line.append("None"),
        }
        line.append("\n");
        line
    }

    /// The status line of the monster (see `status_line`), with the filled part of its health
    /// bar (see `health_bar`) painted green and the empty part red for a terminal; each part
    /// comes out either plain or painted, as colored decides.
    pub fn status_string(&self) -> (line: String)
        requires
            self.stat_fits(Stat::Hp),
        ensures
            exists|filled: Seq<char>, empty: Seq<char>|
                #[trigger] status_text(*self, filled, empty) == line@ && painted_as(
                    filled,
                    repeated('▓', filled_segments(*self)),
                    "\x1B[32m"@,
                ) && painted_as(empty, repeated('░', (10 - filled_segments(*self)) as nat), "\x1B[31m"@),
    {
        let (filled, empty) = self.health_bar();
        proof {
            lemma_run_has_no_reset_code('▓', filled_segments(*self));
            lemma_run_has_no_reset_code('░', (10 - filled_segments(*self)) as nat);
        }
        let filled = painted_green(filled.as_str());
        let empty = painted_red(empty.as_str());
        let line = self.status_line(filled.as_str(), empty.as_str());
        assert(status_text(*self, filled@, empty@) == line@);
        line
    }
}


/// A monster is of its primary type, of its secondary type when it has one, and of no other
/// type.
pub proof fn law_monster_types(monster: Monster, t: Type)
    ensures
        monster.spec_is_type(monster.species.primary_type),
        monster.species.secondary_type matches Some(secondary) ==> monster.spec_is_type(secondary),
        t != monster.species.primary_type && monster.species.secondary_type != Some(t) ==> !monster.spec_is_type(t),
{
}


/// The health bar shows ten times the fraction of health left, rounded to the nearest segment:
/// the filled segments are within half a segment of it, a full health bar has all ten filled,
/// and an empty one none.
pub proof fn law_health_bar_rounds_to_the_nearest_segment(health: u16, max_health: u16)
    requires
        0 < max_health,
        health <= max_health,
    ensures
        0 <= filled_health_segments(health, max_health) <= 10,
        2 * filled_health_segments(health, max_health) * max_health <= 20 * health + max_health,
        20 * health + max_health < 2 * (filled_health_segments(health, max_health) + 1) * max_health,
        filled_health_segments(max_health, max_health) == 10,
        filled_health_segments(0, max_health) == 0,
{
    let n = 20 * health as int + max_health as int;
    let d = 2 * max_health as int;
    let q = n / d;
    assert(q * d <= n < (q + 1) * d) by (nonlinear_arith)
        requires
            d > 0,
            q == n / d,
    ;
    assert(0 <= q <= 10) by (nonlinear_arith)
        requires
            d > 0,
            q * d <= n,
            n < (q + 1) * d,
            n <= 21 * max_health as int,
            d == 2 * max_health as int,
            n >= 0,
    ;
    assert((20 * max_health as int + max_health as int) / (2 * max_health as int) == 10) by (nonlinear_arith)
        requires
            max_health > 0,
    ;
    assert((0 + max_health as int) / (2 * max_health as int) == 0) by (nonlinear_arith)
        requires
            max_health > 0,
    ;
    assert(2 * q * max_health == q * d) by (nonlinear_arith)
        requires
            d == 2 * max_health as int,
    ;
    assert(2 * (q + 1) * max_health == (q + 1) * d) by (nonlinear_arith)
        requires
            d == 2 * max_health as int,
    ;
}


/// The stat formulas: maximum health is `((2 * base + iv + ev / 4) * level) / 100 + level + 10`,
/// and every other stat `((2 * base + iv + ev / 4) * level) / 100 + 5`, so that maximum health
/// exceeds the other formula by `level + 5`.
pub proof fn law_stat_formulas(base: u16, iv: u16, ev: u16, level: u16)
    ensures
        max_health_formula(base, iv, ev, level) == ((2 * base as int + iv as int + ev as int / 4) * level as int) / 100
            + level as int + 10,
        stat_formula(base, iv, ev, level) == ((2 * base as int + iv as int + ev as int / 4) * level as int) / 100 + 5,
        max_health_formula(base, iv, ev, level) == stat_formula(base, iv, ev, level) + level as int + 5,
{
}

} // verus!
