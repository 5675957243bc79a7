use vstd::prelude::*;

use crate::global_constants::Percent;

verus! {

/// The elemental types of monsters and moves.
#[derive(Debug, Clone, Copy, PartialEq, Eq, Structural)]
pub enum Type {
    Bug,
    Dark,
    Dragon,
    Electric,
    Fairy,
    Fighting,
    Fire,
    Flying,
    Ghost_,
    Grass,
    Ground,
    Ice,
    Normal,
    Poison,
    Psychic,
    Rock,
    Steel,
    Water,
}

/// The name of a type, as messages show it.
pub open spec fn spec_type_name(t: Type) -> Seq<char> {
    match t {
        Type::Bug => "Bug"@,
        Type::Dark => "Dark"@,
        Type::Dragon => "Dragon"@,
        Type::Electric => "Electric"@,
        Type::Fairy => "Fairy"@,
        Type::Fighting => "Fighting"@,
        Type::Fire => "Fire"@,
        Type::Flying => "Flying"@,
        Type::Ghost_ => "Ghost"@,
        Type::Grass => "Grass"@,
        Type::Ground => "Ground"@,
        Type::Ice => "Ice"@,
        Type::Normal => "Normal"@,
        Type::Poison => "Poison"@,
        Type::Psychic => "Psychic"@,
        Type::Rock => "Rock"@,
        Type::Steel => "Steel"@,
        Type::Water => "Water"@,
    }
}

impl Type {
    /// The name of the type, as messages show it.
    pub fn name(&self) -> (name: &'static str)
        ensures
            name@ == spec_type_name(*self),
    {
        match self {
            Type::Bug => "Bug",
            Type::Dark => "Dark",
            Type::Dragon => "Dragon",
            Type::Electric => "Electric",
            Type::Fairy => "Fairy",
            Type::Fighting => "Fighting",
            Type::Fire => "Fire",
            Type::Flying => "Flying",
            Type::Ghost_ => "Ghost",
            Type::Grass => "Grass",
            Type::Ground => "Ground",
            Type::Ice => "Ice",
            Type::Normal => "Normal",
            Type::Poison => "Poison",
            Type::Psychic => "Psychic",
            Type::Rock => "Rock",
            Type::Steel => "Steel",
            Type::Water => "Water",
        }
    }
}

/// How effective a move is against its target, as a damage multiplier.
#[derive(Debug, Clone, Copy, PartialEq, Eq, Structural)]
pub enum TypeEffectiveness {
    Ineffective,
    DoubleNotVeryEffective,
    NotVeryEffective,
    Effective,
    SuperEffective,
    DoubleSuperEffective,
}

/// The damage multiplier of an effectiveness, in percent.
pub open spec fn effectiveness_percent(effectiveness: TypeEffectiveness) -> u16 {
    match effectiveness {
        TypeEffectiveness::Ineffective => 0,
        TypeEffectiveness::DoubleNotVeryEffective => 25,
        TypeEffectiveness::NotVeryEffective => 50,
        TypeEffectiveness::Effective => 100,
        TypeEffectiveness::SuperEffective => 200,
        TypeEffectiveness::DoubleSuperEffective => 400,
    }
}

/// Whether `value` is the multiplier, in percent, of some effectiveness.
pub open spec fn is_effectiveness_percent(value: int) -> bool {
    value == 0 || value == 25 || value == 50 || value == 100 || value == 200 || value == 400
}

/// The effectiveness whose multiplier is `value` percent.
pub open spec fn effectiveness_from_percent(value: int) -> TypeEffectiveness
    recommends
        is_effectiveness_percent(value),
{
    if value == 0 {
        TypeEffectiveness::Ineffective
    } else if value == 25 {
        TypeEffectiveness::DoubleNotVeryEffective
    } else if value == 50 {
        TypeEffectiveness::NotVeryEffective
    } else if value == 100 {
        TypeEffectiveness::Effective
    } else if value == 200 {
        TypeEffectiveness::SuperEffective
    } else {
        TypeEffectiveness::DoubleSuperEffective
    }
}

/// The multiplier, in percent, of applying two effectivenesses one after the other.
pub open spec fn product_percent(a: TypeEffectiveness, b: TypeEffectiveness) -> int {
    (effectiveness_percent(a) as int * effectiveness_percent(b) as int) / 100
}

/// The effectiveness of applying `a` and then `b`.
pub open spec fn effectiveness_product(a: TypeEffectiveness, b: TypeEffectiveness) -> TypeEffectiveness {
    effectiveness_from_percent(product_percent(a, b))
}

/// The text that names an effectiveness in battle messages.
pub open spec fn effectiveness_text(effectiveness: TypeEffectiveness) -> Seq<char> {
    match effectiveness {
        TypeEffectiveness::Ineffective => "ineffective"@,
        TypeEffectiveness::DoubleNotVeryEffective => "not very effective"@,
        TypeEffectiveness::NotVeryEffective => "not very effective"@,
        TypeEffectiveness::Effective => "effective"@,
        TypeEffectiveness::SuperEffective => "super effective"@,
        TypeEffectiveness::DoubleSuperEffective => "super effective"@,
    }
}

impl TypeEffectiveness {
    /// The damage multiplier of this effectiveness.
    pub fn as_percent(self) -> (p: Percent)
        ensures
            p.0 == effectiveness_percent(self),
    {
        match self {
            TypeEffectiveness::Ineffective => Percent(0),
            TypeEffectiveness::DoubleNotVeryEffective => Percent(25),
            TypeEffectiveness::NotVeryEffective => Percent(50),
            TypeEffectiveness::Effective => Percent(100),
            TypeEffectiveness::SuperEffective => Percent(200),
            TypeEffectiveness::DoubleSuperEffective => Percent(400),
        }
    }

    /// The effectiveness whose multiplier is `percent`.
    pub fn from_percent(percent: Percent) -> (e: TypeEffectiveness)
        requires
            is_effectiveness_percent(percent.0 as int),
        ensures
            e == effectiveness_from_percent(percent.0 as int),
            effectiveness_percent(e) == percent.0,
    {
        if percent.0 == 0 {
            TypeEffectiveness::Ineffective
        } else if percent.0 == 25 {
            TypeEffectiveness::DoubleNotVeryEffective
        } else if percent.0 == 50 {
            TypeEffectiveness::NotVeryEffective
        } else if percent.0 == 100 {
            TypeEffectiveness::Effective
        } else if percent.0 == 200 {
            TypeEffectiveness::SuperEffective
        } else {
            TypeEffectiveness::DoubleSuperEffective
        }
    }

    /// The effectiveness of applying `self` and then `rhs`, whose multiplier is the product of
    /// theirs. Defined where that product is itself the multiplier of an effectiveness.
    pub fn mul(self, rhs: TypeEffectiveness) -> (e: TypeEffectiveness)
        requires
            is_effectiveness_percent(product_percent(self, rhs)),
        ensures
            e == effectiveness_product(self, rhs),
            effectiveness_percent(e) == product_percent(self, rhs),
    {
        let self_as_percent = self.as_percent();
        let rhs_as_percent = rhs.as_percent();
        proof {
            assert(0 <= self_as_percent.0 as int * rhs_as_percent.0 as int <= 400 * 400) by (nonlinear_arith)
                requires
                    0 <= self_as_percent.0 <= 400,
                    0 <= rhs_as_percent.0 <= 400,
            ;
        }
        let product: u32 = (self_as_percent.0 as u32) * (rhs_as_percent.0 as u32) / 100;
        TypeEffectiveness::from_percent(Percent(product as u16))
    }

    pub fn is_matchup_ineffective(&self) -> (b: bool)
        ensures
            b == (*self == TypeEffectiveness::Ineffective),
    {
        *self == TypeEffectiveness::Ineffective
    }

    pub fn is_matchup_effective(&self) -> (b: bool)
        ensures
            b == (*self == TypeEffectiveness::Effective),
    {
        *self == TypeEffectiveness::Effective
    }

    pub fn is_matchup_not_very_effective(&self) -> (b: bool)
        ensures
            b == (*self == TypeEffectiveness::DoubleNotVeryEffective || *self == TypeEffectiveness::NotVeryEffective),
    {
        *self == TypeEffectiveness::DoubleNotVeryEffective || *self == TypeEffectiveness::NotVeryEffective
    }

    pub fn is_matchup_super_effective(&self) -> (b: bool)
        ensures
            b == (*self == TypeEffectiveness::SuperEffective || *self == TypeEffectiveness::DoubleSuperEffective),
    {
        *self == TypeEffectiveness::SuperEffective || *self == TypeEffectiveness::DoubleSuperEffective
    }

    /// The text that names this effectiveness in battle messages.
    pub fn as_text(&self) -> (text: String)
        ensures
            text@ == effectiveness_text(*self),
    {
        match self {
            TypeEffectiveness::Ineffective => {
                let t = String::from_str("ineffective");
                proof { reveal_strlit("ineffective"); }
                t
            },
            TypeEffectiveness::DoubleNotVeryEffective | TypeEffectiveness::NotVeryEffective => {
                let t = String::from_str("not very effective");
                proof { reveal_strlit("not very effective"); }
                t
            },
            TypeEffectiveness::Effective => {
                let t = String::from_str("effective");
                proof { reveal_strlit("effective"); }
                t
            },
            TypeEffectiveness::SuperEffective | TypeEffectiveness::DoubleSuperEffective => {
                let t = String::from_str("super effective");
                proof { reveal_strlit("super effective"); }
                t
            },
        }
    }
}

/// The effectiveness of a move of `move_type` against a target of the single type `target_type`.
pub open spec fn type_chart(move_type: Type, target_type: Type) -> TypeEffectiveness {
    if is_immune_pair(move_type, target_type) {
        TypeEffectiveness::Ineffective
    } else if is_super_effective_pair(move_type, target_type) {
        TypeEffectiveness::SuperEffective
    } else if is_not_very_effective_pair(move_type, target_type) {
        TypeEffectiveness::NotVeryEffective
    } else {
        TypeEffectiveness::Effective
    }
}

/// The effectiveness of a move of `move_type` against a target of type `primary_type`, and also of
/// type `secondary_type` where it has one.
pub open spec fn dual_type_chart(move_type: Type, primary_type: Type, secondary_type: Option<Type>) -> TypeEffectiveness {
    match secondary_type {
        Some(secondary) => effectiveness_product(type_chart(move_type, primary_type), type_chart(move_type, secondary)),
        None => type_chart(move_type, primary_type),
    }
}

/// The effectiveness of a move of `move_type` against a monster of type
/// `(primary_type, maybe_secondary_type)`: the product of its effectiveness against each type.
pub fn dual_type_matchup(move_type: Type, target_type: (Type, Option<Type>)) -> (e: TypeEffectiveness)
    ensures
        e == dual_type_chart(move_type, target_type.0, target_type.1),
{
    let (primary_type, maybe_secondary_type) = target_type;
    match maybe_secondary_type {
        Some(secondary_type) => {
            let first = type_matchup(move_type, primary_type);
            let second = type_matchup(move_type, secondary_type);
            proof {
                law_type_matchup_is_single(move_type, primary_type);
                law_type_matchup_is_single(move_type, secondary_type);
            }
            first.mul(second)
        },
        None => type_matchup(move_type, primary_type),
    }
}

/// Whether moves of `move_type` are super effective against `target_type`.
pub open spec fn is_super_effective_pair(move_type: Type, target_type: Type) -> bool {
    match move_type {
        Type::Bug => target_type == Type::Dark || target_type == Type::Grass || target_type == Type::Psychic,
        Type::Dark => target_type == Type::Ghost_ || target_type == Type::Psychic,
        Type::Dragon => target_type == Type::Dragon,
        Type::Electric => target_type == Type::Flying || target_type == Type::Water,
        Type::Fairy => target_type == Type::Dark || target_type == Type::Dragon || target_type == Type::Fighting,
        Type::Fighting => target_type == Type::Dark || target_type == Type::Ice || target_type == Type::Normal || target_type == Type::Rock,
        Type::Fire => target_type == Type::Bug || target_type == Type::Grass || target_type == Type::Ice || target_type == Type::Steel,
        Type::Flying => target_type == Type::Bug || target_type == Type::Fighting || target_type == Type::Grass,
        Type::Ghost_ => target_type == Type::Ghost_ || target_type == Type::Psychic,
        Type::Grass => target_type == Type::Ground || target_type == Type::Rock || target_type == Type::Water,
        Type::Ground => target_type == Type::Electric || target_type == Type::Fire || target_type == Type::Ground || target_type == Type::Rock || target_type == Type::Steel,
        Type::Ice => target_type == Type::Dragon || target_type == Type::Flying || target_type == Type::Grass || target_type == Type::Ground,
        Type::Normal => false,
        Type::Poison => target_type == Type::Fairy || target_type == Type::Grass,
        Type::Psychic => target_type == Type::Fighting || target_type == Type::Poison,
        Type::Rock => target_type == Type::Bug || target_type == Type::Fire || target_type == Type::Flying || target_type == Type::Ice,
        Type::Steel => target_type == Type::Fairy || target_type == Type::Ice || target_type == Type::Rock,
        Type::Water => target_type == Type::Fire || target_type == Type::Ground || target_type == Type::Rock,
    }
}
/// Whether moves of `move_type` are not very effective against `target_type`.
pub open spec fn is_not_very_effective_pair(move_type: Type, target_type: Type) -> bool {
    match move_type {
        Type::Bug => target_type == Type::Fairy || target_type == Type::Fighting || target_type == Type::Fire || target_type == Type::Flying || target_type == Type::Ghost_ || target_type == Type::Poison || target_type == Type::Steel,
        Type::Dark => target_type == Type::Dark || target_type == Type::Fairy || target_type == Type::Fighting,
        Type::Dragon => target_type == Type::Steel,
        Type::Electric => target_type == Type::Dragon || target_type == Type::Electric || target_type == Type::Grass,
        Type::Fairy => target_type == Type::Fire || target_type == Type::Steel,
        Type::Fighting => target_type == Type::Bug || target_type == Type::Fairy || target_type == Type::Flying || target_type == Type::Poison || target_type == Type::Psychic,
        Type::Fire => target_type == Type::Dragon || target_type == Type::Fire || target_type == Type::Rock || target_type == Type::Water,
        Type::Flying => target_type == Type::Electric || target_type == Type::Rock || target_type == Type::Steel,
        Type::Ghost_ => target_type == Type::Dark,
        Type::Grass => target_type == Type::Bug || target_type == Type::Fire || target_type == Type::Flying || target_type == Type::Poison || target_type == Type::Steel,
        Type::Ground => target_type == Type::Bug || target_type == Type::Grass,
        Type::Ice => target_type == Type::Fire || target_type == Type::Ice || target_type == Type::Steel || target_type == Type::Water,
        Type::Normal => target_type == Type::Rock || target_type == Type::Steel,
        Type::Poison => target_type == Type::Ghost_ || target_type == Type::Ground || target_type == Type::Poison || target_type == Type::Rock,
        Type::Psychic => target_type == Type::Psychic || target_type == Type::Steel,
        Type::Rock => target_type == Type::Fighting || target_type == Type::Ground || target_type == Type::Steel,
        Type::Steel => target_type == Type::Electric || target_type == Type::Fire || target_type == Type::Steel || target_type == Type::Water,
        Type::Water => target_type == Type::Dragon || target_type == Type::Grass || target_type == Type::Water,
    }
}
/// Whether `target_type` is immune to moves of `move_type`.
pub open spec fn is_immune_pair(move_type: Type, target_type: Type) -> bool {
    match move_type {
        Type::Bug => false,
        Type::Dark => false,
        Type::Dragon => target_type == Type::Fairy,
        Type::Electric => target_type == Type::Ground,
        Type::Fairy => false,
        Type::Fighting => target_type == Type::Ghost_,
        Type::Fire => false,
        Type::Flying => false,
        Type::Ghost_ => target_type == Type::Normal,
        Type::Grass => false,
        Type::Ground => target_type == Type::Flying,
        Type::Ice => false,
        Type::Normal => target_type == Type::Ghost_,
        Type::Poison => target_type == Type::Steel,
        Type::Psychic => target_type == Type::Dark,
        Type::Rock => false,
        Type::Steel => false,
        Type::Water => false,
    }
}

pub fn type_matchup(move_type: Type, target_type: Type) -> (effectiveness: TypeEffectiveness)
    ensures
        effectiveness == type_chart(move_type, target_type),
{
    match move_type {
        Type::Bug => match target_type {
            Type::Dark | Type::Grass | Type::Psychic => TypeEffectiveness::SuperEffective,
            Type::Fairy | Type::Fighting | Type::Fire | Type::Flying | Type::Ghost_ | Type::Poison | Type::Steel => TypeEffectiveness::NotVeryEffective,
            _ => TypeEffectiveness::Effective,
        },
        Type::Dark => match target_type {
            Type::Ghost_ | Type::Psychic => TypeEffectiveness::SuperEffective,
            Type::Dark | Type::Fairy | Type::Fighting => TypeEffectiveness::NotVeryEffective,
            _ => TypeEffectiveness::Effective,
        },
        Type::Dragon => match target_type {
            Type::Dragon => TypeEffectiveness::SuperEffective,
            Type::Steel => TypeEffectiveness::NotVeryEffective,
            Type::Fairy => TypeEffectiveness::Ineffective,
            _ => TypeEffectiveness::Effective,
        },
        Type::Electric => match target_type {
            Type::Flying | Type::Water => TypeEffectiveness::SuperEffective,
            Type::Dragon | Type::Electric | Type::Grass => TypeEffectiveness::NotVeryEffective,
            Type::Ground => TypeEffectiveness::Ineffective,
            _ => TypeEffectiveness::Effective,
        },
        Type::Fairy => match target_type {
            Type::Dark | Type::Dragon | Type::Fighting => TypeEffectiveness::SuperEffective,
            Type::Fire | Type::Steel => TypeEffectiveness::NotVeryEffective,
            _ => TypeEffectiveness::Effective,
        },
        Type::Fighting => match target_type {
            Type::Dark | Type::Ice | Type::Normal | Type::Rock => TypeEffectiveness::SuperEffective,
            Type::Bug | Type::Fairy | Type::Flying | Type::Poison | Type::Psychic => TypeEffectiveness::NotVeryEffective,
            Type::Ghost_ => TypeEffectiveness::Ineffective,
            _ => TypeEffectiveness::Effective,
        },
        Type::Fire => match target_type {
            Type::Bug | Type::Grass | Type::Ice | Type::Steel => TypeEffectiveness::SuperEffective,
            Type::Dragon | Type::Fire | Type::Rock | Type::Water => TypeEffectiveness::NotVeryEffective,
            _ => TypeEffectiveness::Effective,
        },
        Type::Flying => match target_type {
            Type::Bug | Type::Fighting | Type::Grass => TypeEffectiveness::SuperEffective,
            Type::Electric | Type::Rock | Type::Steel => TypeEffectiveness::NotVeryEffective,
            _ => TypeEffectiveness::Effective,
        },
        Type::Ghost_ => match target_type {
            Type::Ghost_ | Type::Psychic => TypeEffectiveness::SuperEffective,
            Type::Dark => TypeEffectiveness::NotVeryEffective,
            Type::Normal => TypeEffectiveness::Ineffective,
            _ => TypeEffectiveness::Effective,
        },
        Type::Grass => match target_type {
            Type::Ground | Type::Rock | Type::Water => TypeEffectiveness::SuperEffective,
            Type::Bug | Type::Fire | Type::Flying | Type::Poison | Type::Steel => TypeEffectiveness::NotVeryEffective,
            _ => TypeEffectiveness::Effective,
        },
        Type::Ground => match target_type {
            Type::Electric | Type::Fire | Type::Ground | Type::Rock | Type::Steel => TypeEffectiveness::SuperEffective,
            Type::Bug | Type::Grass => TypeEffectiveness::NotVeryEffective,
            Type::Flying => TypeEffectiveness::Ineffective,
            _ => TypeEffectiveness::Effective,
        },
        Type::Ice => match target_type {
            Type::Dragon | Type::Flying | Type::Grass | Type::Ground => TypeEffectiveness::SuperEffective,
            Type::Fire | Type::Ice | Type::Steel | Type::Water => TypeEffectiveness::NotVeryEffective,
            _ => TypeEffectiveness::Effective,
        },
        Type::Normal => match target_type {
            Type::Rock | Type::Steel => TypeEffectiveness::NotVeryEffective,
            Type::Ghost_ => TypeEffectiveness::Ineffective,
            _ => TypeEffectiveness::Effective,
        },
        Type::Poison => match target_type {
            Type::Fairy | Type::Grass => TypeEffectiveness::SuperEffective,
            Type::Ghost_ | Type::Ground | Type::Poison | Type::Rock => TypeEffectiveness::NotVeryEffective,
            Type::Steel => TypeEffectiveness::Ineffective,
            _ => TypeEffectiveness::Effective,
        },
        Type::Psychic => match target_type {
            Type::Fighting | Type::Poison => TypeEffectiveness::SuperEffective,
            Type::Psychic | Type::Steel => TypeEffectiveness::NotVeryEffective,
            Type::Dark => TypeEffectiveness::Ineffective,
            _ => TypeEffectiveness::Effective,
        },
        Type::Rock => match target_type {
            Type::Bug | Type::Fire | Type::Flying | Type::Ice => TypeEffectiveness::SuperEffective,
            Type::Fighting | Type::Ground | Type::Steel => TypeEffectiveness::NotVeryEffective,
            _ => TypeEffectiveness::Effective,
        },
        Type::Steel => match target_type {
            Type::Fairy | Type::Ice | Type::Rock => TypeEffectiveness::SuperEffective,
            Type::Electric | Type::Fire | Type::Steel | Type::Water => TypeEffectiveness::NotVeryEffective,
            _ => TypeEffectiveness::Effective,
        },
        Type::Water => match target_type {
            Type::Fire | Type::Ground | Type::Rock => TypeEffectiveness::SuperEffective,
            Type::Dragon | Type::Grass | Type::Water => TypeEffectiveness::NotVeryEffective,
            _ => TypeEffectiveness::Effective,
        },
    }
}

// Laws ------------------------------------------------------------------------------------- //

/// A matchup against a single type is never doubly (not very or super) effective, and the
/// product of two such matchups is always the multiplier of some effectiveness.
pub proof fn law_type_matchup_is_single(move_type: Type, target_type: Type)
    ensures
        type_chart(move_type, target_type) != TypeEffectiveness::DoubleNotVeryEffective,
        type_chart(move_type, target_type) != TypeEffectiveness::DoubleSuperEffective,
        forall|other: Type| is_effectiveness_percent(
            #[trigger] product_percent(type_chart(move_type, target_type), type_chart(move_type, other)),
        ),
{
}

/// The matchup against a dual-typed monster does not depend on which of its two types is primary.
pub proof fn law_dual_type_matchup_is_symmetric(move_type: Type, first: Type, second: Type)
    ensures
        dual_type_chart(move_type, first, Some(second)) == dual_type_chart(move_type, second, Some(first)),
{
}

/// A monster one of whose types is immune to a move's type is immune to the move.
pub proof fn law_immunity_dominates(move_type: Type, primary: Type, secondary: Option<Type>)
    requires
        is_immune_pair(move_type, primary) || (secondary matches Some(s) && is_immune_pair(move_type, s)),
    ensures
        dual_type_chart(move_type, primary, secondary) == TypeEffectiveness::Ineffective,
{
}

/// The multiplier of a product of effectivenesses is the product of their multipliers.
pub proof fn law_product_multiplies_percentages(a: TypeEffectiveness, b: TypeEffectiveness)
    requires
        is_effectiveness_percent(product_percent(a, b)),
    ensures
        effectiveness_percent(effectiveness_product(a, b)) as int == effectiveness_percent(a) as int
            * effectiveness_percent(b) as int / 100,
        effectiveness_product(a, b) == effectiveness_product(b, a),
{
    assert(effectiveness_percent(a) as int * effectiveness_percent(b) as int == effectiveness_percent(b) as int
        * effectiveness_percent(a) as int) by (nonlinear_arith);
}

/// The chart of single-type matchups is the dex's table: for each of the 324 pairs of a move's
/// type and a target's type, how effective the move is.
pub proof fn law_type_chart_is_the_dex_table()
    ensures
        type_chart(Type::Bug, Type::Bug) == TypeEffectiveness::Effective,
        type_chart(Type::Bug, Type::Dark) == TypeEffectiveness::SuperEffective,
        type_chart(Type::Bug, Type::Dragon) == TypeEffectiveness::Effective,
        type_chart(Type::Bug, Type::Electric) == TypeEffectiveness::Effective,
        type_chart(Type::Bug, Type::Fairy) == TypeEffectiveness::NotVeryEffective,
        type_chart(Type::Bug, Type::Fighting) == TypeEffectiveness::NotVeryEffective,
        type_chart(Type::Bug, Type::Fire) == TypeEffectiveness::NotVeryEffective,
        type_chart(Type::Bug, Type::Flying) == TypeEffectiveness::NotVeryEffective,
        type_chart(Type::Bug, Type::Ghost_) == TypeEffectiveness::NotVeryEffective,
        type_chart(Type::Bug, Type::Grass) == TypeEffectiveness::SuperEffective,
        type_chart(Type::Bug, Type::Ground) == TypeEffectiveness::Effective,
        type_chart(Type::Bug, Type::Ice) == TypeEffectiveness::Effective,
        type_chart(Type::Bug, Type::Poison) == TypeEffectiveness::NotVeryEffective,
        type_chart(Type::Bug, Type::Psychic) == TypeEffectiveness::SuperEffective,
        type_chart(Type::Bug, Type::Normal) == TypeEffectiveness::Effective,
        type_chart(Type::Bug, Type::Rock) == TypeEffectiveness::Effective,
        type_chart(Type::Bug, Type::Steel) == TypeEffectiveness::NotVeryEffective,
        type_chart(Type::Bug, Type::Water) == TypeEffectiveness::Effective,
        type_chart(Type::Dark, Type::Bug) == TypeEffectiveness::Effective,
        type_chart(Type::Dark, Type::Dark) == TypeEffectiveness::NotVeryEffective,
        type_chart(Type::Dark, Type::Dragon) == TypeEffectiveness::Effective,
        type_chart(Type::Dark, Type::Electric) == TypeEffectiveness::Effective,
        type_chart(Type::Dark, Type::Fairy) == TypeEffectiveness::NotVeryEffective,
        type_chart(Type::Dark, Type::Fighting) == TypeEffectiveness::NotVeryEffective,
        type_chart(Type::Dark, Type::Fire) == TypeEffectiveness::Effective,
        type_chart(Type::Dark, Type::Flying) == TypeEffectiveness::Effective,
        type_chart(Type::Dark, Type::Ghost_) == TypeEffectiveness::SuperEffective,
        type_chart(Type::Dark, Type::Grass) == TypeEffectiveness::Effective,
        type_chart(Type::Dark, Type::Ground) == TypeEffectiveness::Effective,
        type_chart(Type::Dark, Type::Ice) == TypeEffectiveness::Effective,
        type_chart(Type::Dark, Type::Poison) == TypeEffectiveness::Effective,
        type_chart(Type::Dark, Type::Psychic) == TypeEffectiveness::SuperEffective,
        type_chart(Type::Dark, Type::Normal) == TypeEffectiveness::Effective,
        type_chart(Type::Dark, Type::Rock) == TypeEffectiveness::Effective,
        type_chart(Type::Dark, Type::Steel) == TypeEffectiveness::Effective,
        type_chart(Type::Dark, Type::Water) == TypeEffectiveness::Effective,
        type_chart(Type::Dragon, Type::Bug) == TypeEffectiveness::Effective,
        type_chart(Type::Dragon, Type::Dark) == TypeEffectiveness::Effective,
        type_chart(Type::Dragon, Type::Dragon) == TypeEffectiveness::SuperEffective,
        type_chart(Type::Dragon, Type::Electric) == TypeEffectiveness::Effective,
        type_chart(Type::Dragon, Type::Fairy) == TypeEffectiveness::Ineffective,
        type_chart(Type::Dragon, Type::Fighting) == TypeEffectiveness::Effective,
        type_chart(Type::Dragon, Type::Fire) == TypeEffectiveness::Effective,
        type_chart(Type::Dragon, Type::Flying) == TypeEffectiveness::Effective,
        type_chart(Type::Dragon, Type::Ghost_) == TypeEffectiveness::Effective,
        type_chart(Type::Dragon, Type::Grass) == TypeEffectiveness::Effective,
        type_chart(Type::Dragon, Type::Ground) == TypeEffectiveness::Effective,
        type_chart(Type::Dragon, Type::Ice) == TypeEffectiveness::Effective,
        type_chart(Type::Dragon, Type::Poison) == TypeEffectiveness::Effective,
        type_chart(Type::Dragon, Type::Psychic) == TypeEffectiveness::Effective,
        type_chart(Type::Dragon, Type::Normal) == TypeEffectiveness::Effective,
        type_chart(Type::Dragon, Type::Rock) == TypeEffectiveness::Effective,
        type_chart(Type::Dragon, Type::Steel) == TypeEffectiveness::NotVeryEffective,
        type_chart(Type::Dragon, Type::Water) == TypeEffectiveness::Effective,
        type_chart(Type::Electric, Type::Bug) == TypeEffectiveness::Effective,
        type_chart(Type::Electric, Type::Dark) == TypeEffectiveness::Effective,
        type_chart(Type::Electric, Type::Dragon) == TypeEffectiveness::NotVeryEffective,
        type_chart(Type::Electric, Type::Electric) == TypeEffectiveness::NotVeryEffective,
        type_chart(Type::Electric, Type::Fairy) == TypeEffectiveness::Effective,
        type_chart(Type::Electric, Type::Fighting) == TypeEffectiveness::Effective,
        type_chart(Type::Electric, Type::Fire) == TypeEffectiveness::Effective,
        type_chart(Type::Electric, Type::Flying) == TypeEffectiveness::SuperEffective,
        type_chart(Type::Electric, Type::Ghost_) == TypeEffectiveness::Effective,
        type_chart(Type::Electric, Type::Grass) == TypeEffectiveness::NotVeryEffective,
        type_chart(Type::Electric, Type::Ground) == TypeEffectiveness::Ineffective,
        type_chart(Type::Electric, Type::Ice) == TypeEffectiveness::Effective,
        type_chart(Type::Electric, Type::Poison) == TypeEffectiveness::Effective,
        type_chart(Type::Electric, Type::Psychic) == TypeEffectiveness::Effective,
        type_chart(Type::Electric, Type::Normal) == TypeEffectiveness::Effective,
        type_chart(Type::Electric, Type::Rock) == TypeEffectiveness::Effective,
        type_chart(Type::Electric, Type::Steel) == TypeEffectiveness::Effective,
        type_chart(Type::Electric, Type::Water) == TypeEffectiveness::SuperEffective,
        type_chart(Type::Fairy, Type::Bug) == TypeEffectiveness::Effective,
        type_chart(Type::Fairy, Type::Dark) == TypeEffectiveness::SuperEffective,
        type_chart(Type::Fairy, Type::Dragon) == TypeEffectiveness::SuperEffective,
        type_chart(Type::Fairy, Type::Electric) == TypeEffectiveness::Effective,
        type_chart(Type::Fairy, Type::Fairy) == TypeEffectiveness::Effective,
        type_chart(Type::Fairy, Type::Fighting) == TypeEffectiveness::SuperEffective,
        type_chart(Type::Fairy, Type::Fire) == TypeEffectiveness::NotVeryEffective,
        type_chart(Type::Fairy, Type::Flying) == TypeEffectiveness::Effective,
        type_chart(Type::Fairy, Type::Ghost_) == TypeEffectiveness::Effective,
        type_chart(Type::Fairy, Type::Grass) == TypeEffectiveness::Effective,
        type_chart(Type::Fairy, Type::Ground) == TypeEffectiveness::Effective,
        type_chart(Type::Fairy, Type::Ice) == TypeEffectiveness::Effective,
        type_chart(Type::Fairy, Type::Poison) == TypeEffectiveness::Effective,
        type_chart(Type::Fairy, Type::Psychic) == TypeEffectiveness::Effective,
        type_chart(Type::Fairy, Type::Normal) == TypeEffectiveness::Effective,
        type_chart(Type::Fairy, Type::Rock) == TypeEffectiveness::Effective,
        type_chart(Type::Fairy, Type::Steel) == TypeEffectiveness::NotVeryEffective,
        type_chart(Type::Fairy, Type::Water) == TypeEffectiveness::Effective,
        type_chart(Type::Fighting, Type::Bug) == TypeEffectiveness::NotVeryEffective,
        type_chart(Type::Fighting, Type::Dark) == TypeEffectiveness::SuperEffective,
        type_chart(Type::Fighting, Type::Dragon) == TypeEffectiveness::Effective,
        type_chart(Type::Fighting, Type::Electric) == TypeEffectiveness::Effective,
        type_chart(Type::Fighting, Type::Fairy) == TypeEffectiveness::NotVeryEffective,
        type_chart(Type::Fighting, Type::Fighting) == TypeEffectiveness::Effective,
        type_chart(Type::Fighting, Type::Fire) == TypeEffectiveness::Effective,
        type_chart(Type::Fighting, Type::Flying) == TypeEffectiveness::NotVeryEffective,
        type_chart(Type::Fighting, Type::Ghost_) == TypeEffectiveness::Ineffective,
        type_chart(Type::Fighting, Type::Grass) == TypeEffectiveness::Effective,
        type_chart(Type::Fighting, Type::Ground) == TypeEffectiveness::Effective,
        type_chart(Type::Fighting, Type::Ice) == TypeEffectiveness::SuperEffective,
        type_chart(Type::Fighting, Type::Poison) == TypeEffectiveness::NotVeryEffective,
        type_chart(Type::Fighting, Type::Psychic) == TypeEffectiveness::NotVeryEffective,
        type_chart(Type::Fighting, Type::Normal) == TypeEffectiveness::SuperEffective,
        type_chart(Type::Fighting, Type::Rock) == TypeEffectiveness::SuperEffective,
        type_chart(Type::Fighting, Type::Steel) == TypeEffectiveness::Effective,
        type_chart(Type::Fighting, Type::Water) == TypeEffectiveness::Effective,
        type_chart(Type::Fire, Type::Bug) == TypeEffectiveness::SuperEffective,
        type_chart(Type::Fire, Type::Dark) == TypeEffectiveness::Effective,
        type_chart(Type::Fire, Type::Dragon) == TypeEffectiveness::NotVeryEffective,
        type_chart(Type::Fire, Type::Electric) == TypeEffectiveness::Effective,
        type_chart(Type::Fire, Type::Fairy) == TypeEffectiveness::Effective,
        type_chart(Type::Fire, Type::Fighting) == TypeEffectiveness::Effective,
        type_chart(Type::Fire, Type::Fire) == TypeEffectiveness::NotVeryEffective,
        type_chart(Type::Fire, Type::Flying) == TypeEffectiveness::Effective,
        type_chart(Type::Fire, Type::Ghost_) == TypeEffectiveness::Effective,
        type_chart(Type::Fire, Type::Grass) == TypeEffectiveness::SuperEffective,
        type_chart(Type::Fire, Type::Ground) == TypeEffectiveness::Effective,
        type_chart(Type::Fire, Type::Ice) == TypeEffectiveness::SuperEffective,
        type_chart(Type::Fire, Type::Poison) == TypeEffectiveness::Effective,
        type_chart(Type::Fire, Type::Psychic) == TypeEffectiveness::Effective,
        type_chart(Type::Fire, Type::Normal) == TypeEffectiveness::Effective,
        type_chart(Type::Fire, Type::Rock) == TypeEffectiveness::NotVeryEffective,
        type_chart(Type::Fire, Type::Steel) == TypeEffectiveness::SuperEffective,
        type_chart(Type::Fire, Type::Water) == TypeEffectiveness::NotVeryEffective,
        type_chart(Type::Flying, Type::Bug) == TypeEffectiveness::SuperEffective,
        type_chart(Type::Flying, Type::Dark) == TypeEffectiveness::Effective,
        type_chart(Type::Flying, Type::Dragon) == TypeEffectiveness::Effective,
        type_chart(Type::Flying, Type::Electric) == TypeEffectiveness::NotVeryEffective,
        type_chart(Type::Flying, Type::Fairy) == TypeEffectiveness::Effective,
        type_chart(Type::Flying, Type::Fighting) == TypeEffectiveness::SuperEffective,
        type_chart(Type::Flying, Type::Fire) == TypeEffectiveness::Effective,
        type_chart(Type::Flying, Type::Flying) == TypeEffectiveness::Effective,
        type_chart(Type::Flying, Type::Ghost_) == TypeEffectiveness::Effective,
        type_chart(Type::Flying, Type::Grass) == TypeEffectiveness::SuperEffective,
        type_chart(Type::Flying, Type::Ground) == TypeEffectiveness::Effective,
        type_chart(Type::Flying, Type::Ice) == TypeEffectiveness::Effective,
        type_chart(Type::Flying, Type::Poison) == TypeEffectiveness::Effective,
        type_chart(Type::Flying, Type::Psychic) == TypeEffectiveness::Effective,
        type_chart(Type::Flying, Type::Normal) == TypeEffectiveness::Effective,
        type_chart(Type::Flying, Type::Rock) == TypeEffectiveness::NotVeryEffective,
        type_chart(Type::Flying, Type::Steel) == TypeEffectiveness::NotVeryEffective,
        type_chart(Type::Flying, Type::Water) == TypeEffectiveness::Effective,
        type_chart(Type::Ghost_, Type::Bug) == TypeEffectiveness::Effective,
        type_chart(Type::Ghost_, Type::Dark) == TypeEffectiveness::NotVeryEffective,
        type_chart(Type::Ghost_, Type::Dragon) == TypeEffectiveness::Effective,
        type_chart(Type::Ghost_, Type::Electric) == TypeEffectiveness::Effective,
        type_chart(Type::Ghost_, Type::Fairy) == TypeEffectiveness::Effective,
        type_chart(Type::Ghost_, Type::Fighting) == TypeEffectiveness::Effective,
        type_chart(Type::Ghost_, Type::Fire) == TypeEffectiveness::Effective,
        type_chart(Type::Ghost_, Type::Flying) == TypeEffectiveness::Effective,
        type_chart(Type::Ghost_, Type::Ghost_) == TypeEffectiveness::SuperEffective,
        type_chart(Type::Ghost_, Type::Grass) == TypeEffectiveness::Effective,
        type_chart(Type::Ghost_, Type::Ground) == TypeEffectiveness::Effective,
        type_chart(Type::Ghost_, Type::Ice) == TypeEffectiveness::Effective,
        type_chart(Type::Ghost_, Type::Poison) == TypeEffectiveness::Effective,
        type_chart(Type::Ghost_, Type::Psychic) == TypeEffectiveness::SuperEffective,
        type_chart(Type::Ghost_, Type::Normal) == TypeEffectiveness::Ineffective,
        type_chart(Type::Ghost_, Type::Rock) == TypeEffectiveness::Effective,
        type_chart(Type::Ghost_, Type::Steel) == TypeEffectiveness::Effective,
        type_chart(Type::Ghost_, Type::Water) == TypeEffectiveness::Effective,
        type_chart(Type::Grass, Type::Bug) == TypeEffectiveness::NotVeryEffective,
        type_chart(Type::Grass, Type::Dark) == TypeEffectiveness::Effective,
        type_chart(Type::Grass, Type::Dragon) == TypeEffectiveness::Effective,
        type_chart(Type::Grass, Type::Electric) == TypeEffectiveness::Effective,
        type_chart(Type::Grass, Type::Fairy) == TypeEffectiveness::Effective,
        type_chart(Type::Grass, Type::Fighting) == TypeEffectiveness::Effective,
        type_chart(Type::Grass, Type::Fire) == TypeEffectiveness::NotVeryEffective,
        type_chart(Type::Grass, Type::Flying) == TypeEffectiveness::NotVeryEffective,
        type_chart(Type::Grass, Type::Ghost_) == TypeEffectiveness::Effective,
        type_chart(Type::Grass, Type::Grass) == TypeEffectiveness::Effective,
        type_chart(Type::Grass, Type::Ground) == TypeEffectiveness::SuperEffective,
        type_chart(Type::Grass, Type::Ice) == TypeEffectiveness::Effective,
        type_chart(Type::Grass, Type::Poison) == TypeEffectiveness::NotVeryEffective,
        type_chart(Type::Grass, Type::Psychic) == TypeEffectiveness::Effective,
        type_chart(Type::Grass, Type::Normal) == TypeEffectiveness::Effective,
        type_chart(Type::Grass, Type::Rock) == TypeEffectiveness::SuperEffective,
        type_chart(Type::Grass, Type::Steel) == TypeEffectiveness::NotVeryEffective,
        type_chart(Type::Grass, Type::Water) == TypeEffectiveness::SuperEffective,
        type_chart(Type::Ground, Type::Bug) == TypeEffectiveness::NotVeryEffective,
        type_chart(Type::Ground, Type::Dark) == TypeEffectiveness::Effective,
        type_chart(Type::Ground, Type::Dragon) == TypeEffectiveness::Effective,
        type_chart(Type::Ground, Type::Electric) == TypeEffectiveness::SuperEffective,
        type_chart(Type::Ground, Type::Fairy) == TypeEffectiveness::Effective,
        type_chart(Type::Ground, Type::Fighting) == TypeEffectiveness::Effective,
        type_chart(Type::Ground, Type::Fire) == TypeEffectiveness::SuperEffective,
        type_chart(Type::Ground, Type::Flying) == TypeEffectiveness::Ineffective,
        type_chart(Type::Ground, Type::Ghost_) == TypeEffectiveness::Effective,
        type_chart(Type::Ground, Type::Grass) == TypeEffectiveness::NotVeryEffective,
        type_chart(Type::Ground, Type::Ground) == TypeEffectiveness::SuperEffective,
        type_chart(Type::Ground, Type::Ice) == TypeEffectiveness::Effective,
        type_chart(Type::Ground, Type::Poison) == TypeEffectiveness::Effective,
        type_chart(Type::Ground, Type::Psychic) == TypeEffectiveness::Effective,
        type_chart(Type::Ground, Type::Normal) == TypeEffectiveness::Effective,
        type_chart(Type::Ground, Type::Rock) == TypeEffectiveness::SuperEffective,
        type_chart(Type::Ground, Type::Steel) == TypeEffectiveness::SuperEffective,
        type_chart(Type::Ground, Type::Water) == TypeEffectiveness::Effective,
        type_chart(Type::Ice, Type::Bug) == TypeEffectiveness::Effective,
        type_chart(Type::Ice, Type::Dark) == TypeEffectiveness::Effective,
        type_chart(Type::Ice, Type::Dragon) == TypeEffectiveness::SuperEffective,
        type_chart(Type::Ice, Type::Electric) == TypeEffectiveness::Effective,
        type_chart(Type::Ice, Type::Fairy) == TypeEffectiveness::Effective,
        type_chart(Type::Ice, Type::Fighting) == TypeEffectiveness::Effective,
        type_chart(Type::Ice, Type::Fire) == TypeEffectiveness::NotVeryEffective,
        type_chart(Type::Ice, Type::Flying) == TypeEffectiveness::SuperEffective,
        type_chart(Type::Ice, Type::Ghost_) == TypeEffectiveness::Effective,
        type_chart(Type::Ice, Type::Grass) == TypeEffectiveness::SuperEffective,
        type_chart(Type::Ice, Type::Ground) == TypeEffectiveness::SuperEffective,
        type_chart(Type::Ice, Type::Ice) == TypeEffectiveness::NotVeryEffective,
        type_chart(Type::Ice, Type::Poison) == TypeEffectiveness::Effective,
        type_chart(Type::Ice, Type::Psychic) == TypeEffectiveness::Effective,
        type_chart(Type::Ice, Type::Normal) == TypeEffectiveness::Effective,
        type_chart(Type::Ice, Type::Rock) == TypeEffectiveness::Effective,
        type_chart(Type::Ice, Type::Steel) == TypeEffectiveness::NotVeryEffective,
        type_chart(Type::Ice, Type::Water) == TypeEffectiveness::NotVeryEffective,
        type_chart(Type::Poison, Type::Bug) == TypeEffectiveness::Effective,
        type_chart(Type::Poison, Type::Dark) == TypeEffectiveness::Effective,
        type_chart(Type::Poison, Type::Dragon) == TypeEffectiveness::Effective,
        type_chart(Type::Poison, Type::Electric) == TypeEffectiveness::Effective,
        type_chart(Type::Poison, Type::Fairy) == TypeEffectiveness::SuperEffective,
        type_chart(Type::Poison, Type::Fighting) == TypeEffectiveness::Effective,
        type_chart(Type::Poison, Type::Fire) == TypeEffectiveness::Effective,
        type_chart(Type::Poison, Type::Flying) == TypeEffectiveness::Effective,
        type_chart(Type::Poison, Type::Ghost_) == TypeEffectiveness::NotVeryEffective,
        type_chart(Type::Poison, Type::Grass) == TypeEffectiveness::SuperEffective,
        type_chart(Type::Poison, Type::Ground) == TypeEffectiveness::NotVeryEffective,
        type_chart(Type::Poison, Type::Ice) == TypeEffectiveness::Effective,
        type_chart(Type::Poison, Type::Poison) == TypeEffectiveness::NotVeryEffective,
        type_chart(Type::Poison, Type::Psychic) == TypeEffectiveness::Effective,
        type_chart(Type::Poison, Type::Normal) == TypeEffectiveness::Effective,
        type_chart(Type::Poison, Type::Rock) == TypeEffectiveness::NotVeryEffective,
        type_chart(Type::Poison, Type::Steel) == TypeEffectiveness::Ineffective,
        type_chart(Type::Poison, Type::Water) == TypeEffectiveness::Effective,
        type_chart(Type::Psychic, Type::Bug) == TypeEffectiveness::Effective,
        type_chart(Type::Psychic, Type::Dark) == TypeEffectiveness::Ineffective,
        type_chart(Type::Psychic, Type::Dragon) == TypeEffectiveness::Effective,
        type_chart(Type::Psychic, Type::Electric) == TypeEffectiveness::Effective,
        type_chart(Type::Psychic, Type::Fairy) == TypeEffectiveness::Effective,
        type_chart(Type::Psychic, Type::Fighting) == TypeEffectiveness::SuperEffective,
        type_chart(Type::Psychic, Type::Fire) == TypeEffectiveness::Effective,
        type_chart(Type::Psychic, Type::Flying) == TypeEffectiveness::Effective,
        type_chart(Type::Psychic, Type::Ghost_) == TypeEffectiveness::Effective,
        type_chart(Type::Psychic, Type::Grass) == TypeEffectiveness::Effective,
        type_chart(Type::Psychic, Type::Ground) == TypeEffectiveness::Effective,
        type_chart(Type::Psychic, Type::Ice) == TypeEffectiveness::Effective,
        type_chart(Type::Psychic, Type::Poison) == TypeEffectiveness::SuperEffective,
        type_chart(Type::Psychic, Type::Psychic) == TypeEffectiveness::NotVeryEffective,
        type_chart(Type::Psychic, Type::Normal) == TypeEffectiveness::Effective,
        type_chart(Type::Psychic, Type::Rock) == TypeEffectiveness::Effective,
        type_chart(Type::Psychic, Type::Steel) == TypeEffectiveness::NotVeryEffective,
        type_chart(Type::Psychic, Type::Water) == TypeEffectiveness::Effective,
        type_chart(Type::Normal, Type::Bug) == TypeEffectiveness::Effective,
        type_chart(Type::Normal, Type::Dark) == TypeEffectiveness::Effective,
        type_chart(Type::Normal, Type::Dragon) == TypeEffectiveness::Effective,
        type_chart(Type::Normal, Type::Electric) == TypeEffectiveness::Effective,
        type_chart(Type::Normal, Type::Fairy) == TypeEffectiveness::Effective,
        type_chart(Type::Normal, Type::Fighting) == TypeEffectiveness::Effective,
        type_chart(Type::Normal, Type::Fire) == TypeEffectiveness::Effective,
        type_chart(Type::Normal, Type::Flying) == TypeEffectiveness::Effective,
        type_chart(Type::Normal, Type::Ghost_) == TypeEffectiveness::Ineffective,
        type_chart(Type::Normal, Type::Grass) == TypeEffectiveness::Effective,
        type_chart(Type::Normal, Type::Ground) == TypeEffectiveness::Effective,
        type_chart(Type::Normal, Type::Ice) == TypeEffectiveness::Effective,
        type_chart(Type::Normal, Type::Poison) == TypeEffectiveness::Effective,
        type_chart(Type::Normal, Type::Psychic) == TypeEffectiveness::Effective,
        type_chart(Type::Normal, Type::Normal) == TypeEffectiveness::Effective,
        type_chart(Type::Normal, Type::Rock) == TypeEffectiveness::NotVeryEffective,
        type_chart(Type::Normal, Type::Steel) == TypeEffectiveness::NotVeryEffective,
        type_chart(Type::Normal, Type::Water) == TypeEffectiveness::Effective,
        type_chart(Type::Rock, Type::Bug) == TypeEffectiveness::SuperEffective,
        type_chart(Type::Rock, Type::Dark) == TypeEffectiveness::Effective,
        type_chart(Type::Rock, Type::Dragon) == TypeEffectiveness::Effective,
        type_chart(Type::Rock, Type::Electric) == TypeEffectiveness::Effective,
        type_chart(Type::Rock, Type::Fairy) == TypeEffectiveness::Effective,
        type_chart(Type::Rock, Type::Fighting) == TypeEffectiveness::NotVeryEffective,
        type_chart(Type::Rock, Type::Fire) == TypeEffectiveness::SuperEffective,
        type_chart(Type::Rock, Type::Flying) == TypeEffectiveness::SuperEffective,
        type_chart(Type::Rock, Type::Ghost_) == TypeEffectiveness::Effective,
        type_chart(Type::Rock, Type::Grass) == TypeEffectiveness::Effective,
        type_chart(Type::Rock, Type::Ground) == TypeEffectiveness::NotVeryEffective,
        type_chart(Type::Rock, Type::Ice) == TypeEffectiveness::SuperEffective,
        type_chart(Type::Rock, Type::Poison) == TypeEffectiveness::Effective,
        type_chart(Type::Rock, Type::Psychic) == TypeEffectiveness::Effective,
        type_chart(Type::Rock, Type::Normal) == TypeEffectiveness::Effective,
        type_chart(Type::Rock, Type::Rock) == TypeEffectiveness::Effective,
        type_chart(Type::Rock, Type::Steel) == TypeEffectiveness::NotVeryEffective,
        type_chart(Type::Rock, Type::Water) == TypeEffectiveness::Effective,
        type_chart(Type::Steel, Type::Bug) == TypeEffectiveness::Effective,
        type_chart(Type::Steel, Type::Dark) == TypeEffectiveness::Effective,
        type_chart(Type::Steel, Type::Dragon) == TypeEffectiveness::Effective,
        type_chart(Type::Steel, Type::Electric) == TypeEffectiveness::NotVeryEffective,
        type_chart(Type::Steel, Type::Fairy) == TypeEffectiveness::SuperEffective,
        type_chart(Type::Steel, Type::Fighting) == TypeEffectiveness::Effective,
        type_chart(Type::Steel, Type::Fire) == TypeEffectiveness::NotVeryEffective,
        type_chart(Type::Steel, Type::Flying) == TypeEffectiveness::Effective,
        type_chart(Type::Steel, Type::Ghost_) == TypeEffectiveness::Effective,
        type_chart(Type::Steel, Type::Grass) == TypeEffectiveness::Effective,
        type_chart(Type::Steel, Type::Ground) == TypeEffectiveness::Effective,
        type_chart(Type::Steel, Type::Ice) == TypeEffectiveness::SuperEffective,
        type_chart(Type::Steel, Type::Poison) == TypeEffectiveness::Effective,
        type_chart(Type::Steel, Type::Psychic) == TypeEffectiveness::Effective,
        type_chart(Type::Steel, Type::Normal) == TypeEffectiveness::Effective,
        type_chart(Type::Steel, Type::Rock) == TypeEffectiveness::SuperEffective,
        type_chart(Type::Steel, Type::Steel) == TypeEffectiveness::NotVeryEffective,
        type_chart(Type::Steel, Type::Water) == TypeEffectiveness::NotVeryEffective,
        type_chart(Type::Water, Type::Bug) == TypeEffectiveness::Effective,
        type_chart(Type::Water, Type::Dark) == TypeEffectiveness::Effective,
        type_chart(Type::Water, Type::Dragon) == TypeEffectiveness::NotVeryEffective,
        type_chart(Type::Water, Type::Electric) == TypeEffectiveness::Effective,
        type_chart(Type::Water, Type::Fairy) == TypeEffectiveness::Effective,
        type_chart(Type::Water, Type::Fighting) == TypeEffectiveness::Effective,
        type_chart(Type::Water, Type::Fire) == TypeEffectiveness::SuperEffective,
        type_chart(Type::Water, Type::Flying) == TypeEffectiveness::Effective,
        type_chart(Type::Water, Type::Ghost_) == TypeEffectiveness::Effective,
        type_chart(Type::Water, Type::Grass) == TypeEffectiveness::NotVeryEffective,
        type_chart(Type::Water, Type::Ground) == TypeEffectiveness::SuperEffective,
        type_chart(Type::Water, Type::Ice) == TypeEffectiveness::Effective,
        type_chart(Type::Water, Type::Poison) == TypeEffectiveness::Effective,
        type_chart(Type::Water, Type::Psychic) == TypeEffectiveness::Effective,
        type_chart(Type::Water, Type::Normal) == TypeEffectiveness::Effective,
        type_chart(Type::Water, Type::Rock) == TypeEffectiveness::SuperEffective,
        type_chart(Type::Water, Type::Steel) == TypeEffectiveness::Effective,
        type_chart(Type::Water, Type::Water) == TypeEffectiveness::NotVeryEffective,
{
}

/// The damage multipliers of the effectivenesses: none for an immune target, a quarter and a half
/// for doubly and singly not very effective matchups, full damage for a neutral one, and double
/// and quadruple for singly and doubly super effective ones.
pub proof fn law_effectiveness_multipliers()
    ensures
        effectiveness_percent(TypeEffectiveness::Ineffective) == 0,
        effectiveness_percent(TypeEffectiveness::DoubleNotVeryEffective) == 25,
        effectiveness_percent(TypeEffectiveness::NotVeryEffective) == 50,
        effectiveness_percent(TypeEffectiveness::Effective) == 100,
        effectiveness_percent(TypeEffectiveness::SuperEffective) == 200,
        effectiveness_percent(TypeEffectiveness::DoubleSuperEffective) == 400,
{
}

/// Against a single-typed monster a move is as effective as the chart says for that type; against
/// a dual-typed one its multiplier is the product of the chart's multipliers for the two types.
pub proof fn law_dual_matchup_multiplies_the_single_ones(move_type: Type, primary: Type, secondary: Type)
    ensures
        dual_type_chart(move_type, primary, None) == type_chart(move_type, primary),
        effectiveness_percent(dual_type_chart(move_type, primary, Some(secondary))) as int == effectiveness_percent(
            type_chart(move_type, primary),
        ) as int * effectiveness_percent(type_chart(move_type, secondary)) as int / 100,
{
    law_type_matchup_is_single(move_type, primary);
    law_type_matchup_is_single(move_type, secondary);
    assert(is_effectiveness_percent(product_percent(type_chart(move_type, primary), type_chart(move_type, secondary))));
    law_product_multiplies_percentages(type_chart(move_type, primary), type_chart(move_type, secondary));
}

} // verus!
