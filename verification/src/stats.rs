use vstd::prelude::*;

verus! {

/// The six permanent stats of a monster.
#[derive(Debug, Clone, Copy, PartialEq, Eq, Structural)]
pub enum Stat {
    Hp,
    PhysicalAttack,
    PhysicalDefense,
    SpecialAttack,
    SpecialDefense,
    Speed,
}

/// The stats that can be raised or lowered in stages during a battle.
#[derive(Debug, Clone, Copy, PartialEq, Eq, Structural)]
pub enum ModifiableStat {
    PhysicalAttack,
    PhysicalDefense,
    SpecialAttack,
    SpecialDefense,
    Speed,
    Accuracy,
    Evasion,
}

/// The modifiable stat that corresponds to a permanent stat; HP has none.
pub open spec fn spec_to_modifier(stat: Stat) -> Option<ModifiableStat> {
    match stat {
        Stat::Hp => None,
        Stat::PhysicalAttack => Some(ModifiableStat::PhysicalAttack),
        Stat::PhysicalDefense => Some(ModifiableStat::PhysicalDefense),
        Stat::SpecialAttack => Some(ModifiableStat::SpecialAttack),
        Stat::SpecialDefense => Some(ModifiableStat::SpecialDefense),
        Stat::Speed => Some(ModifiableStat::Speed),
    }
}

impl Stat {
    /// The modifiable stat that corresponds to this stat; HP has none.
    pub fn to_modifier(&self) -> (m: Option<ModifiableStat>)
        ensures
            m == spec_to_modifier(*self),
    {
        match self {
            Stat::Hp => None,
            Stat::PhysicalAttack => Some(ModifiableStat::PhysicalAttack),
            Stat::PhysicalDefense => Some(ModifiableStat::PhysicalDefense),
            Stat::SpecialAttack => Some(ModifiableStat::SpecialAttack),
            Stat::SpecialDefense => Some(ModifiableStat::SpecialDefense),
            Stat::Speed => Some(ModifiableStat::Speed),
        }
    }
}

/// One value per permanent stat.
#[derive(Debug, Clone, Copy, PartialEq, Eq, Structural)]
pub struct StatSet {
    pub hp: u16,
    pub att: u16,
    pub def: u16,
    pub spa: u16,
    pub spd: u16,
    pub spe: u16,
}

impl StatSet {
    /// The value of `stat` in this set.
    pub open spec fn spec_get(self, stat: Stat) -> u16 {
        match stat {
            Stat::Hp => self.hp,
            Stat::PhysicalAttack => self.att,
            Stat::PhysicalDefense => self.def,
            Stat::SpecialAttack => self.spa,
            Stat::SpecialDefense => self.spd,
            Stat::Speed => self.spe,
        }
    }

    pub fn new(hp: u16, att: u16, def: u16, spa: u16, spd: u16, spe: u16) -> (s: Self)
        ensures
            s == (StatSet { hp, att, def, spa, spd, spe }),
    {
        Self { hp, att, def, spa, spd, spe }
    }

    /// The value of `stat` in this set.
    pub fn get(&self, stat: Stat) -> (v: u16)
        ensures
            v == self.spec_get(stat),
    {
        match stat {
            Stat::Hp => self.hp,
            Stat::PhysicalAttack => self.att,
            Stat::PhysicalDefense => self.def,
            Stat::SpecialAttack => self.spa,
            Stat::SpecialDefense => self.spd,
            Stat::Speed => self.spe,
        }
    }
}

/// The number of stages by which each modifiable stat is raised (positive) or lowered (negative).
#[derive(Debug, Clone, Copy, PartialEq, Eq, Structural)]
pub struct StatModifierSet {
    pub att: i8,
    pub def: i8,
    pub spa: i8,
    pub spd: i8,
    pub spe: i8,
    pub acc: i8,
    pub eva: i8,
}

/// The name of a modifiable stat, as messages show it.
pub open spec fn modifiable_stat_name(stat: ModifiableStat) -> Seq<char> {
    match stat {
        ModifiableStat::PhysicalAttack => "Attack"@,
        ModifiableStat::PhysicalDefense => "Defense"@,
        ModifiableStat::SpecialAttack => "Special Attack"@,
        ModifiableStat::SpecialDefense => "Special Defense"@,
        ModifiableStat::Speed => "Speed"@,
        ModifiableStat::Accuracy => "Accuracy"@,
        ModifiableStat::Evasion => "Evasion"@,
    }
}

impl ModifiableStat {
    /// The name of the stat, as messages show it.
    pub fn name(&self) -> (name: &'static str)
        ensures
            name@ == modifiable_stat_name(*self),
    {
        match self {
            ModifiableStat::PhysicalAttack => "Attack",
            ModifiableStat::PhysicalDefense => "Defense",
            ModifiableStat::SpecialAttack => "Special Attack",
            ModifiableStat::SpecialDefense => "Special Defense",
            ModifiableStat::Speed => "Speed",
            ModifiableStat::Accuracy => "Accuracy",
            ModifiableStat::Evasion => "Evasion",
        }
    }
}

/// The number of stages by which a stat can be raised or lowered at most.
pub open spec fn max_stage() -> int {
    6
}

/// The number of stages that a raise by `by` actually applies to a stat at stage `current`.
pub open spec fn effective_raise(current: i8, by: u8) -> int {
    if 6 - current < by as int {
        6 - current
    } else {
        by as int
    }
}

/// The number of stages that a lowering by `by` actually applies to a stat at stage `current`.
pub open spec fn effective_lowering(current: i8, by: u8) -> int {
    if 6 + current < by as int {
        6 + current
    } else {
        by as int
    }
}

impl StatModifierSet {
    /// The stage of `stat`.
    pub open spec fn spec_get(self, stat: ModifiableStat) -> i8 {
        match stat {
            ModifiableStat::PhysicalAttack => self.att,
            ModifiableStat::PhysicalDefense => self.def,
            ModifiableStat::SpecialAttack => self.spa,
            ModifiableStat::SpecialDefense => self.spd,
            ModifiableStat::Speed => self.spe,
            ModifiableStat::Accuracy => self.acc,
            ModifiableStat::Evasion => self.eva,
        }
    }

    /// This set with the stage of `stat` replaced by `value`.
    pub open spec fn spec_set(self, stat: ModifiableStat, value: i8) -> StatModifierSet {
        match stat {
            ModifiableStat::PhysicalAttack => StatModifierSet { att: value, ..self },
            ModifiableStat::PhysicalDefense => StatModifierSet { def: value, ..self },
            ModifiableStat::SpecialAttack => StatModifierSet { spa: value, ..self },
            ModifiableStat::SpecialDefense => StatModifierSet { spd: value, ..self },
            ModifiableStat::Speed => StatModifierSet { spe: value, ..self },
            ModifiableStat::Accuracy => StatModifierSet { acc: value, ..self },
            ModifiableStat::Evasion => StatModifierSet { eva: value, ..self },
        }
    }

    /// Every stage lies between -6 and +6.
    pub open spec fn wf(self) -> bool {
        forall|stat: ModifiableStat| -max_stage() <= #[trigger] self.spec_get(stat) <= max_stage()
    }

    /// A set where every stat is at stage 0.
    pub fn blank() -> (s: Self)
        ensures
            s.wf(),
            forall|stat: ModifiableStat| #[trigger] s.spec_get(stat) == 0,
    {
        Self { att: 0, def: 0, spa: 0, spd: 0, spe: 0, acc: 0, eva: 0 }
    }

    /// The stage of `stat`.
    pub fn get(&self, stat: ModifiableStat) -> (v: i8)
        ensures
            v == self.spec_get(stat),
    {
        match stat {
            ModifiableStat::PhysicalAttack => self.att,
            ModifiableStat::PhysicalDefense => self.def,
            ModifiableStat::SpecialAttack => self.spa,
            ModifiableStat::SpecialDefense => self.spd,
            ModifiableStat::Speed => self.spe,
            ModifiableStat::Accuracy => self.acc,
            ModifiableStat::Evasion => self.eva,
        }
    }

    fn set(&mut self, stat: ModifiableStat, value: i8)
        ensures
            *final(self) == old(self).spec_set(stat, value),
    {
        match stat {
            ModifiableStat::PhysicalAttack => self.att = value,
            ModifiableStat::PhysicalDefense => self.def = value,
            ModifiableStat::SpecialAttack => self.spa = value,
            ModifiableStat::SpecialDefense => self.spd = value,
            ModifiableStat::Speed => self.spe = value,
            ModifiableStat::Accuracy => self.acc = value,
            ModifiableStat::Evasion => self.eva = value,
        }
    }

    /// Raises `stat` by `by_number_of_stages` (1 to 6), stopping at +6, and returns the number of
    /// stages by which it was actually raised.
    pub fn raise_stat(&mut self, stat: ModifiableStat, by_number_of_stages: u8) -> (effective_stages: u8)
        requires
            old(self).wf(),
            0 < by_number_of_stages <= 6,
        ensures
            effective_stages == effective_raise(old(self).spec_get(stat), by_number_of_stages),
            *final(self) == old(self).spec_set(stat, (old(self).spec_get(stat) + effective_stages) as i8),
            final(self).wf(),
    {
        let current = self.get(stat);
        let headroom: i8 = 6 - current;
        let effective_stages: i8 = if headroom < by_number_of_stages as i8 { headroom } else { by_number_of_stages as i8 };
        self.set(stat, current + effective_stages);
        proof {
            lemma_set_keeps_wf(*old(self), stat, (current + effective_stages) as i8);
        }
        effective_stages as u8
    }

    /// Lowers `stat` by `by_number_of_stages` (1 to 6), stopping at -6, and returns the number of
    /// stages by which it was actually lowered.
    pub fn lower_stat(&mut self, stat: ModifiableStat, by_number_of_stages: u8) -> (effective_stages: u8)
        requires
            old(self).wf(),
            0 < by_number_of_stages <= 6,
        ensures
            effective_stages == effective_lowering(old(self).spec_get(stat), by_number_of_stages),
            *final(self) == old(self).spec_set(stat, (old(self).spec_get(stat) - effective_stages) as i8),
            final(self).wf(),
    {
        let current = self.get(stat);
        let room: i8 = 6 + current;
        let effective_stages: i8 = if room < by_number_of_stages as i8 { room } else { by_number_of_stages as i8 };
        self.set(stat, current - effective_stages);
        proof {
            lemma_set_keeps_wf(*old(self), stat, (current - effective_stages) as i8);
        }
        effective_stages as u8
    }
}

proof fn lemma_set_keeps_wf(s: StatModifierSet, stat: ModifiableStat, value: i8)
    requires
        s.wf(),
        -6 <= value <= 6,
    ensures
        s.spec_set(stat, value).wf(),
        s.spec_set(stat, value).spec_get(stat) == value,
        forall|other: ModifiableStat| other != stat ==> #[trigger] s.spec_set(stat, value).spec_get(other) == s.spec_get(other),
{
    assert forall|other: ModifiableStat| -max_stage() <= #[trigger] s.spec_set(stat, value).spec_get(other) <= max_stage() by {
        assert(-max_stage() <= s.spec_get(other) <= max_stage());
    }
}

/// The natures of monsters, each of which may favour one stat over another.
#[derive(Debug, Clone, Copy, PartialEq, Eq, Structural)]
pub enum MonsterNature {
    /// Neutral (+-Attack)
    Hardy,
    /// +Attack, -Defense
    Lonely,
    /// +Attack, -Speed
    Brave,
    /// +Attack, -Special Attack
    Adamant,
    /// +Attack, -Special Defense
    Naughty,
    /// Neutral (+-Defense)
    Docile,
    /// +Defense, -Attack
    Bold,
    /// +Defense, -Speed
    Relaxed,
    /// +Defense, -Special Attack
    Impish,
    /// +Defense, -Special Defense
    Lax,
    /// Neutral (+-Speed)
    Serious,
    /// +Speed, -Attack
    Timid,
    /// +Speed, -Defense
    Hasty,
    /// +Speed, -Special Attack
    Jolly,
    /// +Speed, -Special Defense
    Naive,
    /// Neutral (+-Special Attack)
    Bashful,
    /// +Special Attack, -Attack
    Modest,
    /// +Special Attack, -Defense
    Mild,
    /// +Special Attack, -Speed
    Quiet,
    /// +Special Attack, -Special Defense
    Rash,
    /// Neutral (+-Special Defense)
    Quirky,
    /// +Special Defense, -Attack
    Calm,
    /// +Special Defense, -Defense
    Gentle,
    /// +SpecialDefense, -Speed
    Sassy,
    /// +SpecialDefense, -Special Attack
    Careful,
}

// Laws ------------------------------------------------------------------------------------- //

/// Raising a stat and then lowering it by the number of stages that the raise applied restores
/// the set as it was.
pub proof fn law_lowering_undoes_raising(s: StatModifierSet, stat: ModifiableStat, by: u8)
    requires
        s.wf(),
        0 < by <= 6,
    ensures
        ({
            let raised = effective_raise(s.spec_get(stat), by);
            let after_raise = s.spec_set(stat, (s.spec_get(stat) + raised) as i8);
            raised > 0 ==> after_raise.spec_set(
                stat,
                (after_raise.spec_get(stat) - effective_lowering(after_raise.spec_get(stat), raised as u8)) as i8,
            ) == s
        }),
{
    let raised = effective_raise(s.spec_get(stat), by);
    let after_raise = s.spec_set(stat, (s.spec_get(stat) + raised) as i8);
    assert(-6 <= s.spec_get(stat) <= 6);
    if raised > 0 {
        lemma_set_keeps_wf(s, stat, (s.spec_get(stat) + raised) as i8);
        assert(effective_lowering(after_raise.spec_get(stat), raised as u8) == raised);
        let back = after_raise.spec_set(stat, (after_raise.spec_get(stat) - raised) as i8);
        assert(back == s);
    }
}

/// A stat at +6 cannot be raised any further, and a stat at -6 cannot be lowered any further.
pub proof fn law_stages_saturate(s: StatModifierSet, stat: ModifiableStat, by: u8)
    requires
        s.wf(),
        0 < by <= 6,
    ensures
        s.spec_get(stat) == 6 ==> effective_raise(s.spec_get(stat), by) == 0,
        s.spec_get(stat) == -6 ==> effective_lowering(s.spec_get(stat), by) == 0,
        0 <= effective_raise(s.spec_get(stat), by) <= by,
        0 <= effective_lowering(s.spec_get(stat), by) <= by,
{
    assert(-6 <= s.spec_get(stat) <= 6);
}


/// A raise by `by` stages moves a stat at stage `current` up by all `by` stages unless that would
/// pass +6, in which case it stops at +6: the stages applied are never more than asked, never
/// carry the stat past +6, and fall short of `by` only when the stat ends at +6.
pub proof fn law_raise_stops_only_at_the_top(current: i8, by: u8)
    requires
        -6 <= current <= 6,
        0 < by <= 6,
    ensures
        0 <= effective_raise(current, by) <= by,
        current + effective_raise(current, by) <= 6,
        effective_raise(current, by) == by || current + effective_raise(current, by) == 6,
        current + by <= 6 ==> effective_raise(current, by) == by,
{
}

/// A lowering by `by` stages moves a stat at stage `current` down by all `by` stages unless that
/// would pass -6, in which case it stops at -6: the stages applied are never more than asked,
/// never carry the stat past -6, and fall short of `by` only when the stat ends at -6.
pub proof fn law_lowering_stops_only_at_the_bottom(current: i8, by: u8)
    requires
        -6 <= current <= 6,
        0 < by <= 6,
    ensures
        0 <= effective_lowering(current, by) <= by,
        current - effective_lowering(current, by) >= -6,
        effective_lowering(current, by) == by || current - effective_lowering(current, by) == -6,
        current - by >= -6 ==> effective_lowering(current, by) == by,
{
}

} // verus!
