use vstd::prelude::*;

use crate::monster::{monster_number_at, Monster, MonsterID, MonsterNumber, monster_number_index};

verus! {

/// The two sides of a battle.
#[derive(Debug, Clone, Copy, PartialEq, Eq, Hash, Default, Structural)]
pub enum TeamID {
    #[default]
    Allies,
    Opponents,
}

/// "Ally Team" or "Opponent Team".
pub open spec fn team_name(team: TeamID) -> Seq<char> {
    match team {
        TeamID::Allies => "Ally Team"@,
        TeamID::Opponents => "Opponent Team"@,
    }
}

impl TeamID {
    pub open spec fn spec_other(self) -> TeamID {
        match self {
            TeamID::Allies => TeamID::Opponents,
            TeamID::Opponents => TeamID::Allies,
        }
    }

    /// The team on the other side.
    pub fn other(&self) -> (t: TeamID)
        ensures
            t == self.spec_other(),
            t != *self,
    {
        match self {
            TeamID::Allies => TeamID::Opponents,
            TeamID::Opponents => TeamID::Allies,
        }
    }

    pub fn are_same(team_1: TeamID, team_2: TeamID) -> (b: bool)
        ensures
            b == (team_1 == team_2),
    {
        team_1 == team_2
    }

    /// "Ally Team" or "Opponent Team".
    pub fn name(&self) -> (name: &'static str)
        ensures
            name@ == team_name(*self),
    {
        match self {
            TeamID::Allies => "Ally Team",
            TeamID::Opponents => "Opponent Team",
        }
    }
}

/// One value for each team.
#[derive(Debug, Clone, Copy, PartialEq, Eq)]
pub struct PerTeam<T> {
    pub ally_team_item: T,
    pub opponent_team_item: T,
}

impl<T> PerTeam<T> {
    /// The value of `team`.
    pub open spec fn spec_get(self, team: TeamID) -> T {
        match team {
            TeamID::Allies => self.ally_team_item,
            TeamID::Opponents => self.opponent_team_item,
        }
    }

    pub fn new(ally_team_item: T, opponent_team_item: T) -> (p: Self)
        ensures
            p.ally_team_item == ally_team_item,
            p.opponent_team_item == opponent_team_item,
    {
        PerTeam { ally_team_item, opponent_team_item }
    }

    pub fn get(&self, team: TeamID) -> (item: &T)
        ensures
            *item == self.spec_get(team),
    {
        match team {
            TeamID::Allies => &self.ally_team_item,
            TeamID::Opponents => &self.opponent_team_item,
        }
    }

    pub fn get_mut(&mut self, team: TeamID) -> (item: &mut T)
        ensures
            *item == old(self).spec_get(team),
            team == TeamID::Allies ==> *final(self) == (PerTeam {
                ally_team_item: *final(item),
                opponent_team_item: old(self).opponent_team_item,
            }),
            team == TeamID::Opponents ==> *final(self) == (PerTeam {
                ally_team_item: old(self).ally_team_item,
                opponent_team_item: *final(item),
            }),
    {
        match team {
            TeamID::Allies => &mut self.ally_team_item,
            TeamID::Opponents => &mut self.opponent_team_item,
        }
    }

    pub fn ally_ref(&self) -> (item: &T)
        ensures
            *item == self.ally_team_item,
    {
        &self.ally_team_item
    }

    pub fn opponent_ref(&self) -> (item: &T)
        ensures
            *item == self.opponent_team_item,
    {
        &self.opponent_team_item
    }

    /// The two values, the allies' first.
    pub fn unwrap(self) -> (items: (T, T))
        ensures
            items == (self.ally_team_item, self.opponent_team_item),
    {
        (self.ally_team_item, self.opponent_team_item)
    }
}

/// The active monsters among `monsters`, in the same order.
pub open spec fn active_monsters_of(monsters: Seq<Monster>) -> Seq<Monster>
    decreases monsters.len(),
{
    if monsters.len() == 0 {
        Seq::empty()
    } else if monsters.last().spec_is_active() {
        active_monsters_of(monsters.drop_last()).push(monsters.last())
    } else {
        active_monsters_of(monsters.drop_last())
    }
}

/// The greatest number of monsters in a team.
pub open spec fn max_team_size() -> int {
    6
}

/// The monsters of a team, one to six, each in the slot that its id names.
#[derive(Debug, Clone)]
pub struct MonsterTeam {
    pub id: TeamID,
    pub monsters: Vec<Monster>,
}

impl MonsterTeam {
    /// The id of the monster in slot `i` of team `team`.
    pub open spec fn slot_id(team: TeamID, i: int) -> MonsterID {
        MonsterID { team_id: team, monster_number: monster_number_at(i) }
    }

    /// Whether `number` names a monster of this team.
    pub open spec fn has_monster(self, number: MonsterNumber) -> bool {
        monster_number_index(number) < self.monsters@.len()
    }

    /// The monster in slot `number`.
    pub open spec fn spec_monster(self, number: MonsterNumber) -> Monster {
        self.monsters@[monster_number_index(number)]
    }

    pub open spec fn wf(self) -> bool {
        &&& 1 <= self.monsters@.len() <= max_team_size()
        &&& forall|i: int|
            0 <= i < self.monsters@.len() ==> (#[trigger] self.monsters@[i]).id == MonsterTeam::slot_id(
                self.id,
                i,
            ) && self.monsters@[i].wf()
    }

    /// A team of `monsters` on side `id`: there must be one to six of them.
    pub fn new(monsters: Vec<Monster>, id: TeamID) -> (team: MonsterTeam)
        requires
            1 <= monsters@.len() <= max_team_size(),
        ensures
            team.id == id,
            team.monsters@ == monsters@,
    {
        MonsterTeam { id, monsters }
    }

    pub fn monsters(&self) -> (monsters: &Vec<Monster>)
        ensures
            monsters@ == self.monsters@,
    {
        &self.monsters
    }

    pub fn monster(&self, number: MonsterNumber) -> (monster: &Monster)
        requires
            self.has_monster(number),
        ensures
            *monster == self.spec_monster(number),
    {
        &self.monsters[number.index()]
    }

    /// The active monsters of the team, in slot order.
    pub fn active_monsters(&self) -> (active: Vec<&Monster>)
        ensures
            active@.map_values(|m: &Monster| *m) == active_monsters_of(self.monsters@),
    {
        let mut active: Vec<&Monster> = Vec::new();
        let mut i: usize = 0;
        while i < self.monsters.len()
            invariant
                i <= self.monsters@.len(),
                active@.map_values(|m: &Monster| *m) == active_monsters_of(self.monsters@.take(i as int)),
            decreases self.monsters@.len() - i,
        {
            let monster = &self.monsters[i];
            let ghost before = active@;
            assert(self.monsters@.take(i + 1).drop_last() == self.monsters@.take(i as int));
            if monster.is_active() {
                active.push(monster);
                assert(active@.map_values(|m: &Monster| *m) == before.map_values(|m: &Monster| *m).push(
                    *monster,
                ));
            }
            i += 1;
        }
        assert(self.monsters@.take(self.monsters@.len() as int) == self.monsters@);
        active
    }
}

} // verus!
