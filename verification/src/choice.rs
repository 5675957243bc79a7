use vstd::prelude::*;

use crate::battle::BattleState;
use crate::monster::{Monster, MonsterID};
use crate::move_::{Move, MoveID};
use crate::ordering::{Activatable, ActivationOrder};
use crate::stats::Stat;
use crate::targetting::{spec_field_position, FieldPosition, TargetFlags};
use crate::event_dispatcher::relation_allowed;
use crate::team::{active_monsters_of, TeamID};

verus! {

/// An action chosen before all its details are known, most often its target.
#[derive(Debug, Clone)]
pub enum PartiallySpecifiedActionChoice {
    /// A move, with the positions it can target: only positions with a monster on them (when the
    /// choice was made) are included.
    Move { move_id: MoveID, possible_target_positions: Vec<FieldPosition>, activation_order: ActivationOrder },
    /// A switch out, before the monster to switch in is known.
    SwitchOut {
        active_monster_id: MonsterID,
        switchable_benched_monster_ids: Vec<MonsterID>,
        activation_order: ActivationOrder,
    },
    CancelSimulation,
}

/// An action whose details are all known.
#[derive(Debug, Clone, Copy)]
pub enum FullySpecifiedActionChoice {
    /// A move, with its 1 to 6 target positions (the rest of the slots empty).
    Move { move_id: MoveID, target_positions: [Option<FieldPosition>; 6], activation_order: ActivationOrder },
    SwitchOut { active_monster_id: MonsterID, benched_monster_id: MonsterID, activation_order: ActivationOrder },
}

impl FullySpecifiedActionChoice {
    /// The monster that acts: the owner of the move, or the monster switched out.
    pub fn actor_id(&self) -> (id: MonsterID)
        ensures
            self matches FullySpecifiedActionChoice::Move { move_id, .. } ==> id == move_id.owner_id,
            self matches FullySpecifiedActionChoice::SwitchOut { active_monster_id, .. } ==> id == active_monster_id,
    {
        match self {
            FullySpecifiedActionChoice::Move { move_id, .. } => move_id.owner_id,
            FullySpecifiedActionChoice::SwitchOut { active_monster_id, .. } => *active_monster_id,
        }
    }
}

impl Activatable for FullySpecifiedActionChoice {
    open spec fn spec_activation_order(&self) -> ActivationOrder {
        match self {
            FullySpecifiedActionChoice::Move { activation_order, .. } => *activation_order,
            FullySpecifiedActionChoice::SwitchOut { activation_order, .. } => *activation_order,
        }
    }

    fn activation_order(&self) -> (order: ActivationOrder) {
        match self {
            FullySpecifiedActionChoice::Move { activation_order, .. } => *activation_order,
            FullySpecifiedActionChoice::SwitchOut { activation_order, .. } => *activation_order,
        }
    }
}

/// The choices of a monster: its moves, then possibly a switch out.
#[derive(Debug, Clone)]
pub struct AvailableChoices {
    pub choices: Vec<PartiallySpecifiedActionChoice>,
    pub switch_index: usize,
}

impl AvailableChoices {
    /// The move choices, then the switch out choice if there is one.
    pub fn new(
        move_choices: Vec<PartiallySpecifiedActionChoice>,
        switch_out_choice: Option<PartiallySpecifiedActionChoice>,
    ) -> (choices: AvailableChoices)
        ensures
            choices.switch_index == move_choices@.len(),
            switch_out_choice matches Some(choice) ==> choices.choices@ == move_choices@.push(choice),
            switch_out_choice is None ==> choices.choices@ == move_choices@,
    {
        let switch_index = move_choices.len();
        let mut choices = move_choices;
        match switch_out_choice {
            Some(switch_out) => choices.push(switch_out),
            None => {},
        }
        AvailableChoices { choices, switch_index }
    }

    pub fn choices(&self) -> (choices: &Vec<PartiallySpecifiedActionChoice>)
        ensures
            choices@ == self.choices@,
    {
        &self.choices
    }

    pub fn count(&self) -> (n: usize)
        ensures
            n == self.choices@.len(),
    {
        self.choices.len()
    }

    /// The move choices.
    pub fn move_choices(&self) -> (choices: Vec<&PartiallySpecifiedActionChoice>)
        requires
            self.switch_index <= self.choices@.len(),
        ensures
            choices@.map_values(|c: &PartiallySpecifiedActionChoice| *c) == self.choices@.take(self.switch_index as int),
    {
        let mut out: Vec<&PartiallySpecifiedActionChoice> = Vec::new();
        let mut i: usize = 0;
        while i < self.switch_index
            invariant
                i <= self.switch_index <= self.choices@.len(),
                out@.map_values(|c: &PartiallySpecifiedActionChoice| *c) == self.choices@.take(i as int),
            decreases self.switch_index - i,
        {
            out.push(&self.choices[i]);
            assert(self.choices@.take(i + 1) == self.choices@.take(i as int).push(self.choices@[i as int]));
            i += 1;
        }
        out
    }

    /// The switch out choice, if there is one.
    pub fn switch_out_choice(&self) -> (choice: Option<&PartiallySpecifiedActionChoice>)
        ensures
            self.switch_index < self.choices@.len() ==> choice == Some(&self.choices@[self.switch_index as int]),
            self.switch_index >= self.choices@.len() ==> choice is None,
    {
        if self.switch_index < self.choices.len() {
            Some(&self.choices[self.switch_index])
        } else {
            None
        }
    }
}

/// The positions of `monsters` (all on the Field) whose relation to `from` is allowed by `flags`,
/// in order.
pub open spec fn allowed_positions(monsters: Seq<Monster>, from: FieldPosition, flags: TargetFlags) -> Seq<FieldPosition>
    decreases monsters.len(),
{
    if monsters.len() == 0 {
        Seq::empty()
    } else {
        let rest = allowed_positions(monsters.drop_last(), from, flags);
        match spec_field_position(monsters.last().board_position) {
            Some(position) => if relation_allowed(from, position, flags) {
                rest.push(position)
            } else {
                rest
            },
            None => rest,
        }
    }
}

/// The monsters of `monsters` that can be switched in: not fainted, not active and not already
/// in `selected`.
pub open spec fn switchable_monsters(monsters: Seq<Monster>, selected: Seq<MonsterID>) -> Seq<MonsterID>
    decreases monsters.len(),
{
    if monsters.len() == 0 {
        Seq::empty()
    } else {
        let rest = switchable_monsters(monsters.drop_last(), selected);
        let m = monsters.last();
        if m.current_health != 0 && !m.spec_is_active() && !selected.contains(m.id) {
            rest.push(m.id)
        } else {
            rest
        }
    }
}

impl BattleState {
    /// The positions that `move_` can target: those of the active monsters (allies first, each
    /// team in slot order) whose relation to its owner's position the move allows.
    pub open spec fn spec_possible_targets(self, move_: Move) -> Seq<FieldPosition> {
        let from = spec_field_position(self.spec_monster(move_.id.owner_id).board_position).unwrap();
        allowed_positions(
            active_monsters_of(self.team_monsters(TeamID::Allies)) + active_monsters_of(self.team_monsters(TeamID::Opponents)),
            from,
            move_.species.targets,
        )
    }

    /// The positions that `move_` can target (see `spec_possible_targets`). Its owner must be on
    /// the Field.
    pub fn possible_targets_for_move(&self, move_: &Move) -> (positions: Vec<FieldPosition>)
        requires
            self.has_monster(move_.id.owner_id),
            self.spec_monster(move_.id.owner_id).spec_is_active(),
        ensures
            positions@ == self.spec_possible_targets(*move_),
    {
        let from = match self.monster(move_.id.owner_id).field_position() {
            Some(position) => position,
            None => FieldPosition::AllyCentre,
        };
        let active = self.active_monsters_by_team();
        let ghost all = active_monsters_of(self.team_monsters(TeamID::Allies)) + active_monsters_of(
            self.team_monsters(TeamID::Opponents),
        );
        let ghost allies = active.ally_team_item@.map_values(|m: &Monster| *m);
        let mut positions: Vec<FieldPosition> = Vec::new();
        let mut i: usize = 0;
        while i < active.ally_team_item.len()
            invariant
                i <= active.ally_team_item@.len(),
                allies == active.ally_team_item@.map_values(|m: &Monster| *m),
                allies == active_monsters_of(self.team_monsters(TeamID::Allies)),
                positions@ == allowed_positions(allies.take(i as int), from, move_.species.targets),
            decreases active.ally_team_item@.len() - i,
        {
            let monster = active.ally_team_item[i];
            assert(allies.take(i + 1).drop_last() == allies.take(i as int));
            assert(allies[i as int] == *monster);
            match monster.field_position() {
                Some(position) => {
                    if FieldPosition::is_position_relation_allowed_by_flags(from, position, move_.species.targets) {
                        positions.push(position);
                    }
                },
                None => {},
            }
            i += 1;
        }
        assert(allies.take(allies.len() as int) == allies);
        let ghost opponents = active.opponent_team_item@.map_values(|m: &Monster| *m);
        let mut j: usize = 0;
        while j < active.opponent_team_item.len()
            invariant
                j <= active.opponent_team_item@.len(),
                opponents == active.opponent_team_item@.map_values(|m: &Monster| *m),
                positions@ == allowed_positions(allies + opponents.take(j as int), from, move_.species.targets),
            decreases active.opponent_team_item@.len() - j,
        {
            let monster = active.opponent_team_item[j];
            assert((allies + opponents.take(j + 1)).drop_last() == allies + opponents.take(j as int));
            assert(opponents[j as int] == *monster);
            match monster.field_position() {
                Some(position) => {
                    if FieldPosition::is_position_relation_allowed_by_flags(from, position, move_.species.targets) {
                        positions.push(position);
                    }
                },
                None => {},
            }
            j += 1;
        }
        assert(allies + opponents.take(opponents.len() as int) == all);
        positions
    }

    /// The monsters of team `team_id` that can be switched in, in slot order: those not fainted,
    /// not active and not already in `monsters_already_selected_for_switch`.
    pub fn switchable_benched_monster_ids(&self, team_id: TeamID, monsters_already_selected_for_switch: &Vec<MonsterID>) -> (ids: Vec<MonsterID>)
        ensures
            ids@ == switchable_monsters(self.team_monsters(team_id), monsters_already_selected_for_switch@),
    {
        let monsters = &self.teams.get(team_id).monsters;
        let mut ids: Vec<MonsterID> = Vec::new();
        let mut i: usize = 0;
        while i < monsters.len()
            invariant
                i <= monsters@.len(),
                monsters@ == self.team_monsters(team_id),
                ids@ == switchable_monsters(monsters@.take(i as int), monsters_already_selected_for_switch@),
            decreases monsters@.len() - i,
        {
            let monster = &monsters[i];
            assert(monsters@.take(i + 1).drop_last() == monsters@.take(i as int));
            let is_active = monster.is_active();
            let is_selected = contains_id(monsters_already_selected_for_switch, monster.id);
            if !monster.is_fainted() && !is_active && !is_selected {
                ids.push(monster.id);
            }
            i += 1;
        }
        assert(monsters@.take(monsters@.len() as int) == monsters@);
        ids
    }

    /// The first monster, allies first and each team in slot order, standing on `field_position`.
    pub fn monster_at_position(&self, field_position: FieldPosition) -> (monster: Option<&Monster>)
        ensures
            monster is None <==> forall|i: int|
                0 <= i < self.all_monsters().len() ==> spec_field_position(
                    #[trigger] self.all_monsters()[i].board_position,
                ) != Some(field_position),
            monster matches Some(m) ==> exists|i: int|
                0 <= i < self.all_monsters().len() && #[trigger] self.all_monsters()[i] == *m && spec_field_position(
                    m.board_position,
                ) == Some(field_position),
            match monster {
                Some(m) => first_monster_at(self.all_monsters(), field_position) == Some(*m),
                None => first_monster_at(self.all_monsters(), field_position) is None,
            },
    {
        let monsters = self.monsters();
        let ghost all = self.all_monsters();
        assert(all.skip(0) =~= all);
        let mut i: usize = 0;
        while i < monsters.len()
            invariant
                i <= monsters@.len(),
                monsters@.map_values(|m: &Monster| *m) == all,
                all == self.all_monsters(),
                forall|k: int| 0 <= k < i ==> spec_field_position(#[trigger] all[k].board_position) != Some(field_position),
                first_monster_at(all, field_position) == first_monster_at(all.skip(i as int), field_position),
            decreases monsters@.len() - i,
        {
            let monster = monsters[i];
            assert(all[i as int] == *monster);
            assert(all.skip(i as int)[0] == all[i as int]);
            assert(all.skip(i as int).drop_first() =~= all.skip(i + 1));
            match monster.field_position() {
                Some(position) => {
                    if position == field_position {
                        return Some(monster);
                    }
                },
                None => {},
            }
            i += 1;
        }
        assert(all.skip(i as int) =~= Seq::<Monster>::empty());
        None
    }
}

/// The first of `monsters` that stands on `position`, if any.
pub open spec fn first_monster_at(monsters: Seq<Monster>, position: FieldPosition) -> Option<Monster>
    decreases monsters.len(),
{
    if monsters.len() == 0 {
        None
    } else if spec_field_position(monsters[0].board_position) == Some(position) {
        Some(monsters[0])
    } else {
        first_monster_at(monsters.drop_first(), position)
    }
}

/// Whether `id` is one of `ids`.
fn contains_id(ids: &Vec<MonsterID>, id: MonsterID) -> (b: bool)
    ensures
        b == ids@.contains(id),
{
    let mut i: usize = 0;
    while i < ids.len()
        invariant
            i <= ids@.len(),
            forall|k: int| 0 <= k < i ==> ids@[k] != id,
        decreases ids@.len() - i,
    {
        if ids[i] == id {
            return true;
        }
        i += 1;
    }
    false
}

/// The moves of `moves` that have power points left, in order.
pub open spec fn usable_moves(moves: Seq<Move>) -> Seq<Move>
    decreases moves.len(),
{
    if moves.len() == 0 {
        Seq::empty()
    } else if moves.last().current_power_points > 0 {
        usable_moves(moves.drop_last()).push(moves.last())
    } else {
        usable_moves(moves.drop_last())
    }
}

/// The activation order of a switch out by a monster of speed `speed`: priority 8.
pub open spec fn switch_activation_order(speed: u16) -> ActivationOrder {
    ActivationOrder { priority: 8, speed, order: 0 }
}

impl BattleState {
    /// `choice` is the choice of the move `move_` by a monster of speed `speed`.
    pub open spec fn is_move_choice(self, choice: PartiallySpecifiedActionChoice, move_: Move, speed: u16) -> bool {
        &&& choice matches PartiallySpecifiedActionChoice::Move { move_id, possible_target_positions, activation_order }
        &&& choice->Move_move_id == move_.id
        &&& choice->possible_target_positions@ == self.spec_possible_targets(move_)
        &&& choice->Move_activation_order == (ActivationOrder { priority: move_.species.priority, speed, order: 0 })
    }

    /// The choices of the active monster `monster`: a move choice for each of its moves with power
    /// points left, in order, at the move's priority and the monster's speed; then, if some
    /// monster of its team can be switched in (see `switchable_benched_monster_ids`), a switch out
    /// choice at priority 8.
    pub fn available_choices_for_monster(&self, monster: &Monster, monsters_already_selected_for_switch: &Vec<MonsterID>) -> (choices: AvailableChoices)
        requires
            self.wf(),
            self.has_monster(monster.id),
            *monster == self.spec_monster(monster.id),
            monster.spec_is_active(),
        ensures
            choices.switch_index == usable_moves(monster.moveset@).len(),
            forall|i: int|
                0 <= i < choices.switch_index ==> self.is_move_choice(
                    #[trigger] choices.choices@[i],
                    usable_moves(monster.moveset@)[i],
                    monster.spec_stat(Stat::Speed) as u16,
                ),
            switchable_monsters(self.team_monsters(monster.id.team_id), monsters_already_selected_for_switch@).len() == 0
                ==> choices.choices@.len() == choices.switch_index,
            switchable_monsters(self.team_monsters(monster.id.team_id), monsters_already_selected_for_switch@).len() > 0
                ==> {
                &&& choices.choices@.len() == choices.switch_index + 1
                &&& choices.choices@[choices.switch_index as int] matches PartiallySpecifiedActionChoice::SwitchOut {
                    active_monster_id,
                    switchable_benched_monster_ids,
                    activation_order,
                }
                &&& choices.choices@[choices.switch_index as int]->active_monster_id == monster.id
                &&& choices.choices@[choices.switch_index as int]->switchable_benched_monster_ids@ == switchable_monsters(
                    self.team_monsters(monster.id.team_id),
                    monsters_already_selected_for_switch@,
                )
                &&& choices.choices@[choices.switch_index as int]->SwitchOut_activation_order == switch_activation_order(
                    monster.spec_stat(Stat::Speed) as u16,
                )
            },
    {
        proof {
            let team = self.teams.spec_get(monster.id.team_id);
            assert(team.monsters@[crate::monster::monster_number_index(monster.id.monster_number)] == *monster);
        }
        let speed = monster.stat(Stat::Speed);
        let ghost usable = usable_moves(monster.moveset@);
        let mut move_actions: Vec<PartiallySpecifiedActionChoice> = Vec::new();
        let mut i: usize = 0;
        while i < monster.moveset.len()
            invariant
                i <= monster.moveset@.len(),
                self.has_monster(monster.id),
                monster.wf(),
                *monster == self.spec_monster(monster.id),
                monster.spec_is_active(),
                speed == monster.spec_stat(Stat::Speed),
                move_actions@.len() == usable_moves(monster.moveset@.take(i as int)).len(),
                forall|k: int|
                    0 <= k < move_actions@.len() ==> self.is_move_choice(
                        #[trigger] move_actions@[k],
                        usable_moves(monster.moveset@.take(i as int))[k],
                        speed,
                    ),
            decreases monster.moveset@.len() - i,
        {
            let move_ = &monster.moveset[i];
            assert(monster.moveset@.take(i + 1).drop_last() == monster.moveset@.take(i as int));
            if move_.current_power_points > 0 {
                assert(move_.id.owner_id == monster.id);
                let choice = PartiallySpecifiedActionChoice::Move {
                    move_id: move_.id,
                    possible_target_positions: self.possible_targets_for_move(move_),
                    activation_order: ActivationOrder { priority: move_.species.priority, speed, order: 0 },
                };
                move_actions.push(choice);
            }
            i += 1;
        }
        assert(monster.moveset@.take(monster.moveset@.len() as int) == monster.moveset@);
        let switchable = self.switchable_benched_monster_ids(monster.id.team_id, monsters_already_selected_for_switch);
        let switch_action = if switchable.len() > 0 {
            Some(
                PartiallySpecifiedActionChoice::SwitchOut {
                    active_monster_id: monster.id,
                    switchable_benched_monster_ids: switchable,
                    activation_order: ActivationOrder { priority: 8, speed, order: 0 },
                },
            )
        } else {
            None
        };
        AvailableChoices::new(move_actions, switch_action)
    }
}

} // verus!
