use vstd::prelude::*;

use crate::ability::Ability;
use crate::ability::AbilityID;
use crate::builder::BattleFormat;
use crate::environment::Environment;
use crate::item::{Item, ItemID};
use crate::message_log::MessageLog;
use crate::monster::{monster_number_index, Monster, MonsterID};
use crate::move_::{move_number_index, Move, MoveID};
use crate::prng::{chance_outcome, is_valid_range, number_in_range, state_after_number_in_range, Prng};
use crate::team::{active_monsters_of, MonsterTeam, PerTeam, TeamID};

verus! {

/// The teams and the environment of a battle.
#[derive(Debug, Clone)]
pub struct BattleState {
    pub teams: PerTeam<MonsterTeam>,
    pub environment: Environment,
}

/// `new` is `old` with the monster `id` replaced by `monster`, and nothing else changed.
pub open spec fn monster_replaced(new: BattleState, old: BattleState, id: MonsterID, monster: Monster) -> bool {
    &&& new.environment == old.environment
    &&& new.teams.ally_team_item.id == old.teams.ally_team_item.id
    &&& new.teams.opponent_team_item.id == old.teams.opponent_team_item.id
    &&& new.team_monsters(id.team_id) == old.team_monsters(id.team_id).update(
        monster_number_index(id.monster_number),
        monster,
    )
    &&& new.team_monsters(id.team_id.spec_other()) == old.team_monsters(id.team_id.spec_other())
}

impl BattleState {
    pub open spec fn team_monsters(self, team: TeamID) -> Seq<Monster> {
        self.teams.spec_get(team).monsters@
    }

    /// Whether `id` names a monster of this battle.
    pub open spec fn has_monster(self, id: MonsterID) -> bool {
        monster_number_index(id.monster_number) < self.team_monsters(id.team_id).len()
    }

    pub open spec fn spec_monster(self, id: MonsterID) -> Monster {
        self.team_monsters(id.team_id)[monster_number_index(id.monster_number)]
    }

    /// All the monsters, the allies first, each team in slot order.
    pub open spec fn all_monsters(self) -> Seq<Monster> {
        self.team_monsters(TeamID::Allies) + self.team_monsters(TeamID::Opponents)
    }

    /// The ally team is on the allies' side, the opponent team on the opponents', and each is
    /// well formed.
    pub open spec fn wf(self) -> bool {
        &&& self.teams.ally_team_item.id == TeamID::Allies
        &&& self.teams.opponent_team_item.id == TeamID::Opponents
        &&& self.teams.ally_team_item.wf()
        &&& self.teams.opponent_team_item.wf()
    }

    pub fn teams(&self) -> (teams: &PerTeam<MonsterTeam>)
        ensures
            *teams == self.teams,
    {
        &self.teams
    }

    pub fn team(&self, team_id: TeamID) -> (team: &MonsterTeam)
        ensures
            *team == self.teams.spec_get(team_id),
    {
        self.teams.get(team_id)
    }

    pub fn ally_team(&self) -> (team: &MonsterTeam)
        ensures
            *team == self.teams.ally_team_item,
    {
        &self.teams.ally_team_item
    }

    pub fn opponent_team(&self) -> (team: &MonsterTeam)
        ensures
            *team == self.teams.opponent_team_item,
    {
        &self.teams.opponent_team_item
    }

    pub fn is_on_ally_team(&self, monster_id: MonsterID) -> (b: bool)
        ensures
            b == (monster_id.team_id == TeamID::Allies),
    {
        monster_id.team_id == TeamID::Allies
    }

    pub fn is_on_opponent_team(&self, monster_id: MonsterID) -> (b: bool)
        ensures
            b == (monster_id.team_id == TeamID::Opponents),
    {
        monster_id.team_id == TeamID::Opponents
    }

    pub fn are_opponents(&self, monster_1_id: MonsterID, monster_2_id: MonsterID) -> (b: bool)
        ensures
            b == (monster_1_id.team_id != monster_2_id.team_id),
    {
        monster_1_id.team_id != monster_2_id.team_id
    }

    /// Two monsters of the same team are allies; a monster is not its own ally.
    pub fn are_allies(&self, monster_1_id: MonsterID, monster_2_id: MonsterID) -> (b: bool)
        ensures
            b == (monster_1_id != monster_2_id && monster_1_id.team_id == monster_2_id.team_id),
    {
        if monster_1_id == monster_2_id {
            false
        } else {
            monster_1_id.team_id == monster_2_id.team_id
        }
    }

    pub fn environment(&self) -> (environment: &Environment)
        ensures
            *environment == self.environment,
    {
        &self.environment
    }

    /// All the monsters, the allies first, each team in slot order.
    pub fn monsters(&self) -> (monsters: Vec<&Monster>)
        ensures
            monsters@.map_values(|m: &Monster| *m) == self.all_monsters(),
    {
        let mut monsters: Vec<&Monster> = Vec::new();
        let allies = &self.teams.ally_team_item.monsters;
        let opponents = &self.teams.opponent_team_item.monsters;
        let mut i: usize = 0;
        while i < allies.len()
            invariant
                i <= allies@.len(),
                allies@ == self.team_monsters(TeamID::Allies),
                monsters@.map_values(|m: &Monster| *m) == allies@.take(i as int),
            decreases allies@.len() - i,
        {
            monsters.push(&allies[i]);
            assert(allies@.take(i + 1) == allies@.take(i as int).push(allies@[i as int]));
            i += 1;
        }
        assert(allies@.take(allies@.len() as int) == allies@);
        let mut j: usize = 0;
        while j < opponents.len()
            invariant
                j <= opponents@.len(),
                allies@ == self.team_monsters(TeamID::Allies),
                opponents@ == self.team_monsters(TeamID::Opponents),
                monsters@.map_values(|m: &Monster| *m) == allies@ + opponents@.take(j as int),
            decreases opponents@.len() - j,
        {
            monsters.push(&opponents[j]);
            assert(opponents@.take(j + 1) == opponents@.take(j as int).push(opponents@[j as int]));
            assert(allies@ + opponents@.take(j + 1) == (allies@ + opponents@.take(j as int)).push(
                opponents@[j as int],
            ));
            j += 1;
        }
        assert(opponents@.take(opponents@.len() as int) == opponents@);
        monsters
    }

    pub fn monster(&self, monster_id: MonsterID) -> (monster: &Monster)
        requires
            self.has_monster(monster_id),
        ensures
            *monster == self.spec_monster(monster_id),
    {
        &self.teams.get(monster_id.team_id).monsters[monster_id.monster_number.index()]
    }

    /// The monster `monster_id`, to change in place.
    pub fn monster_mut(&mut self, monster_id: MonsterID) -> (monster: &mut Monster)
        requires
            old(self).has_monster(monster_id),
        ensures
            *monster == old(self).spec_monster(monster_id),
            monster_replaced(*final(self), *old(self), monster_id, *final(monster)),
    {
        let index = monster_id.monster_number.index();
        let team = self.teams.get_mut(monster_id.team_id);
        &mut team.monsters[index]
    }

    /// The environment, to change in place.
    pub fn environment_mut(&mut self) -> (environment: &mut Environment)
        ensures
            *environment == old(self).environment,
            final(self).environment == *final(environment),
            final(self).teams == old(self).teams,
    {
        &mut self.environment
    }

    /// The team `team_id`, to change in place.
    pub fn team_mut(&mut self, team_id: TeamID) -> (team: &mut MonsterTeam)
        ensures
            *team == old(self).teams.spec_get(team_id),
            final(self).teams.spec_get(team_id) == *final(team),
            final(self).teams.spec_get(team_id.spec_other()) == old(self).teams.spec_get(team_id.spec_other()),
            final(self).environment == old(self).environment,
    {
        self.teams.get_mut(team_id)
    }

    /// The ability of `owner_id`, to change in place.
    pub fn ability_mut(&mut self, owner_id: MonsterID) -> (ability: &mut Ability)
        requires
            old(self).has_monster(owner_id),
        ensures
            *ability == old(self).spec_monster(owner_id).ability,
            monster_replaced(*final(self), *old(self), owner_id, (Monster { ability: *final(ability), ..old(self).spec_monster(owner_id) })),
    {
        &mut self.monster_mut(owner_id).ability
    }

    /// The move `move_id`, to change in place.
    pub fn move_mut(&mut self, move_id: MoveID) -> (move_: &mut Move)
        requires
            old(self).has_move(move_id),
        ensures
            *move_ == old(self).spec_move(move_id),
            monster_replaced(*final(self), *old(self), move_id.owner_id, final(self).spec_monster(move_id.owner_id)),
            final(self).spec_monster(move_id.owner_id) == (Monster {
                moveset: final(self).spec_monster(move_id.owner_id).moveset,
                ..old(self).spec_monster(move_id.owner_id)
            }),
            final(self).spec_monster(move_id.owner_id).moveset@ == old(self).spec_monster(move_id.owner_id).moveset@.update(
                move_number_index(move_id.move_number),
                *final(move_),
            ),
    {
        let index = move_id.move_number.index();
        let monster = self.monster_mut(move_id.owner_id);
        &mut monster.moveset[index]
    }

    /// The active monsters of each team, in slot order.
    pub fn active_monsters_by_team(&self) -> (active: PerTeam<Vec<&Monster>>)
        ensures
            active.ally_team_item@.map_values(|m: &Monster| *m) == active_monsters_of(
                self.team_monsters(TeamID::Allies),
            ),
            active.opponent_team_item@.map_values(|m: &Monster| *m) == active_monsters_of(
                self.team_monsters(TeamID::Opponents),
            ),
    {
        PerTeam::new(self.teams.ally_team_item.active_monsters(), self.teams.opponent_team_item.active_monsters())
    }

    /// The ids of the active monsters, the allies first, each team in slot order.
    pub fn active_monster_ids(&self) -> (ids: Vec<MonsterID>)
        ensures
            ids@ == active_monsters_of(self.all_monsters()).map_values(|m: Monster| m.id),
    {
        let monsters = self.monsters();
        let ghost all = self.all_monsters();
        let mut ids: Vec<MonsterID> = Vec::new();
        let mut i: usize = 0;
        while i < monsters.len()
            invariant
                i <= monsters@.len(),
                monsters@.map_values(|m: &Monster| *m) == all,
                ids@ == active_monsters_of(all.take(i as int)).map_values(|m: Monster| m.id),
            decreases monsters@.len() - i,
        {
            let monster = monsters[i];
            assert(all[i as int] == *monster);
            assert(all.take(i + 1).drop_last() == all.take(i as int));
            if monster.is_active() {
                ids.push(monster.id);
            }
            i += 1;
        }
        assert(all.take(all.len() as int) == all);
        ids
    }

    pub fn ability(&self, ability_id: AbilityID) -> (ability: &Ability)
        requires
            self.has_monster(ability_id.owner_id),
        ensures
            *ability == self.spec_monster(ability_id.owner_id).ability,
    {
        &self.monster(ability_id.owner_id).ability
    }

    /// Whether `move_id` names a move of a monster of this battle.
    pub open spec fn has_move(self, move_id: MoveID) -> bool {
        &&& self.has_monster(move_id.owner_id)
        &&& move_number_index(move_id.move_number) < self.spec_monster(move_id.owner_id).moveset@.len()
    }

    pub open spec fn spec_move(self, move_id: MoveID) -> Move {
        self.spec_monster(move_id.owner_id).moveset@[move_number_index(move_id.move_number)]
    }

    pub fn move_(&self, move_id: MoveID) -> (move_: &Move)
        requires
            self.has_move(move_id),
        ensures
            *move_ == self.spec_move(move_id),
    {
        &self.monster(move_id.owner_id).moveset[move_id.move_number.index()]
    }

    pub fn item(&self, item_id: ItemID) -> (item: Option<Item>)
        requires
            self.has_monster(item_id.item_holder_id),
        ensures
            item == self.spec_monster(item_id.item_holder_id).held_item,
    {
        self.monster(item_id.item_holder_id).held_item
    }
}

/// `new` has the same monsters as `old` but for `id`, and the same environment.
pub proof fn lemma_monster_replaced_keeps_wf(new: BattleState, old: BattleState, id: MonsterID, monster: Monster)
    requires
        old.wf(),
        old.has_monster(id),
        monster_replaced(new, old, id, monster),
        monster.wf(),
        monster.id == old.spec_monster(id).id,
    ensures
        new.wf(),
        new.has_monster(id),
        new.spec_monster(id) == monster,
        forall|other: MonsterID| #[trigger] new.has_monster(other) == old.has_monster(other),
        forall|other: MonsterID|
            old.has_monster(other) && other != id ==> #[trigger] new.spec_monster(other) == old.spec_monster(other),
{
    let i = monster_number_index(id.monster_number);
    assert forall|other: MonsterID| old.has_monster(other) && other != id implies #[trigger] new.spec_monster(other)
        == old.spec_monster(other) by {
        if other.team_id == id.team_id {
            assert(monster_number_index(other.monster_number) != i);
        } else {
            assert(other.team_id == id.team_id.spec_other());
        }
    }
    assert forall|other: MonsterID| #[trigger] new.has_monster(other) == old.has_monster(other) by {
        if other.team_id != id.team_id {
            assert(other.team_id == id.team_id.spec_other());
        }
    }
}

/// Replacing a monster twice is replacing it once, by the second monster.
pub proof fn lemma_monster_replaced_twice(
    last: BattleState,
    middle: BattleState,
    first: BattleState,
    id: MonsterID,
    m1: Monster,
    m2: Monster,
)
    requires
        first.has_monster(id),
        monster_replaced(middle, first, id, m1),
        monster_replaced(last, middle, id, m2),
    ensures
        monster_replaced(last, first, id, m2),
{
    assert(last.team_monsters(id.team_id) =~= first.team_monsters(id.team_id).update(
        monster_number_index(id.monster_number),
        m2,
    ));
}

/// A battle: the teams and the environment, with the generator, the turn, the format and the
/// messages.
#[derive(Debug, Clone)]
pub struct Battle {
    pub prng: Prng,
    pub turn_number: u16,
    pub format: BattleFormat,
    pub message_log: MessageLog,
    pub state: BattleState,
}

impl Battle {
    pub open spec fn wf(self) -> bool {
        &&& self.state.wf()
        &&& self.message_log.wf()
    }

    pub open spec fn spec_is_finished(self) -> bool {
        ||| forall|i: int|
            0 <= i < self.state.team_monsters(TeamID::Allies).len() ==> #[trigger] self.state.team_monsters(
                TeamID::Allies,
            )[i].current_health == 0
        ||| forall|i: int|
            0 <= i < self.state.team_monsters(TeamID::Opponents).len()
                ==> #[trigger] self.state.team_monsters(TeamID::Opponents)[i].current_health == 0
    }

    /// A battle at turn 0 with no messages.
    pub fn new(
        ally_team: MonsterTeam,
        opponent_team: MonsterTeam,
        environment: Environment,
        format: BattleFormat,
        prng: Prng,
    ) -> (battle: Battle)
        ensures
            battle.prng == prng,
            battle.turn_number == 0,
            battle.format == format,
            battle.message_log.messages@.len() == 0,
            battle.message_log.shown_messages_cursor == 0,
            battle.state.teams.ally_team_item == ally_team,
            battle.state.teams.opponent_team_item == opponent_team,
            battle.state.environment == environment,
    {
        Battle {
            prng,
            turn_number: 0,
            format,
            message_log: MessageLog::new(),
            state: BattleState { teams: PerTeam::new(ally_team, opponent_team), environment },
        }
    }

    pub fn format(&self) -> (format: BattleFormat)
        ensures
            format == self.format,
    {
        self.format
    }

    /// The battle is over when every monster of one of the teams has fainted.
    pub fn is_finished(&self) -> (b: bool)
        ensures
            b == self.spec_is_finished(),
    {
        let allies = &self.state.teams.ally_team_item.monsters;
        let mut all_allies_fainted = true;
        let mut i: usize = 0;
        while i < allies.len()
            invariant
                i <= allies@.len(),
                allies@ == self.state.team_monsters(TeamID::Allies),
                all_allies_fainted == forall|k: int| 0 <= k < i ==> #[trigger] allies@[k].current_health == 0,
            decreases allies@.len() - i,
        {
            if allies[i].current_health != 0 {
                all_allies_fainted = false;
            }
            i += 1;
        }
        let opponents = &self.state.teams.opponent_team_item.monsters;
        let mut all_opponents_fainted = true;
        let mut j: usize = 0;
        while j < opponents.len()
            invariant
                j <= opponents@.len(),
                opponents@ == self.state.team_monsters(TeamID::Opponents),
                all_opponents_fainted == forall|k: int| 0 <= k < j ==> #[trigger] opponents@[k].current_health == 0,
            decreases opponents@.len() - j,
        {
            if opponents[j].current_health != 0 {
                all_opponents_fainted = false;
            }
            j += 1;
        }
        all_allies_fainted || all_opponents_fainted
    }

    /// Queues `message`, to be shown with the next new messages.
    pub fn queue_message(&mut self, message: String)
        ensures
            final(self).message_log.messages@ == old(self).message_log.messages@.push(message),
            final(self).message_log.spec_messages() == old(self).message_log.spec_messages().push(message@),
            final(self).message_log.shown_messages_cursor == old(self).message_log.shown_messages_cursor,
            final(self).state == old(self).state,
            final(self).prng == old(self).prng,
            final(self).turn_number == old(self).turn_number,
            final(self).format == old(self).format,
    {
        let ghost m = message@;
        self.message_log.push(message);
        assert(self.message_log.spec_messages() =~= old(self).message_log.spec_messages().push(m));
    }

    /// Queues each of `messages`, in order.
    pub fn queue_multiple_messages(&mut self, messages: &Vec<String>)
        ensures
            final(self).message_log.messages@ == old(self).message_log.messages@ + messages@,
            final(self).message_log.shown_messages_cursor == old(self).message_log.shown_messages_cursor,
            final(self).state == old(self).state,
            final(self).prng == old(self).prng,
            final(self).turn_number == old(self).turn_number,
            final(self).format == old(self).format,
    {
        self.message_log.extend(messages);
    }

    /// The messages queued since the last call, which from now on count as shown.
    pub fn take_new_messages(&mut self) -> (messages: Vec<String>)
        requires
            old(self).message_log.wf(),
        ensures
            messages@ == old(self).message_log.messages@.skip(old(self).message_log.shown_messages_cursor as int),
            final(self).message_log.messages@ == old(self).message_log.messages@,
            final(self).message_log.wf(),
            final(self).state == old(self).state,
            final(self).prng == old(self).prng,
    {
        self.message_log.take_new_messages()
    }

    /// Returns `true` `num` out of `denom` times, pseudorandomly, with the battle's generator.
    pub fn roll_chance(&mut self, num: u16, denom: u16) -> (b: bool)
        requires
            denom != 0,
        ensures
            b == chance_outcome(old(self).prng.current_seed, num, denom),
            final(self).prng.current_seed == state_after_number_in_range(old(self).prng.current_seed, 1, denom),
            final(self).prng.start_seed == old(self).prng.start_seed,
            final(self).state == old(self).state,
            final(self).message_log == old(self).message_log,
            final(self).turn_number == old(self).turn_number,
            final(self).format == old(self).format,
    {
        self.prng.roll_chance(num, denom)
    }

    /// A number of `start..=end`, each with equal probability, from the battle's generator.
    pub fn roll_random_number_in_range(&mut self, start: u16, end: u16) -> (n: u16)
        requires
            is_valid_range(start, end),
        ensures
            n == number_in_range(old(self).prng.current_seed, start, end),
            start <= n <= end,
            final(self).prng.current_seed == state_after_number_in_range(old(self).prng.current_seed, start, end),
            final(self).prng.start_seed == old(self).prng.start_seed,
            final(self).state == old(self).state,
            final(self).message_log == old(self).message_log,
            final(self).turn_number == old(self).turn_number,
            final(self).format == old(self).format,
    {
        self.prng.generate_random_number_in_range(start, end)
    }

    pub fn monster(&self, monster_id: MonsterID) -> (monster: &Monster)
        requires
            self.state.has_monster(monster_id),
        ensures
            *monster == self.state.spec_monster(monster_id),
    {
        self.state.monster(monster_id)
    }

    /// The monster `monster_id`, to change in place.
    pub fn monster_mut(&mut self, monster_id: MonsterID) -> (monster: &mut Monster)
        requires
            old(self).state.has_monster(monster_id),
        ensures
            *monster == old(self).state.spec_monster(monster_id),
            monster_replaced(final(self).state, old(self).state, monster_id, *final(monster)),
            final(self).prng == old(self).prng,
            final(self).message_log == old(self).message_log,
            final(self).turn_number == old(self).turn_number,
            final(self).format == old(self).format,
    {
        self.state.monster_mut(monster_id)
    }
}

// The battle as a tree ------------------------------------------------------------------------ //

/// The indentation of the lines under a monster of the tree: the last monster has no line below.
pub open spec fn tree_prefix(is_last: bool) -> Seq<char> {
    if is_last {
        "\t \t"@
    } else {
        "\t\u{2502}\t"@
    }
}

/// The branch to an entry of the tree: the last entry gets a corner.
pub open spec fn tree_branch(is_last: bool) -> Seq<char> {
    if is_last {
        "\u{2514}\u{2500}\u{2500} "@
    } else {
        "\u{251c}\u{2500}\u{2500} "@
    }
}

/// The lines of the moves `moves`, of which the one at index `count - 1` is the last.
pub open spec fn tree_moves(moves: Seq<Move>, count: int, prefix: Seq<char>) -> Seq<char>
    decreases moves.len(),
{
    if moves.len() == 0 {
        Seq::empty()
    } else {
        tree_moves(moves.drop_last(), count, prefix) + prefix + tree_branch(moves.len() - 1 >= count - 1) + "   move: "@
            + moves.last().species.name@ + "\n"@
    }
}

/// The line of the type of `monster`.
pub open spec fn tree_type_line(monster: Monster) -> Seq<char> {
    match monster.species.secondary_type {
        Some(secondary) => "   type: "@ + crate::types::spec_type_name(monster.species.primary_type) + "/"@
            + crate::types::spec_type_name(secondary) + "\n"@,
        None => "   type: "@ + crate::types::spec_type_name(monster.species.primary_type) + "\n"@,
    }
}

/// The entry of `monster` in the tree, headed by its status line `status`.
pub open spec fn tree_monster(monster: Monster, status: Seq<char>, is_last: bool) -> Seq<char> {
    let prefix = tree_prefix(is_last);
    "\t"@ + tree_branch(is_last) + status + prefix + "\u{2502}\n"@ + prefix + "\u{251c}\u{2500}\u{2500} "@ + tree_type_line(monster)
        + prefix + "\u{251c}\u{2500}\u{2500} "@ + "ability: "@ + monster.ability.species.name@ + "\n"@ + tree_moves(
        monster.moveset@,
        monster.moveset@.len() as int,
        prefix,
    ) + prefix + "\n"@
}

/// The entries of `monsters`, with their status lines `statuses`, of which the one at index
/// `count - 1` is the last.
pub open spec fn tree_monsters(monsters: Seq<Monster>, statuses: Seq<Seq<char>>, count: int) -> Seq<char>
    decreases monsters.len(),
{
    if monsters.len() == 0 {
        Seq::empty()
    } else {
        tree_monsters(monsters.drop_last(), statuses, count) + tree_monster(
            monsters.last(),
            statuses[monsters.len() - 1],
            monsters.len() - 1 >= count - 1,
        )
    }
}

/// The tree of `team`: its name, then an entry for each monster, headed by its status line.
pub open spec fn team_tree(team: MonsterTeam, statuses: Seq<Seq<char>>) -> Seq<char> {
    crate::team::team_name(team.id) + "\n"@ + tree_monsters(team.monsters@, statuses, team.monsters@.len() as int)
}

/// Appends the line of the type of `monster` (see `tree_type_line`).
fn attach_type_line(output: &mut String, monster: &Monster)
    ensures
        final(output)@ == old(output)@ + tree_type_line(*monster),
{
    output.append("   type: ");
    output.append(monster.species.primary_type.name());
    match monster.species.secondary_type {
        Some(secondary) => {
            output.append("/");
            output.append(secondary.name());
        },
        None => {},
    }
    output.append("\n");
}

/// Appends the lines of the moves of `monster` (see `tree_moves`).
fn attach_move_lines(output: &mut String, monster: &Monster, prefix: &str)
    ensures
        final(output)@ == old(output)@ + tree_moves(monster.moveset@, monster.moveset@.len() as int, prefix@),
{
    let ghost start = output@;
    let number_of_moves = monster.moveset.len();
    let mut j: usize = 0;
    while j < number_of_moves
        invariant
            j <= number_of_moves == monster.moveset@.len(),
            output@ == start + tree_moves(monster.moveset@.take(j as int), number_of_moves as int, prefix@),
        decreases number_of_moves - j,
    {
        assert(monster.moveset@.take(j + 1).drop_last() == monster.moveset@.take(j as int));
        output.append(prefix);
        if j + 1 < number_of_moves {
            output.append("\u{251c}\u{2500}\u{2500} ");
        } else {
            output.append("\u{2514}\u{2500}\u{2500} ");
        }
        output.append("   move: ");
        output.append(monster.moveset[j].species.name);
        output.append("\n");
        j += 1;
    }
    assert(monster.moveset@.take(number_of_moves as int) == monster.moveset@);
}

/// Appends the entry of `monster` (see `tree_monster`).
fn attach_monster_entry(output: &mut String, monster: &Monster, status: &str, is_last: bool)
    ensures
        final(output)@ == old(output)@ + tree_monster(*monster, status@, is_last),
{
    let (prefix, branch) = if !is_last {
        ("\t\u{2502}\t", "\u{251c}\u{2500}\u{2500} ")
    } else {
        ("\t \t", "\u{2514}\u{2500}\u{2500} ")
    };
    output.append("\t");
    output.append(branch);
    output.append(status);
    output.append(prefix);
    output.append("\u{2502}\n");
    output.append(prefix);
    output.append("\u{251c}\u{2500}\u{2500} ");
    attach_type_line(output, monster);
    output.append(prefix);
    output.append("\u{251c}\u{2500}\u{2500} ");
    output.append("ability: ");
    output.append(monster.ability.species.name);
    output.append("\n");
    attach_move_lines(output, monster, prefix);
    output.append(prefix);
    output.append("\n");
}

/// Appends the tree of `team` (see `team_tree`) to `output`; `status_lines` holds the status
/// line of each monster.
pub fn attach_tree_for_team(output: &mut String, team: &MonsterTeam, status_lines: &Vec<String>)
    requires
        status_lines@.len() == team.monsters@.len(),
    ensures
        final(output)@ == old(output)@ + team_tree(*team, status_lines@.map_values(|s: String| s@)),
{
    let ghost statuses = status_lines@.map_values(|s: String| s@);
    output.append(team.id.name());
    output.append("\n");
    let ghost after_name = output@;
    let count = team.monsters.len();
    let mut i: usize = 0;
    while i < count
        invariant
            i <= count == team.monsters@.len() == status_lines@.len(),
            statuses == status_lines@.map_values(|s: String| s@),
            output@ == after_name + tree_monsters(team.monsters@.take(i as int), statuses, count as int),
        decreases count - i,
    {
        attach_monster_entry(output, &team.monsters[i], status_lines[i].as_str(), i + 1 >= count);
        proof {
            assert(team.monsters@.take(i + 1).drop_last() == team.monsters@.take(i as int));
            assert(statuses[i as int] == status_lines@[i as int]@);
        }
        i += 1;
    }
    assert(team.monsters@.take(count as int) == team.monsters@);
}

impl Battle {
    /// The battle as a tree: the ally team's tree, then the opponent team's (see
    /// `attach_tree_for_team`), with the status lines of their monsters.
    pub fn tree(&self, ally_status_lines: &Vec<String>, opponent_status_lines: &Vec<String>) -> (text: String)
        requires
            ally_status_lines@.len() == self.state.team_monsters(TeamID::Allies).len(),
            opponent_status_lines@.len() == self.state.team_monsters(TeamID::Opponents).len(),
        ensures
            text@ == team_tree(self.state.teams.ally_team_item, ally_status_lines@.map_values(|s: String| s@)) + team_tree(
                self.state.teams.opponent_team_item,
                opponent_status_lines@.map_values(|s: String| s@),
            ),
    {
        let mut out = String::new();
        attach_tree_for_team(&mut out, &self.state.teams.ally_team_item, ally_status_lines);
        attach_tree_for_team(&mut out, &self.state.teams.opponent_team_item, opponent_status_lines);
        out
    }
}

} // verus!
