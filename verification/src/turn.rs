use vstd::prelude::*;

use crate::battle::{Battle, BattleState};
use crate::builder::{spec_ally_board_positions, spec_opponent_board_positions, BattleFormat};
use crate::choice::FullySpecifiedActionChoice;
use crate::contexts::EventContext;
use crate::effects::{
    is_move_use_event, monsters_switched, move_used, perform_action, switch_in_monster, switched_in, targets_on, with_seed,
};
use crate::event_dispatcher::{same_roster, EventResponder};
use crate::monster::{Monster, MonsterID};
use crate::ordering::{activation_sorted, sort_by_activation_order};
use crate::targetting::BoardPosition;
use crate::team::{MonsterTeam, TeamID};

verus! {

/// Whether `monster` can be switched in: it has health left and stands on the Bench.
pub open spec fn can_switch_in(monster: Monster) -> bool {
    monster.current_health != 0 && !monster.spec_is_active()
}

/// Whether the `i`-th of `monsters` is the first that can be switched in.
pub open spec fn is_first_switchable(monsters: Seq<Monster>, i: int) -> bool {
    &&& 0 <= i < monsters.len()
    &&& can_switch_in(monsters[i])
    &&& forall|j: int| 0 <= j < i ==> !can_switch_in(#[trigger] monsters[j])
}

/// Whether one of `monsters` stands on the Field.
pub open spec fn has_active_monster(monsters: Seq<Monster>) -> bool {
    exists|i: int| 0 <= i < monsters.len() && (#[trigger] monsters[i]).spec_is_active()
}

/// The board positions of the team `team_id` in the format `format`.
pub open spec fn team_board_positions(format: BattleFormat, team_id: TeamID) -> Seq<BoardPosition> {
    match team_id {
        TeamID::Allies => spec_ally_board_positions(format),
        TeamID::Opponents => spec_opponent_board_positions(format),
    }
}

/// Replaces a fainted active monster of the team `team_id`: when none of its monsters stands on
/// the Field, the first one that can be switched in (see `can_switch_in`) is switched in (see
/// `switch_in_monster`) onto the team's first board position. Nothing changes when the team
/// still has a monster on the Field, when none can be switched in, or when the format's first
/// position for the team is not on the Field.
pub fn replace_fainted_monster(battle: &mut Battle, team_id: TeamID)
    requires
        old(battle).wf(),
    ensures
        final(battle).wf(),
        ({
            let monsters = old(battle).state.team_monsters(team_id);
            let position = team_board_positions(old(battle).format, team_id)[0];
            &&& has_active_monster(monsters) || !(exists|i: int| #[trigger] is_first_switchable(monsters, i))
                || position is Bench ==> *final(battle) == *old(battle)
            &&& forall|i: int|
                #[trigger] is_first_switchable(monsters, i) && !has_active_monster(monsters) && position is Field
                    ==> switched_in(*final(battle), *old(battle), monsters[i].id, position->Field_0)
        }),
{
    let ghost monsters = battle.state.team_monsters(team_id);
    let team = battle.state.teams.get(team_id);
    let mut i: usize = 0;
    while i < team.monsters.len()
        invariant
            i <= team.monsters@.len(),
            team.monsters@ == monsters,
            *battle == *old(battle),
            battle.wf(),
            monsters == old(battle).state.team_monsters(team_id),
            forall|j: int| 0 <= j < i ==> !(#[trigger] monsters[j]).spec_is_active(),
        decreases team.monsters@.len() - i,
    {
        if team.monsters[i].is_active() {
            assert(monsters[i as int].spec_is_active());
            return;
        }
        i = i + 1;
    }
    assert(!has_active_monster(monsters));
    let mut k: usize = 0;
    while k < team.monsters.len()
        invariant
            k <= team.monsters@.len(),
            team.monsters@ == monsters,
            forall|j: int| 0 <= j < k ==> !can_switch_in(#[trigger] monsters[j]),
        ensures
            k <= team.monsters@.len(),
            forall|j: int| 0 <= j < k ==> !can_switch_in(#[trigger] monsters[j]),
            k < team.monsters@.len() ==> can_switch_in(monsters[k as int]),
        decreases team.monsters@.len() - k,
    {
        let monster = &team.monsters[k];
        if monster.current_health != 0 && !monster.is_active() {
            break;
        }
        k = k + 1;
    }
    if k == team.monsters.len() {
        assert forall|i: int| !#[trigger] is_first_switchable(monsters, i) by {
            if 0 <= i < monsters.len() {
                assert(!can_switch_in(monsters[i]));
            }
        }
        return;
    }
    let id = team.monsters[k].id;
    assert(is_first_switchable(monsters, k as int));
    assert forall|i: int| #[trigger] is_first_switchable(monsters, i) implies i == k by {
        if i < k {
            assert(!can_switch_in(monsters[i]));
        }
        if k < i {
            assert(!can_switch_in(monsters[k as int]));
        }
    }
    let positions = match team_id {
        TeamID::Allies => battle.format.ally_board_positions(),
        TeamID::Opponents => battle.format.opponent_board_positions(),
    };
    match positions[0] {
        BoardPosition::Field(position) => {
            assert(monsters[k as int].id == MonsterTeam::slot_id(team_id, k as int));
            switch_in_monster(battle, id, position);
        },
        BoardPosition::Bench => {},
    }
}

/// Whether `state` has the monsters and the move that `action` names.
pub open spec fn action_is_valid(state: BattleState, action: FullySpecifiedActionChoice) -> bool {
    match action {
        FullySpecifiedActionChoice::Move { move_id, .. } => state.has_move(move_id),
        FullySpecifiedActionChoice::SwitchOut { active_monster_id, benched_monster_id, .. } => state.has_monster(
            active_monster_id,
        ) && state.has_monster(benched_monster_id),
    }
}

/// Whether `state` has the monster `id`.
fn has_monster(battle: &Battle, id: MonsterID) -> (b: bool)
    ensures
        b == battle.state.has_monster(id),
{
    id.monster_number.index() < battle.state.teams.get(id.team_id).monsters.len()
}

/// Whether the battle has the monsters and the move that `action` names.
fn is_action_valid(battle: &Battle, action: FullySpecifiedActionChoice) -> (b: bool)
    ensures
        b == action_is_valid(battle.state, action),
{
    match action {
        FullySpecifiedActionChoice::Move { move_id, .. } => has_monster(battle, move_id.owner_id)
            && move_id.move_number.index() < battle.monster(move_id.owner_id).moveset.len(),
        FullySpecifiedActionChoice::SwitchOut { active_monster_id, benched_monster_id, .. } => has_monster(
            battle,
            active_monster_id,
        ) && has_monster(battle, benched_monster_id),
    }
}

/// What performing `action` (see `perform_action`) makes of `old`, with the handlers answering
/// as `responder` says: the battle stays well formed with the same monsters; a move of a monster
/// that cannot act, or without power points, changes nothing, and otherwise is used as
/// `move_used` says; a switch of a monster that has left the Field changes nothing, and
/// otherwise switches the two monsters.
pub open spec fn action_performed<R: EventResponder>(
    responder: &R,
    old: Battle,
    action: FullySpecifiedActionChoice,
    new: Battle,
) -> bool {
    &&& new.wf()
    &&& same_roster(new.state, old.state)
    &&& action matches FullySpecifiedActionChoice::Move { move_id, target_positions, .. } ==> {
        let user = old.state.spec_monster(move_id.owner_id);
        let targets = targets_on(old.state, target_positions@);
        &&& user.current_health == 0 || !user.spec_is_active() || old.state.spec_move(move_id).current_power_points == 0
            ==> new == old
        &&& user.current_health > 0 && user.spec_is_active() && old.state.spec_move(move_id).current_power_points > 0
            ==> exists|event_context: EventContext|
            #[trigger] is_move_use_event(event_context, move_id.owner_id, move_id, targets) && move_used(
                responder,
                old,
                move_id.owner_id,
                move_id,
                targets,
                event_context,
                new,
            )
    }
    &&& action matches FullySpecifiedActionChoice::SwitchOut { active_monster_id, benched_monster_id, .. } ==> {
        &&& !old.state.spec_monster(active_monster_id).spec_is_active() ==> new == old
        &&& old.state.spec_monster(active_monster_id).spec_is_active() ==> monsters_switched(
            new,
            old,
            active_monster_id,
            benched_monster_id,
        )
    }
}

/// Whether performing the actions `actions` from the `index`-th on, in order, takes `battle` to
/// `end` (see `action_performed`); an action whose monsters or move the battle does not have is
/// passed over.
pub open spec fn actions_performed<R: EventResponder>(
    responder: &R,
    battle: Battle,
    actions: Seq<FullySpecifiedActionChoice>,
    index: int,
    end: Battle,
) -> bool
    decreases actions.len() - index,
{
    if index < 0 || index >= actions.len() {
        end == battle
    } else if !action_is_valid(battle.state, actions[index]) {
        actions_performed(responder, battle, actions, index + 1, end)
    } else {
        exists|next: Battle|
            #[trigger] action_performed(responder, battle, actions[index], next) && actions_performed(
                responder,
                next,
                actions,
                index + 1,
                end,
            )
    }
}

/// The turn number after `turn_number`: one more, staying at the largest number once there.
pub open spec fn next_turn_number(turn_number: u16) -> u16 {
    if turn_number < u16::MAX {
        (turn_number + 1) as u16
    } else {
        turn_number
    }
}

/// Plays a turn with the chosen `actions`: they are put in activation order, with ties resolved
/// by the battle's generator (see `sort_by_activation_order`), and performed in that order (see
/// `perform_action`), passing over an action whose monsters or move the battle does not have.
/// Then the turn number goes up by one.
pub fn play_turn<R: EventResponder>(battle: &mut Battle, responder: &R, actions: Vec<FullySpecifiedActionChoice>)
    requires
        old(battle).wf(),
        actions@.len() <= u16::MAX,
    ensures
        final(battle).wf(),
        same_roster(final(battle).state, old(battle).state),
        ({
            let sorted = activation_sorted(actions@, old(battle).prng.current_seed);
            exists|performed: Battle|
                #[trigger] actions_performed(responder, with_seed(*old(battle), sorted.1), sorted.0, 0, performed)
                    && *final(battle) == (Battle { turn_number: next_turn_number(performed.turn_number), ..performed })
        }),
{
    let mut actions = actions;
    let ghost sorted = activation_sorted(actions@, battle.prng.current_seed);
    sort_by_activation_order(&mut battle.prng, &mut actions);
    let ghost start = *battle;
    assert(start == with_seed(*old(battle), sorted.1));
    let mut i: usize = 0;
    while i < actions.len()
        invariant
            i <= actions@.len(),
            actions@ == sorted.0,
            battle.wf(),
            same_roster(battle.state, old(battle).state),
            forall|end: Battle|
                #[trigger] actions_performed(responder, *battle, sorted.0, i as int, end) ==> actions_performed(
                    responder,
                    start,
                    sorted.0,
                    0,
                    end,
                ),
        decreases actions@.len() - i,
    {
        let action = actions[i];
        let ghost before = *battle;
        if is_action_valid(battle, action) {
            perform_action(battle, responder, action);
            assert(action_performed(responder, before, action, *battle));
        }
        proof {
            assert forall|end: Battle|
                #[trigger] actions_performed(responder, *battle, sorted.0, i + 1, end) implies actions_performed(
                responder,
                start,
                sorted.0,
                0,
                end,
            ) by {
                assert(actions_performed(responder, before, sorted.0, i as int, end));
            }
        }
        i = i + 1;
    }
    let ghost performed = *battle;
    assert(actions_performed(responder, performed, sorted.0, actions@.len() as int, performed));
    if battle.turn_number < u16::MAX {
        battle.turn_number = battle.turn_number + 1;
    }
    assert(actions_performed(responder, start, sorted.0, 0, performed));
}

} // verus!
