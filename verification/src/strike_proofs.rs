use vstd::prelude::*;

use crate::battle::Battle;
use crate::contexts::{EventContext, MoveHitContext};
use crate::effects::{
    damage_formula, hit_damage_modified, hit_effectiveness, hit_formula_damage, hit_rolled, hit_stats, immune_message, raw_damage_applied, said, stats_dispatched_and_rolled, struck,
    u16_value_or, HitAttempt,
};
use crate::event_dispatcher::{dispatched, EventResponder, EventValue};
use crate::events::EventID;
use crate::prng::number_in_range;
use crate::types::{effectiveness_percent, TypeEffectiveness};
use crate::move_::Move;

verus! {

/// A hit that meets an immune defender does what `struck` says.
pub(crate) proof fn lemma_struck_immune<R: EventResponder>(
    responder: &R,
    old: Battle,
    context: MoveHitContext,
    move_: Move,
    stats: (u16, u16),
    attacked: Battle,
    defended: Battle,
    rolled: Battle,
    new: Battle,
)
    requires
        stats == hit_stats(old, context, move_),
        stats_dispatched_and_rolled(responder, old, context, move_, attacked, defended, rolled),
        hit_effectiveness(move_, rolled.state.spec_monster(context.target_id)) == TypeEffectiveness::Ineffective,
        said(new, rolled, seq![immune_message()]),
    ensures
        struck(responder, old, context, move_, new, HitAttempt::Immune(TypeEffectiveness::Ineffective)),
{
    reveal(struck);
}

/// A hit that meets a defender that is not immune does what `struck` says.
#[verifier::rlimit(60)]
pub(crate) proof fn lemma_struck_landed<R: EventResponder>(
    responder: &R,
    old: Battle,
    context: MoveHitContext,
    move_: Move,
    stats: (u16, u16),
    attacked: Battle,
    attack: u16,
    defended: Battle,
    defense: u16,
    rolled: Battle,
    damage: u16,
    modified: Battle,
    dealt: u16,
    raw: Battle,
    new: Battle,
)
    requires
        stats == hit_stats(old, context, move_),
        stats_dispatched_and_rolled(responder, old, context, move_, attacked, defended, rolled),
        attack == u16_value_or(
            dispatched(
                responder,
                old,
                EventID::OnCalculateAttackStat,
                Some(context.move_user_id),
                EventContext::MoveHit(context),
                EventValue::U16(stats.0),
                None,
            ).1,
            stats.0,
        ),
        defense == u16_value_or(
            dispatched(
                responder,
                attacked,
                EventID::OnCalculateDefenseStat,
                Some(context.move_user_id),
                EventContext::MoveHit(context),
                EventValue::U16(stats.1),
                None,
            ).1,
            stats.1,
        ),
        hit_effectiveness(move_, rolled.state.spec_monster(context.target_id)) != TypeEffectiveness::Ineffective,
        damage == damage_formula(
            old.state.spec_monster(context.move_user_id).level,
            move_.species.base_power,
            attack,
            defense,
            number_in_range(defended.prng.current_seed, 85, 100) as u16,
            if rolled.state.spec_monster(context.move_user_id).spec_is_type(move_.species.type_) {
                125u16
            } else {
                100u16
            },
            effectiveness_percent(hit_effectiveness(move_, rolled.state.spec_monster(context.target_id))),
        ),
        ({
            let d = dispatched(
                responder,
                rolled,
                EventID::OnModifyDamage,
                Some(context.move_user_id),
                EventContext::MoveHit(context),
                EventValue::U16(damage),
                None,
            );
            modified == d.0 && dealt == u16_value_or(d.1, damage)
        }),
        raw_damage_applied(raw, modified, context.target_id, dealt),
        new == dispatched(
            responder,
            dispatched(
                responder,
                raw,
                EventID::OnDamageDealt,
                Some(context.target_id),
                EventContext::Nothing,
                EventValue::Nothing,
                None,
            ).0,
            EventID::OnMoveHit,
            Some(context.move_user_id),
            EventContext::MoveHit(context),
            EventValue::Nothing,
            None,
        ).0,
    ensures
        struck(
            responder,
            old,
            context,
            move_,
            new,
            HitAttempt::Landed(hit_effectiveness(move_, rolled.state.spec_monster(context.target_id))),
        ),
{
    reveal(struck);
    let modified_d = hit_damage_modified(responder, old, context, move_);
    assert(hit_rolled(responder, old, context, move_) == rolled);
    assert(hit_formula_damage(responder, old, context, move_) == damage);
    assert(modified_d.0 == modified && modified_d.1 == dealt);
    assert(raw_damage_applied(raw, modified_d.0, context.target_id, modified_d.1));
}

} // verus!
