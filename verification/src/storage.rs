//! Reading and writing the contract's entries.

use vstd::prelude::*;

use crate::env::{Env, EnvView};
use crate::types::{
    Address, DisputeDetails, EscalationLevel, DEFAULT_LEVEL_TIME_LIMIT,
    DEFAULT_PENDING_REVIEW_TIME_LIMIT,
};

verus! {

broadcast use vstd::std_specs::hash::group_hash_axioms;

/// The dispute on record for an agreement, if there is one.
pub fn get_dispute(env: &Env, agreement_id: u128) -> (dispute: Option<DisputeDetails>)
    ensures
        match dispute {
            Some(dispute) => env@.dispute(agreement_id) == Some(dispute@),
            None => env@.dispute(agreement_id) is None,
        },
{
    match env.storage.disputes.get(&agreement_id) {
        Some(dispute) => Some(dispute.clone()),
        None => None,
    }
}

/// Writes the dispute of an agreement.
pub fn set_dispute(env: &mut Env, agreement_id: u128, dispute: &DisputeDetails)
    ensures
        final(env)@ == (EnvView {
            disputes: old(env)@.disputes.insert(agreement_id, dispute@),
            ..old(env)@
        }),
{
    env.storage.disputes.insert(agreement_id, dispute.clone());
    assert(env@.disputes =~= old(env)@.disputes.insert(agreement_id, dispute@));
    assert(env@.level_limits =~= old(env)@.level_limits);
}

/// The window of a level, in seconds.
pub fn get_level_time_limit(env: &Env, level: EscalationLevel) -> (limit: u64)
    ensures
        limit == env@.level_time_limit(level),
{
    let configured: Option<u64> = match level {
        EscalationLevel::Level1 => env.storage.level1_time_limit,
        EscalationLevel::Level2 => env.storage.level2_time_limit,
        EscalationLevel::Level3 => env.storage.level3_time_limit,
    };
    match configured {
        Some(limit) => limit,
        None => DEFAULT_LEVEL_TIME_LIMIT,
    }
}

/// Sets the window of a level, in seconds.
pub fn set_level_time_limit(env: &mut Env, level: EscalationLevel, limit_seconds: u64)
    ensures
        final(env)@ == (EnvView {
            level_limits: old(env)@.level_limits.insert(level, limit_seconds as nat),
            ..old(env)@
        }),
{
    match level {
        EscalationLevel::Level1 => env.storage.level1_time_limit = Some(limit_seconds),
        EscalationLevel::Level2 => env.storage.level2_time_limit = Some(limit_seconds),
        EscalationLevel::Level3 => env.storage.level3_time_limit = Some(limit_seconds),
    }
    assert(env@.level_limits =~= old(env)@.level_limits.insert(level, limit_seconds as nat));
}

/// The admin-review window, in seconds.
pub fn get_pending_review_time_limit(env: &Env) -> (limit: u64)
    ensures
        limit == env@.pending_review_time_limit(),
{
    match env.storage.pending_review_time_limit {
        Some(limit) => limit,
        None => DEFAULT_PENDING_REVIEW_TIME_LIMIT,
    }
}

/// Sets the admin-review window, in seconds.
pub fn set_pending_review_time_limit(env: &mut Env, limit_seconds: u64)
    ensures
        final(env)@ == (EnvView { review_limit: Some(limit_seconds as nat), ..old(env)@ }),
{
    env.storage.pending_review_time_limit = Some(limit_seconds);
    assert(env@.level_limits =~= old(env)@.level_limits);
}

/// Whether `who` acts as the admin.
pub fn is_admin(env: &Env, who: &Address) -> (admin: bool)
    ensures
        admin == env@.is_admin(who@),
{
    match &env.storage.admin {
        Some(admin) => admin.same_as(who),
        None => match &env.storage.owner {
            Some(owner) => owner.same_as(who),
            None => false,
        },
    }
}

} // verus!
