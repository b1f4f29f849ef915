//! Sequences of calls, and what every ledger they lead to has in common.

use vstd::prelude::*;

use crate::env::EnvView;
use crate::rules::{
    after_appeal, after_escalate, after_expire, after_file, after_keeper, after_resolve,
    after_set_level_limit, after_set_review_limit, appeal_refusal, configure_refusal,
    escalate_refusal, expire_refusal, file_refusal, keeper_refusal, resolve_refusal,
};
use crate::types::{
    answer_to, DisputeError, DisputeOutcome, DisputeView, EscalationLevel, ReasonView,
};

verus! {

/// One thing that can happen to the ledger: a call of the contract, or time
/// going by.
pub enum Call {
    Initialize { owner: Seq<char>, admin: Seq<char> },
    File { caller: Seq<char>, agreement_id: u128, reason: ReasonView },
    Escalate { caller: Seq<char>, agreement_id: u128 },
    KeeperAdvance { caller: Seq<char>, agreement_id: u128 },
    Resolve { caller: Seq<char>, agreement_id: u128, outcome: DisputeOutcome },
    Appeal { caller: Seq<char>, agreement_id: u128 },
    Expire { caller: Seq<char>, agreement_id: u128 },
    SetLevelLimit { caller: Seq<char>, level: EscalationLevel, limit: nat },
    SetReviewLimit { caller: Seq<char>, limit: nat },
    /// The ledger's clock moves on.
    Elapse { seconds: nat },
}

impl Call {
    /// The agreement whose dispute the call is about.
    pub open spec fn agreement(self) -> Option<u128> {
        match self {
            Call::File { agreement_id, .. } => Some(agreement_id),
            Call::Escalate { agreement_id, .. } => Some(agreement_id),
            Call::KeeperAdvance { agreement_id, .. } => Some(agreement_id),
            Call::Resolve { agreement_id, .. } => Some(agreement_id),
            Call::Appeal { agreement_id, .. } => Some(agreement_id),
            Call::Expire { agreement_id, .. } => Some(agreement_id),
            _ => None,
        }
    }

    /// Who makes the call.
    pub open spec fn made_by(self) -> Option<Seq<char>> {
        match self {
            Call::Initialize { owner, .. } => Some(owner),
            Call::File { caller, .. } => Some(caller),
            Call::Escalate { caller, .. } => Some(caller),
            Call::KeeperAdvance { caller, .. } => Some(caller),
            Call::Resolve { caller, .. } => Some(caller),
            Call::Appeal { caller, .. } => Some(caller),
            Call::Expire { caller, .. } => Some(caller),
            Call::SetLevelLimit { caller, .. } => Some(caller),
            Call::SetReviewLimit { caller, .. } => Some(caller),
            Call::Elapse { .. } => None,
        }
    }
}

/// How a call is answered.
pub open spec fn answer(env: EnvView, call: Call) -> Result<(), DisputeError> {
    match call {
        Call::Initialize { .. } => Ok(()),
        Call::File { agreement_id, reason, .. } => answer_to(
            file_refusal(env, agreement_id, reason),
        ),
        Call::Escalate { agreement_id, .. } => answer_to(escalate_refusal(env, agreement_id)),
        Call::KeeperAdvance { agreement_id, .. } => answer_to(keeper_refusal(env, agreement_id)),
        Call::Resolve { caller, agreement_id, outcome } => answer_to(
            resolve_refusal(env, caller, agreement_id, outcome),
        ),
        Call::Appeal { agreement_id, .. } => answer_to(appeal_refusal(env, agreement_id)),
        Call::Expire { agreement_id, .. } => answer_to(expire_refusal(env, agreement_id)),
        Call::SetLevelLimit { caller, .. } => answer_to(configure_refusal(env, caller)),
        Call::SetReviewLimit { caller, .. } => answer_to(configure_refusal(env, caller)),
        Call::Elapse { .. } => Ok(()),
    }
}

/// What the ledger holds after a call.
pub open spec fn after(env: EnvView, call: Call) -> EnvView {
    match call {
        Call::Initialize { owner, admin } => EnvView {
            owner: Some(owner),
            admin: Some(admin),
            ..env
        },
        Call::File { caller, agreement_id, reason } => after_file(
            env,
            caller,
            agreement_id,
            reason,
        ),
        Call::Escalate { agreement_id, .. } => after_escalate(env, agreement_id),
        Call::KeeperAdvance { agreement_id, .. } => after_keeper(env, agreement_id),
        Call::Resolve { caller, agreement_id, outcome } => after_resolve(
            env,
            caller,
            agreement_id,
            outcome,
        ),
        Call::Appeal { caller, agreement_id } => after_appeal(env, caller, agreement_id),
        Call::Expire { agreement_id, .. } => after_expire(env, agreement_id),
        Call::SetLevelLimit { caller, level, limit } => after_set_level_limit(
            env,
            caller,
            level,
            limit,
        ),
        Call::SetReviewLimit { caller, limit } => after_set_review_limit(env, caller, limit),
        Call::Elapse { seconds } => EnvView { timestamp: env.timestamp + seconds, ..env },
    }
}

/// What the ledger holds after a sequence of calls.
pub open spec fn after_all(env: EnvView, calls: Seq<Call>) -> EnvView
    decreases calls.len(),
{
    if calls.len() == 0 {
        env
    } else {
        after(after_all(env, calls.drop_last()), calls.last())
    }
}

/// Whether the call files a dispute for the agreement and is carried out.
pub open spec fn files(env: EnvView, call: Call, agreement_id: u128) -> bool {
    call is File && call.agreement() == Some(agreement_id) && answer(env, call) is Ok
}

/// Whether the call appeals the agreement's ruling and is carried out.
pub open spec fn appeals(env: EnvView, call: Call, agreement_id: u128) -> bool {
    call is Appeal && call.agreement() == Some(agreement_id) && answer(env, call) is Ok
}

/// Whether the call escalates the agreement's dispute and is carried out.
pub open spec fn escalates(env: EnvView, call: Call, agreement_id: u128) -> bool {
    call is Escalate && call.agreement() == Some(agreement_id) && answer(env, call) is Ok
}

/// How many of the calls escalated the agreement's dispute or appealed its
/// ruling.
pub open spec fn climbs(env: EnvView, calls: Seq<Call>, agreement_id: u128) -> nat
    decreases calls.len(),
{
    if calls.len() == 0 {
        0
    } else {
        let before = after_all(env, calls.drop_last());
        climbs(env, calls.drop_last(), agreement_id) + if escalates(
            before,
            calls.last(),
            agreement_id,
        ) || appeals(before, calls.last(), agreement_id) {
            1nat
        } else {
            0nat
        }
    }
}

/// Who last filed the agreement's dispute or appealed its ruling, if anyone did
/// in these calls.
pub open spec fn last_initiator(env: EnvView, calls: Seq<Call>, agreement_id: u128) -> Option<
    Seq<char>,
>
    decreases calls.len(),
{
    if calls.len() == 0 {
        None
    } else {
        let before = after_all(env, calls.drop_last());
        if files(before, calls.last(), agreement_id) || appeals(
            before,
            calls.last(),
            agreement_id,
        ) {
            calls.last().made_by()
        } else {
            last_initiator(env, calls.drop_last(), agreement_id)
        }
    }
}

impl DisputeView {
    /// A ruling stands.
    pub open spec fn is_ruled_on(self) -> bool {
        self.status is Resolved || self.status is Finalised
    }

    /// What holds of every dispute on record.
    pub open spec fn is_sound(self, agreement_id: u128, now: nat) -> bool {
        &&& self.agreement_id == agreement_id
        &&& self.reason.fits()
        // A phase began in the past and ends no earlier than it began; expiry
        // comes after the deadline it tells of.
        &&& self.phase_started_at <= now
        &&& if self.status is Expired {
            self.phase_started_at > self.phase_deadline
        } else {
            self.phase_started_at <= self.phase_deadline
        }
        // An outcome is on record exactly as long as a ruling stands.
        &&& self.outcome is Unset <==> !self.is_ruled_on()
        // Each tier is entered in its own way, and only the last ruling is final.
        &&& self.status is Open ==> self.level is Level1
        &&& self.status is Escalated || self.status is Appealed ==> !(self.level is Level1)
        &&& self.status is Resolved ==> !(self.level is Level3)
        &&& self.status is Finalised ==> self.level is Level3
    }
}

impl EnvView {
    /// Every dispute on record is sound.
    pub open spec fn is_sound(self) -> bool {
        forall|agreement_id: u128| #[trigger]
            self.disputes.contains_key(agreement_id) ==> self.disputes[agreement_id].is_sound(
                agreement_id,
                self.timestamp,
            )
    }
}

} // verus!
