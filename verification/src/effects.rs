//! What each call does to the ledger's entries, as its callers see them.
//!
//! These laws speak of the calls themselves and of the stored entries: a law
//! holds whenever the call it names has returned. The relations below compare
//! ledgers entry by entry.

use vstd::prelude::*;

use crate::contract::DisputeEscalationContract;
use crate::env::{Env, EnvView};
use crate::events::{lemma_topics_differ, DisputeEvent, EventView};
use crate::history::{after, answer, Call};
use crate::storage;
use crate::types::{
    Address, DisputeDetails, DisputeError, DisputeOutcome, DisputeReason, DisputeView,
    EscalationLevel,
};

verus! {

broadcast use vstd::std_specs::hash::group_hash_axioms;

// ---- comparing entries ----------------------------------------------------

/// Both are the same address.
pub open spec fn same_address(one: Address, other: Address) -> bool {
    one.strkey@ == other.strkey@
}

/// Both roles are vacant, or held by the same address.
pub open spec fn same_holder(one: Option<Address>, other: Option<Address>) -> bool {
    match (one, other) {
        (Some(one), Some(other)) => one.strkey@ == other.strkey@,
        (None, None) => true,
        _ => false,
    }
}

/// Both are the same ground, with the same free text if there is any.
pub open spec fn same_reason(one: DisputeReason, other: DisputeReason) -> bool {
    match (one, other) {
        (DisputeReason::NonDelivery, DisputeReason::NonDelivery) => true,
        (DisputeReason::QualityIssue, DisputeReason::QualityIssue) => true,
        (DisputeReason::PaymentDispute, DisputeReason::PaymentDispute) => true,
        (DisputeReason::Other(one), DisputeReason::Other(other)) => one@ == other@,
        _ => false,
    }
}

/// Both records agree in every field.
pub open spec fn same_dispute(one: DisputeDetails, other: DisputeDetails) -> bool {
    &&& one.agreement_id == other.agreement_id
    &&& same_address(one.initiator, other.initiator)
    &&& one.status == other.status
    &&& one.level == other.level
    &&& one.phase_started_at == other.phase_started_at
    &&& one.phase_deadline == other.phase_deadline
    &&& one.outcome == other.outcome
    &&& same_reason(one.reason, other.reason)
}

/// Both events are of one kind and agree in every field.
pub open spec fn same_event(one: DisputeEvent, other: DisputeEvent) -> bool {
    match (one, other) {
        (DisputeEvent::Filed(one), DisputeEvent::Filed(other)) => {
            &&& one.agreement_id == other.agreement_id
            &&& same_address(one.initiator, other.initiator)
            &&& one.level == other.level
            &&& one.phase_deadline == other.phase_deadline
            &&& same_reason(one.reason, other.reason)
        },
        (DisputeEvent::Appealed(one), DisputeEvent::Appealed(other)) => {
            &&& one.agreement_id == other.agreement_id
            &&& same_address(one.appellant, other.appellant)
            &&& one.new_level == other.new_level
            &&& one.phase_deadline == other.phase_deadline
        },
        (DisputeEvent::Escalated(one), DisputeEvent::Escalated(other)) => one == other,
        (DisputeEvent::SlaBreached(one), DisputeEvent::SlaBreached(other)) => one == other,
        (DisputeEvent::Resolved(one), DisputeEvent::Resolved(other)) => one == other,
        (DisputeEvent::Finalised(one), DisputeEvent::Finalised(other)) => one == other,
        (DisputeEvent::Expired(one), DisputeEvent::Expired(other)) => one == other,
        _ => false,
    }
}

/// Roles, limits, clock and authorisations are as they were.
pub open spec fn same_setting(before: Env, next: Env) -> bool {
    &&& same_holder(before.storage.owner, next.storage.owner)
    &&& same_holder(before.storage.admin, next.storage.admin)
    &&& next.storage.level1_time_limit == before.storage.level1_time_limit
    &&& next.storage.level2_time_limit == before.storage.level2_time_limit
    &&& next.storage.level3_time_limit == before.storage.level3_time_limit
    &&& next.storage.pending_review_time_limit == before.storage.pending_review_time_limit
    &&& next.timestamp == before.timestamp
    &&& same_auths(before, next)
}

/// The same addresses have authorised the call.
pub open spec fn same_auths(before: Env, next: Env) -> bool {
    &&& next.auths@.len() == before.auths@.len()
    &&& forall|i: int|
        0 <= i < before.auths@.len() ==> same_address(
            before.auths@[i],
            #[trigger] next.auths@[i],
        )
}

/// The agreement has no dispute on either ledger, or the same one on both.
pub open spec fn same_entry(before: Env, next: Env, agreement_id: u128) -> bool {
    &&& next.storage.disputes@.contains_key(agreement_id)
        == before.storage.disputes@.contains_key(agreement_id)
    &&& before.storage.disputes@.contains_key(agreement_id) ==> same_dispute(
        before.storage.disputes@[agreement_id],
        next.storage.disputes@[agreement_id],
    )
}

/// Every agreement has the dispute it had.
pub open spec fn same_disputes(before: Env, next: Env) -> bool {
    forall|agreement_id: u128| #[trigger] same_entry(before, next, agreement_id)
}

/// What had been published still is, in the same order.
pub open spec fn keeps_events(before: Env, next: Env) -> bool {
    &&& next.events@.len() >= before.events@.len()
    &&& forall|i: int|
        0 <= i < before.events@.len() ==> same_event(
            before.events@[i],
            #[trigger] next.events@[i],
        )
}

/// The disputes and the events are as they were.
pub open spec fn same_proceedings(before: Env, next: Env) -> bool {
    &&& same_disputes(before, next)
    &&& keeps_events(before, next)
    &&& next.events@.len() == before.events@.len()
}

/// Nothing is different.
pub open spec fn unchanged(before: Env, next: Env) -> bool {
    &&& same_setting(before, next)
    &&& same_proceedings(before, next)
}

/// The agreement has a dispute on record, one event was published, and nothing
/// else is different.
pub open spec fn concerns_only(before: Env, next: Env, agreement_id: u128) -> bool {
    &&& same_setting(before, next)
    &&& forall|other: u128| other != agreement_id ==> #[trigger] same_entry(before, next, other)
    &&& next.storage.disputes@.contains_key(agreement_id)
    &&& keeps_events(before, next)
    &&& next.events@.len() == before.events@.len() + 1
}

// ---- from the mathematical form to the entries -----------------------------

proof fn lemma_same_setting(before: Env, next: Env)
    requires
        next@ == (EnvView {
            disputes: next@.disputes,
            events: next@.events,
            ..before@
        }),
    ensures
        same_setting(before, next),
{
    lemma_same_limits(before, next);
    lemma_same_auths(before, next);
}

/// The limits of the three levels in both forms.
proof fn lemma_limits(env: Env)
    ensures
        ({
            let limits = env@.level_limits;
            let storage = env.storage;
            &&& limits.contains_key(EscalationLevel::Level1) == (storage.level1_time_limit is Some)
            &&& limits.contains_key(EscalationLevel::Level2) == (storage.level2_time_limit is Some)
            &&& limits.contains_key(EscalationLevel::Level3) == (storage.level3_time_limit is Some)
            &&& storage.level1_time_limit matches Some(limit) ==> limits[EscalationLevel::Level1]
                == limit
            &&& storage.level2_time_limit matches Some(limit) ==> limits[EscalationLevel::Level2]
                == limit
            &&& storage.level3_time_limit matches Some(limit) ==> limits[EscalationLevel::Level3]
                == limit
        }),
{
}

proof fn lemma_same_limits(before: Env, next: Env)
    requires
        next@.level_limits == before@.level_limits,
    ensures
        next.storage.level1_time_limit == before.storage.level1_time_limit,
        next.storage.level2_time_limit == before.storage.level2_time_limit,
        next.storage.level3_time_limit == before.storage.level3_time_limit,
{
    lemma_limits(before);
    lemma_limits(next);
}

proof fn lemma_same_auths(before: Env, next: Env)
    requires
        next@.auths == before@.auths,
    ensures
        same_auths(before, next),
{
    assert(next@.auths.len() == next.auths@.len());
    assert(before@.auths.len() == before.auths@.len());
    assert forall|i: int| 0 <= i < before.auths@.len() implies same_address(
        before.auths@[i],
        #[trigger] next.auths@[i],
    ) by {
        assert(before@.auths[i] == next@.auths[i]);
    }
}

proof fn lemma_same_entry(before: Env, next: Env, agreement_id: u128)
    requires
        next@.disputes.contains_key(agreement_id) == before@.disputes.contains_key(agreement_id),
        next@.disputes.contains_key(agreement_id) ==> next@.disputes[agreement_id]
            == before@.disputes[agreement_id],
    ensures
        same_entry(before, next, agreement_id),
{
    if before.storage.disputes@.contains_key(agreement_id) {
        assert(before@.disputes[agreement_id] == before.storage.disputes@[agreement_id]@);
        assert(next@.disputes[agreement_id] == next.storage.disputes@[agreement_id]@);
    }
}

proof fn lemma_keeps_events(before: Env, next: Env)
    requires
        before@.events.is_prefix_of(next@.events),
    ensures
        keeps_events(before, next),
{
    assert forall|i: int| 0 <= i < before.events@.len() implies same_event(
        before.events@[i],
        #[trigger] next.events@[i],
    ) by {
        assert(next@.events.take(before@.events.len() as int)[i] == next@.events[i]);
        assert(before.events@[i]@ == next.events@[i]@);
    }
}

proof fn lemma_same_proceedings(before: Env, next: Env)
    requires
        next@.disputes == before@.disputes,
        next@.events == before@.events,
    ensures
        same_proceedings(before, next),
{
    assert forall|agreement_id: u128| #[trigger] same_entry(before, next, agreement_id) by {
        lemma_same_entry(before, next, agreement_id);
    }
    assert(before@.events =~= next@.events.take(before@.events.len() as int));
    lemma_keeps_events(before, next);
    assert(next@.events.len() == next.events@.len());
}

proof fn lemma_unchanged(before: Env, next: Env)
    requires
        next@ == before@,
    ensures
        unchanged(before, next),
{
    lemma_same_setting(before, next);
    lemma_same_proceedings(before, next);
}

proof fn lemma_concerns_only(
    before: Env,
    next: Env,
    agreement_id: u128,
    dispute: DisputeView,
    event: EventView,
)
    requires
        next@ == (EnvView {
            disputes: before@.disputes.insert(agreement_id, dispute),
            events: before@.events.push(event),
            ..before@
        }),
    ensures
        concerns_only(before, next, agreement_id),
        next.storage.disputes@[agreement_id]@ == dispute,
        next.events@.last()@ == event,
{
    lemma_same_setting(before, next);
    assert forall|other: u128| other != agreement_id implies #[trigger] same_entry(
        before,
        next,
        other,
    ) by {
        lemma_same_entry(before, next, other);
    }
    assert(next@.disputes.contains_key(agreement_id));
    assert(next@.disputes[agreement_id] == next.storage.disputes@[agreement_id]@);
    assert(before@.events =~= next@.events.take(before@.events.len() as int));
    lemma_keeps_events(before, next);
    assert(next@.events.len() == next.events@.len());
    assert(next@.events.last() == next.events@.last()@);
}

/// The record of an agreement in both forms.
proof fn lemma_entry(env: Env, agreement_id: u128)
    ensures
        env@.disputes.contains_key(agreement_id) == env.storage.disputes@.contains_key(
            agreement_id,
        ),
        env.storage.disputes@.contains_key(agreement_id) ==> env@.disputes[agreement_id]
            == env.storage.disputes@[agreement_id]@,
{
}

// ---- filing ---------------------------------------------------------------

/// Filing is answered `ReasonTooLong` exactly on a free text of more than 256
/// bytes, else `InvalidTransition` exactly on an agreement that has a dispute. It
/// then records, and announces, what it was given: the caller and the reason as
/// they are, open at Level1, with seven days from now unless Level1 has a limit.
pub proof fn law_filing(
    env: &mut Env,
    caller: Address,
    agreement_id: u128,
    reason: DisputeReason,
    result: Result<(), DisputeError>,
)
    requires
        call_ensures(
            DisputeEscalationContract::file_dispute,
            (env, caller, agreement_id, reason),
            result,
        ),
    ensures
        ({
            let too_long = reason matches DisputeReason::Other(text) && text@.len() > 256;
            let known = old(env).storage.disputes@.contains_key(agreement_id);
            &&& too_long ==> result == Err::<(), _>(DisputeError::ReasonTooLong)
            &&& !too_long && known ==> result == Err::<(), _>(DisputeError::InvalidTransition)
            &&& !too_long && !known ==> result is Ok
        }),
        result is Err ==> unchanged(*old(env), *final(env)),
        result is Ok ==> {
            let now = old(env).timestamp;
            let next = final(env).storage.disputes@[agreement_id];
            &&& concerns_only(*old(env), *final(env), agreement_id)
            &&& next.agreement_id == agreement_id
            &&& same_address(next.initiator, caller)
            &&& next.status is Open
            &&& next.level is Level1
            &&& next.phase_started_at == now
            &&& next.phase_deadline == now + match old(env).storage.level1_time_limit {
                Some(limit) => limit as int,
                None => 604_800int,
            }
            &&& next.outcome is Unset
            &&& same_reason(next.reason, reason)
            &&& final(env).events@.last() matches DisputeEvent::Filed(event)
            &&& event.agreement_id == agreement_id
            &&& same_address(event.initiator, caller)
            &&& event.level is Level1
            &&& event.phase_deadline == next.phase_deadline
            &&& same_reason(event.reason, reason)
        },
{
    let before = *old(env);
    let next = *final(env);
    lemma_entry(before, agreement_id);
    if result is Err {
        lemma_unchanged(before, next);
    } else {
        let dispute = next@.disputes[agreement_id];
        lemma_concerns_only(before, next, agreement_id, dispute, next@.events.last());
    }
}

// ---- escalating -----------------------------------------------------------

/// Escalation is answered by where the dispute stands and by its deadline, which
/// still belongs to the window. It moves the dispute from Level1 to Level2 or from
/// Level2 to Level3, with that tier's own limit from now, seven days unless it has
/// one, and leaves the rest of the record.
pub proof fn law_escalation(
    env: &mut Env,
    caller: Address,
    agreement_id: u128,
    result: Result<(), DisputeError>,
)
    requires
        call_ensures(
            DisputeEscalationContract::escalate_dispute,
            (env, caller, agreement_id),
            result,
        ),
    ensures
        !old(env).storage.disputes@.contains_key(agreement_id) ==> result == Err::<(), _>(
            DisputeError::DisputeNotFound,
        ),
        old(env).storage.disputes@.contains_key(agreement_id) ==> {
            let dispute = old(env).storage.disputes@[agreement_id];
            let late = old(env).timestamp > dispute.phase_deadline;
            let active = dispute.status is Open || dispute.status is Escalated
                || dispute.status is Appealed;
            &&& dispute.status is Finalised ==> result == Err::<(), _>(
                DisputeError::AlreadyFinalised,
            )
            &&& dispute.status is Expired ==> result == Err::<(), _>(DisputeError::AlreadyTerminal)
            &&& dispute.status is Resolved ==> result == Err::<(), _>(
                DisputeError::AlreadyResolved,
            )
            &&& dispute.status is PendingReview ==> result == Err::<(), _>(
                DisputeError::InvalidTransition,
            )
            &&& active && late ==> result == Err::<(), _>(DisputeError::TimeLimitExpired)
            &&& active && !late && dispute.level is Level3 ==> result == Err::<(), _>(
                DisputeError::MaxEscalationReached,
            )
            &&& active && !late && !(dispute.level is Level3) ==> result is Ok
        },
        result is Err ==> unchanged(*old(env), *final(env)),
        result is Ok ==> {
            let now = old(env).timestamp;
            let dispute = old(env).storage.disputes@[agreement_id];
            let next = final(env).storage.disputes@[agreement_id];
            &&& concerns_only(*old(env), *final(env), agreement_id)
            &&& next.agreement_id == dispute.agreement_id
            &&& same_address(next.initiator, dispute.initiator)
            &&& next.status is Escalated
            &&& dispute.level is Level1 ==> next.level is Level2 && next.phase_deadline == now
                + match old(env).storage.level2_time_limit {
                Some(limit) => limit as int,
                None => 604_800int,
            }
            &&& dispute.level is Level2 ==> next.level is Level3 && next.phase_deadline == now
                + match old(env).storage.level3_time_limit {
                Some(limit) => limit as int,
                None => 604_800int,
            }
            &&& next.phase_started_at == now
            &&& next.outcome == dispute.outcome
            &&& same_reason(next.reason, dispute.reason)
            &&& final(env).events@.last() matches DisputeEvent::Escalated(event)
            &&& event.agreement_id == agreement_id
            &&& event.new_level == next.level
            &&& event.phase_deadline == next.phase_deadline
        },
{
    let before = *old(env);
    let next = *final(env);
    lemma_entry(before, agreement_id);
    lemma_limits(before);
    if result is Err {
        lemma_unchanged(before, next);
    } else {
        let dispute = next@.disputes[agreement_id];
        lemma_concerns_only(before, next, agreement_id, dispute, next@.events.last());
    }
}

// ---- declaring a lapsed window --------------------------------------------

/// A keeper is answered by where the dispute stands and by whether its deadline has
/// passed. The step puts the dispute before the admin, with the review limit from
/// now, three days unless one was set, and leaves the rest of the record.
pub proof fn law_keeper_step(
    env: &mut Env,
    caller: Address,
    agreement_id: u128,
    result: Result<(), DisputeError>,
)
    requires
        call_ensures(
            DisputeEscalationContract::keeper_advance_stage,
            (env, caller, agreement_id),
            result,
        ),
    ensures
        !old(env).storage.disputes@.contains_key(agreement_id) ==> result == Err::<(), _>(
            DisputeError::DisputeNotFound,
        ),
        old(env).storage.disputes@.contains_key(agreement_id) ==> {
            let dispute = old(env).storage.disputes@[agreement_id];
            let late = old(env).timestamp > dispute.phase_deadline;
            let active = dispute.status is Open || dispute.status is Escalated
                || dispute.status is Appealed;
            let end = old(env).timestamp + match old(env).storage.pending_review_time_limit {
                Some(limit) => limit as int,
                None => 259_200int,
            };
            &&& dispute.status is Finalised ==> result == Err::<(), _>(
                DisputeError::AlreadyFinalised,
            )
            &&& dispute.status is Expired ==> result == Err::<(), _>(DisputeError::AlreadyTerminal)
            &&& dispute.status is Resolved ==> result == Err::<(), _>(
                DisputeError::AlreadyResolved,
            )
            &&& dispute.status is PendingReview ==> result == Err::<(), _>(
                DisputeError::AlreadyPendingReview,
            )
            &&& active && !late ==> result == Err::<(), _>(DisputeError::DeadlineNotPassed)
            &&& active && late && end > u64::MAX ==> result == Err::<(), _>(
                DisputeError::SlaDeadlineOverflow,
            )
            &&& active && late && end <= u64::MAX ==> result is Ok
        },
        result is Err ==> unchanged(*old(env), *final(env)),
        result is Ok ==> {
            let now = old(env).timestamp;
            let dispute = old(env).storage.disputes@[agreement_id];
            let next = final(env).storage.disputes@[agreement_id];
            &&& concerns_only(*old(env), *final(env), agreement_id)
            &&& next.agreement_id == dispute.agreement_id
            &&& same_address(next.initiator, dispute.initiator)
            &&& next.status is PendingReview
            &&& next.level == dispute.level
            &&& next.phase_started_at == now
            &&& next.phase_deadline == now + match old(env).storage.pending_review_time_limit {
                Some(limit) => limit as int,
                None => 259_200int,
            }
            &&& next.outcome == dispute.outcome
            &&& same_reason(next.reason, dispute.reason)
            &&& final(env).events@.last() matches DisputeEvent::SlaBreached(event)
            &&& event.agreement_id == agreement_id
            &&& event.level == dispute.level
            &&& event.breached_at == now
            &&& event.review_deadline == next.phase_deadline
        },
{
    let before = *old(env);
    let next = *final(env);
    lemma_entry(before, agreement_id);
    if result is Err {
        lemma_unchanged(before, next);
    } else {
        let dispute = next@.disputes[agreement_id];
        lemma_concerns_only(before, next, agreement_id, dispute, next@.events.last());
    }
}

// ---- ruling ---------------------------------------------------------------

/// The address is the admin or, as long as there is no admin, the owner.
pub open spec fn holds_admin_role(env: Env, who: Address) -> bool {
    match env.storage.admin {
        Some(admin) => admin.strkey@ == who.strkey@,
        None => env.storage.owner matches Some(owner) && owner.strkey@ == who.strkey@,
    }
}

/// A ruling is refused to anyone but the admin, with the outcome `Unset`, and on a
/// dispute that is terminal or ruled on, in this order. It records, and announces,
/// the outcome it was given: final at Level3, else open to appeal for three days.
pub proof fn law_ruling(
    env: &mut Env,
    caller: Address,
    agreement_id: u128,
    outcome: DisputeOutcome,
    result: Result<(), DisputeError>,
)
    requires
        call_ensures(
            DisputeEscalationContract::resolve_dispute,
            (env, caller, agreement_id, outcome),
            result,
        ),
    ensures
        ({
            let admin = holds_admin_role(*old(env), caller);
            let known = old(env).storage.disputes@.contains_key(agreement_id);
            let status = old(env).storage.disputes@[agreement_id].status;
            &&& !admin ==> result == Err::<(), _>(DisputeError::Unauthorized)
            &&& admin && outcome is Unset ==> result == Err::<(), _>(
                DisputeError::InvalidTransition,
            )
            &&& admin && !(outcome is Unset) && !known ==> result == Err::<(), _>(
                DisputeError::DisputeNotFound,
            )
            &&& admin && !(outcome is Unset) && known ==> {
                &&& status is Finalised ==> result == Err::<(), _>(DisputeError::AlreadyFinalised)
                &&& status is Expired ==> result == Err::<(), _>(DisputeError::AlreadyTerminal)
                &&& status is Resolved ==> result == Err::<(), _>(DisputeError::AlreadyResolved)
                &&& status is Open || status is Escalated || status is Appealed
                    || status is PendingReview ==> result is Ok
            }
        }),
        result is Err ==> unchanged(*old(env), *final(env)),
        result is Ok ==> {
            let now = old(env).timestamp;
            let dispute = old(env).storage.disputes@[agreement_id];
            let next = final(env).storage.disputes@[agreement_id];
            &&& concerns_only(*old(env), *final(env), agreement_id)
            &&& next.agreement_id == dispute.agreement_id
            &&& same_address(next.initiator, dispute.initiator)
            &&& next.level == dispute.level
            &&& next.phase_started_at == now
            &&& next.outcome == outcome
            &&& same_reason(next.reason, dispute.reason)
        },
        result is Ok && old(env).storage.disputes@[agreement_id].level is Level3 ==> {
            let next = final(env).storage.disputes@[agreement_id];
            &&& next.status is Finalised
            &&& next.phase_deadline == old(env).timestamp
            &&& final(env).events@.last() matches DisputeEvent::Finalised(event)
            &&& event.agreement_id == agreement_id
            &&& event.outcome == outcome
        },
        result is Ok && !(old(env).storage.disputes@[agreement_id].level is Level3) ==> {
            let next = final(env).storage.disputes@[agreement_id];
            &&& next.status is Resolved
            &&& next.phase_deadline == old(env).timestamp + 259_200
            &&& final(env).events@.last() matches DisputeEvent::Resolved(event)
            &&& event.agreement_id == agreement_id
            &&& event.level == next.level
            &&& event.outcome == outcome
            &&& event.appeal_deadline == next.phase_deadline
        },
{
    let before = *old(env);
    let next = *final(env);
    lemma_entry(before, agreement_id);
    if result is Err {
        lemma_unchanged(before, next);
    } else {
        let dispute = next@.disputes[agreement_id];
        lemma_concerns_only(before, next, agreement_id, dispute, next@.events.last());
    }
}

// ---- appealing ------------------------------------------------------------

/// An appeal is answered by where the dispute stands and by its appeal deadline,
/// which still belongs to the window. It withdraws the ruling, puts the caller in
/// the initiator's place, and moves the dispute from Level1 to Level2 or from
/// Level2 to Level3, with that tier's own limit from now, seven days unless it has
/// one.
pub proof fn law_appeal(
    env: &mut Env,
    caller: Address,
    agreement_id: u128,
    result: Result<(), DisputeError>,
)
    requires
        call_ensures(
            DisputeEscalationContract::appeal_ruling,
            (env, caller, agreement_id),
            result,
        ),
    ensures
        !old(env).storage.disputes@.contains_key(agreement_id) ==> result == Err::<(), _>(
            DisputeError::DisputeNotFound,
        ),
        old(env).storage.disputes@.contains_key(agreement_id) ==> {
            let dispute = old(env).storage.disputes@[agreement_id];
            let late = old(env).timestamp > dispute.phase_deadline;
            let ruled = dispute.status is Resolved;
            &&& dispute.status is Finalised ==> result == Err::<(), _>(
                DisputeError::AlreadyFinalised,
            )
            &&& dispute.status is Expired ==> result == Err::<(), _>(DisputeError::AlreadyTerminal)
            &&& dispute.status is Open || dispute.status is Escalated || dispute.status is Appealed
                || dispute.status is PendingReview ==> result == Err::<(), _>(
                DisputeError::InvalidTransition,
            )
            &&& ruled && late ==> result == Err::<(), _>(DisputeError::TimeLimitExpired)
            &&& ruled && !late && dispute.level is Level3 ==> result == Err::<(), _>(
                DisputeError::MaxEscalationReached,
            )
            &&& ruled && !late && !(dispute.level is Level3) ==> result is Ok
        },
        result is Err ==> unchanged(*old(env), *final(env)),
        result is Ok ==> {
            let now = old(env).timestamp;
            let dispute = old(env).storage.disputes@[agreement_id];
            let next = final(env).storage.disputes@[agreement_id];
            &&& concerns_only(*old(env), *final(env), agreement_id)
            &&& next.agreement_id == dispute.agreement_id
            &&& same_address(next.initiator, caller)
            &&& next.status is Appealed
            &&& dispute.level is Level1 ==> next.level is Level2 && next.phase_deadline == now
                + match old(env).storage.level2_time_limit {
                Some(limit) => limit as int,
                None => 604_800int,
            }
            &&& dispute.level is Level2 ==> next.level is Level3 && next.phase_deadline == now
                + match old(env).storage.level3_time_limit {
                Some(limit) => limit as int,
                None => 604_800int,
            }
            &&& next.phase_started_at == now
            &&& next.outcome is Unset
            &&& same_reason(next.reason, dispute.reason)
            &&& final(env).events@.last() matches DisputeEvent::Appealed(event)
            &&& event.agreement_id == agreement_id
            &&& same_address(event.appellant, caller)
            &&& event.new_level == next.level
            &&& event.phase_deadline == next.phase_deadline
        },
{
    let before = *old(env);
    let next = *final(env);
    lemma_entry(before, agreement_id);
    lemma_limits(before);
    if result is Err {
        lemma_unchanged(before, next);
    } else {
        let dispute = next@.disputes[agreement_id];
        lemma_concerns_only(before, next, agreement_id, dispute, next@.events.last());
    }
}

// ---- expiring -------------------------------------------------------------

/// Expiry is answered by where the dispute stands and by whether its deadline has
/// passed. It closes the dispute as of now; the missed deadline and the rest of the
/// record stay.
pub proof fn law_expiry(
    env: &mut Env,
    caller: Address,
    agreement_id: u128,
    result: Result<(), DisputeError>,
)
    requires
        call_ensures(
            DisputeEscalationContract::expire_dispute,
            (env, caller, agreement_id),
            result,
        ),
    ensures
        !old(env).storage.disputes@.contains_key(agreement_id) ==> result == Err::<(), _>(
            DisputeError::DisputeNotFound,
        ),
        old(env).storage.disputes@.contains_key(agreement_id) ==> {
            let dispute = old(env).storage.disputes@[agreement_id];
            let late = old(env).timestamp > dispute.phase_deadline;
            let undecided = dispute.status is Open || dispute.status is Escalated
                || dispute.status is Appealed || dispute.status is PendingReview;
            &&& dispute.status is Finalised ==> result == Err::<(), _>(
                DisputeError::AlreadyFinalised,
            )
            &&& dispute.status is Expired ==> result == Err::<(), _>(DisputeError::AlreadyTerminal)
            &&& dispute.status is Resolved ==> result == Err::<(), _>(
                DisputeError::AlreadyResolved,
            )
            &&& undecided && !late ==> result == Err::<(), _>(DisputeError::DeadlineNotPassed)
            &&& undecided && late ==> result is Ok
        },
        result is Err ==> unchanged(*old(env), *final(env)),
        result is Ok ==> {
            let dispute = old(env).storage.disputes@[agreement_id];
            let next = final(env).storage.disputes@[agreement_id];
            &&& concerns_only(*old(env), *final(env), agreement_id)
            &&& next.agreement_id == dispute.agreement_id
            &&& same_address(next.initiator, dispute.initiator)
            &&& next.status is Expired
            &&& next.level == dispute.level
            &&& next.phase_started_at == old(env).timestamp
            &&& next.phase_deadline == dispute.phase_deadline
            &&& next.outcome == dispute.outcome
            &&& same_reason(next.reason, dispute.reason)
            &&& final(env).events@.last() matches DisputeEvent::Expired(event)
            &&& event.agreement_id == agreement_id
        },
{
    let before = *old(env);
    let next = *final(env);
    lemma_entry(before, agreement_id);
    if result is Err {
        lemma_unchanged(before, next);
    } else {
        let dispute = next@.disputes[agreement_id];
        lemma_concerns_only(before, next, agreement_id, dispute, next@.events.last());
    }
}

// ---- configuring ----------------------------------------------------------

/// Initialising names the owner and the admin it was given, and does nothing else.
pub proof fn law_initialising(env: &mut Env, owner: Address, admin: Address)
    requires
        call_ensures(DisputeEscalationContract::initialize, (env, owner, admin), ()),
    ensures
        same_holder(final(env).storage.owner, Some(owner)),
        same_holder(final(env).storage.admin, Some(admin)),
        final(env).storage.level1_time_limit == old(env).storage.level1_time_limit,
        final(env).storage.level2_time_limit == old(env).storage.level2_time_limit,
        final(env).storage.level3_time_limit == old(env).storage.level3_time_limit,
        final(env).storage.pending_review_time_limit
            == old(env).storage.pending_review_time_limit,
        final(env).timestamp == old(env).timestamp,
        same_auths(*old(env), *final(env)),
        same_proceedings(*old(env), *final(env)),
{
    lemma_same_limits(*old(env), *final(env));
    lemma_same_auths(*old(env), *final(env));
    lemma_same_proceedings(*old(env), *final(env));
}

/// The admin, and no one else, sets the limit of a level: to the number given,
/// without touching another level, the review limit, or anything else.
pub proof fn law_level_limit_setting(
    env: &mut Env,
    caller: Address,
    level: EscalationLevel,
    limit_seconds: u64,
    result: Result<(), DisputeError>,
)
    requires
        call_ensures(
            DisputeEscalationContract::set_level_time_limit,
            (env, caller, level, limit_seconds),
            result,
        ),
    ensures
        holds_admin_role(*old(env), caller) ==> result is Ok,
        !holds_admin_role(*old(env), caller) ==> result == Err::<(), _>(
            DisputeError::Unauthorized,
        ),
        result is Err ==> unchanged(*old(env), *final(env)),
        result is Ok ==> {
            let before = old(env).storage;
            let next = final(env).storage;
            &&& next.level1_time_limit == if level is Level1 {
                Some(limit_seconds)
            } else {
                before.level1_time_limit
            }
            &&& next.level2_time_limit == if level is Level2 {
                Some(limit_seconds)
            } else {
                before.level2_time_limit
            }
            &&& next.level3_time_limit == if level is Level3 {
                Some(limit_seconds)
            } else {
                before.level3_time_limit
            }
            &&& next.pending_review_time_limit == before.pending_review_time_limit
            &&& same_holder(before.owner, next.owner)
            &&& same_holder(before.admin, next.admin)
            &&& final(env).timestamp == old(env).timestamp
            &&& same_auths(*old(env), *final(env))
            &&& same_proceedings(*old(env), *final(env))
        },
{
    let before = *old(env);
    let next = *final(env);
    if result is Err {
        lemma_unchanged(before, next);
    } else {
        lemma_limits(before);
        lemma_limits(next);
        lemma_same_auths(before, next);
        lemma_same_proceedings(before, next);
    }
}

/// The admin, and no one else, sets the review limit: to the number given, without
/// touching the limit of a level or anything else.
pub proof fn law_review_limit_setting(
    env: &mut Env,
    caller: Address,
    limit_seconds: u64,
    result: Result<(), DisputeError>,
)
    requires
        call_ensures(
            DisputeEscalationContract::set_pending_review_time_limit,
            (env, caller, limit_seconds),
            result,
        ),
    ensures
        holds_admin_role(*old(env), caller) ==> result is Ok,
        !holds_admin_role(*old(env), caller) ==> result == Err::<(), _>(
            DisputeError::Unauthorized,
        ),
        result is Err ==> unchanged(*old(env), *final(env)),
        result is Ok ==> {
            let before = old(env).storage;
            let next = final(env).storage;
            &&& next.pending_review_time_limit == Some(limit_seconds)
            &&& next.level1_time_limit == before.level1_time_limit
            &&& next.level2_time_limit == before.level2_time_limit
            &&& next.level3_time_limit == before.level3_time_limit
            &&& same_holder(before.owner, next.owner)
            &&& same_holder(before.admin, next.admin)
            &&& final(env).timestamp == old(env).timestamp
            &&& same_auths(*old(env), *final(env))
            &&& same_proceedings(*old(env), *final(env))
        },
{
    let before = *old(env);
    let next = *final(env);
    if result is Err {
        lemma_unchanged(before, next);
    } else {
        lemma_same_limits(before, next);
        lemma_same_auths(before, next);
        lemma_same_proceedings(before, next);
    }
}

// ---- reading --------------------------------------------------------------

/// Reading a dispute gives the stored record, field by field, and nothing exactly
/// when none is stored.
pub proof fn law_dispute_reading(env: &Env, agreement_id: u128, found: Option<DisputeDetails>)
    requires
        call_ensures(DisputeEscalationContract::get_dispute, (env, agreement_id), found)
            || call_ensures(storage::get_dispute, (env, agreement_id), found),
    ensures
        found is Some <==> env.storage.disputes@.contains_key(agreement_id),
        found matches Some(dispute) ==> same_dispute(
            dispute,
            env.storage.disputes@[agreement_id],
        ),
{
    lemma_entry(*env, agreement_id);
}

/// The review window is the one that was set, and three days when none was,
/// whatever else the ledger holds.
pub proof fn law_review_limit_reading(env: &Env, limit: u64)
    requires
        call_ensures(DisputeEscalationContract::get_pending_review_time_limit, (env,), limit)
            || call_ensures(storage::get_pending_review_time_limit, (env,), limit),
    ensures
        env.storage.pending_review_time_limit matches Some(configured) ==> limit == configured,
        env.storage.pending_review_time_limit is None ==> limit == 259_200,
{
}

/// The window of a level is the one that was set for it, and seven days when none
/// was, whatever else the ledger holds.
pub proof fn law_level_limit_reading(env: &Env, level: EscalationLevel, limit: u64)
    requires
        call_ensures(storage::get_level_time_limit, (env, level), limit),
    ensures
        ({
            let configured = match level {
                EscalationLevel::Level1 => env.storage.level1_time_limit,
                EscalationLevel::Level2 => env.storage.level2_time_limit,
                EscalationLevel::Level3 => env.storage.level3_time_limit,
            };
            &&& configured matches Some(configured) ==> limit == configured
            &&& configured is None ==> limit == 604_800
        }),
{
    lemma_limits(*env);
}

/// The admin's part is the configured admin's alone; without one it is the owner's,
/// and no one's before there is an owner.
pub proof fn law_admin_reading(env: &Env, who: &Address, admin: bool)
    requires
        call_ensures(storage::is_admin, (env, who), admin),
    ensures
        env.storage.admin matches Some(configured) ==> admin == (configured.strkey@
            == who.strkey@),
        env.storage.admin is None ==> {
            &&& env.storage.owner matches Some(owner) ==> admin == (owner.strkey@ == who.strkey@)
            &&& env.storage.owner is None ==> !admin
        },
{
}

/// What filing wrote is what a reader gets: the caller as initiator and the reason
/// as it was given.
pub proof fn law_filing_is_read_back(
    env: &mut Env,
    caller: Address,
    agreement_id: u128,
    reason: DisputeReason,
    found: Option<DisputeDetails>,
)
    requires
        call_ensures(
            DisputeEscalationContract::file_dispute,
            (env, caller, agreement_id, reason),
            Ok(()),
        ),
        call_ensures(DisputeEscalationContract::get_dispute, (&*final(env), agreement_id), found),
    ensures
        found is Some,
        found->0.agreement_id == agreement_id,
        same_address(found->0.initiator, caller),
        same_reason(found->0.reason, reason),
        found->0.status is Open,
        found->0.outcome is Unset,
{
    law_filing(env, caller, agreement_id, reason, Ok(()));
    law_dispute_reading(&*final(env), agreement_id, found);
}

/// The outcome of a ruling is what a reader gets: at every level, the one that was
/// given.
pub proof fn law_ruling_is_read_back(
    env: &mut Env,
    caller: Address,
    agreement_id: u128,
    outcome: DisputeOutcome,
    found: Option<DisputeDetails>,
)
    requires
        call_ensures(
            DisputeEscalationContract::resolve_dispute,
            (env, caller, agreement_id, outcome),
            Ok(()),
        ),
        call_ensures(DisputeEscalationContract::get_dispute, (&*final(env), agreement_id), found),
    ensures
        found is Some,
        found->0.outcome == outcome,
        found->0.status is Finalised || found->0.status is Resolved,
        found->0.level == old(env).storage.disputes@[agreement_id].level,
{
    law_ruling(env, caller, agreement_id, outcome, Ok(()));
    law_dispute_reading(&*final(env), agreement_id, found);
}

// ---- asking beforehand ----------------------------------------------------

/// Asking beforehand gives the answer that filing then gives.
pub proof fn law_filing_check_foretells(
    env: &mut Env,
    caller: Address,
    agreement_id: u128,
    reason: DisputeReason,
    foretold: Result<(), DisputeError>,
    result: Result<(), DisputeError>,
)
    requires
        call_ensures(
            DisputeEscalationContract::check_filing,
            (&*env, agreement_id, &reason),
            foretold,
        ),
        call_ensures(
            DisputeEscalationContract::file_dispute,
            (env, caller, agreement_id, reason),
            result,
        ),
    ensures
        result == foretold,
{
}

/// Asking beforehand gives the error that escalation then gives or, where there is
/// none, the dispute as it stands and the tier it is then moved to.
pub proof fn law_escalation_check_foretells(
    env: &mut Env,
    caller: Address,
    agreement_id: u128,
    foretold: Result<(DisputeDetails, EscalationLevel), DisputeError>,
    result: Result<(), DisputeError>,
)
    requires
        call_ensures(
            DisputeEscalationContract::check_escalation,
            (&*env, agreement_id),
            foretold,
        ),
        call_ensures(
            DisputeEscalationContract::escalate_dispute,
            (env, caller, agreement_id),
            result,
        ),
    ensures
        match foretold {
            Ok((dispute, level)) => {
                &&& result is Ok
                &&& same_dispute(dispute, old(env).storage.disputes@[agreement_id])
                &&& final(env).storage.disputes@[agreement_id].level == level
            },
            Err(error) => result == Err::<(), _>(error),
        },
{
    law_escalation(env, caller, agreement_id, result);
    lemma_entry(*old(env), agreement_id);
}

/// Asking beforehand gives the error that a ruling then gives or, where there is
/// none, the dispute as it stands.
pub proof fn law_ruling_check_foretells(
    env: &mut Env,
    caller: Address,
    agreement_id: u128,
    outcome: DisputeOutcome,
    foretold: Result<DisputeDetails, DisputeError>,
    result: Result<(), DisputeError>,
)
    requires
        call_ensures(
            DisputeEscalationContract::check_ruling,
            (&*env, &caller, agreement_id, outcome),
            foretold,
        ),
        call_ensures(
            DisputeEscalationContract::resolve_dispute,
            (env, caller, agreement_id, outcome),
            result,
        ),
    ensures
        match foretold {
            Ok(dispute) => {
                &&& result is Ok
                &&& same_dispute(dispute, old(env).storage.disputes@[agreement_id])
            },
            Err(error) => result == Err::<(), _>(error),
        },
{
    lemma_entry(*old(env), agreement_id);
}

/// Asking beforehand gives the error that an appeal then gives or, where there is
/// none, the dispute as it stands and the tier it is then moved to.
pub proof fn law_appeal_check_foretells(
    env: &mut Env,
    caller: Address,
    agreement_id: u128,
    foretold: Result<(DisputeDetails, EscalationLevel), DisputeError>,
    result: Result<(), DisputeError>,
)
    requires
        call_ensures(DisputeEscalationContract::check_appeal, (&*env, agreement_id), foretold),
        call_ensures(
            DisputeEscalationContract::appeal_ruling,
            (env, caller, agreement_id),
            result,
        ),
    ensures
        match foretold {
            Ok((dispute, level)) => {
                &&& result is Ok
                &&& same_dispute(dispute, old(env).storage.disputes@[agreement_id])
                &&& final(env).storage.disputes@[agreement_id].level == level
            },
            Err(error) => result == Err::<(), _>(error),
        },
{
    law_appeal(env, caller, agreement_id, result);
    lemma_entry(*old(env), agreement_id);
}

/// A terminal dispute is refused by its status alone; any other passes.
pub proof fn law_terminal_check(dispute: &DisputeDetails, result: Result<(), DisputeError>)
    requires
        call_ensures(DisputeEscalationContract::assert_not_terminal, (dispute,), result),
    ensures
        dispute.status is Finalised <==> result == Err::<(), _>(DisputeError::AlreadyFinalised),
        dispute.status is Expired <==> result == Err::<(), _>(DisputeError::AlreadyTerminal),
        result is Ok <==> !(dispute.status is Finalised || dispute.status is Expired),
{
}

/// The ladder leads from Level1 to Level2 to Level3 and ends there.
pub proof fn law_ladder(
    first: Result<EscalationLevel, DisputeError>,
    second: Result<EscalationLevel, DisputeError>,
    third: Result<EscalationLevel, DisputeError>,
)
    requires
        call_ensures(DisputeEscalationContract::next_level, (&EscalationLevel::Level1,), first),
        call_ensures(DisputeEscalationContract::next_level, (&EscalationLevel::Level2,), second),
        call_ensures(DisputeEscalationContract::next_level, (&EscalationLevel::Level3,), third),
    ensures
        first == Ok::<_, DisputeError>(EscalationLevel::Level2),
        second == Ok::<_, DisputeError>(EscalationLevel::Level3),
        third == Err::<EscalationLevel, _>(DisputeError::MaxEscalationReached),
{
}

// ---- the entries ----------------------------------------------------------

/// Writing a dispute puts that record, field by field, under that agreement, and
/// does nothing else.
pub proof fn law_dispute_writing(env: &mut Env, agreement_id: u128, dispute: &DisputeDetails)
    requires
        call_ensures(storage::set_dispute, (env, agreement_id, dispute), ()),
    ensures
        final(env).storage.disputes@.contains_key(agreement_id),
        same_dispute(final(env).storage.disputes@[agreement_id], *dispute),
        forall|other: u128|
            other != agreement_id ==> #[trigger] same_entry(*old(env), *final(env), other),
        same_setting(*old(env), *final(env)),
        keeps_events(*old(env), *final(env)),
        final(env).events@.len() == old(env).events@.len(),
{
    let before = *old(env);
    let next = *final(env);
    lemma_entry(next, agreement_id);
    assert forall|other: u128| other != agreement_id implies #[trigger] same_entry(
        before,
        next,
        other,
    ) by {
        lemma_same_entry(before, next, other);
    }
    lemma_same_setting(before, next);
    assert(before@.events =~= next@.events.take(before@.events.len() as int));
    lemma_keeps_events(before, next);
    assert(next@.events.len() == next.events@.len());
}

/// Writing the limit of a level sets that one entry.
pub proof fn law_level_limit_writing(env: &mut Env, level: EscalationLevel, limit_seconds: u64)
    requires
        call_ensures(storage::set_level_time_limit, (env, level, limit_seconds), ()),
    ensures
        ({
            let before = old(env).storage;
            let next = final(env).storage;
            &&& next.level1_time_limit == if level is Level1 {
                Some(limit_seconds)
            } else {
                before.level1_time_limit
            }
            &&& next.level2_time_limit == if level is Level2 {
                Some(limit_seconds)
            } else {
                before.level2_time_limit
            }
            &&& next.level3_time_limit == if level is Level3 {
                Some(limit_seconds)
            } else {
                before.level3_time_limit
            }
            &&& next.pending_review_time_limit == before.pending_review_time_limit
            &&& same_holder(before.owner, next.owner)
            &&& same_holder(before.admin, next.admin)
            &&& final(env).timestamp == old(env).timestamp
            &&& same_auths(*old(env), *final(env))
            &&& same_proceedings(*old(env), *final(env))
        }),
{
    lemma_limits(*old(env));
    lemma_limits(*final(env));
    lemma_same_auths(*old(env), *final(env));
    lemma_same_proceedings(*old(env), *final(env));
}

/// Writing the review limit sets that one entry.
pub proof fn law_review_limit_writing(env: &mut Env, limit_seconds: u64)
    requires
        call_ensures(storage::set_pending_review_time_limit, (env, limit_seconds), ()),
    ensures
        ({
            let before = old(env).storage;
            let next = final(env).storage;
            &&& next.pending_review_time_limit == Some(limit_seconds)
            &&& next.level1_time_limit == before.level1_time_limit
            &&& next.level2_time_limit == before.level2_time_limit
            &&& next.level3_time_limit == before.level3_time_limit
            &&& same_holder(before.owner, next.owner)
            &&& same_holder(before.admin, next.admin)
            &&& final(env).timestamp == old(env).timestamp
            &&& same_auths(*old(env), *final(env))
            &&& same_proceedings(*old(env), *final(env))
        }),
{
    lemma_same_limits(*old(env), *final(env));
    lemma_same_auths(*old(env), *final(env));
    lemma_same_proceedings(*old(env), *final(env));
}

// ---- the ledger -----------------------------------------------------------

/// A new ledger shows the time given and holds no role, dispute, limit,
/// authorisation or event.
pub proof fn law_new_ledger(timestamp: u64, env: Env)
    requires
        call_ensures(Env::new, (timestamp,), env),
    ensures
        env.timestamp == timestamp,
        env.storage.owner is None,
        env.storage.admin is None,
        forall|agreement_id: u128| !#[trigger] env.storage.disputes@.contains_key(agreement_id),
        env.storage.level1_time_limit is None,
        env.storage.level2_time_limit is None,
        env.storage.level3_time_limit is None,
        env.storage.pending_review_time_limit is None,
        env.auths@.len() == 0,
        env.events@.len() == 0,
{
    lemma_limits(env);
    assert forall|agreement_id: u128|
        !#[trigger] env.storage.disputes@.contains_key(agreement_id) by {
        lemma_entry(env, agreement_id);
    }
    assert(env@.auths.len() == env.auths@.len());
    assert(env@.events.len() == env.events@.len());
}

/// The address is among those that authorised the call.
pub open spec fn authorised(env: Env, who: Address) -> bool {
    exists|i: int|
        0 <= i < env.auths@.len() && (#[trigger] env.auths@[i]).strkey@ == who.strkey@
}

proof fn lemma_authorised(env: Env, who: Address)
    ensures
        env@.authenticated(who@) == authorised(env, who),
{
    assert(env@.auths.len() == env.auths@.len());
    if env@.authenticated(who@) {
        let i = choose|i: int| 0 <= i < env@.auths.len() && env@.auths[i] == who@;
        assert(env.auths@[i].strkey@ == who.strkey@);
    }
    if authorised(env, who) {
        let i = choose|i: int|
            0 <= i < env.auths@.len() && (#[trigger] env.auths@[i]).strkey@ == who.strkey@;
        assert(env@.auths[i] == who@);
    }
}

/// An address counts as having authorised the call exactly when it is among those
/// that did.
pub proof fn law_authorisation_reading(env: &Env, who: &Address, found: bool)
    requires
        call_ensures(Env::is_authenticated, (env, who), found),
    ensures
        found <==> exists|i: int|
            0 <= i < env.auths@.len() && (#[trigger] env.auths@[i]).strkey@ == who.strkey@,
{
    lemma_authorised(*env, *who);
}

/// Noting an authorisation adds the address to those that had authorised the call,
/// and does nothing else.
pub proof fn law_authorisation(env: &mut Env, who: &Address)
    requires
        call_ensures(Env::authenticate, (env, who), ()),
    ensures
        final(env).auths@.len() == old(env).auths@.len() + 1,
        same_address(final(env).auths@.last(), *who),
        forall|i: int|
            0 <= i < old(env).auths@.len() ==> same_address(
                old(env).auths@[i],
                #[trigger] final(env).auths@[i],
            ),
        final(env).timestamp == old(env).timestamp,
        same_holder(old(env).storage.owner, final(env).storage.owner),
        same_holder(old(env).storage.admin, final(env).storage.admin),
        final(env).storage.level1_time_limit == old(env).storage.level1_time_limit,
        final(env).storage.level2_time_limit == old(env).storage.level2_time_limit,
        final(env).storage.level3_time_limit == old(env).storage.level3_time_limit,
        final(env).storage.pending_review_time_limit
            == old(env).storage.pending_review_time_limit,
        same_proceedings(*old(env), *final(env)),
{
    let before = *old(env);
    let next = *final(env);
    assert(before@.auths.len() == before.auths@.len());
    assert(next@.auths.len() == next.auths@.len());
    assert(next@.auths.last() == who@);
    assert forall|i: int| 0 <= i < before.auths@.len() implies same_address(
        before.auths@[i],
        #[trigger] next.auths@[i],
    ) by {
        assert(before@.auths[i] == next@.auths[i]);
    }
    lemma_same_limits(before, next);
    lemma_same_proceedings(before, next);
}

/// A window fits when it ends at a time that 64 bits can hold.
pub proof fn law_window_check(env: &Env, limit: u64, fits: bool)
    requires
        call_ensures(Env::fits_window, (env, limit), fits),
    ensures
        fits <==> env.timestamp + limit <= 0xffff_ffff_ffff_ffff,
{
}

/// Publishing puts the event, as it is, behind those published before, and does
/// nothing else.
pub proof fn law_publishing(env: &mut Env, event: DisputeEvent)
    requires
        call_ensures(Env::publish, (env, event), ()),
    ensures
        final(env).events@.len() == old(env).events@.len() + 1,
        same_event(final(env).events@.last(), event),
        keeps_events(*old(env), *final(env)),
        same_setting(*old(env), *final(env)),
        same_disputes(*old(env), *final(env)),
{
    let before = *old(env);
    let next = *final(env);
    assert(before@.events =~= next@.events.take(before@.events.len() as int));
    lemma_keeps_events(before, next);
    assert(next@.events.len() == next.events@.len());
    assert(next@.events.last() == next.events@.last()@);
    lemma_same_setting(before, next);
    assert forall|agreement_id: u128| #[trigger] same_entry(before, next, agreement_id) by {
        lemma_same_entry(before, next, agreement_id);
    }
}

/// Two addresses are the same when their texts are.
pub proof fn law_address_comparison(one: &Address, other: &Address, same: bool)
    requires
        call_ensures(Address::same_as, (one, other), same),
    ensures
        same <==> one.strkey@ == other.strkey@,
{
}

/// A copy agrees with what was copied in every field.
pub proof fn law_copies(
    address: &Address,
    address_copy: Address,
    reason: &DisputeReason,
    reason_copy: DisputeReason,
    dispute: &DisputeDetails,
    dispute_copy: DisputeDetails,
)
    ensures
        call_ensures(Address::clone, (address,), address_copy) ==> same_address(
            address_copy,
            *address,
        ),
        call_ensures(DisputeReason::clone, (reason,), reason_copy) ==> same_reason(
            reason_copy,
            *reason,
        ),
        call_ensures(DisputeDetails::clone, (dispute,), dispute_copy) ==> same_dispute(
            dispute_copy,
            *dispute,
        ),
{
}

// ---- topics ---------------------------------------------------------------

/// The topic of an event is decided by its kind alone: a ruling that may still be
/// appealed is never published as a final one, at any level and with any outcome.
pub proof fn law_topic(event: &DisputeEvent, topic: &'static str)
    requires
        call_ensures(DisputeEvent::topic, (event,), topic),
    ensures
        event is Filed <==> topic@ == "dispute_filed"@,
        event is Escalated <==> topic@ == "dispute_escalated"@,
        event is SlaBreached <==> topic@ == "dispute_sla_breached"@,
        event is Resolved <==> topic@ == "dispute_resolved"@,
        event is Finalised <==> topic@ == "dispute_finalised"@,
        event is Appealed <==> topic@ == "dispute_appealed"@,
        event is Expired <==> topic@ == "dispute_expired"@,
{
    lemma_topics_differ();
}

/// A ruling that is carried out is published under "dispute_finalised" exactly when
/// it was made at Level3, and else under "dispute_resolved".
pub proof fn law_topic_of_a_ruling(
    env: &mut Env,
    caller: Address,
    agreement_id: u128,
    outcome: DisputeOutcome,
    topic: &'static str,
)
    requires
        call_ensures(
            DisputeEscalationContract::resolve_dispute,
            (env, caller, agreement_id, outcome),
            Ok(()),
        ),
        call_ensures(DisputeEvent::topic, (&final(env).events@.last(),), topic),
    ensures
        ({
            let top = old(env).storage.disputes@[agreement_id].level is Level3;
            &&& topic@ == "dispute_finalised"@ <==> top
            &&& topic@ == "dispute_resolved"@ <==> !top
        }),
{
    law_ruling(env, caller, agreement_id, outcome, Ok(()));
    law_topic(&final(env).events@.last(), topic);
}

// ---- calls and histories --------------------------------------------------

/// Each call answers and leaves the ledger as histories say it does, so that what
/// holds of all histories holds of all calls.
pub proof fn law_histories_tell_of_calls(
    env: &mut Env,
    caller: Address,
    admin: Address,
    agreement_id: u128,
    reason: DisputeReason,
    outcome: DisputeOutcome,
    level: EscalationLevel,
    limit_seconds: u64,
    result: Result<(), DisputeError>,
)
    ensures
        call_ensures(DisputeEscalationContract::initialize, (env, caller, admin), ())
            ==> final(env)@ == after(
            old(env)@,
            Call::Initialize { owner: caller@, admin: admin@ },
        ),
        call_ensures(
            DisputeEscalationContract::file_dispute,
            (env, caller, agreement_id, reason),
            result,
        ) ==> {
            let call = Call::File { caller: caller@, agreement_id, reason: reason@ };
            result == answer(old(env)@, call) && final(env)@ == after(old(env)@, call)
        },
        call_ensures(
            DisputeEscalationContract::escalate_dispute,
            (env, caller, agreement_id),
            result,
        ) ==> {
            let call = Call::Escalate { caller: caller@, agreement_id };
            result == answer(old(env)@, call) && final(env)@ == after(old(env)@, call)
        },
        call_ensures(
            DisputeEscalationContract::keeper_advance_stage,
            (env, caller, agreement_id),
            result,
        ) ==> {
            let call = Call::KeeperAdvance { caller: caller@, agreement_id };
            result == answer(old(env)@, call) && final(env)@ == after(old(env)@, call)
        },
        call_ensures(
            DisputeEscalationContract::resolve_dispute,
            (env, caller, agreement_id, outcome),
            result,
        ) ==> {
            let call = Call::Resolve { caller: caller@, agreement_id, outcome };
            result == answer(old(env)@, call) && final(env)@ == after(old(env)@, call)
        },
        call_ensures(
            DisputeEscalationContract::appeal_ruling,
            (env, caller, agreement_id),
            result,
        ) ==> {
            let call = Call::Appeal { caller: caller@, agreement_id };
            result == answer(old(env)@, call) && final(env)@ == after(old(env)@, call)
        },
        call_ensures(
            DisputeEscalationContract::expire_dispute,
            (env, caller, agreement_id),
            result,
        ) ==> {
            let call = Call::Expire { caller: caller@, agreement_id };
            result == answer(old(env)@, call) && final(env)@ == after(old(env)@, call)
        },
        call_ensures(
            DisputeEscalationContract::set_level_time_limit,
            (env, caller, level, limit_seconds),
            result,
        ) ==> {
            let call = Call::SetLevelLimit {
                caller: caller@,
                level,
                limit: limit_seconds as nat,
            };
            result == answer(old(env)@, call) && final(env)@ == after(old(env)@, call)
        },
        call_ensures(
            DisputeEscalationContract::set_pending_review_time_limit,
            (env, caller, limit_seconds),
            result,
        ) ==> {
            let call = Call::SetReviewLimit { caller: caller@, limit: limit_seconds as nat };
            result == answer(old(env)@, call) && final(env)@ == after(old(env)@, call)
        },
{
}

/// Every call that its caller authorised may be made, unless it would open a window
/// that does not end within the ledger's clock. A keeper's step is answered there;
/// expiry, configuration, a ruling at Level3 and a refused call open no window.
pub proof fn law_authorised_calls_may_be_made(
    env: &mut Env,
    caller: Address,
    admin: Address,
    agreement_id: u128,
    reason: DisputeReason,
    outcome: DisputeOutcome,
    level: EscalationLevel,
    limit_seconds: u64,
)
    requires
        authorised(*old(env), caller),
    ensures
        call_requires(DisputeEscalationContract::initialize, (env, caller, admin)),
        call_requires(DisputeEscalationContract::keeper_advance_stage, (env, caller, agreement_id)),
        call_requires(DisputeEscalationContract::expire_dispute, (env, caller, agreement_id)),
        call_requires(
            DisputeEscalationContract::set_level_time_limit,
            (env, caller, level, limit_seconds),
        ),
        call_requires(
            DisputeEscalationContract::set_pending_review_time_limit,
            (env, caller, limit_seconds),
        ),
        ({
            let known = old(env).storage.disputes@.contains_key(agreement_id);
            let dispute = old(env).storage.disputes@[agreement_id];
            let ruled = dispute.status is Resolved || dispute.status is Finalised
                || dispute.status is Expired;
            ||| old(env).timestamp + 259_200 <= u64::MAX
            ||| !holds_admin_role(*old(env), caller)
            ||| outcome is Unset
            ||| !known
            ||| ruled
            ||| dispute.level is Level3
        }) ==> call_requires(
            DisputeEscalationContract::resolve_dispute,
            (env, caller, agreement_id, outcome),
        ),
        ({
            let first = old(env).timestamp + match old(env).storage.level1_time_limit {
                Some(limit) => limit as int,
                None => 604_800int,
            };
            ||| first <= u64::MAX
            ||| old(env).storage.disputes@.contains_key(agreement_id)
            ||| reason matches DisputeReason::Other(text) && text@.len() > 256
        }) ==> call_requires(
            DisputeEscalationContract::file_dispute,
            (env, caller, agreement_id, reason),
        ),
        ({
            let known = old(env).storage.disputes@.contains_key(agreement_id);
            let dispute = old(env).storage.disputes@[agreement_id];
            let late = old(env).timestamp > dispute.phase_deadline;
            let active = dispute.status is Open || dispute.status is Escalated
                || dispute.status is Appealed;
            let second = old(env).timestamp + match old(env).storage.level2_time_limit {
                Some(limit) => limit as int,
                None => 604_800int,
            };
            let third = old(env).timestamp + match old(env).storage.level3_time_limit {
                Some(limit) => limit as int,
                None => 604_800int,
            };
            let fits = match dispute.level {
                EscalationLevel::Level1 => second <= u64::MAX,
                EscalationLevel::Level2 => third <= u64::MAX,
                EscalationLevel::Level3 => true,
            };
            &&& fits || !known || late || !active ==> call_requires(
                DisputeEscalationContract::escalate_dispute,
                (env, caller, agreement_id),
            )
            &&& fits || !known || late || !(dispute.status is Resolved) ==> call_requires(
                DisputeEscalationContract::appeal_ruling,
                (env, caller, agreement_id),
            )
        }),
{
    lemma_authorised(*old(env), caller);
    lemma_limits(*old(env));
    lemma_entry(*old(env), agreement_id);
}

} // verus!
