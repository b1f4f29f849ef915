//! The dispute contract's calls.

use vstd::prelude::*;

use crate::env::{Env, EnvView};
use crate::events::{
    DisputeAppealedEvent, DisputeEscalatedEvent, DisputeEvent, DisputeExpiredEvent,
    DisputeFiledEvent, DisputeFinalisedEvent, DisputeResolvedEvent, DisputeSlaBreachedEvent,
};
use crate::rules::{
    after_appeal, after_escalate, after_expire, after_file, after_keeper, after_resolve,
    after_set_level_limit, after_set_review_limit, appeal_refusal, configure_refusal,
    escalate_refusal, expire_refusal, file_refusal, keeper_refusal, resolve_refusal, window_fits,
};
use crate::storage;
use crate::types::{
    answer_to, Address, DisputeDetails, DisputeError, DisputeOutcome, DisputeReason,
    DisputeStatus, EscalationLevel, APPEAL_WINDOW, MAX_OTHER_REASON_LEN,
};

verus! {

/// The dispute escalation contract. It holds nothing itself: each call works
/// on the ledger that it is given.
#[derive(Clone, Copy, Debug, PartialEq, Eq)]
pub struct DisputeEscalationContract;

impl DisputeEscalationContract {
    /// Sets the owner (the upgrade authority) and the admin (who rules on
    /// disputes and sets time limits). The owner must have authorised the call.
    pub fn initialize(env: &mut Env, owner: Address, admin: Address)
        requires
            old(env)@.authenticated(owner@),
        ensures
            final(env)@ == (EnvView { owner: Some(owner@), admin: Some(admin@), ..old(env)@ }),
    {
        env.storage.owner = Some(owner);
        env.storage.admin = Some(admin);
        assert(env@.level_limits =~= old(env)@.level_limits);
    }

    /// Opens a dispute at Level1 for an agreement that has none. Its window
    /// starts at once.
    ///
    /// Errors: `ReasonTooLong`, `InvalidTransition` (the agreement already has
    /// a dispute).
    pub fn file_dispute(
        env: &mut Env,
        caller: Address,
        agreement_id: u128,
        reason: DisputeReason,
    ) -> (result: Result<(), DisputeError>)
        requires
            old(env)@.authenticated(caller@),
            file_refusal(old(env)@, agreement_id, reason@) is None ==> window_fits(
                old(env)@,
                old(env)@.level_time_limit(EscalationLevel::Level1),
            ),
        ensures
            result == answer_to(file_refusal(old(env)@, agreement_id, reason@)),
            final(env)@ == after_file(old(env)@, caller@, agreement_id, reason@),
    {
        match Self::check_filing(env, agreement_id, &reason) {
            Ok(()) => {},
            Err(error) => return Err(error),
        }
        let time_limit: u64 = storage::get_level_time_limit(env, EscalationLevel::Level1);
        let now: u64 = env.timestamp;
        let deadline: u64 = now + time_limit;
        let dispute = DisputeDetails {
            agreement_id,
            initiator: caller.clone(),
            status: DisputeStatus::Open,
            level: EscalationLevel::Level1,
            phase_started_at: now,
            phase_deadline: deadline,
            outcome: DisputeOutcome::Unset,
            reason: reason.clone(),
        };
        storage::set_dispute(env, agreement_id, &dispute);
        env.publish(
            DisputeEvent::Filed(
                DisputeFiledEvent {
                    agreement_id,
                    initiator: caller,
                    level: EscalationLevel::Level1,
                    phase_deadline: deadline,
                    reason,
                },
            ),
        );
        Ok(())
    }

    /// Whether `file_dispute` would now go through.
    pub fn check_filing(env: &Env, agreement_id: u128, reason: &DisputeReason) -> (result: Result<
        (),
        DisputeError,
    >)
        ensures
            result == answer_to(file_refusal(env@, agreement_id, reason@)),
    {
        if let DisputeReason::Other(text) = reason {
            if text.len() > MAX_OTHER_REASON_LEN as usize {
                return Err(DisputeError::ReasonTooLong);
            }
        }
        if storage::get_dispute(env, agreement_id).is_some() {
            return Err(DisputeError::InvalidTransition);
        }
        Ok(())
    }

    /// Moves an active dispute up one tier, while its window is running. The
    /// new tier's window starts at once. Anyone may call this.
    ///
    /// Errors: `DisputeNotFound`, `AlreadyFinalised`, `AlreadyTerminal`,
    /// `AlreadyResolved`, `InvalidTransition` (the dispute awaits review),
    /// `TimeLimitExpired`, `MaxEscalationReached`.
    pub fn escalate_dispute(env: &mut Env, caller: Address, agreement_id: u128) -> (result: Result<
        (),
        DisputeError,
    >)
        requires
            old(env)@.authenticated(caller@),
            escalate_refusal(old(env)@, agreement_id) is None ==> window_fits(
                old(env)@,
                old(env)@.level_time_limit(old(env)@.disputes[agreement_id].level.above()->0),
            ),
        ensures
            result == answer_to(escalate_refusal(old(env)@, agreement_id)),
            final(env)@ == after_escalate(old(env)@, agreement_id),
    {
        let (mut dispute, next_level): (DisputeDetails, EscalationLevel) =
            match Self::check_escalation(env, agreement_id) {
            Ok(found) => found,
            Err(error) => return Err(error),
        };
        let now: u64 = env.timestamp;
        let new_limit: u64 = storage::get_level_time_limit(env, next_level);
        let deadline: u64 = now + new_limit;

        dispute.level = next_level;
        dispute.status = DisputeStatus::Escalated;
        dispute.phase_started_at = now;
        dispute.phase_deadline = deadline;

        storage::set_dispute(env, agreement_id, &dispute);
        env.publish(
            DisputeEvent::Escalated(
                DisputeEscalatedEvent {
                    agreement_id,
                    new_level: next_level,
                    phase_deadline: deadline,
                },
            ),
        );
        Ok(())
    }

    /// The dispute that `escalate_dispute` would now move, and the tier it
    /// would move it to.
    pub fn check_escalation(env: &Env, agreement_id: u128) -> (result: Result<
        (DisputeDetails, EscalationLevel),
        DisputeError,
    >)
        ensures
            match result {
                Ok((dispute, next_level)) => {
                    &&& escalate_refusal(env@, agreement_id) is None
                    &&& env@.dispute(agreement_id) == Some(dispute@)
                    &&& dispute@.level.above() == Some(next_level)
                },
                Err(error) => escalate_refusal(env@, agreement_id) == Some(error),
            },
    {
        let dispute: DisputeDetails = match storage::get_dispute(env, agreement_id) {
            Some(dispute) => dispute,
            None => return Err(DisputeError::DisputeNotFound),
        };
        match Self::assert_not_terminal(&dispute) {
            Ok(()) => {},
            Err(error) => return Err(error),
        }
        if dispute.status == DisputeStatus::Resolved {
            return Err(DisputeError::AlreadyResolved);
        }
        // The window was already declared lapsed.
        if dispute.status == DisputeStatus::PendingReview {
            return Err(DisputeError::InvalidTransition);
        }
        if env.timestamp > dispute.phase_deadline {
            return Err(DisputeError::TimeLimitExpired);
        }
        match Self::next_level(&dispute.level) {
            Ok(next_level) => Ok((dispute, next_level)),
            Err(error) => Err(error),
        }
    }

    /// Puts an active dispute whose deadline has passed before the admin, who
    /// then has the review window to rule. Anyone may call this, once.
    ///
    /// Errors: `DisputeNotFound`, `AlreadyFinalised`, `AlreadyTerminal`,
    /// `AlreadyResolved`, `AlreadyPendingReview`, `DeadlineNotPassed`,
    /// `SlaDeadlineOverflow`.
    pub fn keeper_advance_stage(env: &mut Env, caller: Address, agreement_id: u128) -> (result:
        Result<(), DisputeError>)
        requires
            old(env)@.authenticated(caller@),
        ensures
            result == answer_to(keeper_refusal(old(env)@, agreement_id)),
            final(env)@ == after_keeper(old(env)@, agreement_id),
    {
        let mut dispute: DisputeDetails = match storage::get_dispute(env, agreement_id) {
            Some(dispute) => dispute,
            None => return Err(DisputeError::DisputeNotFound),
        };
        match Self::assert_not_terminal(&dispute) {
            Ok(()) => {},
            Err(error) => return Err(error),
        }
        // A ruling has its own appeal window; a keeper has no part in it.
        if dispute.status == DisputeStatus::Resolved {
            return Err(DisputeError::AlreadyResolved);
        }
        if dispute.status == DisputeStatus::PendingReview {
            return Err(DisputeError::AlreadyPendingReview);
        }
        let now: u64 = env.timestamp;
        if now <= dispute.phase_deadline {
            return Err(DisputeError::DeadlineNotPassed);
        }
        let review_limit: u64 = storage::get_pending_review_time_limit(env);
        let review_deadline: u64 = match now.checked_add(review_limit) {
            Some(deadline) => deadline,
            None => return Err(DisputeError::SlaDeadlineOverflow),
        };

        dispute.status = DisputeStatus::PendingReview;
        dispute.phase_started_at = now;
        dispute.phase_deadline = review_deadline;

        storage::set_dispute(env, agreement_id, &dispute);
        env.publish(
            DisputeEvent::SlaBreached(
                DisputeSlaBreachedEvent {
                    agreement_id,
                    level: dispute.level,
                    breached_at: now,
                    review_deadline,
                },
            ),
        );
        Ok(())
    }

    /// The admin rules on a dispute. At Level1 and Level2 the ruling may be
    /// appealed for three days; at Level3 it is final.
    ///
    /// Errors: `Unauthorized`, `InvalidTransition` (`outcome` is `Unset`),
    /// `DisputeNotFound`, `AlreadyFinalised`, `AlreadyTerminal`,
    /// `AlreadyResolved`.
    pub fn resolve_dispute(
        env: &mut Env,
        caller: Address,
        agreement_id: u128,
        outcome: DisputeOutcome,
    ) -> (result: Result<(), DisputeError>)
        requires
            old(env)@.authenticated(caller@),
            resolve_refusal(old(env)@, caller@, agreement_id, outcome) is None
                && !(old(env)@.disputes[agreement_id].level is Level3) ==> window_fits(
                old(env)@,
                APPEAL_WINDOW as nat,
            ),
        ensures
            result == answer_to(resolve_refusal(old(env)@, caller@, agreement_id, outcome)),
            final(env)@ == after_resolve(old(env)@, caller@, agreement_id, outcome),
    {
        let mut dispute: DisputeDetails = match Self::check_ruling(
            env,
            &caller,
            agreement_id,
            outcome,
        ) {
            Ok(dispute) => dispute,
            Err(error) => return Err(error),
        };
        let now: u64 = env.timestamp;
        dispute.outcome = outcome;
        dispute.phase_started_at = now;

        if dispute.level == EscalationLevel::Level3 {
            dispute.status = DisputeStatus::Finalised;
            dispute.phase_deadline = now;
            storage::set_dispute(env, agreement_id, &dispute);
            env.publish(DisputeEvent::Finalised(DisputeFinalisedEvent { agreement_id, outcome }));
        } else {
            let appeal_deadline: u64 = now + APPEAL_WINDOW;
            dispute.status = DisputeStatus::Resolved;
            dispute.phase_deadline = appeal_deadline;
            storage::set_dispute(env, agreement_id, &dispute);
            env.publish(
                DisputeEvent::Resolved(
                    DisputeResolvedEvent {
                        agreement_id,
                        level: dispute.level,
                        outcome,
                        appeal_deadline,
                    },
                ),
            );
        }
        Ok(())
    }

    /// The dispute on which `resolve_dispute` would now rule.
    pub fn check_ruling(
        env: &Env,
        caller: &Address,
        agreement_id: u128,
        outcome: DisputeOutcome,
    ) -> (result: Result<DisputeDetails, DisputeError>)
        ensures
            match result {
                Ok(dispute) => {
                    &&& resolve_refusal(env@, caller@, agreement_id, outcome) is None
                    &&& env@.dispute(agreement_id) == Some(dispute@)
                },
                Err(error) => resolve_refusal(env@, caller@, agreement_id, outcome) == Some(error),
            },
    {
        if !storage::is_admin(env, caller) {
            return Err(DisputeError::Unauthorized);
        }
        if outcome == DisputeOutcome::Unset {
            return Err(DisputeError::InvalidTransition);
        }
        let dispute: DisputeDetails = match storage::get_dispute(env, agreement_id) {
            Some(dispute) => dispute,
            None => return Err(DisputeError::DisputeNotFound),
        };
        match Self::assert_not_terminal(&dispute) {
            Ok(()) => {},
            Err(error) => return Err(error),
        }
        if dispute.status == DisputeStatus::Resolved {
            return Err(DisputeError::AlreadyResolved);
        }
        Ok(dispute)
    }

    /// Appeals a Level1 or Level2 ruling to the next tier, within its appeal
    /// window. The ruling is withdrawn, the caller becomes the initiator, and
    /// the new tier's window starts at once.
    ///
    /// Errors: `DisputeNotFound`, `AlreadyFinalised`, `AlreadyTerminal`,
    /// `InvalidTransition` (there is no ruling), `TimeLimitExpired`,
    /// `MaxEscalationReached`.
    pub fn appeal_ruling(env: &mut Env, caller: Address, agreement_id: u128) -> (result: Result<
        (),
        DisputeError,
    >)
        requires
            old(env)@.authenticated(caller@),
            appeal_refusal(old(env)@, agreement_id) is None ==> window_fits(
                old(env)@,
                old(env)@.level_time_limit(old(env)@.disputes[agreement_id].level.above()->0),
            ),
        ensures
            result == answer_to(appeal_refusal(old(env)@, agreement_id)),
            final(env)@ == after_appeal(old(env)@, caller@, agreement_id),
    {
        let (mut dispute, next_level): (DisputeDetails, EscalationLevel) =
            match Self::check_appeal(env, agreement_id) {
            Ok(found) => found,
            Err(error) => return Err(error),
        };
        let now: u64 = env.timestamp;
        let new_limit: u64 = storage::get_level_time_limit(env, next_level);
        let deadline: u64 = now + new_limit;

        dispute.level = next_level;
        dispute.status = DisputeStatus::Appealed;
        dispute.initiator = caller.clone();
        dispute.outcome = DisputeOutcome::Unset;
        dispute.phase_started_at = now;
        dispute.phase_deadline = deadline;

        storage::set_dispute(env, agreement_id, &dispute);
        env.publish(
            DisputeEvent::Appealed(
                DisputeAppealedEvent {
                    agreement_id,
                    appellant: caller,
                    new_level: next_level,
                    phase_deadline: deadline,
                },
            ),
        );
        Ok(())
    }

    /// The dispute whose ruling `appeal_ruling` would now take up, and the
    /// tier it would take it to.
    pub fn check_appeal(env: &Env, agreement_id: u128) -> (result: Result<
        (DisputeDetails, EscalationLevel),
        DisputeError,
    >)
        ensures
            match result {
                Ok((dispute, next_level)) => {
                    &&& appeal_refusal(env@, agreement_id) is None
                    &&& env@.dispute(agreement_id) == Some(dispute@)
                    &&& dispute@.level.above() == Some(next_level)
                },
                Err(error) => appeal_refusal(env@, agreement_id) == Some(error),
            },
    {
        let dispute: DisputeDetails = match storage::get_dispute(env, agreement_id) {
            Some(dispute) => dispute,
            None => return Err(DisputeError::DisputeNotFound),
        };
        match Self::assert_not_terminal(&dispute) {
            Ok(()) => {},
            Err(error) => return Err(error),
        }
        if dispute.status != DisputeStatus::Resolved {
            return Err(DisputeError::InvalidTransition);
        }
        if env.timestamp > dispute.phase_deadline {
            return Err(DisputeError::TimeLimitExpired);
        }
        match Self::next_level(&dispute.level) {
            Ok(next_level) => Ok((dispute, next_level)),
            Err(error) => Err(error),
        }
    }

    /// Closes, without a ruling, a dispute whose deadline has passed. Anyone
    /// may call this, so that no dispute stays open for ever. The missed
    /// deadline stays on record.
    ///
    /// Errors: `DisputeNotFound`, `AlreadyFinalised`, `AlreadyTerminal`,
    /// `AlreadyResolved`, `DeadlineNotPassed`.
    pub fn expire_dispute(env: &mut Env, caller: Address, agreement_id: u128) -> (result: Result<
        (),
        DisputeError,
    >)
        requires
            old(env)@.authenticated(caller@),
        ensures
            result == answer_to(expire_refusal(old(env)@, agreement_id)),
            final(env)@ == after_expire(old(env)@, agreement_id),
    {
        let mut dispute: DisputeDetails = match storage::get_dispute(env, agreement_id) {
            Some(dispute) => dispute,
            None => return Err(DisputeError::DisputeNotFound),
        };
        match Self::assert_not_terminal(&dispute) {
            Ok(()) => {},
            Err(error) => return Err(error),
        }
        if dispute.status == DisputeStatus::Resolved {
            return Err(DisputeError::AlreadyResolved);
        }
        let now: u64 = env.timestamp;
        if now <= dispute.phase_deadline {
            return Err(DisputeError::DeadlineNotPassed);
        }
        dispute.status = DisputeStatus::Expired;
        dispute.phase_started_at = now;
        storage::set_dispute(env, agreement_id, &dispute);
        env.publish(DisputeEvent::Expired(DisputeExpiredEvent { agreement_id }));
        Ok(())
    }

    /// The admin sets the window of a level. It counts for phases that begin
    /// from now on; running deadlines stay.
    ///
    /// Errors: `Unauthorized`.
    pub fn set_level_time_limit(
        env: &mut Env,
        caller: Address,
        level: EscalationLevel,
        limit_seconds: u64,
    ) -> (result: Result<(), DisputeError>)
        requires
            old(env)@.authenticated(caller@),
        ensures
            result == answer_to(configure_refusal(old(env)@, caller@)),
            final(env)@ == after_set_level_limit(
                old(env)@,
                caller@,
                level,
                limit_seconds as nat,
            ),
    {
        if !storage::is_admin(env, &caller) {
            return Err(DisputeError::Unauthorized);
        }
        storage::set_level_time_limit(env, level, limit_seconds);
        Ok(())
    }

    /// The admin sets the review window. It counts for reviews that begin from
    /// now on; running deadlines stay.
    ///
    /// Errors: `Unauthorized`.
    pub fn set_pending_review_time_limit(
        env: &mut Env,
        caller: Address,
        limit_seconds: u64,
    ) -> (result: Result<(), DisputeError>)
        requires
            old(env)@.authenticated(caller@),
        ensures
            result == answer_to(configure_refusal(old(env)@, caller@)),
            final(env)@ == after_set_review_limit(old(env)@, caller@, limit_seconds as nat),
    {
        if !storage::is_admin(env, &caller) {
            return Err(DisputeError::Unauthorized);
        }
        storage::set_pending_review_time_limit(env, limit_seconds);
        Ok(())
    }

    /// The dispute on record for an agreement, if there is one.
    pub fn get_dispute(env: &Env, agreement_id: u128) -> (dispute: Option<DisputeDetails>)
        ensures
            match dispute {
                Some(dispute) => env@.dispute(agreement_id) == Some(dispute@),
                None => env@.dispute(agreement_id) is None,
            },
    {
        storage::get_dispute(env, agreement_id)
    }

    /// The admin-review window, in seconds; three days unless configured.
    pub fn get_pending_review_time_limit(env: &Env) -> (limit: u64)
        ensures
            limit == env@.pending_review_time_limit(),
    {
        storage::get_pending_review_time_limit(env)
    }

    /// Refuses a terminal dispute: `AlreadyFinalised` or `AlreadyTerminal`.
    pub fn assert_not_terminal(dispute: &DisputeDetails) -> (result: Result<(), DisputeError>)
        ensures
            result == answer_to(dispute@.terminal_refusal()),
    {
        match dispute.status {
            DisputeStatus::Finalised => Err(DisputeError::AlreadyFinalised),
            DisputeStatus::Expired => Err(DisputeError::AlreadyTerminal),
            _ => Ok(()),
        }
    }

    /// The tier above; Level3 has none. Each tier is decided on its own: a new
    /// one must be given its arm here.
    pub fn next_level(level: &EscalationLevel) -> (result: Result<EscalationLevel, DisputeError>)
        ensures
            result == match level.above() {
                Some(next_level) => Ok(next_level),
                None => Err(DisputeError::MaxEscalationReached),
            },
    {
        match level {
            EscalationLevel::Level1 => Ok(EscalationLevel::Level2),
            EscalationLevel::Level2 => Ok(EscalationLevel::Level3),
            EscalationLevel::Level3 => Err(DisputeError::MaxEscalationReached),
        }
    }
}

} // verus!
