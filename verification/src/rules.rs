//! The rules of the dispute lifecycle, stated on the ledger's mathematical form.
//!
//! For each call, `*_refusal` says with which error it is refused, if with any,
//! and `after_*` says what the ledger holds once it has been answered. A
//! refused call leaves the ledger as it was.

use vstd::prelude::*;

use crate::env::EnvView;
use crate::events::EventView;
use crate::types::{
    DisputeError, DisputeOutcome, DisputeStatus, DisputeView, EscalationLevel, ReasonView,
    APPEAL_WINDOW,
};

verus! {

/// Whether a window that opens now ends at a time the ledger's clock can show.
pub open spec fn window_fits(env: EnvView, limit: nat) -> bool {
    env.timestamp + limit <= u64::MAX
}

impl DisputeView {
    /// No call changes a terminal dispute.
    pub open spec fn is_terminal(self) -> bool {
        self.status is Finalised || self.status is Expired
    }

    /// The window of the dispute's tier is the one that is running.
    pub open spec fn is_active(self) -> bool {
        self.status is Open || self.status is Escalated || self.status is Appealed
    }

    /// The error with which a terminal dispute answers.
    pub open spec fn terminal_refusal(self) -> Option<DisputeError> {
        match self.status {
            DisputeStatus::Finalised => Some(DisputeError::AlreadyFinalised),
            DisputeStatus::Expired => Some(DisputeError::AlreadyTerminal),
            _ => None,
        }
    }
}

// ---- filing ---------------------------------------------------------------

/// Filing is refused when the reason is too long or the agreement already has
/// a dispute.
pub open spec fn file_refusal(
    env: EnvView,
    agreement_id: u128,
    reason: ReasonView,
) -> Option<DisputeError> {
    if !reason.fits() {
        Some(DisputeError::ReasonTooLong)
    } else if env.dispute(agreement_id) is Some {
        Some(DisputeError::InvalidTransition)
    } else {
        None
    }
}

/// A new dispute: open at Level1, its window starting now.
pub open spec fn filed(
    env: EnvView,
    caller: Seq<char>,
    agreement_id: u128,
    reason: ReasonView,
) -> DisputeView {
    DisputeView {
        agreement_id,
        initiator: caller,
        status: DisputeStatus::Open,
        level: EscalationLevel::Level1,
        phase_started_at: env.timestamp,
        phase_deadline: env.timestamp + env.level_time_limit(EscalationLevel::Level1),
        outcome: DisputeOutcome::Unset,
        reason,
    }
}

pub open spec fn after_file(
    env: EnvView,
    caller: Seq<char>,
    agreement_id: u128,
    reason: ReasonView,
) -> EnvView {
    let dispute = filed(env, caller, agreement_id, reason);
    if file_refusal(env, agreement_id, reason) is Some {
        env
    } else {
        env.with_change(
            agreement_id,
            dispute,
            EventView::Filed {
                agreement_id,
                initiator: caller,
                level: EscalationLevel::Level1,
                phase_deadline: dispute.phase_deadline,
                reason,
            },
        )
    }
}

// ---- escalating -----------------------------------------------------------

/// Escalation is open to an active dispute below Level3, up to and including
/// its deadline.
pub open spec fn escalate_refusal(env: EnvView, agreement_id: u128) -> Option<DisputeError> {
    match env.dispute(agreement_id) {
        None => Some(DisputeError::DisputeNotFound),
        Some(dispute) => match dispute.status {
            DisputeStatus::Finalised => Some(DisputeError::AlreadyFinalised),
            DisputeStatus::Expired => Some(DisputeError::AlreadyTerminal),
            DisputeStatus::Resolved => Some(DisputeError::AlreadyResolved),
            DisputeStatus::PendingReview => Some(DisputeError::InvalidTransition),
            _ => if env.timestamp > dispute.phase_deadline {
                Some(DisputeError::TimeLimitExpired)
            } else if dispute.level.above() is None {
                Some(DisputeError::MaxEscalationReached)
            } else {
                None
            },
        },
    }
}

/// The dispute one tier up, with that tier's window starting now.
pub open spec fn escalated(env: EnvView, dispute: DisputeView) -> DisputeView {
    let level = dispute.level.above()->0;
    DisputeView {
        status: DisputeStatus::Escalated,
        level,
        phase_started_at: env.timestamp,
        phase_deadline: env.timestamp + env.level_time_limit(level),
        ..dispute
    }
}

pub open spec fn after_escalate(env: EnvView, agreement_id: u128) -> EnvView {
    let dispute = escalated(env, env.disputes[agreement_id]);
    if escalate_refusal(env, agreement_id) is Some {
        env
    } else {
        env.with_change(
            agreement_id,
            dispute,
            EventView::Escalated {
                agreement_id,
                new_level: dispute.level,
                phase_deadline: dispute.phase_deadline,
            },
        )
    }
}

// ---- declaring a lapsed window --------------------------------------------

/// A keeper may act on an active dispute once its deadline has passed.
pub open spec fn keeper_refusal(env: EnvView, agreement_id: u128) -> Option<DisputeError> {
    match env.dispute(agreement_id) {
        None => Some(DisputeError::DisputeNotFound),
        Some(dispute) => match dispute.status {
            DisputeStatus::Finalised => Some(DisputeError::AlreadyFinalised),
            DisputeStatus::Expired => Some(DisputeError::AlreadyTerminal),
            DisputeStatus::Resolved => Some(DisputeError::AlreadyResolved),
            DisputeStatus::PendingReview => Some(DisputeError::AlreadyPendingReview),
            _ => if env.timestamp <= dispute.phase_deadline {
                Some(DisputeError::DeadlineNotPassed)
            } else if !window_fits(env, env.pending_review_time_limit()) {
                Some(DisputeError::SlaDeadlineOverflow)
            } else {
                None
            },
        },
    }
}

/// The dispute before the admin, with the review window starting now.
pub open spec fn under_review(env: EnvView, dispute: DisputeView) -> DisputeView {
    DisputeView {
        status: DisputeStatus::PendingReview,
        phase_started_at: env.timestamp,
        phase_deadline: env.timestamp + env.pending_review_time_limit(),
        ..dispute
    }
}

pub open spec fn after_keeper(env: EnvView, agreement_id: u128) -> EnvView {
    let dispute = under_review(env, env.disputes[agreement_id]);
    if keeper_refusal(env, agreement_id) is Some {
        env
    } else {
        env.with_change(
            agreement_id,
            dispute,
            EventView::SlaBreached {
                agreement_id,
                level: dispute.level,
                breached_at: env.timestamp,
                review_deadline: dispute.phase_deadline,
            },
        )
    }
}

// ---- ruling ---------------------------------------------------------------

/// The admin may rule, at any time, on a dispute that is neither terminal nor
/// already ruled on. `Unset` is no ruling.
pub open spec fn resolve_refusal(
    env: EnvView,
    caller: Seq<char>,
    agreement_id: u128,
    outcome: DisputeOutcome,
) -> Option<DisputeError> {
    if !env.is_admin(caller) {
        Some(DisputeError::Unauthorized)
    } else if outcome is Unset {
        Some(DisputeError::InvalidTransition)
    } else {
        match env.dispute(agreement_id) {
            None => Some(DisputeError::DisputeNotFound),
            Some(dispute) => match dispute.status {
                DisputeStatus::Finalised => Some(DisputeError::AlreadyFinalised),
                DisputeStatus::Expired => Some(DisputeError::AlreadyTerminal),
                DisputeStatus::Resolved => Some(DisputeError::AlreadyResolved),
                _ => None,
            },
        }
    }
}

/// The dispute with its ruling: final at Level3, else open to appeal.
pub open spec fn ruled(
    env: EnvView,
    dispute: DisputeView,
    outcome: DisputeOutcome,
) -> DisputeView {
    let last = dispute.level is Level3;
    DisputeView {
        status: if last {
            DisputeStatus::Finalised
        } else {
            DisputeStatus::Resolved
        },
        outcome,
        phase_started_at: env.timestamp,
        phase_deadline: if last {
            env.timestamp
        } else {
            env.timestamp + APPEAL_WINDOW as nat
        },
        ..dispute
    }
}

pub open spec fn after_resolve(
    env: EnvView,
    caller: Seq<char>,
    agreement_id: u128,
    outcome: DisputeOutcome,
) -> EnvView {
    let dispute = ruled(env, env.disputes[agreement_id], outcome);
    if resolve_refusal(env, caller, agreement_id, outcome) is Some {
        env
    } else {
        env.with_change(
            agreement_id,
            dispute,
            if dispute.level is Level3 {
                EventView::Finalised { agreement_id, outcome }
            } else {
                EventView::Resolved {
                    agreement_id,
                    level: dispute.level,
                    outcome,
                    appeal_deadline: dispute.phase_deadline,
                }
            },
        )
    }
}

// ---- appealing ------------------------------------------------------------

/// A ruling may be appealed up to and including its appeal deadline.
pub open spec fn appeal_refusal(env: EnvView, agreement_id: u128) -> Option<DisputeError> {
    match env.dispute(agreement_id) {
        None => Some(DisputeError::DisputeNotFound),
        Some(dispute) => match dispute.status {
            DisputeStatus::Finalised => Some(DisputeError::AlreadyFinalised),
            DisputeStatus::Expired => Some(DisputeError::AlreadyTerminal),
            DisputeStatus::Resolved => if env.timestamp > dispute.phase_deadline {
                Some(DisputeError::TimeLimitExpired)
            } else if dispute.level.above() is None {
                Some(DisputeError::MaxEscalationReached)
            } else {
                None
            },
            _ => Some(DisputeError::InvalidTransition),
        },
    }
}

/// The dispute one tier up on behalf of the appellant, its ruling withdrawn.
pub open spec fn appealed(env: EnvView, caller: Seq<char>, dispute: DisputeView) -> DisputeView {
    let level = dispute.level.above()->0;
    DisputeView {
        initiator: caller,
        status: DisputeStatus::Appealed,
        level,
        phase_started_at: env.timestamp,
        phase_deadline: env.timestamp + env.level_time_limit(level),
        outcome: DisputeOutcome::Unset,
        ..dispute
    }
}

pub open spec fn after_appeal(env: EnvView, caller: Seq<char>, agreement_id: u128) -> EnvView {
    let dispute = appealed(env, caller, env.disputes[agreement_id]);
    if appeal_refusal(env, agreement_id) is Some {
        env
    } else {
        env.with_change(
            agreement_id,
            dispute,
            EventView::Appealed {
                agreement_id,
                appellant: caller,
                new_level: dispute.level,
                phase_deadline: dispute.phase_deadline,
            },
        )
    }
}

// ---- expiring -------------------------------------------------------------

/// A dispute that is neither terminal nor ruled on may be expired once its
/// deadline has passed.
pub open spec fn expire_refusal(env: EnvView, agreement_id: u128) -> Option<DisputeError> {
    match env.dispute(agreement_id) {
        None => Some(DisputeError::DisputeNotFound),
        Some(dispute) => match dispute.status {
            DisputeStatus::Finalised => Some(DisputeError::AlreadyFinalised),
            DisputeStatus::Expired => Some(DisputeError::AlreadyTerminal),
            DisputeStatus::Resolved => Some(DisputeError::AlreadyResolved),
            _ => if env.timestamp <= dispute.phase_deadline {
                Some(DisputeError::DeadlineNotPassed)
            } else {
                None
            },
        },
    }
}

/// The dispute closed without a ruling, as of now; the deadline that was missed
/// stays on record.
pub open spec fn expired(env: EnvView, dispute: DisputeView) -> DisputeView {
    DisputeView { status: DisputeStatus::Expired, phase_started_at: env.timestamp, ..dispute }
}

pub open spec fn after_expire(env: EnvView, agreement_id: u128) -> EnvView {
    if expire_refusal(env, agreement_id) is Some {
        env
    } else {
        env.with_change(
            agreement_id,
            expired(env, env.disputes[agreement_id]),
            EventView::Expired { agreement_id },
        )
    }
}

// ---- configuring ----------------------------------------------------------

/// Only the admin configures time limits.
pub open spec fn configure_refusal(env: EnvView, caller: Seq<char>) -> Option<DisputeError> {
    if env.is_admin(caller) {
        None
    } else {
        Some(DisputeError::Unauthorized)
    }
}

pub open spec fn after_set_level_limit(
    env: EnvView,
    caller: Seq<char>,
    level: EscalationLevel,
    limit: nat,
) -> EnvView {
    if configure_refusal(env, caller) is Some {
        env
    } else {
        EnvView { level_limits: env.level_limits.insert(level, limit), ..env }
    }
}

pub open spec fn after_set_review_limit(env: EnvView, caller: Seq<char>, limit: nat) -> EnvView {
    if configure_refusal(env, caller) is Some {
        env
    } else {
        EnvView { review_limit: Some(limit), ..env }
    }
}

} // verus!
