//! The data of a dispute: who filed it and why, where it stands on the
//! escalation ladder, and the errors a refused call is answered with.
//!
//! Each type that owns heap data has a mathematical view; the plain enums are
//! their own model.

use vstd::prelude::*;

verus! {

/// Longest free text, in bytes, that `DisputeReason::Other` may carry.
pub const MAX_OTHER_REASON_LEN: u32 = 256;

/// Window of a level whose time limit was never configured: seven days.
pub const DEFAULT_LEVEL_TIME_LIMIT: u64 = 604_800;

/// Admin-review window when none was configured: three days.
pub const DEFAULT_PENDING_REVIEW_TIME_LIMIT: u64 = 259_200;

/// Time during which a Level1 or Level2 ruling may be appealed: three days.
pub const APPEAL_WINDOW: u64 = 259_200;

/// The account or contract that makes a call, by its strkey text.
#[derive(Debug, PartialEq, Eq)]
pub struct Address {
    pub strkey: String,
}

impl View for Address {
    type V = Seq<char>;

    open spec fn view(&self) -> Seq<char> {
        self.strkey@
    }
}

impl Clone for Address {
    fn clone(&self) -> (copy: Self)
        ensures
            copy@ == self@,
    {
        Address { strkey: self.strkey.clone() }
    }
}

impl Address {
    /// Whether both are the same address.
    pub fn same_as(&self, other: &Address) -> (same: bool)
        ensures
            same == (self@ == other@),
    {
        self.strkey == other.strkey
    }
}

/// The three tiers of escalation.
#[derive(Clone, Copy, Debug, PartialEq, Eq, Structural)]
pub enum EscalationLevel {
    Level1,
    Level2,
    Level3,
}

impl EscalationLevel {
    /// The tier above, if there is one.
    pub open spec fn above(self) -> Option<EscalationLevel> {
        match self {
            EscalationLevel::Level1 => Some(EscalationLevel::Level2),
            EscalationLevel::Level2 => Some(EscalationLevel::Level3),
            EscalationLevel::Level3 => None,
        }
    }

    /// The tier's number on the ladder.
    pub open spec fn tier(self) -> nat {
        match self {
            EscalationLevel::Level1 => 1,
            EscalationLevel::Level2 => 2,
            EscalationLevel::Level3 => 3,
        }
    }
}

/// Where a dispute stands in its lifecycle.
#[derive(Clone, Copy, Debug, PartialEq, Eq, Structural)]
pub enum DisputeStatus {
    /// Filed at Level1; its window is running.
    Open,
    /// Moved up a tier; the new tier's window is running.
    Escalated,
    /// The window lapsed; the admin has a bounded time to rule.
    PendingReview,
    /// Ruled on at Level1 or Level2; the ruling may still be appealed.
    Resolved,
    /// A ruling was appealed; the next tier's window is running.
    Appealed,
    /// Ruled on at Level3: final and binding.
    Finalised,
    /// Closed without a ruling.
    Expired,
}

/// The ruling on a dispute.
#[derive(Clone, Copy, Debug, PartialEq, Eq, Structural)]
pub enum DisputeOutcome {
    /// No ruling stands.
    Unset,
    UpholdPayment,
    GrantClaim,
    PartialSettlement,
}

/// Why a call was refused.
#[derive(Clone, Copy, Debug, PartialEq, Eq, Structural)]
pub enum DisputeError {
    /// The caller is not the admin.
    Unauthorized,
    /// No dispute exists for the agreement.
    DisputeNotFound,
    /// The dispute's state does not allow the call.
    InvalidTransition,
    /// The window in which the call is allowed has passed.
    TimeLimitExpired,
    /// There is no tier above Level3.
    MaxEscalationReached,
    /// A ruling already stands.
    AlreadyResolved,
    /// A final ruling already stands.
    AlreadyFinalised,
    /// The dispute has expired.
    AlreadyTerminal,
    /// The dispute already awaits the admin's review.
    AlreadyPendingReview,
    /// The current window is still running.
    DeadlineNotPassed,
    /// The review deadline does not fit the ledger's clock.
    SlaDeadlineOverflow,
    /// The free text is longer than `MAX_OTHER_REASON_LEN` bytes.
    ReasonTooLong,
}

/// The answer to a call: refused with an error, or carried out.
pub open spec fn answer_to(refusal: Option<DisputeError>) -> Result<(), DisputeError> {
    match refusal {
        Some(error) => Err(error),
        None => Ok(()),
    }
}

/// The ground on which a dispute is filed.
#[derive(Debug, PartialEq, Eq)]
pub enum DisputeReason {
    NonDelivery,
    QualityIssue,
    PaymentDispute,
    /// Free text, as bytes.
    Other(Vec<u8>),
}

/// The mathematical form of a `DisputeReason`.
#[verifier::ext_equal]
pub enum ReasonView {
    NonDelivery,
    QualityIssue,
    PaymentDispute,
    Other(Seq<u8>),
}

impl ReasonView {
    /// Whether the free text, if any, keeps within the cap.
    pub open spec fn fits(self) -> bool {
        self matches ReasonView::Other(text) ==> text.len() <= MAX_OTHER_REASON_LEN
    }
}

impl View for DisputeReason {
    type V = ReasonView;

    open spec fn view(&self) -> ReasonView {
        match *self {
            DisputeReason::NonDelivery => ReasonView::NonDelivery,
            DisputeReason::QualityIssue => ReasonView::QualityIssue,
            DisputeReason::PaymentDispute => ReasonView::PaymentDispute,
            DisputeReason::Other(text) => ReasonView::Other(text@),
        }
    }
}

impl Clone for DisputeReason {
    fn clone(&self) -> (copy: Self)
        ensures
            copy@ == self@,
    {
        match self {
            DisputeReason::NonDelivery => DisputeReason::NonDelivery,
            DisputeReason::QualityIssue => DisputeReason::QualityIssue,
            DisputeReason::PaymentDispute => DisputeReason::PaymentDispute,
            DisputeReason::Other(text) => {
                let bytes: Vec<u8> = text.clone();
                assert(bytes@ =~= text@);
                DisputeReason::Other(bytes)
            },
        }
    }
}

/// The record of one dispute.
#[derive(Debug, PartialEq, Eq)]
pub struct DisputeDetails {
    pub agreement_id: u128,
    /// Who filed the dispute or, after an appeal, who appealed last.
    pub initiator: Address,
    pub status: DisputeStatus,
    pub level: EscalationLevel,
    /// Ledger time at which the current phase began.
    pub phase_started_at: u64,
    /// Last ledger time that belongs to the current phase; of an expired
    /// dispute, the deadline that was missed.
    pub phase_deadline: u64,
    pub outcome: DisputeOutcome,
    pub reason: DisputeReason,
}

/// The mathematical form of a `DisputeDetails`.
#[verifier::ext_equal]
pub struct DisputeView {
    pub agreement_id: u128,
    pub initiator: Seq<char>,
    pub status: DisputeStatus,
    pub level: EscalationLevel,
    pub phase_started_at: nat,
    pub phase_deadline: nat,
    pub outcome: DisputeOutcome,
    pub reason: ReasonView,
}

impl View for DisputeDetails {
    type V = DisputeView;

    open spec fn view(&self) -> DisputeView {
        DisputeView {
            agreement_id: self.agreement_id,
            initiator: self.initiator@,
            status: self.status,
            level: self.level,
            phase_started_at: self.phase_started_at as nat,
            phase_deadline: self.phase_deadline as nat,
            outcome: self.outcome,
            reason: self.reason@,
        }
    }
}

impl Clone for DisputeDetails {
    fn clone(&self) -> (copy: Self)
        ensures
            copy@ == self@,
    {
        DisputeDetails {
            agreement_id: self.agreement_id,
            initiator: self.initiator.clone(),
            status: self.status,
            level: self.level,
            phase_started_at: self.phase_started_at,
            phase_deadline: self.phase_deadline,
            outcome: self.outcome,
            reason: self.reason.clone(),
        }
    }
}

} // verus!
