//! Payment disputes on three escalation tiers, with a deadline for every phase,
//! a review stage that anyone may trigger, and binding outcomes.
//!
//! # Lifecycle
//!
//! ```text
//! file_dispute                                        -> Open @ Level1
//!
//! Open, Escalated, Appealed
//!   escalate_dispute      (now <= deadline, below L3) -> Escalated @ next level
//!   keeper_advance_stage  (now >  deadline)           -> PendingReview
//!   expire_dispute        (now >  deadline)           -> Expired    [terminal]
//!   resolve_dispute       (admin, L1 or L2)           -> Resolved
//!   resolve_dispute       (admin, L3)                 -> Finalised  [terminal]
//!
//! PendingReview
//!   expire_dispute        (now >  review deadline)    -> Expired    [terminal]
//!   resolve_dispute       (admin, L1 or L2)           -> Resolved
//!   resolve_dispute       (admin, L3)                 -> Finalised  [terminal]
//!
//! Resolved
//!   appeal_ruling         (now <= appeal deadline)    -> Appealed @ next level
//! ```
//!
//! # Layout
//!
//! * [`types`]: disputes, levels, statuses, outcomes, reasons and errors.
//! * [`events`]: what is published when a dispute changes.
//! * [`mod@env`]: the ledger as one call sees it, and its mathematical form.
//! * [`storage`]: the entries on that ledger.
//! * [`rules`]: when each call is refused and what it changes.
//! * [`contract`]: the calls, proved to follow the rules.
//! * [`history`]: sequences of calls.
//! * [`laws`]: what holds of all calls and all histories.
//! * [`effects`]: what each call answers and does to the stored entries.

pub mod contract;
pub mod effects;
pub mod env;
pub mod events;
pub mod history;
pub mod laws;
pub mod rules;
pub mod storage;
pub mod types;

pub use contract::DisputeEscalationContract;
pub use env::Env;
pub use events::{
    DisputeAppealedEvent, DisputeEscalatedEvent, DisputeEvent, DisputeExpiredEvent,
    DisputeFiledEvent, DisputeFinalisedEvent, DisputeResolvedEvent, DisputeSlaBreachedEvent,
};
