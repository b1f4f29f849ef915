//! The events that announce each change of a dispute.
//!
//! Contracts that hold the disputed money act on `DisputeResolvedEvent`,
//! `DisputeFinalisedEvent` and `DisputeExpiredEvent`.

use vstd::prelude::*;

use crate::types::{Address, DisputeOutcome, DisputeReason, EscalationLevel, ReasonView};

verus! {

/// A new dispute was filed.
#[derive(Debug, PartialEq, Eq)]
pub struct DisputeFiledEvent {
    pub agreement_id: u128,
    pub initiator: Address,
    pub level: EscalationLevel,
    pub phase_deadline: u64,
    pub reason: DisputeReason,
}

/// A dispute moved up a tier.
#[derive(Debug, PartialEq, Eq)]
pub struct DisputeEscalatedEvent {
    pub agreement_id: u128,
    pub new_level: EscalationLevel,
    pub phase_deadline: u64,
}

/// The admin ruled at Level1 or Level2; the ruling may be appealed up to and
/// including `appeal_deadline`.
#[derive(Debug, PartialEq, Eq)]
pub struct DisputeResolvedEvent {
    pub agreement_id: u128,
    pub level: EscalationLevel,
    pub outcome: DisputeOutcome,
    pub appeal_deadline: u64,
}

/// The admin ruled at Level3: final and binding.
#[derive(Debug, PartialEq, Eq)]
pub struct DisputeFinalisedEvent {
    pub agreement_id: u128,
    pub outcome: DisputeOutcome,
}

/// A ruling was appealed to the next tier.
#[derive(Debug, PartialEq, Eq)]
pub struct DisputeAppealedEvent {
    pub agreement_id: u128,
    pub appellant: Address,
    pub new_level: EscalationLevel,
    pub phase_deadline: u64,
}

/// A dispute was closed without a ruling.
#[derive(Debug, PartialEq, Eq)]
pub struct DisputeExpiredEvent {
    pub agreement_id: u128,
}

/// A keeper found the window of a dispute lapsed at `breached_at`; the admin
/// has until `review_deadline` before the dispute can be expired.
#[derive(Debug, PartialEq, Eq)]
pub struct DisputeSlaBreachedEvent {
    pub agreement_id: u128,
    pub level: EscalationLevel,
    pub breached_at: u64,
    pub review_deadline: u64,
}

/// Any event of the contract.
#[derive(Debug, PartialEq, Eq)]
pub enum DisputeEvent {
    Filed(DisputeFiledEvent),
    Escalated(DisputeEscalatedEvent),
    SlaBreached(DisputeSlaBreachedEvent),
    Resolved(DisputeResolvedEvent),
    Finalised(DisputeFinalisedEvent),
    Appealed(DisputeAppealedEvent),
    Expired(DisputeExpiredEvent),
}

/// The mathematical form of a `DisputeEvent`.
#[verifier::ext_equal]
pub enum EventView {
    Filed {
        agreement_id: u128,
        initiator: Seq<char>,
        level: EscalationLevel,
        phase_deadline: nat,
        reason: ReasonView,
    },
    Escalated { agreement_id: u128, new_level: EscalationLevel, phase_deadline: nat },
    SlaBreached {
        agreement_id: u128,
        level: EscalationLevel,
        breached_at: nat,
        review_deadline: nat,
    },
    Resolved {
        agreement_id: u128,
        level: EscalationLevel,
        outcome: DisputeOutcome,
        appeal_deadline: nat,
    },
    Finalised { agreement_id: u128, outcome: DisputeOutcome },
    Appealed {
        agreement_id: u128,
        appellant: Seq<char>,
        new_level: EscalationLevel,
        phase_deadline: nat,
    },
    Expired { agreement_id: u128 },
}

impl EventView {
    /// The topic under which the event is published.
    pub open spec fn topic(self) -> Seq<char> {
        match self {
            EventView::Filed { .. } => "dispute_filed"@,
            EventView::Escalated { .. } => "dispute_escalated"@,
            EventView::SlaBreached { .. } => "dispute_sla_breached"@,
            EventView::Resolved { .. } => "dispute_resolved"@,
            EventView::Finalised { .. } => "dispute_finalised"@,
            EventView::Appealed { .. } => "dispute_appealed"@,
            EventView::Expired { .. } => "dispute_expired"@,
        }
    }
}

/// No two topics are the same text.
pub proof fn lemma_topics_differ()
    ensures
        "dispute_filed"@ != "dispute_escalated"@,
        "dispute_filed"@ != "dispute_sla_breached"@,
        "dispute_filed"@ != "dispute_resolved"@,
        "dispute_filed"@ != "dispute_finalised"@,
        "dispute_filed"@ != "dispute_appealed"@,
        "dispute_filed"@ != "dispute_expired"@,
        "dispute_escalated"@ != "dispute_sla_breached"@,
        "dispute_escalated"@ != "dispute_resolved"@,
        "dispute_escalated"@ != "dispute_finalised"@,
        "dispute_escalated"@ != "dispute_appealed"@,
        "dispute_escalated"@ != "dispute_expired"@,
        "dispute_sla_breached"@ != "dispute_resolved"@,
        "dispute_sla_breached"@ != "dispute_finalised"@,
        "dispute_sla_breached"@ != "dispute_appealed"@,
        "dispute_sla_breached"@ != "dispute_expired"@,
        "dispute_resolved"@ != "dispute_finalised"@,
        "dispute_resolved"@ != "dispute_appealed"@,
        "dispute_resolved"@ != "dispute_expired"@,
        "dispute_finalised"@ != "dispute_appealed"@,
        "dispute_finalised"@ != "dispute_expired"@,
        "dispute_appealed"@ != "dispute_expired"@,
{
    reveal_strlit("dispute_filed");
    reveal_strlit("dispute_escalated");
    reveal_strlit("dispute_sla_breached");
    reveal_strlit("dispute_resolved");
    reveal_strlit("dispute_finalised");
    reveal_strlit("dispute_appealed");
    reveal_strlit("dispute_expired");
    assert("dispute_filed"@.len() == 13);
    assert("dispute_escalated"@.len() == 17);
    assert("dispute_sla_breached"@.len() == 20);
    assert("dispute_resolved"@.len() == 16);
    assert("dispute_finalised"@.len() == 17);
    assert("dispute_appealed"@.len() == 16);
    assert("dispute_expired"@.len() == 15);
    // Where the lengths agree, the first letter behind "dispute_" does not.
    assert("dispute_escalated"@[8] == 'e');
    assert("dispute_finalised"@[8] == 'f');
    assert("dispute_resolved"@[8] == 'r');
    assert("dispute_appealed"@[8] == 'a');
}

impl View for DisputeEvent {
    type V = EventView;

    open spec fn view(&self) -> EventView {
        match *self {
            DisputeEvent::Filed(event) => EventView::Filed {
                agreement_id: event.agreement_id,
                initiator: event.initiator@,
                level: event.level,
                phase_deadline: event.phase_deadline as nat,
                reason: event.reason@,
            },
            DisputeEvent::Escalated(event) => EventView::Escalated {
                agreement_id: event.agreement_id,
                new_level: event.new_level,
                phase_deadline: event.phase_deadline as nat,
            },
            DisputeEvent::SlaBreached(event) => EventView::SlaBreached {
                agreement_id: event.agreement_id,
                level: event.level,
                breached_at: event.breached_at as nat,
                review_deadline: event.review_deadline as nat,
            },
            DisputeEvent::Resolved(event) => EventView::Resolved {
                agreement_id: event.agreement_id,
                level: event.level,
                outcome: event.outcome,
                appeal_deadline: event.appeal_deadline as nat,
            },
            DisputeEvent::Finalised(event) => EventView::Finalised {
                agreement_id: event.agreement_id,
                outcome: event.outcome,
            },
            DisputeEvent::Appealed(event) => EventView::Appealed {
                agreement_id: event.agreement_id,
                appellant: event.appellant@,
                new_level: event.new_level,
                phase_deadline: event.phase_deadline as nat,
            },
            DisputeEvent::Expired(event) => EventView::Expired {
                agreement_id: event.agreement_id,
            },
        }
    }
}

impl DisputeEvent {
    /// The topic under which the event is published.
    pub fn topic(&self) -> (topic: &'static str)
        ensures
            topic@ == self@.topic(),
    {
        match self {
            DisputeEvent::Filed(_) => "dispute_filed",
            DisputeEvent::Escalated(_) => "dispute_escalated",
            DisputeEvent::SlaBreached(_) => "dispute_sla_breached",
            DisputeEvent::Resolved(_) => "dispute_resolved",
            DisputeEvent::Finalised(_) => "dispute_finalised",
            DisputeEvent::Appealed(_) => "dispute_appealed",
            DisputeEvent::Expired(_) => "dispute_expired",
        }
    }
}

} // verus!
