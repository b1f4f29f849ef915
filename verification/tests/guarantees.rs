//! The contract's guarantees on concrete ledgers: events, errors, deadlines
//! and what stays as it was.

use dispute_escalation::storage;
use dispute_escalation::types::{
    Address, DisputeDetails, DisputeError, DisputeOutcome, DisputeReason, DisputeStatus,
    EscalationLevel, APPEAL_WINDOW, DEFAULT_LEVEL_TIME_LIMIT, DEFAULT_PENDING_REVIEW_TIME_LIMIT,
    MAX_OTHER_REASON_LEN,
};
use dispute_escalation::{
    DisputeAppealedEvent, DisputeEscalatedEvent, DisputeEscalationContract as Contract,
    DisputeEvent, DisputeExpiredEvent, DisputeFiledEvent, DisputeFinalisedEvent,
    DisputeResolvedEvent, DisputeSlaBreachedEvent, Env,
};

const ID: u128 = 42;
const START: u64 = 1_000;

fn who(strkey: &str) -> Address {
    Address { strkey: strkey.to_string() }
}

fn owner() -> Address {
    who("GOWNER")
}

fn admin() -> Address {
    who("GADMIN")
}

fn user() -> Address {
    who("GUSER")
}

fn stranger() -> Address {
    who("CSTRANGER")
}

/// An initialised ledger on which everyone has authorised the call.
fn ledger() -> Env {
    let mut env = Env::new(START);
    for party in [owner(), admin(), user(), stranger()] {
        env.authenticate(&party);
    }
    Contract::initialize(&mut env, owner(), admin());
    env
}

fn filed() -> Env {
    let mut env = ledger();
    Contract::file_dispute(&mut env, user(), ID, DisputeReason::NonDelivery).unwrap();
    env
}

fn finalised() -> Env {
    let mut env = filed();
    Contract::escalate_dispute(&mut env, user(), ID).unwrap();
    Contract::escalate_dispute(&mut env, user(), ID).unwrap();
    Contract::resolve_dispute(&mut env, admin(), ID, DisputeOutcome::GrantClaim).unwrap();
    env
}

fn dispute(env: &Env) -> DisputeDetails {
    Contract::get_dispute(env, ID).unwrap()
}

/// Every refused call must leave disputes and events as they were.
fn assert_refused(
    env: &mut Env,
    error: DisputeError,
    run: impl FnOnce(&mut Env) -> Result<(), DisputeError>,
) {
    let before = Contract::get_dispute(env, ID);
    let events = env.events.len();
    assert_eq!(run(env), Err(error));
    assert_eq!(Contract::get_dispute(env, ID), before);
    assert_eq!(env.events.len(), events);
}

#[test]
fn filing_records_and_announces_the_dispute() {
    let mut env = ledger();
    let reason = DisputeReason::Other(b"late by \xff days".to_vec());
    assert_eq!(Contract::check_filing(&env, ID, &reason), Ok(()));
    Contract::file_dispute(&mut env, user(), ID, reason.clone()).unwrap();
    assert_eq!(
        dispute(&env),
        DisputeDetails {
            agreement_id: ID,
            initiator: user(),
            status: DisputeStatus::Open,
            level: EscalationLevel::Level1,
            phase_started_at: 1_000,
            phase_deadline: 605_800,
            outcome: DisputeOutcome::Unset,
            reason: reason.clone(),
        }
    );
    assert_eq!(
        env.events,
        vec![DisputeEvent::Filed(DisputeFiledEvent {
            agreement_id: ID,
            initiator: user(),
            level: EscalationLevel::Level1,
            phase_deadline: 605_800,
            reason,
        })]
    );
    assert_eq!(env.events[0].topic(), "dispute_filed");
}

#[test]
fn escalation_climbs_one_tier_and_is_announced() {
    let mut env = filed();
    env.timestamp += 10;
    let (found, next) = Contract::check_escalation(&env, ID).unwrap();
    assert_eq!((found.level, next), (EscalationLevel::Level1, EscalationLevel::Level2));
    Contract::escalate_dispute(&mut env, stranger(), ID).unwrap();
    let d = dispute(&env);
    assert_eq!(d.level, EscalationLevel::Level2);
    assert_eq!(d.initiator, user());
    assert_eq!(
        env.events[1],
        DisputeEvent::Escalated(DisputeEscalatedEvent {
            agreement_id: ID,
            new_level: EscalationLevel::Level2,
            phase_deadline: 1_010 + DEFAULT_LEVEL_TIME_LIMIT,
        })
    );
    assert_eq!(env.events[1].topic(), "dispute_escalated");
}

#[test]
fn appealed_dispute_below_level3_can_be_escalated() {
    let mut env = filed();
    Contract::resolve_dispute(&mut env, admin(), ID, DisputeOutcome::UpholdPayment).unwrap();
    Contract::appeal_ruling(&mut env, user(), ID).unwrap();
    assert_eq!(dispute(&env).level, EscalationLevel::Level2);
    Contract::escalate_dispute(&mut env, user(), ID).unwrap();
    assert_eq!(dispute(&env).level, EscalationLevel::Level3);
    assert_eq!(dispute(&env).status, DisputeStatus::Escalated);
}

#[test]
fn keeper_opens_a_review_and_announces_the_breach() {
    let mut env = filed();
    env.timestamp = 605_801;
    Contract::keeper_advance_stage(&mut env, stranger(), ID).unwrap();
    let d = dispute(&env);
    assert_eq!(d.status, DisputeStatus::PendingReview);
    assert_eq!(d.initiator, user());
    assert_eq!(d.phase_deadline, 605_801 + DEFAULT_PENDING_REVIEW_TIME_LIMIT);
    assert_eq!(
        env.events[1],
        DisputeEvent::SlaBreached(DisputeSlaBreachedEvent {
            agreement_id: ID,
            level: EscalationLevel::Level1,
            breached_at: 605_801,
            review_deadline: 865_001,
        })
    );
    assert_eq!(env.events[1].topic(), "dispute_sla_breached");
    env.timestamp += 1_000_000;
    assert_refused(&mut env, DisputeError::AlreadyPendingReview, |env| {
        Contract::keeper_advance_stage(env, user(), ID)
    });
}

#[test]
fn review_deadline_may_reach_the_end_of_the_clock_but_not_pass_it() {
    let mut env = filed();
    env.timestamp = 605_801;
    let most = u64::MAX - 605_801;
    Contract::set_pending_review_time_limit(&mut env, admin(), most + 1).unwrap();
    assert_refused(&mut env, DisputeError::SlaDeadlineOverflow, |env| {
        Contract::keeper_advance_stage(env, user(), ID)
    });
    Contract::set_pending_review_time_limit(&mut env, admin(), most).unwrap();
    Contract::keeper_advance_stage(&mut env, user(), ID).unwrap();
    assert_eq!(dispute(&env).phase_deadline, u64::MAX);
}

#[test]
fn level_deadline_may_reach_the_end_of_the_clock() {
    let mut env = ledger();
    Contract::set_level_time_limit(
        &mut env,
        admin(),
        EscalationLevel::Level1,
        u64::MAX - START,
    )
    .unwrap();
    Contract::file_dispute(&mut env, user(), ID, DisputeReason::QualityIssue).unwrap();
    assert_eq!(dispute(&env).phase_deadline, u64::MAX);
}

#[test]
fn ruling_below_level3_is_announced_with_its_appeal_deadline() {
    let mut env = filed();
    assert_eq!(
        Contract::check_ruling(&env, &admin(), ID, DisputeOutcome::GrantClaim),
        Ok(dispute(&env))
    );
    Contract::resolve_dispute(&mut env, admin(), ID, DisputeOutcome::GrantClaim).unwrap();
    let d = dispute(&env);
    assert_eq!(d.status, DisputeStatus::Resolved);
    assert_eq!(d.phase_deadline, START + APPEAL_WINDOW);
    assert_eq!(
        env.events[1],
        DisputeEvent::Resolved(DisputeResolvedEvent {
            agreement_id: ID,
            level: EscalationLevel::Level1,
            outcome: DisputeOutcome::GrantClaim,
            appeal_deadline: 260_200,
        })
    );
    assert_eq!(env.events[1].topic(), "dispute_resolved");
}

#[test]
fn ruling_at_level3_is_final_and_announced() {
    let mut env = finalised();
    let d = dispute(&env);
    assert_eq!(d.status, DisputeStatus::Finalised);
    assert_eq!(d.phase_deadline, d.phase_started_at);
    assert_eq!(
        env.events[3],
        DisputeEvent::Finalised(DisputeFinalisedEvent {
            agreement_id: ID,
            outcome: DisputeOutcome::GrantClaim,
        })
    );
    assert_eq!(env.events[3].topic(), "dispute_finalised");
    assert_eq!(
        Contract::assert_not_terminal(&d),
        Err(DisputeError::AlreadyFinalised)
    );
    env.timestamp += 10_000_000;
    assert_refused(&mut env, DisputeError::AlreadyFinalised, |env| {
        Contract::escalate_dispute(env, user(), ID)
    });
    assert_refused(&mut env, DisputeError::AlreadyFinalised, |env| {
        Contract::keeper_advance_stage(env, user(), ID)
    });
    assert_refused(&mut env, DisputeError::AlreadyFinalised, |env| {
        Contract::appeal_ruling(env, user(), ID)
    });
    assert_refused(&mut env, DisputeError::AlreadyFinalised, |env| {
        Contract::expire_dispute(env, user(), ID)
    });
    assert_refused(&mut env, DisputeError::AlreadyFinalised, |env| {
        Contract::resolve_dispute(env, admin(), ID, DisputeOutcome::UpholdPayment)
    });
    assert_refused(&mut env, DisputeError::InvalidTransition, |env| {
        Contract::file_dispute(env, user(), ID, DisputeReason::NonDelivery)
    });
}

#[test]
fn appeal_withdraws_the_ruling_for_the_appellant() {
    let mut env = filed();
    Contract::resolve_dispute(&mut env, admin(), ID, DisputeOutcome::PartialSettlement).unwrap();
    env.timestamp += APPEAL_WINDOW;
    let (found, next) = Contract::check_appeal(&env, ID).unwrap();
    assert_eq!(found.outcome, DisputeOutcome::PartialSettlement);
    assert_eq!(next, EscalationLevel::Level2);
    Contract::appeal_ruling(&mut env, stranger(), ID).unwrap();
    let d = dispute(&env);
    assert_eq!(d.initiator, stranger());
    assert_eq!(d.outcome, DisputeOutcome::Unset);
    assert_eq!(d.reason, DisputeReason::NonDelivery);
    assert_eq!(
        env.events[2],
        DisputeEvent::Appealed(DisputeAppealedEvent {
            agreement_id: ID,
            appellant: stranger(),
            new_level: EscalationLevel::Level2,
            phase_deadline: START + APPEAL_WINDOW + DEFAULT_LEVEL_TIME_LIMIT,
        })
    );
    assert_eq!(env.events[2].topic(), "dispute_appealed");
}

#[test]
fn unappealed_ruling_stands() {
    let mut env = filed();
    Contract::resolve_dispute(&mut env, admin(), ID, DisputeOutcome::UpholdPayment).unwrap();
    env.timestamp += APPEAL_WINDOW + 1;
    assert_refused(&mut env, DisputeError::TimeLimitExpired, |env| {
        Contract::appeal_ruling(env, user(), ID)
    });
    assert_refused(&mut env, DisputeError::AlreadyResolved, |env| {
        Contract::resolve_dispute(env, admin(), ID, DisputeOutcome::GrantClaim)
    });
    assert_refused(&mut env, DisputeError::AlreadyResolved, |env| {
        Contract::expire_dispute(env, user(), ID)
    });
    assert_refused(&mut env, DisputeError::AlreadyResolved, |env| {
        Contract::keeper_advance_stage(env, user(), ID)
    });
    assert_refused(&mut env, DisputeError::AlreadyResolved, |env| {
        Contract::escalate_dispute(env, user(), ID)
    });
}

#[test]
fn ruling_at_the_top_tier_has_nowhere_to_be_appealed_to() {
    let mut env = filed();
    let mut d = dispute(&env);
    d.level = EscalationLevel::Level3;
    d.status = DisputeStatus::Resolved;
    storage::set_dispute(&mut env, ID, &d);
    assert_refused(&mut env, DisputeError::MaxEscalationReached, |env| {
        Contract::appeal_ruling(env, user(), ID)
    });
}

#[test]
fn expiry_is_dated_and_keeps_the_missed_deadline() {
    let mut env = filed();
    let before = dispute(&env);
    env.timestamp = before.phase_deadline + 5;
    Contract::expire_dispute(&mut env, stranger(), ID).unwrap();
    let d = dispute(&env);
    assert_eq!(d.status, DisputeStatus::Expired);
    assert_eq!(d.phase_started_at, 605_805);
    assert_eq!(d.phase_deadline, 605_800);
    assert_eq!(d.outcome, DisputeOutcome::Unset);
    assert_eq!(
        env.events[1],
        DisputeEvent::Expired(DisputeExpiredEvent { agreement_id: ID })
    );
    assert_eq!(env.events[1].topic(), "dispute_expired");
    assert_eq!(
        Contract::assert_not_terminal(&d),
        Err(DisputeError::AlreadyTerminal)
    );
    assert_refused(&mut env, DisputeError::AlreadyTerminal, |env| {
        Contract::expire_dispute(env, user(), ID)
    });
    assert_refused(&mut env, DisputeError::AlreadyTerminal, |env| {
        Contract::resolve_dispute(env, admin(), ID, DisputeOutcome::GrantClaim)
    });
    assert_refused(&mut env, DisputeError::AlreadyTerminal, |env| {
        Contract::escalate_dispute(env, user(), ID)
    });
    assert_refused(&mut env, DisputeError::AlreadyTerminal, |env| {
        Contract::appeal_ruling(env, user(), ID)
    });
    assert_refused(&mut env, DisputeError::AlreadyTerminal, |env| {
        Contract::keeper_advance_stage(env, user(), ID)
    });
}

#[test]
fn deadline_divides_escalation_from_expiry() {
    let mut env = filed();
    env.timestamp = 605_800;
    assert_refused(&mut env, DisputeError::DeadlineNotPassed, |env| {
        Contract::expire_dispute(env, user(), ID)
    });
    assert_refused(&mut env, DisputeError::DeadlineNotPassed, |env| {
        Contract::keeper_advance_stage(env, user(), ID)
    });
    assert!(Contract::check_escalation(&env, ID).is_ok());
    env.timestamp = 605_801;
    assert_refused(&mut env, DisputeError::TimeLimitExpired, |env| {
        Contract::escalate_dispute(env, user(), ID)
    });
    assert!(Contract::expire_dispute(&mut env, user(), ID).is_ok());
}

#[test]
fn unauthorised_caller_is_refused_before_anything_else() {
    let mut env = ledger();
    assert_eq!(
        Contract::resolve_dispute(&mut env, owner(), 99, DisputeOutcome::Unset),
        Err(DisputeError::Unauthorized)
    );
    assert_eq!(
        Contract::resolve_dispute(&mut env, admin(), 99, DisputeOutcome::Unset),
        Err(DisputeError::InvalidTransition)
    );
    assert_eq!(
        Contract::resolve_dispute(&mut env, admin(), 99, DisputeOutcome::GrantClaim),
        Err(DisputeError::DisputeNotFound)
    );
}

#[test]
fn reason_length_is_checked_before_the_record() {
    let mut env = filed();
    let long = DisputeReason::Other(vec![0u8; MAX_OTHER_REASON_LEN as usize + 1]);
    assert_eq!(
        Contract::check_filing(&env, ID, &long),
        Err(DisputeError::ReasonTooLong)
    );
    assert_refused(&mut env, DisputeError::ReasonTooLong, |env| {
        Contract::file_dispute(env, user(), ID, long)
    });
}

#[test]
fn owner_acts_as_admin_until_one_is_set() {
    let mut env = Env::new(0);
    assert!(!storage::is_admin(&env, &owner()));
    env.storage.owner = Some(owner());
    assert!(storage::is_admin(&env, &owner()));
    assert!(!storage::is_admin(&env, &admin()));
    env.authenticate(&owner());
    Contract::initialize(&mut env, owner(), admin());
    assert!(!storage::is_admin(&env, &owner()));
    assert!(storage::is_admin(&env, &admin()));
}

#[test]
fn initialising_again_replaces_owner_and_admin() {
    let mut env = filed();
    let before = dispute(&env);
    Contract::initialize(&mut env, stranger(), user());
    assert_eq!(env.storage.owner, Some(stranger()));
    assert_eq!(env.storage.admin, Some(user()));
    assert_eq!(dispute(&env), before);
}

#[test]
fn new_limits_leave_running_deadlines() {
    let mut env = filed();
    let before = dispute(&env);
    Contract::set_level_time_limit(&mut env, admin(), EscalationLevel::Level1, 5).unwrap();
    Contract::set_level_time_limit(&mut env, admin(), EscalationLevel::Level2, 7).unwrap();
    Contract::set_pending_review_time_limit(&mut env, admin(), 9).unwrap();
    assert_eq!(dispute(&env), before);
    assert_eq!(storage::get_level_time_limit(&env, EscalationLevel::Level1), 5);
    assert_eq!(storage::get_level_time_limit(&env, EscalationLevel::Level2), 7);
    assert_eq!(
        storage::get_level_time_limit(&env, EscalationLevel::Level3),
        DEFAULT_LEVEL_TIME_LIMIT
    );
    assert_eq!(Contract::get_pending_review_time_limit(&env), 9);
    assert_eq!(env.events.len(), 1);
    Contract::escalate_dispute(&mut env, user(), ID).unwrap();
    assert_eq!(dispute(&env).phase_deadline, START + 7);
}

#[test]
fn refused_configuration_changes_nothing() {
    let mut env = ledger();
    assert_eq!(
        Contract::set_level_time_limit(&mut env, user(), EscalationLevel::Level3, 1),
        Err(DisputeError::Unauthorized)
    );
    assert_eq!(
        Contract::set_pending_review_time_limit(&mut env, owner(), 1),
        Err(DisputeError::Unauthorized)
    );
    assert_eq!(
        storage::get_level_time_limit(&env, EscalationLevel::Level3),
        DEFAULT_LEVEL_TIME_LIMIT
    );
    assert_eq!(
        Contract::get_pending_review_time_limit(&env),
        DEFAULT_PENDING_REVIEW_TIME_LIMIT
    );
}

#[test]
fn review_closes_escalation_and_appeal() {
    let mut env = filed();
    env.timestamp = 605_801;
    Contract::keeper_advance_stage(&mut env, user(), ID).unwrap();
    assert_refused(&mut env, DisputeError::InvalidTransition, |env| {
        Contract::escalate_dispute(env, user(), ID)
    });
    assert_refused(&mut env, DisputeError::InvalidTransition, |env| {
        Contract::appeal_ruling(env, user(), ID)
    });
}

#[test]
fn tiers_have_one_successor_each() {
    assert_eq!(
        Contract::next_level(&EscalationLevel::Level1),
        Ok(EscalationLevel::Level2)
    );
    assert_eq!(
        Contract::next_level(&EscalationLevel::Level2),
        Ok(EscalationLevel::Level3)
    );
    assert_eq!(
        Contract::next_level(&EscalationLevel::Level3),
        Err(DisputeError::MaxEscalationReached)
    );
}

#[test]
fn only_terminal_statuses_are_refused_outright() {
    let mut d = dispute(&filed());
    for status in [
        DisputeStatus::Open,
        DisputeStatus::Escalated,
        DisputeStatus::PendingReview,
        DisputeStatus::Resolved,
        DisputeStatus::Appealed,
    ] {
        d.status = status;
        assert_eq!(Contract::assert_not_terminal(&d), Ok(()));
    }
}

#[test]
fn authorisation_is_per_address() {
    let mut env = Env::new(0);
    assert!(!env.is_authenticated(&user()));
    env.authenticate(&user());
    env.authenticate(&admin());
    assert!(env.is_authenticated(&user()));
    assert!(env.is_authenticated(&admin()));
    assert!(!env.is_authenticated(&stranger()));
    assert!(user().same_as(&user()));
    assert!(!user().same_as(&admin()));
}

#[test]
fn expiry_after_review_is_dated_too() {
    let mut env = filed();
    env.timestamp = 605_801;
    Contract::keeper_advance_stage(&mut env, user(), ID).unwrap();
    env.timestamp = 865_002;
    Contract::expire_dispute(&mut env, stranger(), ID).unwrap();
    let d = dispute(&env);
    assert_eq!(d.status, DisputeStatus::Expired);
    assert_eq!(d.phase_started_at, 865_002);
    assert_eq!(d.phase_deadline, 865_001);
}

#[test]
fn climbs_are_the_escalations_and_appeals_carried_out() {
    let mut env = filed();
    Contract::escalate_dispute(&mut env, user(), ID).unwrap();
    assert!(Contract::appeal_ruling(&mut env, user(), ID).is_err());
    assert_eq!(dispute(&env).level, EscalationLevel::Level2);
    Contract::resolve_dispute(&mut env, admin(), ID, DisputeOutcome::GrantClaim).unwrap();
    assert!(Contract::escalate_dispute(&mut env, user(), ID).is_err());
    assert_eq!(dispute(&env).level, EscalationLevel::Level2);
    Contract::appeal_ruling(&mut env, stranger(), ID).unwrap();
    assert_eq!(dispute(&env).level, EscalationLevel::Level3);
}

#[test]
fn initiator_is_the_last_appellant() {
    let mut env = filed();
    Contract::resolve_dispute(&mut env, admin(), ID, DisputeOutcome::GrantClaim).unwrap();
    Contract::appeal_ruling(&mut env, stranger(), ID).unwrap();
    Contract::resolve_dispute(&mut env, admin(), ID, DisputeOutcome::GrantClaim).unwrap();
    Contract::appeal_ruling(&mut env, owner(), ID).unwrap();
    assert!(Contract::appeal_ruling(&mut env, stranger(), ID).is_err());
    assert_eq!(dispute(&env).initiator, owner());
}

#[test]
fn only_a_filing_puts_a_dispute_on_record() {
    let mut env = ledger();
    assert!(Contract::escalate_dispute(&mut env, user(), ID).is_err());
    assert!(Contract::expire_dispute(&mut env, user(), ID).is_err());
    assert!(Contract::get_dispute(&env, ID).is_none());
    Contract::file_dispute(&mut env, user(), ID, DisputeReason::QualityIssue).unwrap();
    assert!(Contract::get_dispute(&env, ID).is_some());
}

#[test]
fn window_fits_up_to_the_end_of_the_clock() {
    let env = Env::new(START);
    assert!(env.fits_window(0));
    assert!(env.fits_window(u64::MAX - START));
    assert!(!env.fits_window(u64::MAX - START + 1));
}
