//! What the contract guarantees, proved of every ledger and every call.

use vstd::prelude::*;

use crate::env::EnvView;
use crate::events::{lemma_topics_differ, EventView};
use crate::history::{
    after, after_all, answer, appeals, climbs, escalates, files, last_initiator, Call,
};
use crate::types::{
    DisputeError, DisputeOutcome, DisputeStatus, DisputeView, EscalationLevel, ReasonView,
    APPEAL_WINDOW,
};

verus! {

// ---- soundness of the record ----------------------------------------------

/// Every call, and the passing of time, keeps the disputes on record sound.
pub proof fn law_calls_keep_the_record_sound(env: EnvView, call: Call)
    requires
        env.is_sound(),
    ensures
        after(env, call).is_sound(),
{
}

/// Whatever sequence of calls the contract has answered, starting from a
/// ledger without disputes, every dispute on record is sound.
pub proof fn law_every_history_leaves_a_sound_record(env: EnvView, calls: Seq<Call>)
    requires
        env.disputes =~= Map::empty(),
    ensures
        after_all(env, calls).is_sound(),
    decreases calls.len(),
{
    if calls.len() > 0 {
        law_every_history_leaves_a_sound_record(env, calls.drop_last());
        law_calls_keep_the_record_sound(after_all(env, calls.drop_last()), calls.last());
    }
}

/// A refused call changes nothing and publishes nothing.
pub proof fn law_refused_call_changes_nothing(env: EnvView, call: Call)
    requires
        answer(env, call) is Err,
    ensures
        after(env, call) == env,
{
}

/// A call about one agreement leaves every other dispute as it was, and no
/// dispute is ever removed.
pub proof fn law_disputes_are_independent(env: EnvView, call: Call, other: u128)
    ensures
        call.agreement() != Some(other) ==> after(env, call).dispute(other) == env.dispute(other),
        env.dispute(other) is Some ==> after(env, call).dispute(other) is Some,
{
}

/// Reading a dispute gives the entry that was last written for the agreement, and
/// nothing when there is none.
pub proof fn law_reading_gives_the_entry(env: EnvView, agreement_id: u128)
    ensures
        env.disputes.contains_key(agreement_id) ==> env.dispute(agreement_id) == Some(
            env.disputes[agreement_id],
        ),
        !env.disputes.contains_key(agreement_id) ==> env.dispute(agreement_id) is None,
{
}

/// What each call may touch: the clock moves only as time goes by, the roles change
/// only by initialising, each limit only by its own call, and what was published
/// stays.
pub proof fn law_what_calls_leave_alone(env: EnvView, call: Call)
    ensures
        ({
            let next = after(env, call);
            &&& next.auths == env.auths
            &&& next.timestamp == match call {
                Call::Elapse { seconds } => env.timestamp + seconds,
                _ => env.timestamp,
            }
            &&& next.owner == match call {
                Call::Initialize { owner, .. } => Some(owner),
                _ => env.owner,
            }
            &&& next.admin == match call {
                Call::Initialize { admin, .. } => Some(admin),
                _ => env.admin,
            }
            &&& !(call is SetLevelLimit) ==> next.level_limits == env.level_limits
            &&& !(call is SetReviewLimit) ==> next.review_limit == env.review_limit
            &&& call.agreement() is None ==> next.disputes == env.disputes
            &&& env.events.is_prefix_of(next.events)
        }),
{
    assert(env.events =~= after(env, call).events.take(env.events.len() as int));
}

// ---- the state machine ----------------------------------------------------

/// Exactly when each lifecycle call is carried out.
pub proof fn law_when_calls_are_carried_out(
    env: EnvView,
    caller: Seq<char>,
    agreement_id: u128,
    reason: ReasonView,
    outcome: DisputeOutcome,
)
    ensures
        answer(env, Call::File { caller, agreement_id, reason }) is Ok <==> {
            &&& reason.fits()
            &&& env.dispute(agreement_id) is None
        },
        answer(env, Call::Escalate { caller, agreement_id }) is Ok <==> {
            &&& env.dispute(agreement_id) matches Some(dispute)
            &&& dispute.is_active()
            &&& env.timestamp <= dispute.phase_deadline
            &&& !(dispute.level is Level3)
        },
        answer(env, Call::KeeperAdvance { caller, agreement_id }) is Ok <==> {
            &&& env.dispute(agreement_id) matches Some(dispute)
            &&& dispute.is_active()
            &&& env.timestamp > dispute.phase_deadline
            &&& env.timestamp + env.pending_review_time_limit() <= u64::MAX
        },
        answer(env, Call::Resolve { caller, agreement_id, outcome }) is Ok <==> {
            &&& env.is_admin(caller)
            &&& !(outcome is Unset)
            &&& env.dispute(agreement_id) matches Some(dispute)
            &&& dispute.is_active() || dispute.status is PendingReview
        },
        answer(env, Call::Appeal { caller, agreement_id }) is Ok <==> {
            &&& env.dispute(agreement_id) matches Some(dispute)
            &&& dispute.status is Resolved
            &&& env.timestamp <= dispute.phase_deadline
            &&& !(dispute.level is Level3)
        },
        answer(env, Call::Expire { caller, agreement_id }) is Ok <==> {
            &&& env.dispute(agreement_id) matches Some(dispute)
            &&& dispute.is_active() || dispute.status is PendingReview
            &&& env.timestamp > dispute.phase_deadline
        },
{
}

/// The transitions of the state machine. A dispute on record changes only as
/// one of these lines says.
pub proof fn law_transitions(env: EnvView, call: Call, agreement_id: u128)
    requires
        env.dispute(agreement_id) is Some,
        after(env, call).dispute(agreement_id) != env.dispute(agreement_id),
    ensures
        ({
            let before = env.disputes[agreement_id];
            let next = after(env, call).disputes[agreement_id];
            &&& answer(env, call) is Ok
            &&& call.agreement() == Some(agreement_id)
            &&& {
                ||| {
                    &&& call is Escalate
                    &&& before.is_active()
                    &&& env.timestamp <= before.phase_deadline
                    &&& next.status is Escalated
                    &&& next.level.tier() == before.level.tier() + 1
                }
                ||| {
                    &&& call is KeeperAdvance
                    &&& before.is_active()
                    &&& env.timestamp > before.phase_deadline
                    &&& next.status is PendingReview
                    &&& next.level == before.level
                }
                ||| {
                    &&& call is Resolve
                    &&& before.is_active() || before.status is PendingReview
                    &&& next.level == before.level
                    &&& if before.level is Level3 {
                        next.status is Finalised
                    } else {
                        next.status is Resolved
                    }
                }
                ||| {
                    &&& call is Appeal
                    &&& before.status is Resolved
                    &&& env.timestamp <= before.phase_deadline
                    &&& next.status is Appealed
                    &&& next.level.tier() == before.level.tier() + 1
                }
                ||| {
                    &&& call is Expire
                    &&& before.is_active() || before.status is PendingReview
                    &&& env.timestamp > before.phase_deadline
                    &&& next.status is Expired
                    &&& next.level == before.level
                }
            }
        }),
{
}

/// A new dispute appears only by a filing that is carried out, and is then open
/// at Level1.
pub proof fn law_disputes_begin_by_filing(env: EnvView, call: Call, agreement_id: u128)
    requires
        env.dispute(agreement_id) is None,
        after(env, call).dispute(agreement_id) is Some,
    ensures
        files(env, call, agreement_id),
        after(env, call).disputes[agreement_id].status is Open,
        after(env, call).disputes[agreement_id].level is Level1,
{
}

/// What was filed is on record as it was given: the reason and the agreement for
/// good, whatever calls follow, and the rest at first.
pub proof fn law_filing_records_what_was_given(
    env: EnvView,
    caller: Seq<char>,
    agreement_id: u128,
    reason: ReasonView,
    calls: Seq<Call>,
)
    requires
        answer(env, Call::File { caller, agreement_id, reason }) is Ok,
    ensures
        ({
            let filed = after(env, Call::File { caller, agreement_id, reason });
            let end = after_all(filed, calls);
            &&& filed.disputes.contains_key(agreement_id)
            &&& filed.disputes[agreement_id].initiator == caller
            &&& filed.disputes[agreement_id].phase_started_at == env.timestamp
            &&& filed.disputes[agreement_id].outcome is Unset
            &&& filed.disputes[agreement_id].reason == reason
            &&& filed.events.last() matches EventView::Filed { reason: announced, .. }
            &&& announced == reason
            &&& end.dispute(agreement_id) matches Some(dispute)
            &&& dispute.agreement_id == agreement_id
            &&& dispute.reason == reason
        }),
{
    let filed = after(env, Call::File { caller, agreement_id, reason });
    law_reason_is_immutable(filed, calls, agreement_id);
}

/// Whether the call at position `i` filed the agreement's dispute.
pub open spec fn files_at(env: EnvView, calls: Seq<Call>, i: int, agreement_id: u128) -> bool {
    files(after_all(env, calls.take(i)), calls[i], agreement_id)
}

/// After one more call, an agreement has a dispute when it had one or the call
/// filed it.
proof fn lemma_record_grows_by_filing(env: EnvView, call: Call, agreement_id: u128)
    ensures
        after(env, call).dispute(agreement_id) is Some <==> env.dispute(agreement_id) is Some
            || files(env, call, agreement_id),
{
}

/// One more call does not change what the earlier ones did.
proof fn lemma_earlier_filings(env: EnvView, calls: Seq<Call>, agreement_id: u128)
    requires
        calls.len() > 0,
    ensures
        forall|i: int|
            0 <= i < calls.len() - 1 ==> #[trigger] files_at(env, calls, i, agreement_id)
                == files_at(env, calls.drop_last(), i, agreement_id),
        files_at(env, calls, calls.len() - 1, agreement_id) == files(
            after_all(env, calls.drop_last()),
            calls.last(),
            agreement_id,
        ),
{
    assert forall|i: int| 0 <= i < calls.len() - 1 implies #[trigger] files_at(
        env,
        calls,
        i,
        agreement_id,
    ) == files_at(env, calls.drop_last(), i, agreement_id) by {
        assert(calls.take(i) =~= calls.drop_last().take(i));
    }
    assert(calls.take(calls.len() - 1) =~= calls.drop_last());
}

/// Starting from a ledger without disputes, an agreement has a dispute on record
/// exactly when one of the calls filed it.
pub proof fn law_record_holds_what_was_filed(env: EnvView, calls: Seq<Call>, agreement_id: u128)
    requires
        env.disputes =~= Map::empty(),
    ensures
        after_all(env, calls).dispute(agreement_id) is Some <==> exists|i: int|
            0 <= i < calls.len() && #[trigger] files_at(env, calls, i, agreement_id),
    decreases calls.len(),
{
    if calls.len() > 0 {
        let earlier = calls.drop_last();
        let last = calls.len() - 1;
        law_record_holds_what_was_filed(env, earlier, agreement_id);
        lemma_record_grows_by_filing(after_all(env, earlier), calls.last(), agreement_id);
        lemma_earlier_filings(env, calls, agreement_id);
        if exists|i: int| 0 <= i < earlier.len() && files_at(env, earlier, i, agreement_id) {
            let i = choose|i: int|
                0 <= i < earlier.len() && files_at(env, earlier, i, agreement_id);
            assert(files_at(env, calls, i, agreement_id));
        } else if !files_at(env, calls, last, agreement_id) {
            assert forall|i: int| 0 <= i < calls.len() implies !files_at(
                env,
                calls,
                i,
                agreement_id,
            ) by {
                assert(i < last ==> !files_at(env, earlier, i, agreement_id));
            }
        }
    }
}

// ---- terminal states ------------------------------------------------------

/// A terminal dispute refuses every call: with `AlreadyFinalised` when it is
/// finalised, with `AlreadyTerminal` when it has expired.
pub proof fn law_terminal_dispute_refuses_all(
    env: EnvView,
    caller: Seq<char>,
    agreement_id: u128,
    reason: ReasonView,
    outcome: DisputeOutcome,
)
    requires
        env.dispute(agreement_id) is Some,
        env.disputes[agreement_id].is_terminal(),
    ensures
        ({
            let error = if env.disputes[agreement_id].status is Finalised {
                DisputeError::AlreadyFinalised
            } else {
                DisputeError::AlreadyTerminal
            };
            &&& answer(env, Call::Escalate { caller, agreement_id }) == Err::<(), _>(error)
            &&& answer(env, Call::KeeperAdvance { caller, agreement_id }) == Err::<(), _>(error)
            &&& answer(env, Call::Appeal { caller, agreement_id }) == Err::<(), _>(error)
            &&& answer(env, Call::Expire { caller, agreement_id }) == Err::<(), _>(error)
            &&& env.is_admin(caller) && !(outcome is Unset) ==> answer(
                env,
                Call::Resolve { caller, agreement_id, outcome },
            ) == Err::<(), _>(error)
            &&& answer(env, Call::Resolve { caller, agreement_id, outcome }) is Err
            &&& answer(env, Call::File { caller, agreement_id, reason }) is Err
        }),
{
}

/// Once terminal, a dispute stays exactly as it is, whatever calls follow.
pub proof fn law_terminal_is_for_ever(env: EnvView, calls: Seq<Call>, agreement_id: u128)
    requires
        env.dispute(agreement_id) is Some,
        env.disputes[agreement_id].is_terminal(),
    ensures
        after_all(env, calls).dispute(agreement_id) == env.dispute(agreement_id),
    decreases calls.len(),
{
    if calls.len() > 0 {
        law_terminal_is_for_ever(env, calls.drop_last(), agreement_id);
    }
}

// ---- the ladder -----------------------------------------------------------

/// No call moves a dispute by more than one tier, and exactly the escalations and
/// appeals that are carried out move it at all.
pub proof fn law_one_tier_per_call(env: EnvView, call: Call, agreement_id: u128)
    requires
        env.dispute(agreement_id) is Some,
    ensures
        ({
            let before = env.disputes[agreement_id].level;
            let next = after(env, call).disputes[agreement_id].level;
            &&& next == before || before.above() == Some(next)
            &&& next != before <==> escalates(env, call, agreement_id) || appeals(
                env,
                call,
                agreement_id,
            )
        }),
{
}

/// A dispute never comes down the ladder: it has climbed as many tiers as it was
/// escalated and appealed.
pub proof fn law_tiers_only_rise(env: EnvView, calls: Seq<Call>, agreement_id: u128)
    requires
        env.dispute(agreement_id) is Some,
    ensures
        after_all(env, calls).dispute(agreement_id) is Some,
        after_all(env, calls).disputes[agreement_id].level.tier()
            == env.disputes[agreement_id].level.tier() + climbs(env, calls, agreement_id),
    decreases calls.len(),
{
    if calls.len() > 0 {
        law_tiers_only_rise(env, calls.drop_last(), agreement_id);
        law_one_tier_per_call(after_all(env, calls.drop_last()), calls.last(), agreement_id);
    }
}

/// A dispute at Level3 cannot be escalated, and a ruling there cannot be
/// appealed.
pub proof fn law_level3_is_the_top(env: EnvView, caller: Seq<char>, agreement_id: u128)
    requires
        env.dispute(agreement_id) is Some,
        env.disputes[agreement_id].level is Level3,
    ensures
        answer(env, Call::Escalate { caller, agreement_id }) is Err,
        answer(env, Call::Appeal { caller, agreement_id }) is Err,
        env.disputes[agreement_id].is_active() && env.timestamp
            <= env.disputes[agreement_id].phase_deadline ==> answer(
            env,
            Call::Escalate { caller, agreement_id },
        ) == Err::<(), _>(DisputeError::MaxEscalationReached),
{
}

// ---- keepers --------------------------------------------------------------

/// A keeper only ever puts a dispute before the admin: tier, outcome, reason
/// and initiator stay.
pub proof fn law_keeper_cannot_skip_stages(env: EnvView, caller: Seq<char>, agreement_id: u128)
    requires
        answer(env, Call::KeeperAdvance { caller, agreement_id }) is Ok,
    ensures
        ({
            let before = env.disputes[agreement_id];
            let next = after(
                env,
                Call::KeeperAdvance { caller, agreement_id },
            ).disputes[agreement_id];
            &&& next.status is PendingReview
            &&& next.level == before.level
            &&& next.outcome == before.outcome
            &&& next.reason == before.reason
            &&& next.initiator == before.initiator
            &&& next.phase_started_at == env.timestamp
            &&& next.phase_deadline == env.timestamp + env.pending_review_time_limit()
        }),
{
}

/// A second keeper call on a dispute that awaits review is refused, however
/// much later it comes.
pub proof fn law_keeper_acts_once(
    env: EnvView,
    first: Seq<char>,
    second: Seq<char>,
    agreement_id: u128,
    seconds: nat,
)
    requires
        answer(env, Call::KeeperAdvance { caller: first, agreement_id }) is Ok,
    ensures
        answer(
            after(
                after(env, Call::KeeperAdvance { caller: first, agreement_id }),
                Call::Elapse { seconds },
            ),
            Call::KeeperAdvance { caller: second, agreement_id },
        ) == Err::<(), _>(DisputeError::AlreadyPendingReview),
{
}

/// A second call to expire a dispute is refused, however much later it comes.
pub proof fn law_expiry_happens_once(
    env: EnvView,
    first: Seq<char>,
    second: Seq<char>,
    agreement_id: u128,
    seconds: nat,
)
    requires
        answer(env, Call::Expire { caller: first, agreement_id }) is Ok,
    ensures
        answer(
            after(
                after(env, Call::Expire { caller: first, agreement_id }),
                Call::Elapse { seconds },
            ),
            Call::Expire { caller: second, agreement_id },
        ) == Err::<(), _>(DisputeError::AlreadyTerminal),
{
}

/// A dispute that awaits review can be neither escalated nor appealed.
pub proof fn law_review_closes_escalation(env: EnvView, caller: Seq<char>, agreement_id: u128)
    requires
        env.dispute(agreement_id) is Some,
        env.disputes[agreement_id].status is PendingReview,
    ensures
        answer(env, Call::Escalate { caller, agreement_id }) == Err::<(), _>(
            DisputeError::InvalidTransition,
        ),
        answer(env, Call::Appeal { caller, agreement_id }) == Err::<(), _>(
            DisputeError::InvalidTransition,
        ),
{
}

/// Escalation, the keeper's step and expiry are open to anyone: neither the
/// answer nor the effect depends on who calls.
pub proof fn law_permissionless_calls(
    env: EnvView,
    one: Seq<char>,
    another: Seq<char>,
    agreement_id: u128,
)
    ensures
        answer(env, Call::Escalate { caller: one, agreement_id }) == answer(
            env,
            Call::Escalate { caller: another, agreement_id },
        ),
        after(env, Call::Escalate { caller: one, agreement_id }) == after(
            env,
            Call::Escalate { caller: another, agreement_id },
        ),
        answer(env, Call::KeeperAdvance { caller: one, agreement_id }) == answer(
            env,
            Call::KeeperAdvance { caller: another, agreement_id },
        ),
        after(env, Call::KeeperAdvance { caller: one, agreement_id }) == after(
            env,
            Call::KeeperAdvance { caller: another, agreement_id },
        ),
        answer(env, Call::Expire { caller: one, agreement_id }) == answer(
            env,
            Call::Expire { caller: another, agreement_id },
        ),
        after(env, Call::Expire { caller: one, agreement_id }) == after(
            env,
            Call::Expire { caller: another, agreement_id },
        ),
{
}

// ---- rulings --------------------------------------------------------------

/// Only the admin rules: an outcome comes on record only by the admin's call.
pub proof fn law_only_the_admin_rules(env: EnvView, call: Call, agreement_id: u128)
    requires
        after(env, call).dispute(agreement_id) != env.dispute(agreement_id),
        after(env, call).dispute(agreement_id) is Some,
        after(env, call).disputes[agreement_id].is_ruled_on(),
    ensures
        call is Resolve,
        call.made_by() matches Some(who) && env.is_admin(who),
{
}

/// Anyone but the admin is refused a ruling, whatever the dispute.
pub proof fn law_others_may_not_rule(
    env: EnvView,
    caller: Seq<char>,
    agreement_id: u128,
    outcome: DisputeOutcome,
)
    requires
        !env.is_admin(caller),
    ensures
        answer(env, Call::Resolve { caller, agreement_id, outcome }) == Err::<(), _>(
            DisputeError::Unauthorized,
        ),
{
}

/// A ruling cannot be repeated or replaced, however much later it is tried:
/// `AlreadyFinalised` at Level3, `AlreadyResolved` below.
pub proof fn law_no_second_ruling(
    env: EnvView,
    caller: Seq<char>,
    agreement_id: u128,
    first: DisputeOutcome,
    second: DisputeOutcome,
    seconds: nat,
)
    requires
        answer(env, Call::Resolve { caller, agreement_id, outcome: first }) is Ok,
        !(second is Unset),
    ensures
        ({
            let later = after(
                after(env, Call::Resolve { caller, agreement_id, outcome: first }),
                Call::Elapse { seconds },
            );
            let repeated = answer(later, Call::Resolve { caller, agreement_id, outcome: second });
            &&& later.disputes[agreement_id].outcome == first
            &&& later.disputes[agreement_id].level is Level3 ==> repeated == Err::<(), _>(
                DisputeError::AlreadyFinalised,
            )
            &&& !(later.disputes[agreement_id].level is Level3) ==> repeated == Err::<(), _>(
                DisputeError::AlreadyResolved,
            )
        }),
{
}

/// A ruling at Level3 is final: it stands whatever calls follow.
pub proof fn law_level3_ruling_is_binding(
    env: EnvView,
    caller: Seq<char>,
    agreement_id: u128,
    outcome: DisputeOutcome,
    calls: Seq<Call>,
)
    requires
        answer(env, Call::Resolve { caller, agreement_id, outcome }) is Ok,
        env.disputes[agreement_id].level is Level3,
    ensures
        ({
            let end = after_all(
                after(env, Call::Resolve { caller, agreement_id, outcome }),
                calls,
            );
            &&& end.dispute(agreement_id) is Some
            &&& end.disputes[agreement_id].status is Finalised
            &&& end.disputes[agreement_id].outcome == outcome
        }),
{
    law_terminal_is_for_ever(
        after(env, Call::Resolve { caller, agreement_id, outcome }),
        calls,
        agreement_id,
    );
}

/// A ruling below Level3 may be appealed by anyone for exactly the appeal
/// window; an appeal withdraws the ruling and moves the dispute up one tier.
pub proof fn law_appeal_window(
    env: EnvView,
    admin: Seq<char>,
    appellant: Seq<char>,
    agreement_id: u128,
    outcome: DisputeOutcome,
    seconds: nat,
)
    requires
        answer(env, Call::Resolve { caller: admin, agreement_id, outcome }) is Ok,
        !(env.disputes[agreement_id].level is Level3),
    ensures
        ({
            let later = after(
                after(env, Call::Resolve { caller: admin, agreement_id, outcome }),
                Call::Elapse { seconds },
            );
            let appeal = Call::Appeal { caller: appellant, agreement_id };
            let next = after(later, appeal).disputes[agreement_id];
            if seconds <= APPEAL_WINDOW {
                &&& answer(later, appeal) is Ok
                &&& next.status is Appealed
                &&& env.disputes[agreement_id].level.above() == Some(next.level)
                &&& next.outcome is Unset
                &&& next.initiator == appellant
            } else {
                answer(later, appeal) == Err::<(), _>(DisputeError::TimeLimitExpired)
            }
        }),
{
}

/// A ruling whose appeal window has passed stands, whatever calls follow.
pub proof fn law_unappealed_ruling_stands(env: EnvView, calls: Seq<Call>, agreement_id: u128)
    requires
        env.dispute(agreement_id) is Some,
        env.disputes[agreement_id].status is Resolved,
        env.timestamp > env.disputes[agreement_id].phase_deadline,
    ensures
        after_all(env, calls).dispute(agreement_id) == env.dispute(agreement_id),
        after_all(env, calls).timestamp >= env.timestamp,
    decreases calls.len(),
{
    if calls.len() > 0 {
        law_unappealed_ruling_stands(env, calls.drop_last(), agreement_id);
    }
}

/// A ruling that is carried out puts the outcome it was given on record, and a
/// reader finds that outcome there whatever calls follow, until one of them appeals.
pub proof fn law_ruling_is_found_until_appealed(
    env: EnvView,
    caller: Seq<char>,
    agreement_id: u128,
    outcome: DisputeOutcome,
    calls: Seq<Call>,
)
    requires
        answer(env, Call::Resolve { caller, agreement_id, outcome }) is Ok,
        forall|i: int|
            0 <= i < calls.len() ==> !appeals(
                after_all(
                    after(env, Call::Resolve { caller, agreement_id, outcome }),
                    #[trigger] calls.take(i),
                ),
                calls[i],
                agreement_id,
            ),
    ensures
        ({
            let end = after_all(
                after(env, Call::Resolve { caller, agreement_id, outcome }),
                calls,
            );
            &&& end.dispute(agreement_id) == Some(end.disputes[agreement_id])
            &&& end.disputes[agreement_id].outcome == outcome
            &&& end.disputes[agreement_id].level == env.disputes[agreement_id].level
            &&& end.disputes[agreement_id].is_ruled_on()
        }),
    decreases calls.len(),
{
    if calls.len() > 0 {
        let earlier = calls.drop_last();
        assert forall|i: int| 0 <= i < earlier.len() implies !appeals(
            after_all(
                after(env, Call::Resolve { caller, agreement_id, outcome }),
                #[trigger] earlier.take(i),
            ),
            earlier[i],
            agreement_id,
        ) by {
            assert(earlier.take(i) =~= calls.take(i));
        }
        law_ruling_is_found_until_appealed(env, caller, agreement_id, outcome, earlier);
        assert(calls.take(calls.len() - 1) =~= earlier);
    }
}

// ---- deadlines ------------------------------------------------------------

/// Up to and including its deadline an active dispute can be neither advanced
/// by a keeper nor expired, and is not too late to be escalated; past it, it can
/// no longer be escalated, can be expired, and is not too early for a keeper.
pub proof fn law_deadline_divides_the_windows(
    env: EnvView,
    caller: Seq<char>,
    agreement_id: u128,
)
    requires
        env.dispute(agreement_id) is Some,
        env.disputes[agreement_id].is_active(),
    ensures
        if env.timestamp <= env.disputes[agreement_id].phase_deadline {
            &&& answer(env, Call::KeeperAdvance { caller, agreement_id }) == Err::<(), _>(
                DisputeError::DeadlineNotPassed,
            )
            &&& answer(env, Call::Expire { caller, agreement_id }) == Err::<(), _>(
                DisputeError::DeadlineNotPassed,
            )
            &&& answer(env, Call::Escalate { caller, agreement_id })
                == if env.disputes[agreement_id].level is Level3 {
                Err::<(), _>(DisputeError::MaxEscalationReached)
            } else {
                Ok(())
            }
        } else {
            &&& answer(env, Call::Escalate { caller, agreement_id }) == Err::<(), _>(
                DisputeError::TimeLimitExpired,
            )
            &&& answer(env, Call::KeeperAdvance { caller, agreement_id })
                == if env.timestamp + env.pending_review_time_limit() <= u64::MAX {
                Ok(())
            } else {
                Err::<(), _>(DisputeError::SlaDeadlineOverflow)
            }
            &&& answer(env, Call::Expire { caller, agreement_id }) is Ok
        },
{
}

/// No dispute is stuck: one that is neither ruled on nor terminal can be
/// closed by anyone once its deadline has passed.
pub proof fn law_no_dispute_is_stuck(
    env: EnvView,
    caller: Seq<char>,
    agreement_id: u128,
    seconds: nat,
)
    requires
        env.dispute(agreement_id) is Some,
        !env.disputes[agreement_id].is_terminal(),
        !(env.disputes[agreement_id].status is Resolved),
        env.timestamp + seconds > env.disputes[agreement_id].phase_deadline,
    ensures
        answer(
            after(env, Call::Elapse { seconds }),
            Call::Expire { caller, agreement_id },
        ) is Ok,
        after(
            after(env, Call::Elapse { seconds }),
            Call::Expire { caller, agreement_id },
        ).disputes[agreement_id].status is Expired,
{
}

/// Every call that changes a dispute starts a new phase at the current ledger
/// time; expiry leaves the missed deadline on record.
pub proof fn law_phase_starts_now(env: EnvView, call: Call, agreement_id: u128)
    requires
        after(env, call).dispute(agreement_id) is Some,
        after(env, call).dispute(agreement_id) != env.dispute(agreement_id),
    ensures
        ({
            let next = after(env, call).disputes[agreement_id];
            &&& next.phase_started_at == env.timestamp
            &&& call is Expire ==> next.phase_deadline
                == env.disputes[agreement_id].phase_deadline
        }),
{
}

/// The deadline of a new phase is the current ledger time and the window of
/// that phase: the tier's limit, the review limit or the appeal window.
pub proof fn law_phase_deadline(env: EnvView, call: Call, agreement_id: u128)
    requires
        after(env, call).dispute(agreement_id) is Some,
        after(env, call).dispute(agreement_id) != env.dispute(agreement_id),
        !(call is Expire),
    ensures
        ({
            let next = after(env, call).disputes[agreement_id];
            next.phase_deadline == env.timestamp + match next.status {
                DisputeStatus::PendingReview => env.pending_review_time_limit(),
                DisputeStatus::Resolved => APPEAL_WINDOW as nat,
                DisputeStatus::Finalised => 0nat,
                _ => env.level_time_limit(next.level),
            }
        }),
{
}

/// The window of a level is the one configured for it, and seven days when none is;
/// the review window is the one configured, and three days when none is. Nothing
/// else on the ledger has a part in it.
pub proof fn law_windows(env: EnvView, level: EscalationLevel)
    ensures
        env.level_limits.contains_key(level) ==> env.level_time_limit(level)
            == env.level_limits[level],
        !env.level_limits.contains_key(level) ==> env.level_time_limit(level) == 604_800,
        env.review_limit matches Some(limit) ==> env.pending_review_time_limit() == limit,
        env.review_limit is None ==> env.pending_review_time_limit() == 259_200,
{
}

/// Two ledgers on which a level has the same limit, or has none on both, give it the
/// same window; so it is with the review limit. Time, roles, disputes and the other
/// limits do not matter.
pub proof fn law_windows_depend_on_their_limit_alone(
    one: EnvView,
    other: EnvView,
    level: EscalationLevel,
)
    ensures
        one.level_limits.contains_key(level) == other.level_limits.contains_key(level) && (
        one.level_limits.contains_key(level) ==> one.level_limits[level]
            == other.level_limits[level]) ==> one.level_time_limit(level)
            == other.level_time_limit(level),
        one.review_limit == other.review_limit ==> one.pending_review_time_limit()
            == other.pending_review_time_limit(),
{
}

/// Until a limit is set for a tier, every phase that begins there by filing,
/// escalating or appealing lasts seven days, whatever the other limits are; with a
/// limit set, it lasts that long.
pub proof fn law_length_of_a_tier_phase(env: EnvView, call: Call, agreement_id: u128)
    requires
        call is File || call is Escalate || call is Appeal,
        call.agreement() == Some(agreement_id),
        answer(env, call) is Ok,
    ensures
        ({
            let next = after(env, call).disputes[agreement_id];
            &&& next.phase_started_at == env.timestamp
            &&& !env.level_limits.contains_key(next.level) ==> next.phase_deadline
                == env.timestamp + 604_800
            &&& env.level_limits.contains_key(next.level) ==> next.phase_deadline
                == env.timestamp + env.level_limits[next.level]
        }),
{
}

/// Until a review limit is set, every review lasts three days; with one set, it lasts
/// that long.
pub proof fn law_length_of_a_review(env: EnvView, caller: Seq<char>, agreement_id: u128)
    requires
        answer(env, Call::KeeperAdvance { caller, agreement_id }) is Ok,
    ensures
        ({
            let next = after(
                env,
                Call::KeeperAdvance { caller, agreement_id },
            ).disputes[agreement_id];
            &&& next.phase_started_at == env.timestamp
            &&& env.review_limit is None ==> next.phase_deadline == env.timestamp + 259_200
            &&& env.review_limit matches Some(limit) ==> next.phase_deadline == env.timestamp
                + limit
        }),
{
}

/// An appeal window lasts three days; a final ruling has none.
pub proof fn law_length_of_an_appeal_window(
    env: EnvView,
    caller: Seq<char>,
    agreement_id: u128,
    outcome: DisputeOutcome,
)
    requires
        answer(env, Call::Resolve { caller, agreement_id, outcome }) is Ok,
    ensures
        ({
            let next = after(
                env,
                Call::Resolve { caller, agreement_id, outcome },
            ).disputes[agreement_id];
            &&& next.level is Level3 ==> next.phase_deadline == env.timestamp
            &&& !(next.level is Level3) ==> next.phase_deadline == env.timestamp + 259_200
        }),
{
}

// ---- configuration --------------------------------------------------------

/// Only the admin changes a time limit.
pub proof fn law_only_the_admin_configures(env: EnvView, call: Call)
    requires
        after(env, call).level_limits != env.level_limits || after(env, call).review_limit
            != env.review_limit,
    ensures
        call is SetLevelLimit || call is SetReviewLimit,
        call.made_by() matches Some(who) && env.is_admin(who),
        answer(env, call) is Ok,
{
}

/// A new limit is in force for later phases, and no running deadline changes.
pub proof fn law_new_limits_are_not_retroactive(
    env: EnvView,
    caller: Seq<char>,
    level: EscalationLevel,
    other: EscalationLevel,
    limit: nat,
)
    requires
        env.is_admin(caller),
        other != level,
    ensures
        ({
            let levels = after(env, Call::SetLevelLimit { caller, level, limit });
            let review = after(env, Call::SetReviewLimit { caller, limit });
            &&& levels.level_time_limit(level) == limit
            &&& levels.level_time_limit(other) == env.level_time_limit(other)
            &&& levels.pending_review_time_limit() == env.pending_review_time_limit()
            &&& levels.disputes == env.disputes
            &&& review.pending_review_time_limit() == limit
            &&& review.level_limits == env.level_limits
            &&& review.level_time_limit(level) == env.level_time_limit(level)
            &&& review.level_time_limit(other) == env.level_time_limit(other)
            &&& review.disputes == env.disputes
        }),
{
}

/// Initialising makes exactly the given address the admin.
pub proof fn law_initialize_names_the_admin(
    env: EnvView,
    owner: Seq<char>,
    admin: Seq<char>,
    who: Seq<char>,
)
    ensures
        after(env, Call::Initialize { owner, admin }).is_admin(who) <==> who == admin,
        after(env, Call::Initialize { owner, admin }).disputes == env.disputes,
{
}

// ---- what never changes ---------------------------------------------------

/// The agreement and the reason of a dispute are those it was filed with,
/// whatever calls follow.
pub proof fn law_reason_is_immutable(env: EnvView, calls: Seq<Call>, agreement_id: u128)
    requires
        env.dispute(agreement_id) is Some,
    ensures
        after_all(env, calls).dispute(agreement_id) is Some,
        after_all(env, calls).disputes[agreement_id].reason
            == env.disputes[agreement_id].reason,
        after_all(env, calls).disputes[agreement_id].agreement_id
            == env.disputes[agreement_id].agreement_id,
    decreases calls.len(),
{
    if calls.len() > 0 {
        law_reason_is_immutable(env, calls.drop_last(), agreement_id);
    }
}

/// The initiator is who filed, until an appeal puts the appellant there.
pub proof fn law_initiator_changes_by_appeal(env: EnvView, call: Call, agreement_id: u128)
    requires
        env.dispute(agreement_id) is Some,
        after(env, call).disputes[agreement_id].initiator
            != env.disputes[agreement_id].initiator,
    ensures
        appeals(env, call, agreement_id),
        call.made_by() == Some(after(env, call).disputes[agreement_id].initiator),
{
}

/// After any calls the initiator is who made the last appeal that was carried
/// out; without one, it is who it was.
pub proof fn law_initiator_is_the_last_appellant(
    env: EnvView,
    calls: Seq<Call>,
    agreement_id: u128,
)
    requires
        env.dispute(agreement_id) is Some,
    ensures
        after_all(env, calls).dispute(agreement_id) is Some,
        after_all(env, calls).disputes[agreement_id].initiator == match last_initiator(
            env,
            calls,
            agreement_id,
        ) {
            Some(appellant) => appellant,
            None => env.disputes[agreement_id].initiator,
        },
    decreases calls.len(),
{
    if calls.len() > 0 {
        law_initiator_is_the_last_appellant(env, calls.drop_last(), agreement_id);
    }
}

/// Starting from a ledger without disputes, the initiator of a dispute on record
/// is who made the last appeal that was carried out; without one, who filed it.
pub proof fn law_initiator_is_who_filed_or_appealed_last(
    env: EnvView,
    calls: Seq<Call>,
    agreement_id: u128,
)
    requires
        env.disputes =~= Map::empty(),
    ensures
        last_initiator(env, calls, agreement_id) == match after_all(env, calls).dispute(
            agreement_id,
        ) {
            Some(dispute) => Some(dispute.initiator),
            None => None,
        },
    decreases calls.len(),
{
    if calls.len() > 0 {
        law_initiator_is_who_filed_or_appealed_last(env, calls.drop_last(), agreement_id);
    }
}

/// An agreement has at most one dispute: once filed, filing again is refused
/// whatever calls came between.
pub proof fn law_one_dispute_per_agreement(
    env: EnvView,
    calls: Seq<Call>,
    caller: Seq<char>,
    agreement_id: u128,
    reason: ReasonView,
)
    requires
        env.dispute(agreement_id) is Some,
        reason.fits(),
    ensures
        answer(after_all(env, calls), Call::File { caller, agreement_id, reason }) == Err::<
            (),
            _,
        >(DisputeError::InvalidTransition),
{
    law_reason_is_immutable(env, calls, agreement_id);
}

// ---- events ---------------------------------------------------------------

/// The event that announces what a dispute has become.
pub open spec fn announces(event: EventView, dispute: DisputeView) -> bool {
    match dispute.status {
        DisputeStatus::Open => event == EventView::Filed {
            agreement_id: dispute.agreement_id,
            initiator: dispute.initiator,
            level: dispute.level,
            phase_deadline: dispute.phase_deadline,
            reason: dispute.reason,
        },
        DisputeStatus::Escalated => event == EventView::Escalated {
            agreement_id: dispute.agreement_id,
            new_level: dispute.level,
            phase_deadline: dispute.phase_deadline,
        },
        DisputeStatus::PendingReview => event == EventView::SlaBreached {
            agreement_id: dispute.agreement_id,
            level: dispute.level,
            breached_at: dispute.phase_started_at,
            review_deadline: dispute.phase_deadline,
        },
        DisputeStatus::Resolved => event == EventView::Resolved {
            agreement_id: dispute.agreement_id,
            level: dispute.level,
            outcome: dispute.outcome,
            appeal_deadline: dispute.phase_deadline,
        },
        DisputeStatus::Appealed => event == EventView::Appealed {
            agreement_id: dispute.agreement_id,
            appellant: dispute.initiator,
            new_level: dispute.level,
            phase_deadline: dispute.phase_deadline,
        },
        DisputeStatus::Finalised => event == EventView::Finalised {
            agreement_id: dispute.agreement_id,
            outcome: dispute.outcome,
        },
        DisputeStatus::Expired => event == EventView::Expired {
            agreement_id: dispute.agreement_id,
        },
    }
}

/// Every change of a dispute is announced by exactly one event, which tells
/// what the dispute has become; nothing else is ever announced.
pub proof fn law_changes_are_announced(env: EnvView, call: Call)
    requires
        env.is_sound(),
    ensures
        match call.agreement() {
            Some(agreement_id) if answer(env, call) is Ok => {
                let next = after(env, call);
                &&& next.events.len() == env.events.len() + 1
                &&& next.events.drop_last() == env.events
                &&& announces(next.events.last(), next.disputes[agreement_id])
            },
            _ => after(env, call).events == env.events,
        },
{
    assert(after(env, call).events.len() > env.events.len() ==> after(
        env,
        call,
    ).events.drop_last() =~= env.events);
}

/// Each call announces its change under the topic of that kind of change. A ruling
/// goes out as final at Level3 and nowhere else.
pub proof fn law_topic_of_each_call(env: EnvView, call: Call, agreement_id: u128)
    requires
        call.agreement() == Some(agreement_id),
        answer(env, call) is Ok,
    ensures
        ({
            let topic = after(env, call).events.last().topic();
            let top = env.disputes[agreement_id].level is Level3;
            &&& call is File ==> topic == "dispute_filed"@
            &&& call is Escalate ==> topic == "dispute_escalated"@
            &&& call is KeeperAdvance ==> topic == "dispute_sla_breached"@
            &&& call is Resolve && !top ==> topic == "dispute_resolved"@
            &&& call is Resolve && top ==> topic == "dispute_finalised"@
            &&& call is Appeal ==> topic == "dispute_appealed"@
            &&& call is Expire ==> topic == "dispute_expired"@
        }),
{
}

/// Two events go out under one topic exactly when they tell of the same kind of
/// change.
pub proof fn law_topics_tell_kinds_apart(one: EventView, other: EventView)
    ensures
        one.topic() == other.topic() <==> {
            ||| one is Filed && other is Filed
            ||| one is Escalated && other is Escalated
            ||| one is SlaBreached && other is SlaBreached
            ||| one is Resolved && other is Resolved
            ||| one is Finalised && other is Finalised
            ||| one is Appealed && other is Appealed
            ||| one is Expired && other is Expired
        },
{
    lemma_topics_differ();
}

} // verus!
