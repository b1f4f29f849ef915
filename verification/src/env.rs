//! What a contract call sees of the ledger, and what it leaves there.

use std::collections::HashMap;

use vstd::prelude::*;

use crate::events::{DisputeEvent, EventView};
use crate::types::{
    Address, DisputeDetails, DisputeView, EscalationLevel, DEFAULT_LEVEL_TIME_LIMIT,
    DEFAULT_PENDING_REVIEW_TIME_LIMIT,
};

verus! {

broadcast use vstd::std_specs::hash::group_hash_axioms;

/// The contract's persistent entries. An entry that was never written is
/// `None`, or missing from the map.
#[derive(Debug)]
pub struct Storage {
    /// The upgrade authority.
    pub owner: Option<Address>,
    /// Who rules on disputes and sets time limits.
    pub admin: Option<Address>,
    /// The disputes, by agreement.
    pub disputes: HashMap<u128, DisputeDetails>,
    pub level1_time_limit: Option<u64>,
    pub level2_time_limit: Option<u64>,
    pub level3_time_limit: Option<u64>,
    pub pending_review_time_limit: Option<u64>,
}

/// The ledger as one contract call sees it.
#[derive(Debug)]
pub struct Env {
    /// The addresses that authorised the call.
    pub auths: Vec<Address>,
    /// The ledger's consensus time, in seconds.
    pub timestamp: u64,
    pub storage: Storage,
    /// The events published so far, oldest first.
    pub events: Vec<DisputeEvent>,
}

/// The mathematical form of an `Env`.
#[verifier::ext_equal]
pub struct EnvView {
    pub auths: Seq<Seq<char>>,
    pub timestamp: nat,
    pub owner: Option<Seq<char>>,
    pub admin: Option<Seq<char>>,
    pub disputes: Map<u128, DisputeView>,
    /// The levels whose time limit was configured.
    pub level_limits: Map<EscalationLevel, nat>,
    pub review_limit: Option<nat>,
    pub events: Seq<EventView>,
}

impl EnvView {
    /// Whether `who` authorised the call.
    pub open spec fn authenticated(self, who: Seq<char>) -> bool {
        self.auths.contains(who)
    }

    /// The dispute on record for an agreement.
    pub open spec fn dispute(self, agreement_id: u128) -> Option<DisputeView> {
        if self.disputes.contains_key(agreement_id) {
            Some(self.disputes[agreement_id])
        } else {
            None
        }
    }

    /// The window of a level: as configured, or the default.
    pub open spec fn level_time_limit(self, level: EscalationLevel) -> nat {
        if self.level_limits.contains_key(level) {
            self.level_limits[level]
        } else {
            DEFAULT_LEVEL_TIME_LIMIT as nat
        }
    }

    /// The admin-review window: as configured, or the default.
    pub open spec fn pending_review_time_limit(self) -> nat {
        match self.review_limit {
            Some(limit) => limit,
            None => DEFAULT_PENDING_REVIEW_TIME_LIMIT as nat,
        }
    }

    /// The admin is the configured one; as long as there is none, the owner
    /// takes that part.
    pub open spec fn is_admin(self, who: Seq<char>) -> bool {
        match self.admin {
            Some(admin) => admin == who,
            None => self.owner == Some(who),
        }
    }

    /// The ledger with one dispute written and one event published.
    pub open spec fn with_change(
        self,
        agreement_id: u128,
        dispute: DisputeView,
        event: EventView,
    ) -> EnvView {
        EnvView {
            disputes: self.disputes.insert(agreement_id, dispute),
            events: self.events.push(event),
            ..self
        }
    }
}

impl Storage {
    /// The configured limit of a level.
    pub open spec fn configured_limit(self, level: EscalationLevel) -> Option<u64> {
        match level {
            EscalationLevel::Level1 => self.level1_time_limit,
            EscalationLevel::Level2 => self.level2_time_limit,
            EscalationLevel::Level3 => self.level3_time_limit,
        }
    }
}

/// The view of an optional address.
pub open spec fn address_view(address: Option<Address>) -> Option<Seq<char>> {
    match address {
        Some(address) => Some(address@),
        None => None,
    }
}

impl View for Env {
    type V = EnvView;

    open spec fn view(&self) -> EnvView {
        EnvView {
            auths: self.auths@.map_values(|who: Address| who@),
            timestamp: self.timestamp as nat,
            owner: address_view(self.storage.owner),
            admin: address_view(self.storage.admin),
            disputes: self.storage.disputes@.map_values(|dispute: DisputeDetails| dispute@),
            level_limits: Map::new(
                |level: EscalationLevel| self.storage.configured_limit(level) is Some,
                |level: EscalationLevel| self.storage.configured_limit(level)->0 as nat,
            ),
            review_limit: match self.storage.pending_review_time_limit {
                Some(limit) => Some(limit as nat),
                None => None,
            },
            events: self.events@.map_values(|event: DisputeEvent| event@),
        }
    }
}

impl Env {
    /// A ledger at the given time on which the contract has left nothing yet.
    pub fn new(timestamp: u64) -> (env: Env)
        ensures
            env@ == (EnvView {
                auths: Seq::empty(),
                timestamp: timestamp as nat,
                owner: None,
                admin: None,
                disputes: Map::empty(),
                level_limits: Map::empty(),
                review_limit: None,
                events: Seq::empty(),
            }),
    {
        let env = Env {
            auths: Vec::new(),
            timestamp,
            storage: Storage {
                owner: None,
                admin: None,
                disputes: HashMap::new(),
                level1_time_limit: None,
                level2_time_limit: None,
                level3_time_limit: None,
                pending_review_time_limit: None,
            },
            events: Vec::new(),
        };
        assert(env@.disputes =~= Map::empty());
        assert(env@.level_limits =~= Map::empty());
        env
    }

    /// Notes that `who` authorised the call.
    pub fn authenticate(&mut self, who: &Address)
        ensures
            final(self)@ == (EnvView { auths: old(self)@.auths.push(who@), ..old(self)@ }),
            final(self)@.authenticated(who@),
    {
        self.auths.push(who.clone());
        assert(self@.auths =~= old(self)@.auths.push(who@));
        assert(self@.auths[old(self)@.auths.len() as int] == who@);
    }

    /// Whether `who` authorised the call.
    pub fn is_authenticated(&self, who: &Address) -> (found: bool)
        ensures
            found == self@.authenticated(who@),
    {
        let mut i: usize = 0;
        while i < self.auths.len()
            invariant
                i <= self.auths.len(),
                forall|j: int| 0 <= j < i ==> self@.auths[j] != who@,
            decreases self.auths.len() - i,
        {
            if self.auths[i].same_as(who) {
                assert(self@.auths[i as int] == who@);
                return true;
            }
            i = i + 1;
        }
        false
    }

    /// Whether a window of `limit` seconds that opens now ends at a time the
    /// ledger's clock can show.
    pub fn fits_window(&self, limit: u64) -> (fits: bool)
        ensures
            fits == crate::rules::window_fits(self@, limit as nat),
    {
        self.timestamp.checked_add(limit).is_some()
    }

    /// Publishes an event.
    pub fn publish(&mut self, event: DisputeEvent)
        ensures
            final(self)@ == (EnvView { events: old(self)@.events.push(event@), ..old(self)@ }),
    {
        self.events.push(event);
        assert(self@.events =~= old(self)@.events.push(event@));
    }
}

} // verus!
