//! The match store: every match under its identifier, with its custodial
//! balance.
//!
//! The store hands out the identifiers, so that a match is created once. It
//! keeps every match for good, but for a match that never started and whose
//! single deposit was refunded: that one is deleted, and its storage given
//! up.

use std::collections::HashMap;
use vstd::prelude::*;
use crate::account::AccountId;
use crate::attestation::{MatchResult, VerificationArtifact};
use crate::error::EscrowError;
use crate::fees::Disbursement;
use crate::lifecycle::{create_error, deposit_step, new_custody, new_record};
use crate::refund::{refund_timeout_step, single_refund_step};
use crate::settlement::settle_step;
use crate::state::{consistent, CustodialBalance, MatchRecord};
use crate::submission::submission_outcome;

verus! {

/// A match as the store keeps it: its record and its custodial balance.
#[derive(Clone, Copy, Debug, PartialEq, Eq)]
pub struct Escrow {
    /// The state of the match.
    pub record: MatchRecord,
    /// What is held in custody for it.
    pub custody: CustodialBalance,
}

/// All matches, each under its identifier.
pub struct MatchStore {
    matches: HashMap<u128, Escrow>,
    next_id: u128,
}

/// What a store holds.
pub struct StoreView {
    /// The matches in the store, by identifier.
    pub matches: Map<u128, Escrow>,
    /// The identifier that the next match will get.
    pub next_match_id: u128,
}

impl MatchStore {
    /// What the store holds: its matches and the next identifier.
    pub closed spec fn view(&self) -> StoreView {
        StoreView { matches: self.matches@, next_match_id: self.next_id }
    }

    /// The match of an identifier, if the store holds one.
    pub open spec fn lookup(&self, match_id: u128) -> Option<Escrow> {
        if self@.matches.contains_key(match_id) {
            Some(self@.matches[match_id])
        } else {
            None
        }
    }

    /// The invariant of the store: every match is kept under its own
    /// identifier, which the store has handed out, and is consistent with its
    /// custodial balance.
    pub open spec fn wf(&self) -> bool {
        forall|match_id: u128| #[trigger]
            self@.matches.contains_key(match_id) ==> {
                &&& self@.matches[match_id].record.match_id == match_id
                &&& match_id < self@.next_match_id
                &&& consistent(
                    self@.matches[match_id].record,
                    self@.matches[match_id].custody,
                )
            }
    }

    /// An empty store.
    pub fn new() -> (store: MatchStore)
        ensures
            store@ == (StoreView { matches: Map::<u128, Escrow>::empty(), next_match_id: 0 }),
            store.wf(),
    {
        MatchStore { matches: HashMap::new(), next_id: 0 }
    }

    /// The match of an identifier, if the store holds one.
    pub fn get(&self, match_id: u128) -> (found: Option<Escrow>)
        ensures
            found == self.lookup(match_id),
    {
        match self.matches.get(&match_id) {
            Some(held) => Some(*held),
            None => None,
        }
    }

    /// Creates a match and returns its identifier.
    ///
    /// Fails as `create_match` on a record does, and with `NumericalOverflow`
    /// if the store has no identifier left. The new match is kept under an
    /// identifier that no match had before.
    pub fn create_match(
        &mut self,
        party_a: AccountId,
        party_b: AccountId,
        stake_amount: u64,
        fee_bps: u16,
        deadline: i64,
        now: i64,
    ) -> (outcome: Result<u128, EscrowError>)
        ensures
            match outcome {
                Ok(match_id) => {
                    &&& create_error(stake_amount, fee_bps, deadline, now) is None
                    &&& match_id == old(self)@.next_match_id
                    &&& final(self)@.next_match_id == match_id + 1
                    &&& final(self)@.matches == old(self)@.matches.insert(
                        match_id,
                        (Escrow {
                            record: new_record(
                                match_id,
                                party_a,
                                party_b,
                                stake_amount,
                                fee_bps,
                                deadline,
                                now,
                            ),
                            custody: new_custody(match_id),
                        }),
                    )
                },
                Err(e) => {
                    &&& final(self)@ == old(self)@
                    &&& match create_error(stake_amount, fee_bps, deadline, now) {
                        Some(first) => e == first,
                        None => e == EscrowError::NumericalOverflow && old(self)@.next_match_id
                            == u128::MAX,
                    }
                },
            },
            create_error(stake_amount, fee_bps, deadline, now) is None
                && old(self)@.next_match_id < u128::MAX ==> outcome is Ok,
            old(self).wf() ==> final(self).wf(),
            old(self).wf() && outcome is Ok ==> !old(self)@.matches.contains_key(
                outcome.unwrap(),
            ),
    {
        let match_id: u128 = self.next_id;
        let (record, custody) = crate::lifecycle::create_match(
            match_id,
            party_a,
            party_b,
            stake_amount,
            fee_bps,
            deadline,
            now,
        )?;
        if match_id == u128::MAX {
            return Err(EscrowError::NumericalOverflow);
        }
        self.matches.insert(match_id, Escrow { record, custody });
        self.next_id = match_id + 1;
        Ok(match_id)
    }

    /// Takes the stake of one party of a match into custody: `deposit` on the
    /// match of that identifier.
    pub fn deposit(&mut self, match_id: u128, depositor: &AccountId, amount: u64, now: i64) -> (outcome:
        Result<(), EscrowError>)
        ensures
            match old(self).lookup(match_id) {
                None => outcome == Err::<(), EscrowError>(EscrowError::MatchNotFound)
                    && final(self)@ == old(self)@,
                Some(held) => {
                    let (expected, record, custody) = deposit_step(
                        held.record,
                        held.custody,
                        *depositor,
                        amount,
                        now,
                    );
                    &&& outcome == expected
                    &&& final(self)@.matches == old(self)@.matches.insert(
                        match_id,
                        (Escrow { record, custody }),
                    )
                },
            },
            final(self)@.next_match_id == old(self)@.next_match_id,
            old(self).wf() ==> final(self).wf(),
    {
        let held: Escrow = match self.matches.get(&match_id) {
            Some(held) => *held,
            None => { return Err(EscrowError::MatchNotFound); },
        };
        let mut record: MatchRecord = held.record;
        let mut custody: CustodialBalance = held.custody;
        let outcome = crate::lifecycle::deposit(&mut record, &mut custody, depositor, amount, now);
        if outcome.is_ok() {
            self.matches.insert(match_id, Escrow { record, custody });
        }
        assert(outcome is Err ==> old(self)@.matches.insert(match_id, held) =~= old(self)@.matches);
        outcome
    }

    /// Admits an attested result for a match: `submit_result` on the match of
    /// that identifier.
    pub fn submit_result(
        &mut self,
        match_id: u128,
        result: &MatchResult,
        signature: &[u8],
        authority: &AccountId,
        artifacts: &[VerificationArtifact],
        now: i64,
    ) -> (outcome: Result<(), EscrowError>)
        ensures
            match old(self).lookup(match_id) {
                None => outcome == Err::<(), EscrowError>(EscrowError::MatchNotFound)
                    && final(self)@ == old(self)@,
                Some(held) => {
                    let (expected, record) = submission_outcome(
                        held.record,
                        *result,
                        Ok(result.canonical_bytes()),
                        signature@,
                        *authority,
                        artifacts@,
                        now,
                    );
                    &&& outcome == expected
                    &&& final(self)@.matches == old(self)@.matches.insert(
                        match_id,
                        (Escrow { record, custody: held.custody }),
                    )
                },
            },
            final(self)@.next_match_id == old(self)@.next_match_id,
            old(self).wf() ==> final(self).wf(),
    {
        let held: Escrow = match self.matches.get(&match_id) {
            Some(held) => *held,
            None => { return Err(EscrowError::MatchNotFound); },
        };
        let mut record: MatchRecord = held.record;
        let outcome = crate::submission::submit_result(
            &mut record,
            result,
            signature,
            authority,
            artifacts,
            now,
        );
        if outcome.is_ok() {
            self.matches.insert(match_id, Escrow { record, custody: held.custody });
        }
        assert(outcome is Err ==> old(self)@.matches.insert(match_id, held)
            =~= old(self)@.matches);
        outcome
    }

    /// Settles a match: `settle` on the match of that identifier.
    pub fn settle(&mut self, match_id: u128, winner_account: &AccountId, now: i64) -> (outcome:
        Result<Disbursement, EscrowError>)
        ensures
            match old(self).lookup(match_id) {
                None => outcome == Err::<Disbursement, EscrowError>(EscrowError::MatchNotFound)
                    && final(self)@ == old(self)@,
                Some(held) => {
                    let (expected, record, custody) = settle_step(
                        held.record,
                        held.custody,
                        *winner_account,
                        now,
                    );
                    &&& outcome == expected
                    &&& final(self)@.matches == old(self)@.matches.insert(
                        match_id,
                        (Escrow { record, custody }),
                    )
                },
            },
            final(self)@.next_match_id == old(self)@.next_match_id,
            old(self).wf() ==> final(self).wf(),
    {
        let held: Escrow = match self.matches.get(&match_id) {
            Some(held) => *held,
            None => { return Err(EscrowError::MatchNotFound); },
        };
        let mut record: MatchRecord = held.record;
        let mut custody: CustodialBalance = held.custody;
        let outcome = crate::settlement::settle(&mut record, &mut custody, winner_account, now);
        if outcome.is_ok() {
            self.matches.insert(match_id, Escrow { record, custody });
        }
        assert(outcome is Err ==> old(self)@.matches.insert(match_id, held) =~= old(self)@.matches);
        outcome
    }

    /// Closes a match after its deadline: `refund_timeout` on the match of
    /// that identifier.
    pub fn refund_timeout(&mut self, match_id: u128, now: i64) -> (outcome: Result<
        Disbursement,
        EscrowError,
    >)
        ensures
            match old(self).lookup(match_id) {
                None => outcome == Err::<Disbursement, EscrowError>(EscrowError::MatchNotFound)
                    && final(self)@ == old(self)@,
                Some(held) => {
                    let (expected, record, custody) = refund_timeout_step(
                        held.record,
                        held.custody,
                        now,
                    );
                    &&& outcome == expected
                    &&& final(self)@.matches == old(self)@.matches.insert(
                        match_id,
                        (Escrow { record, custody }),
                    )
                },
            },
            final(self)@.next_match_id == old(self)@.next_match_id,
            old(self).wf() ==> final(self).wf(),
    {
        let held: Escrow = match self.matches.get(&match_id) {
            Some(held) => *held,
            None => { return Err(EscrowError::MatchNotFound); },
        };
        let mut record: MatchRecord = held.record;
        let mut custody: CustodialBalance = held.custody;
        let outcome = crate::refund::refund_timeout(&mut record, &mut custody, now);
        if outcome.is_ok() {
            self.matches.insert(match_id, Escrow { record, custody });
        }
        assert(outcome is Err ==> old(self)@.matches.insert(match_id, held) =~= old(self)@.matches);
        outcome
    }

    /// Refunds the single deposit of a match that never started:
    /// `refund_if_only_one_paid` on the match of that identifier. When the
    /// refund goes through, the match is deleted from the store.
    pub fn refund_if_only_one_paid(&mut self, match_id: u128, now: i64) -> (outcome: Result<
        Disbursement,
        EscrowError,
    >)
        ensures
            match old(self).lookup(match_id) {
                None => outcome == Err::<Disbursement, EscrowError>(EscrowError::MatchNotFound)
                    && final(self)@ == old(self)@,
                Some(held) => {
                    let (expected, record, custody) = single_refund_step(
                        held.record,
                        held.custody,
                        now,
                    );
                    &&& outcome == expected
                    &&& outcome is Ok ==> final(self)@.matches == old(self)@.matches.remove(match_id)
                    &&& outcome is Err ==> final(self)@.matches == old(self)@.matches
                },
            },
            final(self)@.next_match_id == old(self)@.next_match_id,
            old(self).wf() ==> final(self).wf(),
    {
        let held: Escrow = match self.matches.get(&match_id) {
            Some(held) => *held,
            None => { return Err(EscrowError::MatchNotFound); },
        };
        let mut record: MatchRecord = held.record;
        let mut custody: CustodialBalance = held.custody;
        let outcome = crate::refund::refund_if_only_one_paid(&mut record, &mut custody, now);
        if outcome.is_ok() {
            self.matches.remove(&match_id);
        }
        outcome
    }
}

} // verus!
