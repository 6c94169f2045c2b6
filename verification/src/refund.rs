//! Refunds after the deadline: what is held for a match that did not come to
//! a settlement goes back, so that no deposit is stranded.

use vstd::prelude::*;
use crate::error::EscrowError;
use crate::fees::{split_fits, split_of, split_pot, Disbursement};
use crate::settlement::debited;
use crate::state::{consistent, CustodialBalance, MatchRecord, MatchStatus, ResultType};

verus! {

/// The record after a refund at time `now`.
pub open spec fn refunded_record(record: MatchRecord, now: i64) -> MatchRecord {
    MatchRecord { status: MatchStatus::Refunded, settled_at: Some(now), ..record }
}

/// The outcome by which the pot of a timed-out match is split. A draw on
/// record is honoured as it stands, and so is a win whose winner is on
/// record. A match without a result, and a win that names no winner, count as
/// a full-refund draw: each party gets its whole stake back.
pub open spec fn spec_timeout_basis(record: MatchRecord) -> ResultType {
    match record.result_kind {
        ResultType::Unresolved => ResultType::DrawFullRefund,
        ResultType::Win => if record.winner is Some {
            ResultType::Win
        } else {
            ResultType::DrawFullRefund
        },
        ResultType::DrawFullRefund => ResultType::DrawFullRefund,
        ResultType::DrawPartialRefund => ResultType::DrawPartialRefund,
    }
}

/// The outcome by which the pot of a timed-out match is split.
pub fn timeout_basis(record: &MatchRecord) -> (basis: ResultType)
    ensures
        basis == spec_timeout_basis(*record),
{
    match record.result_kind {
        ResultType::Unresolved => ResultType::DrawFullRefund,
        ResultType::Win => match record.winner {
            Some(_) => ResultType::Win,
            None => ResultType::DrawFullRefund,
        },
        ResultType::DrawFullRefund => ResultType::DrawFullRefund,
        ResultType::DrawPartialRefund => ResultType::DrawPartialRefund,
    }
}

/// Why `refund_timeout` rejects a call, or `None` where it goes through. The
/// checks are made in this order, the status first.
pub open spec fn refund_timeout_error(
    record: MatchRecord,
    custody: CustodialBalance,
    now: i64,
) -> Option<EscrowError> {
    if !(record.status is Pending || record.status is Active) {
        Some(EscrowError::InvalidStatus)
    } else if custody.match_id != record.match_id {
        Some(EscrowError::CustodyMismatch)
    } else if !record.deadline_passed(now) {
        Some(EscrowError::GameNotTimeout)
    } else if record.deposited_a != record.deposited_b {
        Some(EscrowError::OnlyOnePlayerPaid)
    } else if !record.deposited_a {
        None
    } else if record.total_pot() > u64::MAX {
        Some(EscrowError::NumericalOverflow)
    } else if custody.amount < record.total_pot() {
        Some(EscrowError::InsufficientFunds)
    } else if !split_fits(record.stake_amount as int, spec_timeout_basis(record)) {
        Some(EscrowError::NumericalOverflow)
    } else {
        None
    }
}

/// What `refund_timeout` pays for `record`: nothing where nobody deposited,
/// else the split of the pot by the record's timeout basis.
pub open spec fn timeout_refund_of(record: MatchRecord) -> Disbursement {
    if record.deposited_a && record.deposited_b {
        split_of(record.stake_amount, spec_timeout_basis(record))
    } else {
        Disbursement::nothing()
    }
}

/// What `refund_timeout` returns, and the record and the custodial balance
/// that it leaves. A call that is rejected leaves both as they were. A call
/// that goes through returns the refund, marks the match `Refunded` at `now`
/// and takes what both parties deposited out of the custodial balance.
pub open spec fn refund_timeout_step(
    record: MatchRecord,
    custody: CustodialBalance,
    now: i64,
) -> (Result<Disbursement, EscrowError>, MatchRecord, CustodialBalance) {
    match refund_timeout_error(record, custody, now) {
        Some(e) => (Err(e), record, custody),
        None => (
            Ok(timeout_refund_of(record)),
            refunded_record(record, now),
            debited(custody, if record.deposited_a { record.total_pot() } else { 0 }),
        ),
    }
}

/// Closes a match whose deadline has passed and hands back what both parties
/// deposited.
///
/// The match has to be `Pending` or `Active`, `now` later than the deadline,
/// and the parties have to have deposited both or neither: for one deposit
/// alone there is `refund_if_only_one_paid`. Without a result on record each party gets its
/// whole stake back; a result on record is honoured (see `timeout_basis`).
/// Where nobody deposited, nothing is paid. The match becomes `Refunded`. A
/// call that is rejected changes nothing.
pub fn refund_timeout(
    record: &mut MatchRecord,
    custody: &mut CustodialBalance,
    now: i64,
) -> (outcome: Result<Disbursement, EscrowError>)
    ensures
        (outcome, *final(record), *final(custody)) == refund_timeout_step(
            *old(record),
            *old(custody),
            now,
        ),
        outcome matches Ok(paid) ==> final(custody).amount + paid.total() == old(custody).amount,
        old(record).status.may_become(final(record).status),
        consistent(*old(record), *old(custody)) ==> consistent(*final(record), *final(custody)),
{
    match record.status {
        MatchStatus::Pending | MatchStatus::Active => {},
        _ => { return Err(EscrowError::InvalidStatus); },
    }
    if custody.match_id != record.match_id {
        return Err(EscrowError::CustodyMismatch);
    }
    if now <= record.deadline {
        return Err(EscrowError::GameNotTimeout);
    }
    if record.deposited_a != record.deposited_b {
        return Err(EscrowError::OnlyOnePlayerPaid);
    }
    let paid: Disbursement = if record.deposited_a {
        let pot: u64 = match record.stake_amount.checked_mul(2) {
            Some(pot) => pot,
            None => { return Err(EscrowError::NumericalOverflow); },
        };
        if custody.amount < pot {
            return Err(EscrowError::InsufficientFunds);
        }
        let paid: Disbursement = split_pot(record.stake_amount, timeout_basis(record))?;
        custody.amount = custody.amount - pot;
        paid
    } else {
        Disbursement {
            to_party_a: 0,
            to_party_b: 0,
            to_winner: 0,
            fee_amount: 0,
            reclaim_storage: false,
        }
    };
    record.status = MatchStatus::Refunded;
    record.settled_at = Some(now);
    Ok(paid)
}

/// Why `refund_if_only_one_paid` rejects a call, or `None` where it goes
/// through. The checks are made in this order, the status first: a match that
/// is settled or refunded is turned away with `InvalidStatus`, whoever
/// deposited. A match that is still open and in which both parties deposited,
/// which is then `Active`, is turned away with `BothPlayersPaid` from the
/// deadline on, and so is one in which nobody deposited.
pub open spec fn single_refund_error(
    record: MatchRecord,
    custody: CustodialBalance,
    now: i64,
) -> Option<EscrowError> {
    if !(record.status is Pending || record.status is Active) {
        Some(EscrowError::InvalidStatus)
    } else if custody.match_id != record.match_id {
        Some(EscrowError::CustodyMismatch)
    } else if !record.deadline_reached(now) {
        Some(EscrowError::GameNotTimeout)
    } else if record.deposited_a == record.deposited_b {
        Some(EscrowError::BothPlayersPaid)
    } else if !(record.status is Pending) {
        Some(EscrowError::InvalidStatus)
    } else if custody.amount < record.stake_amount {
        Some(EscrowError::InsufficientFunds)
    } else {
        None
    }
}

/// What `refund_if_only_one_paid` pays for `record`: the stake to the one
/// party that deposited, and the storage of the match back to `party_a`.
pub open spec fn single_refund_of(record: MatchRecord) -> Disbursement {
    Disbursement {
        to_party_a: if record.deposited_a { record.stake_amount } else { 0 },
        to_party_b: if record.deposited_b { record.stake_amount } else { 0 },
        to_winner: 0,
        fee_amount: 0,
        reclaim_storage: true,
    }
}

/// What `refund_if_only_one_paid` returns, and the record and the custodial
/// balance that it leaves. A call that is rejected leaves both as they were.
/// A call that goes through returns the refund, marks the match `Refunded` at
/// `now` and takes the stake out of the custodial balance.
pub open spec fn single_refund_step(
    record: MatchRecord,
    custody: CustodialBalance,
    now: i64,
) -> (Result<Disbursement, EscrowError>, MatchRecord, CustodialBalance) {
    match single_refund_error(record, custody, now) {
        Some(e) => (Err(e), record, custody),
        None => (
            Ok(single_refund_of(record)),
            refunded_record(record, now),
            debited(custody, record.stake_amount as int),
        ),
    }
}

/// Hands the one deposit of a match that never became active back to the
/// party that made it, and gives the storage of the match up.
///
/// The match has to be open, else the error is `InvalidStatus`; its deadline
/// has to be reached, else it is `GameNotTimeout`; and exactly one party has
/// to have deposited, else it is `BothPlayersPaid`: a match that both parties
/// funded goes through `settle` or `refund_timeout`. The depositor gets its
/// whole stake, the other party nothing, and no fee is taken. The cost of the storage goes
/// back to `party_a`, who paid for it. The match becomes `Refunded`. A call
/// that is rejected changes nothing.
pub fn refund_if_only_one_paid(
    record: &mut MatchRecord,
    custody: &mut CustodialBalance,
    now: i64,
) -> (outcome: Result<Disbursement, EscrowError>)
    ensures
        (outcome, *final(record), *final(custody)) == single_refund_step(
            *old(record),
            *old(custody),
            now,
        ),
        outcome matches Ok(paid) ==> paid.total() == old(record).stake_amount,
        old(record).status is Active && old(custody).match_id == old(record).match_id
            && old(record).deadline_reached(now) && old(record).deposited_a
            && old(record).deposited_b ==> outcome == Err::<Disbursement, EscrowError>(
            EscrowError::BothPlayersPaid,
        ),
        outcome matches Ok(paid) ==> final(custody).amount + paid.total() == old(custody).amount,
        old(record).status.may_become(final(record).status),
        consistent(*old(record), *old(custody)) ==> consistent(*final(record), *final(custody)),
{
    let pending: bool = match record.status {
        MatchStatus::Pending => true,
        MatchStatus::Active => false,
        _ => { return Err(EscrowError::InvalidStatus); },
    };
    if custody.match_id != record.match_id {
        return Err(EscrowError::CustodyMismatch);
    }
    if now < record.deadline {
        return Err(EscrowError::GameNotTimeout);
    }
    if record.deposited_a == record.deposited_b {
        return Err(EscrowError::BothPlayersPaid);
    }
    if !pending {
        return Err(EscrowError::InvalidStatus);
    }
    if custody.amount < record.stake_amount {
        return Err(EscrowError::InsufficientFunds);
    }
    let paid: Disbursement = Disbursement {
        to_party_a: if record.deposited_a { record.stake_amount } else { 0 },
        to_party_b: if record.deposited_b { record.stake_amount } else { 0 },
        to_winner: 0,
        fee_amount: 0,
        reclaim_storage: true,
    };
    custody.amount = custody.amount - record.stake_amount;
    record.status = MatchStatus::Refunded;
    record.settled_at = Some(now);
    Ok(paid)
}

/// A match that both parties funded has no single-depositor refund. From the
/// deadline on, `refund_if_only_one_paid` on a match that is consistent with
/// its custodial balance, still open and funded by both parties is rejected
/// with `BothPlayersPaid`, and changes nothing: such a match goes through
/// `settle` or `refund_timeout`.
pub proof fn lemma_funded_match_has_no_single_refund(
    record: MatchRecord,
    custody: CustodialBalance,
    now: i64,
)
    requires
        consistent(record, custody),
        !record.status.is_terminal(),
        record.deposited_a && record.deposited_b,
        record.deadline_reached(now),
    ensures
        single_refund_step(record, custody, now) == (
            Err::<Disbursement, EscrowError>(EscrowError::BothPlayersPaid),
            record,
            custody,
        ),
{
}

/// The timeout refund opens after the deadline and not at it: up to and
/// including the deadline, `refund_timeout` on a match that is still open is
/// rejected with `GameNotTimeout`, and changes nothing.
pub proof fn lemma_no_timeout_refund_up_to_deadline(
    record: MatchRecord,
    custody: CustodialBalance,
    now: i64,
)
    requires
        !record.status.is_terminal(),
        custody.match_id == record.match_id,
        now <= record.deadline,
    ensures
        refund_timeout_step(record, custody, now) == (
            Err::<Disbursement, EscrowError>(EscrowError::GameNotTimeout),
            record,
            custody,
        ),
{
}

} // verus!
