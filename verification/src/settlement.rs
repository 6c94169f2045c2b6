//! Settlement: the pot of an active match is split and paid out, once.

use vstd::prelude::*;
use crate::account::{same_account, AccountId};
use crate::error::EscrowError;
use crate::fees::{split_fits, split_of, split_pot, Disbursement};
use crate::state::{consistent, CustodialBalance, MatchRecord, MatchStatus, ResultType};

verus! {

/// Why `settle` rejects a call, or `None` where it goes through. The checks
/// are made in this order, the status first.
pub open spec fn settle_error(
    record: MatchRecord,
    custody: CustodialBalance,
    winner_account: AccountId,
    now: i64,
) -> Option<EscrowError> {
    if !(record.status is Active) {
        Some(EscrowError::InvalidStatus)
    } else if custody.match_id != record.match_id {
        Some(EscrowError::CustodyMismatch)
    } else if record.result_kind is Unresolved && !record.deadline_reached(now) {
        Some(EscrowError::CannotSettle)
    } else if record.total_pot() > u64::MAX {
        Some(EscrowError::NumericalOverflow)
    } else if custody.amount < record.total_pot() {
        Some(EscrowError::InsufficientFunds)
    } else if record.result_kind is Win && record.winner != Some(winner_account) {
        Some(EscrowError::WinnerMismatch)
    } else if record.result_kind is Unresolved && !(record.deposited_a && record.deposited_b) {
        Some(EscrowError::InvalidStatus)
    } else if !split_fits(record.stake_amount as int, record.result_kind) {
        Some(EscrowError::NumericalOverflow)
    } else {
        None
    }
}

/// The record after settlement at time `now`.
pub open spec fn settled_record(record: MatchRecord, now: i64) -> MatchRecord {
    MatchRecord { status: MatchStatus::Settled, settled_at: Some(now), ..record }
}

/// The custodial balance after `paid` units have left it.
pub open spec fn debited(custody: CustodialBalance, paid: int) -> CustodialBalance {
    CustodialBalance { amount: (custody.amount - paid) as u64, ..custody }
}

/// What `settle` returns, and the record and the custodial balance that it
/// leaves. A call that is rejected leaves both as they were. A call that goes
/// through returns the split of the pot by the outcome on record, marks the
/// match `Settled` at `now` and takes the pot out of the custodial balance.
pub open spec fn settle_step(
    record: MatchRecord,
    custody: CustodialBalance,
    winner_account: AccountId,
    now: i64,
) -> (Result<Disbursement, EscrowError>, MatchRecord, CustodialBalance) {
    match settle_error(record, custody, winner_account, now) {
        Some(e) => (Err(e), record, custody),
        None => (
            Ok(split_of(record.stake_amount, record.result_kind)),
            settled_record(record, now),
            debited(custody, record.total_pot()),
        ),
    }
}

/// Settles a match: splits the pot by the outcome on record and closes the
/// match.
///
/// Anyone may call it once the match is `Active` and either a result is on
/// record or the deadline is reached. Without a result each party gets 90% of
/// its stake back. On a win, `winner_account` has to be the winner on record;
/// on the other outcomes it is not looked at. The host makes the transfers
/// of the returned disbursement; they add up to the pot, which leaves the
/// custodial balance. A call that is rejected changes nothing, and every call
/// on a match that is not `Active` is rejected with `InvalidStatus`.
pub fn settle(
    record: &mut MatchRecord,
    custody: &mut CustodialBalance,
    winner_account: &AccountId,
    now: i64,
) -> (outcome: Result<Disbursement, EscrowError>)
    ensures
        (outcome, *final(record), *final(custody)) == settle_step(
            *old(record),
            *old(custody),
            *winner_account,
            now,
        ),
        !(old(record).status is Active) ==> outcome == Err::<Disbursement, EscrowError>(
            EscrowError::InvalidStatus,
        ),
        outcome is Ok ==> final(record).status is Settled,
        outcome matches Ok(paid) ==> paid.total() == old(record).total_pot(),
        outcome matches Ok(paid) ==> final(custody).amount + paid.total() == old(custody).amount,
        old(record).status.may_become(final(record).status),
        consistent(*old(record), *old(custody)) ==> consistent(*final(record), *final(custody)),
{
    match record.status {
        MatchStatus::Active => {},
        _ => { return Err(EscrowError::InvalidStatus); },
    }
    if custody.match_id != record.match_id {
        return Err(EscrowError::CustodyMismatch);
    }
    let resolved: bool = match record.result_kind {
        ResultType::Unresolved => false,
        _ => true,
    };
    if !resolved && now < record.deadline {
        return Err(EscrowError::CannotSettle);
    }
    let pot: u64 = match record.stake_amount.checked_mul(2) {
        Some(pot) => pot,
        None => { return Err(EscrowError::NumericalOverflow); },
    };
    if custody.amount < pot {
        return Err(EscrowError::InsufficientFunds);
    }
    match record.result_kind {
        ResultType::Win => {
            let named: bool = match &record.winner {
                Some(winner) => same_account(winner, winner_account),
                None => false,
            };
            if !named {
                return Err(EscrowError::WinnerMismatch);
            }
        },
        ResultType::Unresolved => {
            if !(record.deposited_a && record.deposited_b) {
                return Err(EscrowError::InvalidStatus);
            }
        },
        _ => {},
    }
    let paid: Disbursement = split_pot(record.stake_amount, record.result_kind)?;
    custody.amount = custody.amount - pot;
    record.status = MatchStatus::Settled;
    record.settled_at = Some(now);
    Ok(paid)
}

/// A match is settled at most once. After a settlement that went through,
/// every further call of `settle`, whoever is named as winner and whenever it
/// comes, is rejected with `InvalidStatus`, an error of the state class, and
/// leaves the record and the custodial balance as they are: no funds move.
pub proof fn lemma_settle_at_most_once(
    record: MatchRecord,
    custody: CustodialBalance,
    winner_account: AccountId,
    now: i64,
    next_winner_account: AccountId,
    later: i64,
)
    requires
        settle_step(record, custody, winner_account, now).0 is Ok,
    ensures
        ({
            let (_, settled, left) = settle_step(record, custody, winner_account, now);
            &&& settled.status is Settled
            &&& settle_step(settled, left, next_winner_account, later) == (
                Err::<Disbursement, EscrowError>(EscrowError::InvalidStatus),
                settled,
                left,
            )
            &&& EscrowError::InvalidStatus.category() is State
        }),
{
}

} // verus!
