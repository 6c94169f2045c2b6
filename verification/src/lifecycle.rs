//! The life of a match before its result: creation and deposits.

use vstd::prelude::*;
use crate::account::{same_account, AccountId};
use crate::error::EscrowError;
use crate::fees::MAX_FEE_BPS;
use crate::state::{consistent, CustodialBalance, MatchRecord, MatchStatus, ResultType};

verus! {

/// Why `create_match` rejects its arguments, or `None` where it accepts them.
/// The checks are made in this order.
pub open spec fn create_error(stake_amount: u64, fee_bps: u16, deadline: i64, now: i64) -> Option<
    EscrowError,
> {
    if stake_amount == 0 {
        Some(EscrowError::InvalidStakeAmount)
    } else if fee_bps > MAX_FEE_BPS {
        Some(EscrowError::InvalidFeeBps)
    } else if deadline <= now {
        Some(EscrowError::InvalidDeadline)
    } else {
        None
    }
}

/// The record of a match that was created at `now` and has seen nothing yet.
pub open spec fn new_record(
    match_id: u128,
    party_a: AccountId,
    party_b: AccountId,
    stake_amount: u64,
    fee_bps: u16,
    deadline: i64,
    now: i64,
) -> MatchRecord {
    MatchRecord {
        match_id,
        party_a,
        party_b,
        stake_amount,
        fee_bps,
        deadline,
        status: MatchStatus::Pending,
        deposited_a: false,
        deposited_b: false,
        result_kind: ResultType::Unresolved,
        winner: None,
        created_at: now,
        settled_at: None,
    }
}

/// The empty custodial balance of a match.
pub open spec fn new_custody(match_id: u128) -> CustodialBalance {
    CustodialBalance { match_id, amount: 0 }
}

/// Creates a match between `party_a`, who creates it, and `party_b`.
///
/// Fails with `InvalidStakeAmount` if the stake is zero, else with
/// `InvalidFeeBps` if the fee exceeds 10000 basis points, else with
/// `InvalidDeadline` if the deadline is not later than `now`. Otherwise it
/// returns the record of the match, `Pending`, without deposits and without
/// a result, and the empty custodial balance bound to it.
pub fn create_match(
    match_id: u128,
    party_a: AccountId,
    party_b: AccountId,
    stake_amount: u64,
    fee_bps: u16,
    deadline: i64,
    now: i64,
) -> (outcome: Result<(MatchRecord, CustodialBalance), EscrowError>)
    ensures
        match outcome {
            Ok((record, custody)) => {
                &&& create_error(stake_amount, fee_bps, deadline, now) is None
                &&& record == new_record(
                    match_id,
                    party_a,
                    party_b,
                    stake_amount,
                    fee_bps,
                    deadline,
                    now,
                )
                &&& custody == new_custody(match_id)
                &&& record.status is Pending
                &&& !record.deposited_a && !record.deposited_b
                &&& custody.amount == 0
                &&& consistent(record, custody)
            },
            Err(e) => create_error(stake_amount, fee_bps, deadline, now) == Some(e),
        },
{
    if stake_amount == 0 {
        return Err(EscrowError::InvalidStakeAmount);
    }
    if fee_bps > MAX_FEE_BPS {
        return Err(EscrowError::InvalidFeeBps);
    }
    if deadline <= now {
        return Err(EscrowError::InvalidDeadline);
    }
    let record: MatchRecord = MatchRecord {
        match_id,
        party_a,
        party_b,
        stake_amount,
        fee_bps,
        deadline,
        status: MatchStatus::Pending,
        deposited_a: false,
        deposited_b: false,
        result_kind: ResultType::Unresolved,
        winner: None,
        created_at: now,
        settled_at: None,
    };
    let custody: CustodialBalance = CustodialBalance { match_id, amount: 0 };
    Ok((record, custody))
}

/// Whether a deposit of `depositor` counts as that of `party_a`. An account
/// registered as both parties deposits as `party_a`.
pub open spec fn deposits_as_a(record: MatchRecord, depositor: AccountId) -> bool {
    depositor == record.party_a
}

/// Why `deposit` rejects a call, or `None` where it goes through. The checks
/// are made in this order, the status first.
pub open spec fn deposit_error(
    record: MatchRecord,
    custody: CustodialBalance,
    depositor: AccountId,
    amount: u64,
    now: i64,
) -> Option<EscrowError> {
    if !(record.status is Pending) {
        Some(EscrowError::InvalidStatus)
    } else if custody.match_id != record.match_id {
        Some(EscrowError::CustodyMismatch)
    } else if amount != record.stake_amount {
        Some(EscrowError::InvalidDepositAmount)
    } else if depositor != record.party_a && depositor != record.party_b {
        Some(EscrowError::UnauthorizedPlayer)
    } else if record.deadline_passed(now) {
        Some(EscrowError::GameTimeout)
    } else if deposits_as_a(record, depositor) && record.deposited_a {
        Some(EscrowError::AlreadyPaid)
    } else if !deposits_as_a(record, depositor) && record.deposited_b {
        Some(EscrowError::AlreadyPaid)
    } else if custody.amount + amount > u64::MAX {
        Some(EscrowError::NumericalOverflow)
    } else {
        None
    }
}

/// The record after `depositor` has deposited: its flag is set, and the match
/// is `Active` once both flags are.
pub open spec fn after_deposit(record: MatchRecord, depositor: AccountId) -> MatchRecord {
    let deposited_a = record.deposited_a || deposits_as_a(record, depositor);
    let deposited_b = record.deposited_b || !deposits_as_a(record, depositor);
    MatchRecord {
        deposited_a,
        deposited_b,
        status: if deposited_a && deposited_b {
            MatchStatus::Active
        } else {
            record.status
        },
        ..record
    }
}

/// The custodial balance after `amount` units have come in.
pub open spec fn credited(custody: CustodialBalance, amount: int) -> CustodialBalance {
    CustodialBalance { amount: (custody.amount + amount) as u64, ..custody }
}

/// What `deposit` returns, and the record and the custodial balance that it
/// leaves. A call that is rejected leaves both as they were. A call that goes
/// through sets the depositor's flag and adds the stake to the custodial
/// balance.
pub open spec fn deposit_step(
    record: MatchRecord,
    custody: CustodialBalance,
    depositor: AccountId,
    amount: u64,
    now: i64,
) -> (Result<(), EscrowError>, MatchRecord, CustodialBalance) {
    match deposit_error(record, custody, depositor, amount, now) {
        Some(e) => (Err(e), record, custody),
        None => (Ok(()), after_deposit(record, depositor), credited(custody, amount as int)),
    }
}

/// Takes the stake of one party into custody.
///
/// The match has to be `Pending`, `amount` exactly the stake, `depositor` one
/// of the two parties, `now` no later than the deadline, and the party must
/// not have deposited before. Then the custodial balance grows by the stake, which the
/// host moves from the depositor in one transfer, and the party's flag is
/// set; with the second deposit the match becomes `Active`. A call that is
/// rejected changes nothing.
pub fn deposit(
    record: &mut MatchRecord,
    custody: &mut CustodialBalance,
    depositor: &AccountId,
    amount: u64,
    now: i64,
) -> (outcome: Result<(), EscrowError>)
    ensures
        (outcome, *final(record), *final(custody)) == deposit_step(
            *old(record),
            *old(custody),
            *depositor,
            amount,
            now,
        ),
        outcome is Ok ==> final(custody).amount == old(custody).amount + old(record).stake_amount,
        amount != old(record).stake_amount ==> outcome is Err,
        old(record).status.may_become(final(record).status),
        consistent(*old(record), *old(custody)) ==> consistent(*final(record), *final(custody)),
{
    match record.status {
        MatchStatus::Pending => {},
        _ => { return Err(EscrowError::InvalidStatus); },
    }
    if custody.match_id != record.match_id {
        return Err(EscrowError::CustodyMismatch);
    }
    if amount != record.stake_amount {
        return Err(EscrowError::InvalidDepositAmount);
    }
    let as_a: bool = same_account(depositor, &record.party_a);
    if !as_a && !same_account(depositor, &record.party_b) {
        return Err(EscrowError::UnauthorizedPlayer);
    }
    if now > record.deadline {
        return Err(EscrowError::GameTimeout);
    }
    if (as_a && record.deposited_a) || (!as_a && record.deposited_b) {
        return Err(EscrowError::AlreadyPaid);
    }
    let balance: u64 = match custody.amount.checked_add(amount) {
        Some(balance) => balance,
        None => { return Err(EscrowError::NumericalOverflow); },
    };
    custody.amount = balance;
    if as_a {
        record.deposited_a = true;
    } else {
        record.deposited_b = true;
    }
    if record.deposited_a && record.deposited_b {
        record.status = MatchStatus::Active;
    }
    Ok(())
}

/// A fee of 10000 basis points is accepted and one of 10001 is not: a match
/// is created exactly when the stake is positive, the fee at most 10000 basis
/// points and the deadline later than `now`.
pub proof fn lemma_create_accepts_exactly_valid_arguments(
    stake_amount: u64,
    fee_bps: u16,
    deadline: i64,
    now: i64,
)
    ensures
        create_error(stake_amount, fee_bps, deadline, now) is None <==> stake_amount > 0 && fee_bps
            <= 10_000 && deadline > now,
        create_error(stake_amount, 10_001, deadline, now) is Some,
        stake_amount > 0 && deadline > now ==> create_error(stake_amount, 10_000, deadline, now)
            is None,
{
}

/// A deposit of the wrong amount is always rejected, and leaves the flags and
/// the balance as they were.
pub proof fn lemma_wrong_amount_is_rejected(
    record: MatchRecord,
    custody: CustodialBalance,
    depositor: AccountId,
    amount: u64,
    now: i64,
)
    requires
        amount != record.stake_amount,
    ensures
        ({
            let (outcome, kept, held) = deposit_step(record, custody, depositor, amount, now);
            &&& outcome is Err
            &&& kept == record
            &&& held == custody
        }),
{
}

/// A party cannot deposit twice. After a deposit of `depositor` that went
/// through, every further deposit of `depositor`, of whatever amount and at
/// whatever time, is rejected, and leaves the flags and the balance as the
/// first deposit left them.
pub proof fn lemma_second_deposit_is_rejected(
    record: MatchRecord,
    custody: CustodialBalance,
    depositor: AccountId,
    amount: u64,
    now: i64,
    next_amount: u64,
    later: i64,
)
    requires
        deposit_step(record, custody, depositor, amount, now).0 is Ok,
    ensures
        ({
            let (_, once, held) = deposit_step(record, custody, depositor, amount, now);
            let (again, kept, still_held) = deposit_step(once, held, depositor, next_amount, later);
            &&& again is Err
            &&& kept == once
            &&& still_held == held
        }),
{
}

/// Once both parties have deposited, the match is active and the balance is
/// the pot. From a match as `create_match` returns it, a deposit of the stake
/// by each of the two parties, in either order and no later than the
/// deadline, goes through, and leaves the match `Active` with twice the stake
/// in custody.
///
/// The two parties have to be different accounts, and the pot has to fit in
/// 64 bits: else the second deposit is rejected.
pub proof fn lemma_both_deposits_activate(
    match_id: u128,
    party_a: AccountId,
    party_b: AccountId,
    stake_amount: u64,
    fee_bps: u16,
    deadline: i64,
    created: i64,
    first: i64,
    second: i64,
    a_first: bool,
)
    requires
        create_error(stake_amount, fee_bps, deadline, created) is None,
        party_a != party_b,
        2 * stake_amount <= u64::MAX,
        first <= deadline,
        second <= deadline,
    ensures
        ({
            let record = new_record(
                match_id,
                party_a,
                party_b,
                stake_amount,
                fee_bps,
                deadline,
                created,
            );
            let custody = new_custody(match_id);
            let one = if a_first { party_a } else { party_b };
            let other = if a_first { party_b } else { party_a };
            let (outcome1, record1, custody1) = deposit_step(record, custody, one, stake_amount, first);
            let (outcome2, record2, custody2) = deposit_step(
                record1,
                custody1,
                other,
                stake_amount,
                second,
            );
            &&& outcome1 is Ok
            &&& record1.status is Pending
            &&& custody1.amount == stake_amount
            &&& outcome2 is Ok
            &&& record2.status is Active
            &&& record2.deposited_a && record2.deposited_b
            &&& custody2.amount == 2 * stake_amount
        }),
{
}

} // verus!
