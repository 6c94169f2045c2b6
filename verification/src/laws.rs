//! What holds of a match over its whole life, whichever operations are
//! called on it and in whichever order.

use vstd::prelude::*;
use crate::account::AccountId;
use crate::attestation::{MatchResult, VerificationArtifact};
use crate::error::EscrowError;
use crate::fees::{split_fits, Disbursement};
use crate::lifecycle::deposit_step;
use crate::refund::{refund_timeout_step, single_refund_step, spec_timeout_basis};
use crate::settlement::settle_step;
use crate::state::{consistent, CustodialBalance, MatchRecord};
use crate::submission::submission_outcome;

verus! {

/// A match that is settled or refunded is closed for good. Every operation on
/// it is rejected with `InvalidStatus` and leaves the record and the
/// custodial balance as they are: nothing is paid twice, and no status is
/// left for an earlier one.
pub proof fn lemma_closed_match_rejects_every_operation(
    record: MatchRecord,
    custody: CustodialBalance,
    account: AccountId,
    amount: u64,
    result: MatchResult,
    encoded: Result<Seq<u8>, EscrowError>,
    signature: Seq<u8>,
    artifacts: Seq<VerificationArtifact>,
    now: i64,
)
    requires
        record.status.is_terminal(),
    ensures
        deposit_step(record, custody, account, amount, now) == (
            Err::<(), EscrowError>(EscrowError::InvalidStatus),
            record,
            custody,
        ),
        submission_outcome(record, result, encoded, signature, account, artifacts, now) == (
            Err::<(), EscrowError>(EscrowError::InvalidStatus),
            record,
        ),
        settle_step(record, custody, account, now) == (
            Err::<Disbursement, EscrowError>(EscrowError::InvalidStatus),
            record,
            custody,
        ),
        refund_timeout_step(record, custody, now) == (
            Err::<Disbursement, EscrowError>(EscrowError::InvalidStatus),
            record,
            custody,
        ),
        single_refund_step(record, custody, now) == (
            Err::<Disbursement, EscrowError>(EscrowError::InvalidStatus),
            record,
            custody,
        ),
{
}

/// The status of a match only moves forward: from `Pending` to `Active` or
/// `Refunded`, from `Active` to `Settled` or `Refunded`, and no further. No
/// operation, whether it goes through or is rejected, takes a match back to a
/// status that it has left.
pub proof fn lemma_status_only_moves_forward(
    record: MatchRecord,
    custody: CustodialBalance,
    account: AccountId,
    amount: u64,
    result: MatchResult,
    encoded: Result<Seq<u8>, EscrowError>,
    signature: Seq<u8>,
    artifacts: Seq<VerificationArtifact>,
    now: i64,
)
    ensures
        record.status.may_become(deposit_step(record, custody, account, amount, now).1.status),
        record.status == submission_outcome(
            record,
            result,
            encoded,
            signature,
            account,
            artifacts,
            now,
        ).1.status,
        record.status.may_become(settle_step(record, custody, account, now).1.status),
        record.status.may_become(refund_timeout_step(record, custody, now).1.status),
        record.status.may_become(single_refund_step(record, custody, now).1.status),
{
}

/// A result is on record only for a match that both parties have funded: a
/// result is admitted only while the match is `Active`, and a record that
/// meets its invariant and is `Pending` holds no result. Admitting a result
/// moves no funds: the record stays consistent with the custodial balance as
/// it is.
pub proof fn lemma_result_needs_active_match(
    record: MatchRecord,
    custody: CustodialBalance,
    result: MatchResult,
    encoded: Result<Seq<u8>, EscrowError>,
    signature: Seq<u8>,
    authority: AccountId,
    artifacts: Seq<VerificationArtifact>,
    now: i64,
)
    ensures
        submission_outcome(record, result, encoded, signature, authority, artifacts, now).0 is Ok
            ==> record.status is Active,
        record.wf() && !(record.result_kind is Unresolved) ==> !(record.status is Pending),
        consistent(record, custody) ==> consistent(
            submission_outcome(record, result, encoded, signature, authority, artifacts, now).1,
            custody,
        ),
{
}

/// What leaves the custodial balance is what is paid out, and what is left is
/// what the record accounts for. Every operation that moves funds keeps a
/// record and its balance consistent, and a settlement or refund that goes
/// through takes out of the balance exactly the sum of the transfers that it
/// returns.
pub proof fn lemma_custody_accounts_for_every_unit(
    record: MatchRecord,
    custody: CustodialBalance,
    account: AccountId,
    amount: u64,
    now: i64,
)
    requires
        consistent(record, custody),
    ensures
        ({
            let (_, after, held) = deposit_step(record, custody, account, amount, now);
            consistent(after, held)
        }),
        ({
            let (outcome, after, held) = settle_step(record, custody, account, now);
            &&& consistent(after, held)
            &&& outcome matches Ok(paid) ==> held.amount + paid.total() == custody.amount
        }),
        ({
            let (outcome, after, held) = refund_timeout_step(record, custody, now);
            &&& consistent(after, held)
            &&& outcome matches Ok(paid) ==> held.amount + paid.total() == custody.amount
        }),
        ({
            let (outcome, after, held) = single_refund_step(record, custody, now);
            &&& consistent(after, held)
            &&& outcome matches Ok(paid) ==> held.amount + paid.total() == custody.amount
        }),
{
}

/// No deposit is stranded. Once the deadline has passed, at any time later
/// than it, a match that is neither settled nor refunded can always be closed
/// by a refund, which pays out all that is held: by `refund_if_only_one_paid`
/// where one party deposited, by `refund_timeout` else.
///
/// The record and the balance have to be consistent, and the split of the pot
/// has to fit in 64 bits.
pub proof fn lemma_open_match_can_be_refunded_after_deadline(
    record: MatchRecord,
    custody: CustodialBalance,
    now: i64,
)
    requires
        consistent(record, custody),
        !record.status.is_terminal(),
        record.deadline_passed(now),
        split_fits(record.stake_amount as int, spec_timeout_basis(record)),
    ensures
        ({
            let (outcome, after, held) = if record.deposited_a != record.deposited_b {
                single_refund_step(record, custody, now)
            } else {
                refund_timeout_step(record, custody, now)
            };
            &&& outcome is Ok
            &&& after.status is Refunded
            &&& held.amount == 0
        }),
{
}

/// No party can claim funds on its own. Only an attested result puts an
/// outcome on record: deposits, settlement and refunds leave the outcome and
/// the winner as they are. And as long as no outcome is on record, no
/// operation pays anything to a winner, or more to a party than the stake
/// that it put in.
pub proof fn lemma_no_gain_without_attested_result(
    record: MatchRecord,
    custody: CustodialBalance,
    account: AccountId,
    amount: u64,
    now: i64,
)
    ensures
        ({
            let after = deposit_step(record, custody, account, amount, now).1;
            after.result_kind == record.result_kind && after.winner == record.winner
        }),
        ({
            let after = settle_step(record, custody, account, now).1;
            after.result_kind == record.result_kind && after.winner == record.winner
        }),
        ({
            let after = refund_timeout_step(record, custody, now).1;
            after.result_kind == record.result_kind && after.winner == record.winner
        }),
        ({
            let after = single_refund_step(record, custody, now).1;
            after.result_kind == record.result_kind && after.winner == record.winner
        }),
        record.result_kind is Unresolved ==> {
            &&& settle_step(record, custody, account, now).0 matches Ok(paid) ==> paid.to_winner
                == 0 && paid.to_party_a <= record.stake_amount && paid.to_party_b
                <= record.stake_amount
            &&& refund_timeout_step(record, custody, now).0 matches Ok(paid) ==> paid.to_winner
                == 0 && paid.to_party_a <= record.stake_amount && paid.to_party_b
                <= record.stake_amount
            &&& single_refund_step(record, custody, now).0 matches Ok(paid) ==> paid.to_winner
                == 0 && paid.to_party_a <= record.stake_amount && paid.to_party_b
                <= record.stake_amount
        },
{
}

} // verus!
