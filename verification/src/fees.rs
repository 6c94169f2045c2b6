//! The fee schedule and the split of a pot.
//!
//! The pot of a match is twice its stake. How it is split depends on the
//! outcome alone:
//!
//! | outcome | fee | winner | each party | platform |
//! |---|---|---|---|---|
//! | win | 500 bps | pot less the fee | nothing | 5% of the pot, rounded down |
//! | full-refund draw | 0 bps | nothing | its stake | nothing |
//! | partial-refund draw | 500 bps | nothing | 95% of its stake, rounded down | the rest |
//! | no result by the deadline | 1000 bps | nothing | 90% of its stake, rounded down | the rest |
//!
//! Every division rounds down, and the shares of a split add up to the pot:
//! what rounding leaves over of a draw goes to the platform.

use vstd::prelude::*;
use crate::error::EscrowError;
use crate::state::ResultType;

verus! {

/// Number of basis points in the whole: 10000 bps are 100%.
pub const BPS_DENOMINATOR: u64 = 10_000;

/// Highest fee rate that a match may be created with.
pub const MAX_FEE_BPS: u16 = 10_000;

/// Fee on the pot of a match that ended with a winner: 5%.
pub const DEFAULT_FEE_BPS: u64 = 500;

/// Fee on a draw that refunds both stakes in full: none.
pub const DRAW_FULL_REFUND_BPS: u64 = 0;

/// Fee on a draw that refunds 95% of each stake: 5%.
pub const DRAW_PARTIAL_REFUND_BPS: u64 = 500;

/// Fee when both parties deposited and no result arrived by the deadline: 10%.
pub const NO_PLAY_FEE_BPS: u64 = 1_000;

/// Percentage of its stake that each party gets back from a partial-refund draw.
pub const DRAW_PARTIAL_REFUND_PERCENT: u64 = 95;

/// Percentage of its stake that each party gets back when a match that both
/// parties funded is settled without a result.
pub const NO_PLAY_REFUND_PERCENT: u64 = 90;

/// The fee on `amount` at `bps` basis points, rounded down.
pub open spec fn fee_of(amount: int, bps: int) -> int {
    amount * bps / 10_000
}

/// Computes the fee on `amount` at `bps` basis points, rounded down.
///
/// Fails with `NumericalOverflow` exactly when `amount * bps` does not fit in
/// 64 bits.
pub fn calculate_fee(amount: u64, bps: u64) -> (fee: Result<u64, EscrowError>)
    ensures
        amount * bps <= u64::MAX ==> fee == Ok::<u64, EscrowError>(
            fee_of(amount as int, bps as int) as u64,
        ),
        amount * bps > u64::MAX ==> fee == Err::<u64, EscrowError>(EscrowError::NumericalOverflow),
{
    match amount.checked_mul(bps) {
        Some(product) => Ok(product / BPS_DENOMINATOR),
        None => Err(EscrowError::NumericalOverflow),
    }
}

/// The fee rate that the schedule names for an outcome, in basis points.
pub open spec fn spec_fee_bps_for(kind: ResultType) -> u64 {
    match kind {
        ResultType::Win => DEFAULT_FEE_BPS,
        ResultType::DrawFullRefund => DRAW_FULL_REFUND_BPS,
        ResultType::DrawPartialRefund => DRAW_PARTIAL_REFUND_BPS,
        ResultType::Unresolved => NO_PLAY_FEE_BPS,
    }
}

/// The fee rate that the schedule names for an outcome, in basis points.
#[verifier::when_used_as_spec(spec_fee_bps_for)]
pub fn fee_bps_for(kind: ResultType) -> (bps: u64)
    ensures
        bps == spec_fee_bps_for(kind),
{
    match kind {
        ResultType::Win => DEFAULT_FEE_BPS,
        ResultType::DrawFullRefund => DRAW_FULL_REFUND_BPS,
        ResultType::DrawPartialRefund => DRAW_PARTIAL_REFUND_BPS,
        ResultType::Unresolved => NO_PLAY_FEE_BPS,
    }
}

/// What settlement hands back to each party of a match with stake `stake`:
/// nothing where there is a winner, the stake on a full-refund draw, 95% of it
/// on a partial-refund draw and 90% of it without a result, rounded down.
pub open spec fn refund_share(stake: int, kind: ResultType) -> int {
    match kind {
        ResultType::Win => 0,
        ResultType::DrawFullRefund => stake,
        ResultType::DrawPartialRefund => stake * 95 / 100,
        ResultType::Unresolved => stake * 90 / 100,
    }
}

/// What settlement pays to the winner: the pot less the fee on a win, nothing
/// otherwise.
pub open spec fn winner_share(stake: int, kind: ResultType) -> int {
    match kind {
        ResultType::Win => 2 * stake - fee_of(2 * stake, DEFAULT_FEE_BPS as int),
        _ => 0,
    }
}

/// What settlement pays to the platform: the fee on the pot on a win, and on
/// every other outcome what is left of the pot after both refunds, so that
/// what rounding leaves over goes to the platform.
pub open spec fn platform_share(stake: int, kind: ResultType) -> int {
    match kind {
        ResultType::Win => fee_of(2 * stake, DEFAULT_FEE_BPS as int),
        _ => 2 * stake - 2 * refund_share(stake, kind),
    }
}

/// Whether the split of a pot of two stakes of `stake` for outcome `kind`
/// can be computed in 64 bits.
pub open spec fn split_fits(stake: int, kind: ResultType) -> bool {
    &&& 2 * stake <= u64::MAX
    &&& match kind {
        ResultType::Win => 2 * stake * DEFAULT_FEE_BPS <= u64::MAX,
        ResultType::DrawFullRefund => true,
        ResultType::DrawPartialRefund => stake * 95 <= u64::MAX,
        ResultType::Unresolved => stake * 90 <= u64::MAX,
    }
}

/// The transfers that the host has to make out of the custodial balance for
/// one settlement or refund.
#[derive(Clone, Copy, Debug, PartialEq, Eq)]
pub struct Disbursement {
    /// Units for `party_a`.
    pub to_party_a: u64,
    /// Units for `party_b`.
    pub to_party_b: u64,
    /// Units for the winner on record.
    pub to_winner: u64,
    /// Units for the platform.
    pub fee_amount: u64,
    /// Whether the storage of the match is given up and its cost returned to
    /// `party_a`, who paid for it.
    pub reclaim_storage: bool,
}

impl Disbursement {
    /// Sum of all units paid out of the custodial balance.
    pub open spec fn total(self) -> int {
        self.to_party_a + self.to_party_b + self.to_winner + self.fee_amount
    }

    /// The disbursement that pays nothing.
    pub open spec fn nothing() -> Disbursement {
        Disbursement {
            to_party_a: 0,
            to_party_b: 0,
            to_winner: 0,
            fee_amount: 0,
            reclaim_storage: false,
        }
    }
}

/// The split of a pot of two stakes of `stake` for outcome `kind`: each party
/// its refund share, the winner the winner's share, the platform the rest.
pub open spec fn split_of(stake: u64, kind: ResultType) -> Disbursement {
    Disbursement {
        to_party_a: refund_share(stake as int, kind) as u64,
        to_party_b: refund_share(stake as int, kind) as u64,
        to_winner: winner_share(stake as int, kind) as u64,
        fee_amount: platform_share(stake as int, kind) as u64,
        reclaim_storage: false,
    }
}

/// Splits the pot of a match with stake `stake` for outcome `kind`.
///
/// Fails with `NumericalOverflow` exactly when the pot, or a product on the
/// way to a share, does not fit in 64 bits. The shares of a split add up to
/// the pot.
pub fn split_pot(stake: u64, kind: ResultType) -> (split: Result<Disbursement, EscrowError>)
    ensures
        split_fits(stake as int, kind) ==> split == Ok::<Disbursement, EscrowError>(
            split_of(stake, kind),
        ),
        !split_fits(stake as int, kind) ==> split == Err::<Disbursement, EscrowError>(
            EscrowError::NumericalOverflow,
        ),
        split matches Ok(paid) ==> paid.total() == 2 * stake,
{
    let pot: u64 = match stake.checked_mul(2) {
        Some(pot) => pot,
        None => { return Err(EscrowError::NumericalOverflow); },
    };
    match kind {
        ResultType::Win => {
            let fee: u64 = calculate_fee(pot, DEFAULT_FEE_BPS)?;
            Ok(
                Disbursement {
                    to_party_a: 0,
                    to_party_b: 0,
                    to_winner: pot - fee,
                    fee_amount: fee,
                    reclaim_storage: false,
                },
            )
        },
        ResultType::DrawFullRefund => Ok(
            Disbursement {
                to_party_a: stake,
                to_party_b: stake,
                to_winner: 0,
                fee_amount: 0,
                reclaim_storage: false,
            },
        ),
        ResultType::DrawPartialRefund => {
            let refund: u64 = match stake.checked_mul(DRAW_PARTIAL_REFUND_PERCENT) {
                Some(product) => product / 100,
                None => { return Err(EscrowError::NumericalOverflow); },
            };
            Ok(
                Disbursement {
                    to_party_a: refund,
                    to_party_b: refund,
                    to_winner: 0,
                    fee_amount: pot - refund - refund,
                    reclaim_storage: false,
                },
            )
        },
        ResultType::Unresolved => {
            let refund: u64 = match stake.checked_mul(NO_PLAY_REFUND_PERCENT) {
                Some(product) => product / 100,
                None => { return Err(EscrowError::NumericalOverflow); },
            };
            Ok(
                Disbursement {
                    to_party_a: refund,
                    to_party_b: refund,
                    to_winner: 0,
                    fee_amount: pot - refund - refund,
                    reclaim_storage: false,
                },
            )
        },
    }
}

/// The shares of a split are amounts, and they add up to the pot: no unit is
/// created and none is lost, whatever the outcome.
pub proof fn lemma_split_conserves_pot(stake: int, kind: ResultType)
    requires
        0 <= stake,
    ensures
        0 <= refund_share(stake, kind) <= stake,
        0 <= winner_share(stake, kind) <= 2 * stake,
        0 <= platform_share(stake, kind) <= 2 * stake,
        winner_share(stake, kind) + 2 * refund_share(stake, kind) + platform_share(stake, kind)
            == 2 * stake,
        stake <= u64::MAX && 2 * stake <= u64::MAX ==> split_of(stake as u64, kind).total() == 2
            * stake,
{
}

/// The platform gets at least the fee that the schedule names for the outcome,
/// and at most two units more: what rounding the two refunds down leaves over.
pub proof fn lemma_platform_share_follows_schedule(stake: int, kind: ResultType)
    requires
        0 <= stake,
    ensures
        fee_of(2 * stake, fee_bps_for(kind) as int) <= platform_share(stake, kind),
        platform_share(stake, kind) <= fee_of(2 * stake, fee_bps_for(kind) as int) + 2,
{
    match kind {
        ResultType::Win => {},
        ResultType::DrawFullRefund => {
            assert(2 * stake * 0 == 0);
        },
        ResultType::DrawPartialRefund => {
            assert(fee_of(2 * stake, 500) == stake * 1000 / 10_000);
        },
        ResultType::Unresolved => {
            assert(fee_of(2 * stake, 1000) == stake * 2000 / 10_000);
        },
    }
}

} // verus!
