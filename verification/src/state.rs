//! The match record and its custodial balance.

use vstd::prelude::*;
use vstd::bytes::{lemma_auto_spec_u128_to_from_le_bytes, spec_u128_to_le_bytes, u128_to_le_bytes};
use crate::account::AccountId;
use crate::error::EscrowError;

verus! {

/// Where a match stands in its life. A status is never left for an earlier one:
/// `Pending` leads to `Active` or `Refunded`, `Active` to `Settled` or
/// `Refunded`, and the last two are final.
#[derive(Clone, Copy, Debug, PartialEq, Eq)]
pub enum MatchStatus {
    /// Created; fewer than two deposits have arrived.
    Pending,
    /// Both parties have deposited; the pot awaits a result or the deadline.
    Active,
    /// The pot was paid out by settlement.
    Settled,
    /// The deposits were handed back after the deadline.
    Refunded,
}

/// The outcome on record.
#[derive(Clone, Copy, Debug, PartialEq, Eq)]
pub enum ResultType {
    /// No result has been admitted.
    Unresolved,
    /// One account takes the pot less the fee.
    Win,
    /// A draw that returns both stakes in full.
    DrawFullRefund,
    /// A draw that returns 95% of each stake.
    DrawPartialRefund,
}

/// The state of one match.
#[derive(Clone, Copy, Debug, PartialEq, Eq)]
pub struct MatchRecord {
    /// Identifier of the match, unique on the host.
    pub match_id: u128,
    /// The party that created the match and paid for its storage.
    pub party_a: AccountId,
    /// The other party.
    pub party_b: AccountId,
    /// What each party has to deposit. Positive, fixed at creation.
    pub stake_amount: u64,
    /// Fee rate agreed at creation, in basis points, at most 10000. It is kept
    /// on record; what a settlement charges follows the schedule of `fees`.
    pub fee_bps: u16,
    /// The last point in time at which a deposit is taken. A result is
    /// admitted only before it.
    pub deadline: i64,
    /// Where the match stands in its life.
    pub status: MatchStatus,
    /// Whether `party_a` has deposited its stake.
    pub deposited_a: bool,
    /// Whether `party_b` has deposited its stake.
    pub deposited_b: bool,
    /// The outcome on record.
    pub result_kind: ResultType,
    /// The winner on record, if the admitted result named one.
    pub winner: Option<AccountId>,
    /// Time of creation.
    pub created_at: i64,
    /// Time of the settlement or refund, once it has happened.
    pub settled_at: Option<i64>,
}

/// The balance held in custody for one match. It is credited by deposits and
/// debited by settlement and refunds, and by nothing else.
#[derive(Clone, Copy, Debug, PartialEq, Eq)]
pub struct CustodialBalance {
    /// The match that this balance is bound to.
    pub match_id: u128,
    /// Units held, not counting what the host keeps back for storage.
    pub amount: u64,
}

impl MatchStatus {
    /// Whether the status is final.
    pub open spec fn is_terminal(self) -> bool {
        self is Settled || self is Refunded
    }

    /// Whether a match may go from `self` to `next` in one operation, or stay.
    pub open spec fn may_become(self, next: MatchStatus) -> bool {
        self == next || match self {
            MatchStatus::Pending => next is Active || next is Refunded,
            MatchStatus::Active => next is Settled || next is Refunded,
            MatchStatus::Settled => false,
            MatchStatus::Refunded => false,
        }
    }
}

impl MatchRecord {
    /// Whether the deadline is reached at time `now`: `now` is the deadline or
    /// later. Until then a result may be submitted; from then on a match may
    /// be settled without a result, and a single deposit refunded.
    pub open spec fn deadline_reached(self, now: i64) -> bool {
        now >= self.deadline
    }

    /// Whether the deadline has passed at time `now`: `now` is later than the
    /// deadline. Until then deposits are taken; from then on the timeout
    /// refund is open.
    pub open spec fn deadline_passed(self, now: i64) -> bool {
        now > self.deadline
    }

    /// Number of parties that have deposited.
    pub open spec fn deposit_count(self) -> int {
        (if self.deposited_a { 1int } else { 0int }) + (if self.deposited_b { 1int } else { 0int })
    }

    /// Sum of the stakes of both parties.
    pub open spec fn total_pot(self) -> int {
        2 * self.stake_amount
    }

    /// What the custodial balance of this match has to hold: every deposit
    /// until the match is settled or refunded, nothing afterwards.
    pub open spec fn expected_balance(self) -> int {
        if self.status.is_terminal() {
            0
        } else {
            (if self.deposited_a { self.stake_amount as int } else { 0 }) + (if self.deposited_b {
                self.stake_amount as int
            } else {
                0
            })
        }
    }

    /// The invariant of a record.
    pub open spec fn wf(self) -> bool {
        &&& self.stake_amount > 0
        &&& self.fee_bps <= 10_000
        &&& self.created_at < self.deadline
        &&& self.status is Pending ==> self.deposit_count() < 2
        &&& self.status is Active ==> self.deposit_count() == 2
        &&& self.status is Pending ==> self.result_kind is Unresolved && self.winner is None
        &&& self.status.is_terminal() <==> self.settled_at is Some
    }
}

/// Whether a record and a custodial balance belong together and agree: the
/// balance is bound to the record's match and holds every deposit that has
/// not been paid out.
pub open spec fn consistent(record: MatchRecord, custody: CustodialBalance) -> bool {
    &&& record.wf()
    &&& custody.match_id == record.match_id
    &&& custody.amount == record.expected_balance()
}

/// What the custodial account holds for a match, out of what the host's
/// ledger reports for it: the units in the account less the reserve that the
/// host keeps back for the account's storage.
///
/// Fails with `InsufficientFunds` exactly when the account holds less than the
/// reserve.
pub fn net_of_reserve(held: u64, reserve: u64) -> (net: Result<u64, EscrowError>)
    ensures
        held >= reserve ==> net == Ok::<u64, EscrowError>((held - reserve) as u64),
        held < reserve ==> net == Err::<u64, EscrowError>(EscrowError::InsufficientFunds),
{
    match held.checked_sub(reserve) {
        Some(net) => Ok(net),
        None => Err(EscrowError::InsufficientFunds),
    }
}

/// The tag that every custody handle starts with: the letters of "match".
pub const CUSTODY_TAG: [u8; 5] = [109, 97, 116, 99, 104];

/// The handle of the custodial account of a match: the tag, then the match
/// identifier as 16 little-endian bytes. The host derives the account from it,
/// so that the account belongs to the match and to neither party.
pub open spec fn custody_handle(match_id: u128) -> Seq<u8> {
    CUSTODY_TAG@ + spec_u128_to_le_bytes(match_id)
}

/// Derives the handle of the custodial account of a match.
pub fn derive_custody_handle(match_id: u128) -> (handle: Vec<u8>)
    ensures
        handle@ == custody_handle(match_id),
{
    let tag: [u8; 5] = CUSTODY_TAG;
    let mut handle: Vec<u8> = Vec::new();
    let mut i: usize = 0;
    while i < 5
        invariant
            i <= 5,
            tag == CUSTODY_TAG,
            handle@ == tag@.subrange(0, i as int),
        decreases 5 - i,
    {
        handle.push(tag[i]);
        i += 1;
        assert(handle@ =~= tag@.subrange(0, i as int));
    }
    assert(handle@ =~= tag@);
    let mut id_bytes: Vec<u8> = u128_to_le_bytes(match_id);
    handle.append(&mut id_bytes);
    handle
}

/// The handle of a match is 21 bytes long, and no two matches share one.
pub proof fn lemma_custody_handle_names_one_match(one: u128, other: u128)
    ensures
        custody_handle(one).len() == 21,
        custody_handle(one) == custody_handle(other) ==> one == other,
{
    lemma_auto_spec_u128_to_from_le_bytes();
    if custody_handle(one) == custody_handle(other) {
        assert(spec_u128_to_le_bytes(one) =~= custody_handle(one).subrange(5, 21));
        assert(spec_u128_to_le_bytes(other) =~= custody_handle(other).subrange(5, 21));
    }
}

} // verus!
