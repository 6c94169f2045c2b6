use game_escrow::account::AccountId;
use game_escrow::error::EscrowError;
use game_escrow::fees::Disbursement;
use game_escrow::lifecycle::{create_match, deposit};
use game_escrow::refund::{refund_if_only_one_paid, refund_timeout, timeout_basis};
use game_escrow::settlement::settle;
use game_escrow::state::{CustodialBalance, MatchRecord, MatchStatus, ResultType};

const STAKE: u64 = 1_000_000;
const CREATED: i64 = 1_000;
const DEADLINE: i64 = 1_600;
const MATCH_ID: u128 = 9;

fn first() -> AccountId {
    [0x11; 32]
}

fn second() -> AccountId {
    [0x22; 32]
}

fn new_match() -> (MatchRecord, CustodialBalance) {
    create_match(MATCH_ID, first(), second(), STAKE, 500, DEADLINE, CREATED).unwrap()
}

fn match_with_one_deposit(by: AccountId) -> (MatchRecord, CustodialBalance) {
    let (mut record, mut custody) = new_match();
    deposit(&mut record, &mut custody, &by, STAKE, CREATED + 1).unwrap();
    (record, custody)
}

fn match_with_both_deposits() -> (MatchRecord, CustodialBalance) {
    let (mut record, mut custody) = match_with_one_deposit(first());
    deposit(&mut record, &mut custody, &second(), STAKE, CREATED + 2).unwrap();
    (record, custody)
}

fn nothing_paid() -> Disbursement {
    Disbursement { to_party_a: 0, to_party_b: 0, to_winner: 0, fee_amount: 0, reclaim_storage: false }
}

#[test]
fn single_depositor_gets_the_stake_back_after_the_deadline() {
    let (mut record, mut custody) = match_with_one_deposit(first());
    let paid = refund_if_only_one_paid(&mut record, &mut custody, DEADLINE).unwrap();
    assert_eq!(
        paid,
        Disbursement {
            to_party_a: 1_000_000,
            to_party_b: 0,
            to_winner: 0,
            fee_amount: 0,
            reclaim_storage: true,
        }
    );
    assert_eq!(record.status, MatchStatus::Refunded);
    assert_eq!(record.settled_at, Some(DEADLINE));
    assert_eq!(custody.amount, 0);
}

#[test]
fn timeout_refund_is_rejected_while_one_party_alone_has_deposited() {
    let (mut record, mut custody) = match_with_one_deposit(first());
    let (before, held) = (record, custody);
    assert_eq!(
        refund_timeout(&mut record, &mut custody, DEADLINE + 1),
        Err(EscrowError::OnlyOnePlayerPaid)
    );
    assert_eq!(record, before);
    assert_eq!(custody, held);
    assert_eq!(custody.amount, STAKE);
    let paid = refund_if_only_one_paid(&mut record, &mut custody, DEADLINE + 1).unwrap();
    assert_eq!(paid.to_party_a, STAKE);
    assert_eq!(paid.to_party_b, 0);
}

#[test]
fn single_refund_goes_to_the_second_party_when_it_alone_deposited() {
    let (mut record, mut custody) = match_with_one_deposit(second());
    let paid = refund_if_only_one_paid(&mut record, &mut custody, DEADLINE + 5).unwrap();
    assert_eq!(
        paid,
        Disbursement {
            to_party_a: 0,
            to_party_b: STAKE,
            to_winner: 0,
            fee_amount: 0,
            reclaim_storage: true,
        }
    );
    assert_eq!(record.status, MatchStatus::Refunded);
    assert_eq!(custody.amount, 0);
}

#[test]
fn single_refund_is_rejected_before_the_deadline() {
    let (mut record, mut custody) = match_with_one_deposit(first());
    let (before, held) = (record, custody);
    assert_eq!(
        refund_if_only_one_paid(&mut record, &mut custody, DEADLINE - 1),
        Err(EscrowError::GameNotTimeout)
    );
    assert_eq!(record, before);
    assert_eq!(custody, held);
}

#[test]
fn single_refund_is_rejected_when_both_parties_deposited() {
    for now in [DEADLINE, DEADLINE + 1, DEADLINE + 1_000] {
        let (mut record, mut custody) = match_with_both_deposits();
        assert_eq!(record.status, MatchStatus::Active);
        let (before, held) = (record, custody);
        assert_eq!(
            refund_if_only_one_paid(&mut record, &mut custody, now),
            Err(EscrowError::BothPlayersPaid)
        );
        assert_eq!(record, before);
        assert_eq!(custody, held);
        assert_eq!(custody.amount, 2 * STAKE);
    }
    let (mut record, mut custody) = match_with_both_deposits();
    record.status = MatchStatus::Pending;
    assert_eq!(
        refund_if_only_one_paid(&mut record, &mut custody, DEADLINE),
        Err(EscrowError::BothPlayersPaid)
    );
}

#[test]
fn single_refund_of_a_funded_match_before_the_deadline_is_too_early() {
    let (mut record, mut custody) = match_with_both_deposits();
    assert_eq!(
        refund_if_only_one_paid(&mut record, &mut custody, DEADLINE - 1),
        Err(EscrowError::GameNotTimeout)
    );
    assert_eq!(record.status, MatchStatus::Active);
}

#[test]
fn single_refund_of_a_closed_match_is_a_status_error() {
    let (mut record, mut custody) = match_with_both_deposits();
    settle(&mut record, &mut custody, &first(), DEADLINE).unwrap();
    let (before, held) = (record, custody);
    assert_eq!(
        refund_if_only_one_paid(&mut record, &mut custody, DEADLINE + 1),
        Err(EscrowError::InvalidStatus)
    );
    assert_eq!(record, before);
    assert_eq!(custody, held);
    let (mut record, mut custody) = match_with_one_deposit(first());
    record.status = MatchStatus::Active;
    assert_eq!(
        refund_if_only_one_paid(&mut record, &mut custody, DEADLINE),
        Err(EscrowError::InvalidStatus)
    );
}

#[test]
fn single_refund_opens_at_the_deadline() {
    let (mut record, mut custody) = match_with_one_deposit(second());
    let paid = refund_if_only_one_paid(&mut record, &mut custody, DEADLINE).unwrap();
    assert_eq!((paid.to_party_a, paid.to_party_b), (0, STAKE));
    assert_eq!(record.settled_at, Some(DEADLINE));
}

#[test]
fn single_refund_is_rejected_when_nobody_deposited() {
    let (mut record, mut custody) = new_match();
    assert_eq!(
        refund_if_only_one_paid(&mut record, &mut custody, DEADLINE),
        Err(EscrowError::BothPlayersPaid)
    );
    assert_eq!(record.status, MatchStatus::Pending);
}

#[test]
fn single_refund_happens_once() {
    let (mut record, mut custody) = match_with_one_deposit(first());
    refund_if_only_one_paid(&mut record, &mut custody, DEADLINE).unwrap();
    let (before, held) = (record, custody);
    assert_eq!(
        refund_if_only_one_paid(&mut record, &mut custody, DEADLINE + 1),
        Err(EscrowError::InvalidStatus)
    );
    assert_eq!(
        refund_timeout(&mut record, &mut custody, DEADLINE + 1),
        Err(EscrowError::InvalidStatus)
    );
    assert_eq!(
        settle(&mut record, &mut custody, &first(), DEADLINE + 1),
        Err(EscrowError::InvalidStatus)
    );
    assert_eq!(
        deposit(&mut record, &mut custody, &second(), STAKE, DEADLINE + 1),
        Err(EscrowError::InvalidStatus)
    );
    assert_eq!(record, before);
    assert_eq!(custody, held);
}

#[test]
fn single_refund_needs_the_stake_in_custody() {
    let (mut record, mut custody) = match_with_one_deposit(first());
    custody.amount = STAKE - 1;
    assert_eq!(
        refund_if_only_one_paid(&mut record, &mut custody, DEADLINE),
        Err(EscrowError::InsufficientFunds)
    );
    assert_eq!(record.status, MatchStatus::Pending);
    assert_eq!(custody.amount, STAKE - 1);
}

#[test]
fn single_refund_needs_the_custody_of_this_match() {
    let (mut record, _) = match_with_one_deposit(first());
    let mut other = CustodialBalance { match_id: MATCH_ID + 1, amount: STAKE };
    assert_eq!(
        refund_if_only_one_paid(&mut record, &mut other, DEADLINE),
        Err(EscrowError::CustodyMismatch)
    );
    assert_eq!(
        refund_timeout(&mut record, &mut other, DEADLINE + 1),
        Err(EscrowError::CustodyMismatch)
    );
    assert_eq!(other.amount, STAKE);
}

#[test]
fn timeout_refund_returns_both_stakes_in_full() {
    let (mut record, mut custody) = match_with_both_deposits();
    let paid = refund_timeout(&mut record, &mut custody, DEADLINE + 1).unwrap();
    assert_eq!(
        paid,
        Disbursement {
            to_party_a: STAKE,
            to_party_b: STAKE,
            to_winner: 0,
            fee_amount: 0,
            reclaim_storage: false,
        }
    );
    assert_eq!(record.status, MatchStatus::Refunded);
    assert_eq!(record.settled_at, Some(DEADLINE + 1));
    assert_eq!(custody.amount, 0);
}

#[test]
fn timeout_refund_is_rejected_up_to_and_at_the_deadline() {
    for now in [CREATED, DEADLINE - 1, DEADLINE] {
        let (mut record, mut custody) = match_with_both_deposits();
        let (before, held) = (record, custody);
        assert_eq!(
            refund_timeout(&mut record, &mut custody, now),
            Err(EscrowError::GameNotTimeout)
        );
        assert_eq!(record, before);
        assert_eq!(custody, held);
        let (mut record, mut custody) = new_match();
        assert_eq!(
            refund_timeout(&mut record, &mut custody, now),
            Err(EscrowError::GameNotTimeout)
        );
        assert_eq!(record.status, MatchStatus::Pending);
    }
    let (mut record, mut custody) = match_with_both_deposits();
    assert!(refund_timeout(&mut record, &mut custody, DEADLINE + 1).is_ok());
}

#[test]
fn timeout_refund_closes_a_match_without_deposits_and_pays_nothing() {
    let (mut record, mut custody) = new_match();
    let paid = refund_timeout(&mut record, &mut custody, DEADLINE + 1).unwrap();
    assert_eq!(paid, nothing_paid());
    assert_eq!(record.status, MatchStatus::Refunded);
    assert_eq!(custody.amount, 0);
}

#[test]
fn timeout_refund_happens_once() {
    let (mut record, mut custody) = match_with_both_deposits();
    refund_timeout(&mut record, &mut custody, DEADLINE + 1).unwrap();
    let (before, held) = (record, custody);
    assert_eq!(
        refund_timeout(&mut record, &mut custody, DEADLINE + 1),
        Err(EscrowError::InvalidStatus)
    );
    assert_eq!(
        settle(&mut record, &mut custody, &first(), DEADLINE + 1),
        Err(EscrowError::InvalidStatus)
    );
    assert_eq!(record, before);
    assert_eq!(custody, held);
}

#[test]
fn timeout_refund_after_settlement_is_rejected() {
    let (mut record, mut custody) = match_with_both_deposits();
    settle(&mut record, &mut custody, &first(), DEADLINE).unwrap();
    assert_eq!(
        refund_timeout(&mut record, &mut custody, DEADLINE + 1),
        Err(EscrowError::InvalidStatus)
    );
    assert_eq!(record.status, MatchStatus::Settled);
}

#[test]
fn timeout_refund_honours_a_draw_on_record() {
    let (mut record, mut custody) = match_with_both_deposits();
    record.result_kind = ResultType::DrawPartialRefund;
    let paid = refund_timeout(&mut record, &mut custody, DEADLINE + 1).unwrap();
    assert_eq!(
        paid,
        Disbursement {
            to_party_a: 950_000,
            to_party_b: 950_000,
            to_winner: 0,
            fee_amount: 100_000,
            reclaim_storage: false,
        }
    );
    assert_eq!(custody.amount, 0);

    let (mut record, mut custody) = match_with_both_deposits();
    record.result_kind = ResultType::DrawFullRefund;
    let paid = refund_timeout(&mut record, &mut custody, DEADLINE + 1).unwrap();
    assert_eq!((paid.to_party_a, paid.to_party_b, paid.fee_amount), (STAKE, STAKE, 0));
}

#[test]
fn timeout_refund_honours_a_win_on_record() {
    let (mut record, mut custody) = match_with_both_deposits();
    record.result_kind = ResultType::Win;
    record.winner = Some(second());
    let paid = refund_timeout(&mut record, &mut custody, DEADLINE + 1).unwrap();
    assert_eq!(
        paid,
        Disbursement {
            to_party_a: 0,
            to_party_b: 0,
            to_winner: 1_900_000,
            fee_amount: 100_000,
            reclaim_storage: false,
        }
    );
    assert_eq!(record.status, MatchStatus::Refunded);
    assert_eq!(custody.amount, 0);
}

#[test]
fn timeout_refund_of_a_win_without_winner_returns_both_stakes() {
    let (mut record, mut custody) = match_with_both_deposits();
    record.result_kind = ResultType::Win;
    record.winner = None;
    let paid = refund_timeout(&mut record, &mut custody, DEADLINE + 1).unwrap();
    assert_eq!((paid.to_party_a, paid.to_party_b, paid.to_winner, paid.fee_amount), (STAKE, STAKE, 0, 0));
    assert_eq!(custody.amount, 0);
}

#[test]
fn timeout_basis_follows_the_record() {
    let (mut record, _) = match_with_both_deposits();
    assert_eq!(timeout_basis(&record), ResultType::DrawFullRefund);
    record.result_kind = ResultType::DrawFullRefund;
    assert_eq!(timeout_basis(&record), ResultType::DrawFullRefund);
    record.result_kind = ResultType::DrawPartialRefund;
    assert_eq!(timeout_basis(&record), ResultType::DrawPartialRefund);
    record.result_kind = ResultType::Win;
    assert_eq!(timeout_basis(&record), ResultType::DrawFullRefund);
    record.winner = Some(first());
    assert_eq!(timeout_basis(&record), ResultType::Win);
}

#[test]
fn timeout_refund_needs_the_whole_pot_in_custody() {
    let (mut record, mut custody) = match_with_both_deposits();
    custody.amount = 2 * STAKE - 1;
    let (before, held) = (record, custody);
    assert_eq!(
        refund_timeout(&mut record, &mut custody, DEADLINE + 1),
        Err(EscrowError::InsufficientFunds)
    );
    assert_eq!(record, before);
    assert_eq!(custody, held);
}

#[test]
fn timeout_refund_fails_when_the_pot_overflows() {
    let stake = u64::MAX / 2 + 1;
    let (mut record, mut custody) =
        create_match(MATCH_ID, first(), second(), stake, 500, DEADLINE, CREATED).unwrap();
    record.deposited_a = true;
    record.deposited_b = true;
    record.status = MatchStatus::Active;
    custody.amount = u64::MAX;
    assert_eq!(
        refund_timeout(&mut record, &mut custody, DEADLINE + 1),
        Err(EscrowError::NumericalOverflow)
    );
    assert_eq!(record.status, MatchStatus::Active);
}

#[test]
fn every_open_match_can_be_closed_after_the_deadline() {
    let (mut record, mut custody) = new_match();
    assert!(refund_timeout(&mut record, &mut custody, DEADLINE + 1).is_ok());
    assert_eq!(custody.amount, 0);
    for by in [first(), second()] {
        let (mut record, mut custody) = match_with_one_deposit(by);
        assert!(refund_if_only_one_paid(&mut record, &mut custody, DEADLINE).is_ok());
        assert_eq!(custody.amount, 0);
    }
    let (mut record, mut custody) = match_with_both_deposits();
    assert!(refund_timeout(&mut record, &mut custody, DEADLINE + 1).is_ok());
    assert_eq!(custody.amount, 0);
}

#[test]
fn status_never_goes_back() {
    let (mut record, mut custody) = match_with_both_deposits();
    assert_eq!(record.status, MatchStatus::Active);
    assert!(deposit(&mut record, &mut custody, &first(), STAKE, CREATED + 3).is_err());
    assert_eq!(record.status, MatchStatus::Active);
    assert!(refund_if_only_one_paid(&mut record, &mut custody, DEADLINE).is_err());
    assert_eq!(record.status, MatchStatus::Active);
    settle(&mut record, &mut custody, &first(), DEADLINE).unwrap();
    assert_eq!(record.status, MatchStatus::Settled);
    assert!(refund_timeout(&mut record, &mut custody, DEADLINE + 1).is_err());
    assert!(deposit(&mut record, &mut custody, &first(), STAKE, CREATED + 3).is_err());
    assert_eq!(record.status, MatchStatus::Settled);
}
