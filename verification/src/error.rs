//! Errors of the escrow operations.

use vstd::prelude::*;

verus! {

/// Why an operation was rejected. A rejected operation changes nothing.
#[derive(Clone, Copy, Debug, PartialEq, Eq)]
pub enum EscrowError {
    /// The stake of a new match is zero.
    InvalidStakeAmount,
    /// The fee of a new match exceeds 10000 basis points.
    InvalidFeeBps,
    /// The deadline of a new match is not strictly in the future.
    InvalidDeadline,
    /// A deposit is not exactly the stake of the match.
    InvalidDepositAmount,
    /// The store holds no match of that identifier.
    MatchNotFound,
    /// The depositor is neither of the two registered parties.
    UnauthorizedPlayer,
    /// The account named as winner is not the winner on record.
    WinnerMismatch,
    /// The custodial balance is bound to another match.
    CustodyMismatch,
    /// The match is not in the status that the operation needs.
    InvalidStatus,
    /// The party has deposited before.
    AlreadyPaid,
    /// It is too late: a deposit came after the deadline, or a result at the
    /// deadline or after it.
    GameTimeout,
    /// It is too early: a settlement without a result or a single-depositor
    /// refund came before the deadline, or a timeout refund at the deadline
    /// or before it.
    GameNotTimeout,
    /// No result is on record and the deadline is not reached.
    CannotSettle,
    /// The single-depositor refund was asked for an open match in which both
    /// parties deposited, or neither.
    BothPlayersPaid,
    /// The timeout refund was asked for a match in which exactly one party
    /// deposited.
    OnlyOnePlayerPaid,
    /// The result message names another match.
    MatchIdMismatch,
    /// No verification artifact carries the authority's key, the signature
    /// and the message, or the signature has the wrong length.
    InvalidSignature,
    /// The result message could not be serialized. The serializer writes
    /// into memory and does not fail; the error stands for what its signature
    /// allows.
    SerializationFailed,
    /// An amount does not fit in 64 bits.
    NumericalOverflow,
    /// The custodial balance does not cover what is to be paid out.
    InsufficientFunds,
}

/// The classes of errors.
#[derive(Clone, Copy, Debug, PartialEq, Eq)]
pub enum ErrorCategory {
    /// An argument is out of range.
    Validation,
    /// An account is not entitled to what was asked.
    Authorization,
    /// The match is in the wrong state for the transition.
    State,
    /// The result is not backed by the authority's attestation.
    Authentication,
    /// A computation overflowed.
    Arithmetic,
    /// The custodial balance is too small.
    Resource,
}

impl EscrowError {
    /// The class of this error.
    pub open spec fn spec_category(self) -> ErrorCategory {
        match self {
            EscrowError::InvalidStakeAmount
            | EscrowError::InvalidFeeBps
            | EscrowError::InvalidDeadline
            | EscrowError::InvalidDepositAmount
            | EscrowError::MatchNotFound => ErrorCategory::Validation,
            EscrowError::UnauthorizedPlayer
            | EscrowError::WinnerMismatch
            | EscrowError::CustodyMismatch => {
                ErrorCategory::Authorization
            },
            EscrowError::InvalidStatus
            | EscrowError::AlreadyPaid
            | EscrowError::GameTimeout
            | EscrowError::GameNotTimeout
            | EscrowError::CannotSettle
            | EscrowError::BothPlayersPaid
            | EscrowError::OnlyOnePlayerPaid => ErrorCategory::State,
            EscrowError::MatchIdMismatch
            | EscrowError::InvalidSignature
            | EscrowError::SerializationFailed => ErrorCategory::Authentication,
            EscrowError::NumericalOverflow => ErrorCategory::Arithmetic,
            EscrowError::InsufficientFunds => ErrorCategory::Resource,
        }
    }

    /// The class of this error.
    #[verifier::when_used_as_spec(spec_category)]
    pub fn category(self) -> (category: ErrorCategory)
        ensures
            category == self.spec_category(),
    {
        match self {
            EscrowError::InvalidStakeAmount
            | EscrowError::InvalidFeeBps
            | EscrowError::InvalidDeadline
            | EscrowError::InvalidDepositAmount
            | EscrowError::MatchNotFound => ErrorCategory::Validation,
            EscrowError::UnauthorizedPlayer
            | EscrowError::WinnerMismatch
            | EscrowError::CustodyMismatch => {
                ErrorCategory::Authorization
            },
            EscrowError::InvalidStatus
            | EscrowError::AlreadyPaid
            | EscrowError::GameTimeout
            | EscrowError::GameNotTimeout
            | EscrowError::CannotSettle
            | EscrowError::BothPlayersPaid
            | EscrowError::OnlyOnePlayerPaid => ErrorCategory::State,
            EscrowError::MatchIdMismatch
            | EscrowError::InvalidSignature
            | EscrowError::SerializationFailed => ErrorCategory::Authentication,
            EscrowError::NumericalOverflow => ErrorCategory::Arithmetic,
            EscrowError::InsufficientFunds => ErrorCategory::Resource,
        }
    }
}

} // verus!
