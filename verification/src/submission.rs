//! Admission of an attested result into the record of a match.

use vstd::prelude::*;
use crate::account::{is_no_account, spec_no_account, AccountId};
use crate::attestation::{
    attested, lemma_canonical_bytes_are_faithful, lemma_exact_match_is_attested,
    lemma_tampered_message_is_not_attested, payload_carries, verify_attestation, MatchResult,
    VerificationArtifact, PAYLOAD_HEADER_LEN, SIGNATURE_LEN, SIGNATURE_PROGRAM_ID,
};
use crate::error::EscrowError;
use crate::state::{MatchRecord, MatchStatus, ResultType};

verus! {

/// The outcome that a result code stands for: 1 is a win, 2 a full-refund
/// draw, 3 a partial-refund draw. Any other code names no outcome and leaves
/// the match unresolved.
pub open spec fn spec_result_type_of(result_code: u8) -> ResultType {
    if result_code == 1 {
        ResultType::Win
    } else if result_code == 2 {
        ResultType::DrawFullRefund
    } else if result_code == 3 {
        ResultType::DrawPartialRefund
    } else {
        ResultType::Unresolved
    }
}

/// The outcome that a result code stands for.
#[verifier::when_used_as_spec(spec_result_type_of)]
pub fn result_type_of(result_code: u8) -> (kind: ResultType)
    ensures
        kind == spec_result_type_of(result_code),
{
    if result_code == 1 {
        ResultType::Win
    } else if result_code == 2 {
        ResultType::DrawFullRefund
    } else if result_code == 3 {
        ResultType::DrawPartialRefund
    } else {
        ResultType::Unresolved
    }
}

/// The winner that a winner identifier names: none for the all-zero
/// identifier, else the account of that identifier.
pub open spec fn spec_winner_of(winner_identifier: AccountId) -> Option<AccountId> {
    if winner_identifier@ == spec_no_account() {
        None
    } else {
        Some(winner_identifier)
    }
}

/// The winner that a winner identifier names.
#[verifier::when_used_as_spec(spec_winner_of)]
pub fn winner_of(winner_identifier: AccountId) -> (winner: Option<AccountId>)
    ensures
        winner == spec_winner_of(winner_identifier),
{
    if is_no_account(&winner_identifier) {
        None
    } else {
        Some(winner_identifier)
    }
}

/// Why a result is turned away before its attestation is looked at, or `None`
/// where it is not. The checks are made in this order.
pub open spec fn submit_precheck(
    record: MatchRecord,
    result: MatchResult,
    signature: Seq<u8>,
    now: i64,
) -> Option<EscrowError> {
    if !(record.status is Active) {
        Some(EscrowError::InvalidStatus)
    } else if record.deadline_reached(now) {
        Some(EscrowError::GameTimeout)
    } else if result.match_id != record.match_id {
        Some(EscrowError::MatchIdMismatch)
    } else if signature.len() != SIGNATURE_LEN {
        Some(EscrowError::InvalidSignature)
    } else {
        None
    }
}

/// The record with a result written into it.
pub open spec fn with_result(record: MatchRecord, result: MatchResult) -> MatchRecord {
    MatchRecord {
        result_kind: result_type_of(result.result_code),
        winner: winner_of(result.winner_identifier),
        ..record
    }
}

/// What `submit_result` returns once the serializer has answered, and the
/// record that it leaves: the first failing check of `submit_precheck`; else
/// the serializer's error; else `InvalidSignature` when no artifact backs the
/// encoded message; else success, with the result on record.
pub open spec fn submission_outcome(
    record: MatchRecord,
    result: MatchResult,
    encoded: Result<Seq<u8>, EscrowError>,
    signature: Seq<u8>,
    authority: AccountId,
    artifacts: Seq<VerificationArtifact>,
    now: i64,
) -> (Result<(), EscrowError>, MatchRecord) {
    if let Some(e) = submit_precheck(record, result, signature, now) {
        (Err(e), record)
    } else if let Err(e) = encoded {
        (Err(e), record)
    } else if !attested(artifacts, authority, signature, encoded->Ok_0) {
        (Err(EscrowError::InvalidSignature), record)
    } else {
        (Ok(()), with_result(record, result))
    }
}

/// The view of what the serializer returned.
pub open spec fn encoded_view(encoded: Result<Vec<u8>, EscrowError>) -> Result<Seq<u8>, EscrowError> {
    match encoded {
        Ok(bytes) => Ok(bytes@),
        Err(e) => Err(e),
    }
}

/// Admits a result whose message has been serialized: `submit_result` from the
/// point where the serializer has answered with `encoded`.
///
/// The result is written into the record exactly when the match is `Active`,
/// `now` is before the deadline, the result names this match, the signature is
/// 64 bytes long, `encoded` holds a message, and some artifact backs that
/// message with the authority's key and the signature. No funds move.
pub fn submit_encoded_result(
    record: &mut MatchRecord,
    result: &MatchResult,
    encoded: Result<Vec<u8>, EscrowError>,
    signature: &[u8],
    authority: &AccountId,
    artifacts: &[VerificationArtifact],
    now: i64,
) -> (outcome: Result<(), EscrowError>)
    ensures
        (outcome, *final(record)) == submission_outcome(
            *old(record),
            *result,
            encoded_view(encoded),
            signature@,
            *authority,
            artifacts@,
            now,
        ),
        old(record).status == final(record).status,
        old(record).wf() ==> final(record).wf(),
{
    match record.status {
        MatchStatus::Active => {},
        _ => { return Err(EscrowError::InvalidStatus); },
    }
    if now >= record.deadline {
        return Err(EscrowError::GameTimeout);
    }
    if result.match_id != record.match_id {
        return Err(EscrowError::MatchIdMismatch);
    }
    if signature.len() != SIGNATURE_LEN {
        return Err(EscrowError::InvalidSignature);
    }
    let message: Vec<u8> = encoded?;
    if !verify_attestation(artifacts, authority, signature, message.as_slice()) {
        return Err(EscrowError::InvalidSignature);
    }
    record.result_kind = result_type_of(result.result_code);
    record.winner = winner_of(result.winner_identifier);
    Ok(())
}

/// Admits a result that the authority has attested.
///
/// The result is turned away with the first failing check of
/// `submit_precheck`: the match has to be `Active`, `now` before the
/// deadline, the result for this match, the signature 64 bytes long. Then the
/// result is serialized into its canonical message. If some artifact backs
/// that message with the authority's key and the signature, the result is
/// written into the record; else the error is `InvalidSignature`. A result
/// that is turned away leaves the record as it was. No funds move.
pub fn submit_result(
    record: &mut MatchRecord,
    result: &MatchResult,
    signature: &[u8],
    authority: &AccountId,
    artifacts: &[VerificationArtifact],
    now: i64,
) -> (outcome: Result<(), EscrowError>)
    ensures
        (outcome, *final(record)) == submission_outcome(
            *old(record),
            *result,
            Ok(result.canonical_bytes()),
            signature@,
            *authority,
            artifacts@,
            now,
        ),
        submit_precheck(*old(record), *result, signature@, now) is None && attested(
            artifacts@,
            *authority,
            signature@,
            result.canonical_bytes(),
        ) ==> outcome is Ok,
        outcome is Ok ==> submit_precheck(*old(record), *result, signature@, now) is None
            && attested(artifacts@, *authority, signature@, result.canonical_bytes()),
        outcome is Err ==> *final(record) == *old(record),
        old(record).status == final(record).status,
        old(record).wf() ==> final(record).wf(),
{
    let encoded: Result<Vec<u8>, EscrowError> = result.try_to_vec();
    submit_encoded_result(record, result, encoded, signature, authority, artifacts, now)
}

/// A result that was tampered with is never admitted. If every artifact that
/// is addressed to the signature program carries the canonical message of the
/// result that the authority signed, then any other result, submitted with
/// the same signature and the same artifacts, is turned away, and the record
/// stays as it was.
pub proof fn lemma_tampered_result_is_rejected(
    record: MatchRecord,
    signed: MatchResult,
    result: MatchResult,
    signature: Seq<u8>,
    authority: AccountId,
    artifacts: Seq<VerificationArtifact>,
    now: i64,
)
    requires
        forall|i: int|
            0 <= i < artifacts.len() && artifacts[i].program_id == SIGNATURE_PROGRAM_ID
                ==> payload_carries(
                #[trigger] artifacts[i].data@,
                authority@,
                signature,
                signed.canonical_bytes(),
            ),
        result != signed,
    ensures
        ({
            let (outcome, kept) = submission_outcome(
                record,
                result,
                Ok(result.canonical_bytes()),
                signature,
                authority,
                artifacts,
                now,
            );
            &&& outcome is Err
            &&& kept == record
        }),
{
    lemma_canonical_bytes_are_faithful(result, signed);
    lemma_canonical_bytes_are_faithful(signed, result);
    lemma_tampered_message_is_not_attested(
        artifacts,
        authority,
        signature,
        signed.canonical_bytes(),
        result.canonical_bytes(),
    );
}

/// A result with a byte-exact attestation is always admitted. If the match
/// is `Active`, `now` is before the deadline, the result is for this match,
/// and one of the artifacts is addressed to the signature program and holds,
/// behind a header of the right length, the authority's key, the 64 bytes of
/// the signature and the canonical message of the result, then the result is
/// written into the record.
pub proof fn lemma_attested_result_is_admitted(
    record: MatchRecord,
    result: MatchResult,
    signature: Seq<u8>,
    authority: AccountId,
    artifacts: Seq<VerificationArtifact>,
    at: int,
    header: Seq<u8>,
    trailer: Seq<u8>,
    now: i64,
)
    requires
        record.status is Active,
        !record.deadline_reached(now),
        result.match_id == record.match_id,
        signature.len() == SIGNATURE_LEN,
        0 <= at < artifacts.len(),
        artifacts[at].program_id == SIGNATURE_PROGRAM_ID,
        artifacts[at].data@ == header + authority@ + signature + result.canonical_bytes() + trailer,
        header.len() == PAYLOAD_HEADER_LEN,
    ensures
        submission_outcome(
            record,
            result,
            Ok(result.canonical_bytes()),
            signature,
            authority,
            artifacts,
            now,
        ) == (Ok::<(), EscrowError>(()), with_result(record, result)),
{
    lemma_exact_match_is_attested(
        artifacts,
        at,
        authority,
        signature,
        result.canonical_bytes(),
        header,
        trailer,
    );
}

} // verus!
