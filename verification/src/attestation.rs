//! Attested results: the canonical result message and the search for the
//! verification artifact that backs it.
//!
//! The host checks signatures as a side effect of admitting a request: a
//! request that carries a verification artifact for the host's signature
//! program is admitted only if the signature in that artifact is valid for the
//! key and the message in it. A result is therefore backed by the authority
//! exactly when such an artifact travels with it and holds, byte for byte, the
//! authority's key, the submitted signature and the canonical message.

use vstd::prelude::*;
use vstd::bytes::spec_u128_to_le_bytes;
use borsh::BorshSerialize;
use crate::account::{same_account, AccountId};
use crate::error::EscrowError;

verus! {

/// Length of a signature in bytes.
pub const SIGNATURE_LEN: usize = 64;

/// Length of the header of a verification payload that holds one signature: a
/// count, a padding byte and seven 16-bit offsets. The key starts right behind
/// it.
pub const PAYLOAD_HEADER_LEN: usize = 16;

/// Length of the canonical result message in bytes.
pub const RESULT_MESSAGE_LEN: usize = 49;

/// Identifier of the host's program that verifies Ed25519 signatures.
pub const SIGNATURE_PROGRAM_ID: AccountId = [
    3, 125, 70, 214, 124, 147, 251, 190, 18, 249, 66, 143, 131, 141, 64, 255,
    5, 112, 116, 73, 39, 244, 138, 100, 252, 202, 112, 68, 128, 0, 0, 0,
];

/// The result of a match as the authority signs it.
#[derive(Clone, Copy, Debug, PartialEq, Eq)]
pub struct MatchResult {
    /// The match that the result is for.
    pub match_id: u128,
    /// The winner, or 32 zero bytes for a draw.
    pub winner_identifier: [u8; 32],
    /// 1 for a win, 2 for a full-refund draw, 3 for a partial-refund draw.
    pub result_code: u8,
}

/// The canonical message for a result: the match identifier as 16
/// little-endian bytes, the 32 bytes of the winner identifier and the result
/// code, with nothing before, between or after them.
pub open spec fn canonical_message(match_id: u128, winner_identifier: Seq<u8>, result_code: u8) -> Seq<u8> {
    spec_u128_to_le_bytes(match_id) + winner_identifier + seq![result_code]
}

impl MatchResult {
    /// The canonical message for this result.
    pub open spec fn canonical_bytes(self) -> Seq<u8> {
        canonical_message(self.match_id, self.winner_identifier@, self.result_code)
    }

    /// Serializes the result into its canonical message.
    ///
    /// The bytes come from the serializer that the authority signs with. It
    /// writes into memory, so it always returns bytes, and they are the
    /// canonical message. The error that its signature allows for would be
    /// `SerializationFailed`.
    pub fn try_to_vec(&self) -> (encoded: Result<Vec<u8>, EscrowError>)
        ensures
            encoded is Ok,
            encoded matches Ok(bytes) ==> bytes@ == self.canonical_bytes(),
    {
        match borsh_serialize(self.match_id, &self.winner_identifier, self.result_code) {
            Ok(bytes) => Ok(bytes),
            Err(_) => Err(EscrowError::SerializationFailed),
        }
    }
}

/// The error type of the serializer's writer.
#[verifier::external_type_specification]
#[verifier::external_body]
pub struct ExIoError(std::io::Error);

/// `BorshSerialize::try_to_vec` of borsh, on the triple of a match
/// identifier, a winner identifier and a result code.
///
/// borsh writes the fields of a tuple in their order: an integer as its
/// little-endian bytes, an array of bytes as it stands and without a length,
/// a byte as itself. It writes them into a vector of its own, to which every
/// write appends, and returns that vector. The contract claims that the call
/// returns bytes, and that the bytes are those.
#[verifier::external_body]
fn borsh_serialize(match_id: u128, winner_identifier: &[u8; 32], result_code: u8) -> (encoded: Result<
    Vec<u8>,
    std::io::Error,
>)
    ensures
        encoded is Ok,
        encoded matches Ok(bytes) ==> bytes@ == canonical_message(
            match_id,
            winner_identifier@,
            result_code,
        ),
{
    (match_id, *winner_identifier, result_code).try_to_vec()
}

/// One verification artifact that travels with a request.
#[derive(Clone, Debug, PartialEq, Eq)]
pub struct VerificationArtifact {
    /// The program that the artifact is addressed to.
    pub program_id: AccountId,
    /// The payload, opaque to everyone but that program.
    pub data: Vec<u8>,
}

/// Whether `data` holds `expected` from position `offset` on.
pub open spec fn holds_at(data: Seq<u8>, offset: int, expected: Seq<u8>) -> bool {
    &&& 0 <= offset
    &&& offset + expected.len() <= data.len()
    &&& data.subrange(offset, offset + expected.len()) == expected
}

/// Whether a payload carries, right behind its header and one after the
/// other, the key, the signature and the message.
pub open spec fn payload_carries(
    data: Seq<u8>,
    key: Seq<u8>,
    signature: Seq<u8>,
    message: Seq<u8>,
) -> bool {
    &&& holds_at(data, PAYLOAD_HEADER_LEN as int, key)
    &&& holds_at(data, PAYLOAD_HEADER_LEN + key.len(), signature)
    &&& holds_at(data, PAYLOAD_HEADER_LEN + key.len() + signature.len(), message)
}

/// Whether an artifact is addressed to the signature program and carries the
/// key, the signature and the message.
pub open spec fn artifact_attests(
    artifact: VerificationArtifact,
    authority: AccountId,
    signature: Seq<u8>,
    message: Seq<u8>,
) -> bool {
    &&& artifact.program_id == SIGNATURE_PROGRAM_ID
    &&& payload_carries(artifact.data@, authority@, signature, message)
}

/// Whether one of the artifacts backs the message: the signature has the
/// length of a signature, and some artifact is addressed to the signature
/// program and carries the authority's key, the signature and the message.
pub open spec fn attested(
    artifacts: Seq<VerificationArtifact>,
    authority: AccountId,
    signature: Seq<u8>,
    message: Seq<u8>,
) -> bool {
    &&& signature.len() == SIGNATURE_LEN
    &&& exists|i: int|
        0 <= i < artifacts.len() && #[trigger] artifact_attests(
            artifacts[i],
            authority,
            signature,
            message,
        )
}

/// Compares the bytes of `data` from `offset` on with `expected`.
pub fn bytes_at(data: &[u8], offset: usize, expected: &[u8]) -> (found: bool)
    ensures
        found == holds_at(data@, offset as int, expected@),
{
    if offset > data.len() || expected.len() > data.len() - offset {
        return false;
    }
    let mut i: usize = 0;
    while i < expected.len()
        invariant
            i <= expected.len(),
            offset + expected.len() <= data.len(),
            forall|j: int| 0 <= j < i ==> data@[offset + j] == expected@[j],
        decreases expected.len() - i,
    {
        if data[offset + i] != expected[i] {
            assert(data@.subrange(offset as int, offset + expected@.len())[i as int]
                != expected@[i as int]);
            return false;
        }
        i += 1;
    }
    assert(data@.subrange(offset as int, offset + expected@.len()) =~= expected@);
    true
}

/// Searches the artifacts for one that backs the message.
///
/// Returns `true` exactly when the signature is 64 bytes long and some
/// artifact is addressed to the signature program and carries, right behind
/// its header, the authority's key, the signature and the message, each byte
/// for byte. Bytes behind the message are not looked at.
pub fn verify_attestation(
    artifacts: &[VerificationArtifact],
    authority: &AccountId,
    signature: &[u8],
    message: &[u8],
) -> (backed: bool)
    ensures
        backed == attested(artifacts@, *authority, signature@, message@),
{
    if signature.len() != SIGNATURE_LEN {
        return false;
    }
    let mut i: usize = 0;
    while i < artifacts.len()
        invariant
            i <= artifacts.len(),
            signature@.len() == SIGNATURE_LEN,
            forall|j: int|
                0 <= j < i ==> !#[trigger] artifact_attests(
                    artifacts@[j],
                    *authority,
                    signature@,
                    message@,
                ),
        decreases artifacts.len() - i,
    {
        if artifact_backs(&artifacts[i], authority, signature, message) {
            return true;
        }
        i += 1;
    }
    false
}

/// Whether an artifact is addressed to the signature program and carries the
/// authority's key, the signature and the message.
pub fn artifact_backs(
    artifact: &VerificationArtifact,
    authority: &AccountId,
    signature: &[u8],
    message: &[u8],
) -> (backs: bool)
    ensures
        backs == artifact_attests(*artifact, *authority, signature@, message@),
{
    let program: AccountId = SIGNATURE_PROGRAM_ID;
    if !same_account(&artifact.program_id, &program) {
        return false;
    }
    let data: &[u8] = artifact.data.as_slice();
    let data_len: usize = data.len();
    let key_at: usize = PAYLOAD_HEADER_LEN;
    let signature_at: usize = PAYLOAD_HEADER_LEN + 32;
    let message_at: usize = match signature_at.checked_add(signature.len()) {
        Some(at) => at,
        None => {
            assert(authority@.len() == 32);
            assert(data@.len() == data_len);
            assert(!holds_at(
                data@,
                PAYLOAD_HEADER_LEN + authority@.len() + signature@.len(),
                message@,
            ));
            return false;
        },
    };
    bytes_at(data, key_at, authority.as_slice()) && bytes_at(data, signature_at, signature)
        && bytes_at(data, message_at, message)
}

/// A canonical message is 49 bytes long, and two results with the same
/// canonical message are the same result: whoever changes the match, the
/// winner or the code of a result changes a byte of its message.
pub proof fn lemma_canonical_bytes_are_faithful(one: MatchResult, other: MatchResult)
    ensures
        one.canonical_bytes().len() == RESULT_MESSAGE_LEN,
        one.canonical_bytes() == other.canonical_bytes() ==> one == other,
{
    vstd::bytes::lemma_auto_spec_u128_to_from_le_bytes();
    let a = one.canonical_bytes();
    let b = other.canonical_bytes();
    if a == b {
        assert(spec_u128_to_le_bytes(one.match_id) =~= a.subrange(0, 16));
        assert(spec_u128_to_le_bytes(other.match_id) =~= b.subrange(0, 16));
        assert(one.match_id == other.match_id);
        assert(one.winner_identifier@ =~= a.subrange(16, 48));
        assert(other.winner_identifier@ =~= b.subrange(16, 48));
        assert(one.winner_identifier =~= other.winner_identifier);
        assert(one.result_code == a[48]);
        assert(other.result_code == b[48]);
    }
}

/// A payload that holds, behind a header of the right length, the key, the
/// signature and the message, byte for byte and in this order, carries them,
/// whatever follows the message.
pub proof fn lemma_exact_payload_is_carried(
    header: Seq<u8>,
    key: Seq<u8>,
    signature: Seq<u8>,
    message: Seq<u8>,
    trailer: Seq<u8>,
)
    requires
        header.len() == PAYLOAD_HEADER_LEN,
    ensures
        payload_carries(header + key + signature + message + trailer, key, signature, message),
{
    let data = header + key + signature + message + trailer;
    let key_at = PAYLOAD_HEADER_LEN as int;
    let signature_at = key_at + key.len();
    let message_at = signature_at + signature.len();
    assert(data.subrange(key_at, key_at + key.len()) =~= key);
    assert(data.subrange(signature_at, signature_at + signature.len()) =~= signature);
    assert(data.subrange(message_at, message_at + message.len()) =~= message);
}

/// A payload carries one message of a length behind a key and a signature and
/// no other: if it carries `signed`, it does not carry a message of the same
/// length that differs from `signed` in as little as one byte.
pub proof fn lemma_payload_carries_one_message(
    data: Seq<u8>,
    key: Seq<u8>,
    signature: Seq<u8>,
    signed: Seq<u8>,
    message: Seq<u8>,
)
    requires
        payload_carries(data, key, signature, signed),
        message.len() == signed.len(),
        message != signed,
    ensures
        !payload_carries(data, key, signature, message),
{
}

/// A message with a tampered byte is never backed. If every artifact that is
/// addressed to the signature program carries the message that the authority
/// signed, then a message of the same length that differs from it is not
/// attested, though the signature and the key are the ones in the artifacts.
pub proof fn lemma_tampered_message_is_not_attested(
    artifacts: Seq<VerificationArtifact>,
    authority: AccountId,
    signature: Seq<u8>,
    signed: Seq<u8>,
    message: Seq<u8>,
)
    requires
        forall|i: int|
            0 <= i < artifacts.len() && artifacts[i].program_id == SIGNATURE_PROGRAM_ID
                ==> payload_carries(#[trigger] artifacts[i].data@, authority@, signature, signed),
        message.len() == signed.len(),
        message != signed,
    ensures
        !attested(artifacts, authority, signature, message),
{
    assert forall|i: int| 0 <= i < artifacts.len() implies !#[trigger] artifact_attests(
        artifacts[i],
        authority,
        signature,
        message,
    ) by {
        if artifacts[i].program_id == SIGNATURE_PROGRAM_ID {
            lemma_payload_carries_one_message(
                artifacts[i].data@,
                authority@,
                signature,
                signed,
                message,
            );
        }
    }
}

/// A message with a byte-exact artifact is always backed. If one of the
/// artifacts is addressed to the signature program and holds, behind a header
/// of the right length, the authority's key, the 64 bytes of the signature and
/// the message, then the message is attested.
pub proof fn lemma_exact_match_is_attested(
    artifacts: Seq<VerificationArtifact>,
    at: int,
    authority: AccountId,
    signature: Seq<u8>,
    message: Seq<u8>,
    header: Seq<u8>,
    trailer: Seq<u8>,
)
    requires
        0 <= at < artifacts.len(),
        artifacts[at].program_id == SIGNATURE_PROGRAM_ID,
        artifacts[at].data@ == header + authority@ + signature + message + trailer,
        header.len() == PAYLOAD_HEADER_LEN,
        signature.len() == SIGNATURE_LEN,
    ensures
        attested(artifacts, authority, signature, message),
{
    lemma_exact_payload_is_carried(header, authority@, signature, message, trailer);
    assert(artifact_attests(artifacts[at], authority, signature, message));
}

} // verus!
