//! The persisted layout of a match record: 152 bytes, every field at a fixed
//! place, integers little-endian.
//!
//! | bytes   | field |
//! |---------|-------|
//! | 0..16   | match identifier |
//! | 16..48  | first party |
//! | 48..80  | second party |
//! | 80..88  | stake |
//! | 88..90  | fee in basis points |
//! | 90..98  | deadline |
//! | 98      | status: 0 pending, 1 active, 2 settled, 3 refunded |
//! | 99      | outcome: 0 unresolved, 1 win, 2 full-refund draw, 3 partial-refund draw |
//! | 100     | 1 if a winner is on record, else 0 |
//! | 101..133| the winner, or zeros |
//! | 133     | 1 if the first party has deposited, else 0 |
//! | 134     | 1 if the second party has deposited, else 0 |
//! | 135..143| time of creation |
//! | 143     | 1 if the match is closed, else 0 |
//! | 144..152| time of closing, or zeros |

use vstd::prelude::*;
use vstd::bytes::{
    lemma_auto_spec_u128_to_from_le_bytes, lemma_auto_spec_u16_to_from_le_bytes,
    lemma_auto_spec_u64_to_from_le_bytes, spec_u128_from_le_bytes, spec_u128_to_le_bytes,
    spec_u16_from_le_bytes, spec_u16_to_le_bytes, spec_u64_from_le_bytes, spec_u64_to_le_bytes,
    u128_from_le_bytes, u128_to_le_bytes, u16_from_le_bytes, u16_to_le_bytes, u64_from_le_bytes,
    u64_to_le_bytes,
};
use vstd::slice::slice_subrange;
use crate::account::{spec_no_account, AccountId};
use crate::state::{MatchRecord, MatchStatus, ResultType};

verus! {

/// Length of a persisted record in bytes.
pub const RECORD_LEN: usize = 152;

/// The byte that stands for a status.
pub open spec fn status_byte(status: MatchStatus) -> u8 {
    match status {
        MatchStatus::Pending => 0,
        MatchStatus::Active => 1,
        MatchStatus::Settled => 2,
        MatchStatus::Refunded => 3,
    }
}

/// The byte that stands for an outcome.
pub open spec fn result_byte(kind: ResultType) -> u8 {
    match kind {
        ResultType::Unresolved => 0,
        ResultType::Win => 1,
        ResultType::DrawFullRefund => 2,
        ResultType::DrawPartialRefund => 3,
    }
}

/// The byte that stands for a flag.
pub open spec fn flag_byte(flag: bool) -> u8 {
    if flag {
        1
    } else {
        0
    }
}

/// The eight bytes of a point in time: its two's complement, little-endian.
pub open spec fn time_bytes(time: i64) -> Seq<u8> {
    spec_u64_to_le_bytes(time as u64)
}

/// The 33 bytes of an optional account: a flag, then the account or zeros.
pub open spec fn optional_account_bytes(account: Option<AccountId>) -> Seq<u8> {
    match account {
        Some(id) => seq![1u8] + id@,
        None => seq![0u8] + spec_no_account(),
    }
}

/// The nine bytes of an optional point in time: a flag, then the time or
/// zeros.
pub open spec fn optional_time_bytes(time: Option<i64>) -> Seq<u8> {
    match time {
        Some(at) => seq![1u8] + time_bytes(at),
        None => seq![0u8] + time_bytes(0),
    }
}

/// The first 98 bytes of a persisted record: what is fixed at creation, but
/// for the time of creation.
pub open spec fn terms_bytes(record: MatchRecord) -> Seq<u8> {
    spec_u128_to_le_bytes(record.match_id) + record.party_a@ + record.party_b@
        + spec_u64_to_le_bytes(record.stake_amount) + spec_u16_to_le_bytes(record.fee_bps)
        + time_bytes(record.deadline)
}

/// The next 37 bytes of a persisted record: where the match stands.
pub open spec fn progress_bytes(record: MatchRecord) -> Seq<u8> {
    seq![status_byte(record.status), result_byte(record.result_kind)] + optional_account_bytes(
        record.winner,
    ) + seq![flag_byte(record.deposited_a), flag_byte(record.deposited_b)]
}

/// The last 17 bytes of a persisted record: when the match was created and
/// closed.
pub open spec fn times_bytes(record: MatchRecord) -> Seq<u8> {
    time_bytes(record.created_at) + optional_time_bytes(record.settled_at)
}

/// The persisted form of a record.
pub open spec fn encoded_record(record: MatchRecord) -> Seq<u8> {
    terms_bytes(record) + progress_bytes(record) + times_bytes(record)
}

/// Appends `bytes` to `out`.
fn append(out: &mut Vec<u8>, bytes: &[u8])
    ensures
        final(out)@ == old(out)@ + bytes@,
{
    let mut i: usize = 0;
    while i < bytes.len()
        invariant
            i <= bytes.len(),
            out@ == old(out)@ + bytes@.subrange(0, i as int),
        decreases bytes.len() - i,
    {
        out.push(bytes[i]);
        i += 1;
        assert(out@ =~= old(out)@ + bytes@.subrange(0, i as int));
    }
    assert(bytes@.subrange(0, bytes@.len() as int) =~= bytes@);
}

/// The eight bytes of a point in time.
fn encode_time(time: i64) -> (bytes: Vec<u8>)
    ensures
        bytes@ == time_bytes(time),
{
    u64_to_le_bytes(#[verifier::truncate] (time as u64))
}

/// The first 98 bytes of a persisted record.
fn encode_terms(record: &MatchRecord) -> (bytes: Vec<u8>)
    ensures
        bytes@ == terms_bytes(*record),
{
    let mut out: Vec<u8> = u128_to_le_bytes(record.match_id);
    append(&mut out, record.party_a.as_slice());
    append(&mut out, record.party_b.as_slice());
    append(&mut out, u64_to_le_bytes(record.stake_amount).as_slice());
    append(&mut out, u16_to_le_bytes(record.fee_bps).as_slice());
    append(&mut out, encode_time(record.deadline).as_slice());
    out
}

/// The 33 bytes of an optional account.
fn encode_optional_account(account: &Option<AccountId>) -> (bytes: Vec<u8>)
    ensures
        bytes@ == optional_account_bytes(*account),
{
    let mut out: Vec<u8> = Vec::new();
    match account {
        Some(id) => {
            out.push(1);
            append(&mut out, id.as_slice());
            assert(out@ =~= seq![1u8] + id@);
        },
        None => {
            let zeros: AccountId = [0u8; 32];
            assert(zeros@ =~= spec_no_account());
            out.push(0);
            append(&mut out, zeros.as_slice());
            assert(out@ =~= seq![0u8] + spec_no_account());
        },
    }
    out
}

/// The nine bytes of an optional point in time.
fn encode_optional_time(time: Option<i64>) -> (bytes: Vec<u8>)
    ensures
        bytes@ == optional_time_bytes(time),
{
    let mut out: Vec<u8> = Vec::new();
    match time {
        Some(at) => {
            out.push(1);
            append(&mut out, encode_time(at).as_slice());
            assert(out@ =~= seq![1u8] + time_bytes(at));
        },
        None => {
            out.push(0);
            append(&mut out, encode_time(0).as_slice());
            assert(out@ =~= seq![0u8] + time_bytes(0));
        },
    }
    out
}

/// The byte that stands for a status.
fn encode_status(status: MatchStatus) -> (byte: u8)
    ensures
        byte == status_byte(status),
{
    match status {
        MatchStatus::Pending => 0,
        MatchStatus::Active => 1,
        MatchStatus::Settled => 2,
        MatchStatus::Refunded => 3,
    }
}

/// The byte that stands for an outcome.
fn encode_result(kind: ResultType) -> (byte: u8)
    ensures
        byte == result_byte(kind),
{
    match kind {
        ResultType::Unresolved => 0,
        ResultType::Win => 1,
        ResultType::DrawFullRefund => 2,
        ResultType::DrawPartialRefund => 3,
    }
}

/// The 37 bytes of a persisted record that say where the match stands.
fn encode_progress(record: &MatchRecord) -> (bytes: Vec<u8>)
    ensures
        bytes@ == progress_bytes(*record),
{
    let mut out: Vec<u8> = Vec::new();
    out.push(encode_status(record.status));
    out.push(encode_result(record.result_kind));
    assert(out@ =~= seq![status_byte(record.status), result_byte(record.result_kind)]);
    append(&mut out, encode_optional_account(&record.winner).as_slice());
    let ghost so_far = out@;
    out.push(if record.deposited_a { 1 } else { 0 });
    out.push(if record.deposited_b { 1 } else { 0 });
    assert(out@ =~= so_far + seq![flag_byte(record.deposited_a), flag_byte(record.deposited_b)]);
    out
}

/// Writes a record in its persisted form.
pub fn encode_record(record: &MatchRecord) -> (bytes: Vec<u8>)
    ensures
        bytes@ == encoded_record(*record),
        bytes@.len() == RECORD_LEN,
{
    let mut out: Vec<u8> = encode_terms(record);
    append(&mut out, encode_progress(record).as_slice());
    append(&mut out, encode_time(record.created_at).as_slice());
    append(&mut out, encode_optional_time(record.settled_at).as_slice());
    assert(out@ =~= encoded_record(*record));
    proof {
        lemma_encoded_record_has_fixed_length(*record);
    }
    out
}

/// Every record has a persisted form of 152 bytes.
pub proof fn lemma_encoded_record_has_fixed_length(record: MatchRecord)
    ensures
        encoded_record(record).len() == RECORD_LEN,
{
    lemma_auto_spec_u128_to_from_le_bytes();
    lemma_auto_spec_u64_to_from_le_bytes();
    lemma_auto_spec_u16_to_from_le_bytes();
}

/// Where the fields of a record lie in its persisted form.
pub open spec fn fields_lie_in(record: MatchRecord, bytes: Seq<u8>) -> bool {
    &&& bytes.len() == RECORD_LEN
    &&& bytes.subrange(0, 16) == spec_u128_to_le_bytes(record.match_id)
    &&& bytes.subrange(16, 48) == record.party_a@
    &&& bytes.subrange(48, 80) == record.party_b@
    &&& bytes.subrange(80, 88) == spec_u64_to_le_bytes(record.stake_amount)
    &&& bytes.subrange(88, 90) == spec_u16_to_le_bytes(record.fee_bps)
    &&& bytes.subrange(90, 98) == time_bytes(record.deadline)
    &&& bytes[98] == status_byte(record.status)
    &&& bytes[99] == result_byte(record.result_kind)
    &&& bytes.subrange(100, 133) == optional_account_bytes(record.winner)
    &&& bytes[133] == flag_byte(record.deposited_a)
    &&& bytes[134] == flag_byte(record.deposited_b)
    &&& bytes.subrange(135, 143) == time_bytes(record.created_at)
    &&& bytes.subrange(143, 152) == optional_time_bytes(record.settled_at)
}

/// The persisted form of a record is the 152 bytes in which its fields lie at
/// their places, and no other bytes.
pub proof fn lemma_encoded_record_is_its_fields(record: MatchRecord, bytes: Seq<u8>)
    ensures
        fields_lie_in(record, bytes) <==> bytes == encoded_record(record),
{
    lemma_auto_spec_u128_to_from_le_bytes();
    lemma_auto_spec_u64_to_from_le_bytes();
    lemma_auto_spec_u16_to_from_le_bytes();
    let terms = terms_bytes(record);
    let progress = progress_bytes(record);
    let times = times_bytes(record);
    let whole = encoded_record(record);
    assert(terms.len() == 98);
    assert(progress.len() == 37);
    assert(times.len() == 17);
    assert(whole.subrange(0, 16) =~= spec_u128_to_le_bytes(record.match_id));
    assert(whole.subrange(16, 48) =~= record.party_a@);
    assert(whole.subrange(48, 80) =~= record.party_b@);
    assert(whole.subrange(80, 88) =~= spec_u64_to_le_bytes(record.stake_amount));
    assert(whole.subrange(88, 90) =~= spec_u16_to_le_bytes(record.fee_bps));
    assert(whole.subrange(90, 98) =~= time_bytes(record.deadline));
    assert(whole[98] == progress[0]);
    assert(whole[99] == progress[1]);
    assert(whole.subrange(100, 133) =~= optional_account_bytes(record.winner));
    assert(whole[133] == progress[35]);
    assert(whole[134] == progress[36]);
    assert(whole.subrange(135, 143) =~= time_bytes(record.created_at));
    assert(whole.subrange(143, 152) =~= optional_time_bytes(record.settled_at));
    if fields_lie_in(record, bytes) {
        assert forall|i: int| 0 <= i < 152 implies bytes[i] == whole[i] by {
            if i < 16 {
                assert(bytes[i] == bytes.subrange(0, 16)[i]);
                assert(whole[i] == whole.subrange(0, 16)[i]);
            } else if i < 48 {
                assert(bytes[i] == bytes.subrange(16, 48)[i - 16]);
                assert(whole[i] == whole.subrange(16, 48)[i - 16]);
            } else if i < 80 {
                assert(bytes[i] == bytes.subrange(48, 80)[i - 48]);
                assert(whole[i] == whole.subrange(48, 80)[i - 48]);
            } else if i < 88 {
                assert(bytes[i] == bytes.subrange(80, 88)[i - 80]);
                assert(whole[i] == whole.subrange(80, 88)[i - 80]);
            } else if i < 90 {
                assert(bytes[i] == bytes.subrange(88, 90)[i - 88]);
                assert(whole[i] == whole.subrange(88, 90)[i - 88]);
            } else if i < 98 {
                assert(bytes[i] == bytes.subrange(90, 98)[i - 90]);
                assert(whole[i] == whole.subrange(90, 98)[i - 90]);
            } else if i < 100 {
            } else if i < 133 {
                assert(bytes[i] == bytes.subrange(100, 133)[i - 100]);
                assert(whole[i] == whole.subrange(100, 133)[i - 100]);
            } else if i < 135 {
            } else if i < 143 {
                assert(bytes[i] == bytes.subrange(135, 143)[i - 135]);
                assert(whole[i] == whole.subrange(135, 143)[i - 135]);
            } else {
                assert(bytes[i] == bytes.subrange(143, 152)[i - 143]);
                assert(whole[i] == whole.subrange(143, 152)[i - 143]);
            }
        }
        assert(bytes =~= whole);
    }
}

/// Two records with the same persisted form are the same record.
pub proof fn lemma_persisted_form_names_one_record(one: MatchRecord, other: MatchRecord)
    ensures
        encoded_record(one) == encoded_record(other) ==> one == other,
{
    if encoded_record(one) == encoded_record(other) {
        let bytes = encoded_record(one);
        lemma_encoded_record_is_its_fields(one, bytes);
        lemma_encoded_record_is_its_fields(other, bytes);
        lemma_auto_spec_u128_to_from_le_bytes();
        lemma_auto_spec_u64_to_from_le_bytes();
        lemma_auto_spec_u16_to_from_le_bytes();
        assert(one.match_id == other.match_id) by {
            assert(spec_u128_from_le_bytes(spec_u128_to_le_bytes(one.match_id)) == one.match_id);
            assert(spec_u128_from_le_bytes(spec_u128_to_le_bytes(other.match_id))
                == other.match_id);
        }
        assert(one.party_a =~= other.party_a);
        assert(one.party_b =~= other.party_b);
        assert(one.stake_amount == other.stake_amount) by {
            assert(spec_u64_from_le_bytes(spec_u64_to_le_bytes(one.stake_amount))
                == one.stake_amount);
            assert(spec_u64_from_le_bytes(spec_u64_to_le_bytes(other.stake_amount))
                == other.stake_amount);
        }
        assert(one.fee_bps == other.fee_bps) by {
            assert(spec_u16_from_le_bytes(spec_u16_to_le_bytes(one.fee_bps)) == one.fee_bps);
            assert(spec_u16_from_le_bytes(spec_u16_to_le_bytes(other.fee_bps)) == other.fee_bps);
        }
        lemma_time_bytes_name_one_time(one.deadline, other.deadline);
        lemma_time_bytes_name_one_time(one.created_at, other.created_at);
        lemma_optional_account_bytes_name_one_account(one.winner, other.winner);
        lemma_optional_time_bytes_name_one_time(one.settled_at, other.settled_at);
    }
}

/// Two points in time with the same bytes are the same.
pub proof fn lemma_time_bytes_name_one_time(one: i64, other: i64)
    ensures
        time_bytes(one).len() == 8,
        time_bytes(one) == time_bytes(other) ==> one == other,
{
    lemma_auto_spec_u64_to_from_le_bytes();
    if time_bytes(one) == time_bytes(other) {
        let a = one as u64;
        let b = other as u64;
        assert(spec_u64_from_le_bytes(spec_u64_to_le_bytes(a)) == a);
        assert(spec_u64_from_le_bytes(spec_u64_to_le_bytes(b)) == b);
        assert(a == b);
        assert(one as u64 == other as u64 ==> one == other) by (bit_vector);
    }
}

/// Two optional accounts with the same bytes are the same.
pub proof fn lemma_optional_account_bytes_name_one_account(
    one: Option<AccountId>,
    other: Option<AccountId>,
)
    ensures
        optional_account_bytes(one).len() == 33,
        optional_account_bytes(one) == optional_account_bytes(other) ==> one == other,
{
    let a = optional_account_bytes(one);
    let b = optional_account_bytes(other);
    if a == b {
        assert(a[0] == b[0]);
        match (one, other) {
            (Some(x), Some(y)) => {
                assert(x@ =~= a.subrange(1, 33));
                assert(y@ =~= b.subrange(1, 33));
                assert(x =~= y);
            },
            _ => {},
        }
    }
}

/// Two optional points in time with the same bytes are the same.
pub proof fn lemma_optional_time_bytes_name_one_time(one: Option<i64>, other: Option<i64>)
    ensures
        optional_time_bytes(one).len() == 9,
        optional_time_bytes(one) == optional_time_bytes(other) ==> one == other,
{
    lemma_auto_spec_u64_to_from_le_bytes();
    let a = optional_time_bytes(one);
    let b = optional_time_bytes(other);
    if a == b {
        assert(a[0] == b[0]);
        match (one, other) {
            (Some(x), Some(y)) => {
                assert(time_bytes(x) =~= a.subrange(1, 9));
                assert(time_bytes(y) =~= b.subrange(1, 9));
                lemma_time_bytes_name_one_time(x, y);
            },
            _ => {},
        }
    }
}

/// Reads a status from its byte, if the byte stands for one.
fn decode_status(byte: u8) -> (status: Option<MatchStatus>)
    ensures
        status matches Some(s) ==> status_byte(s) == byte,
        status is None ==> forall|s: MatchStatus| #[trigger] status_byte(s) != byte,
{
    if byte == 0 {
        Some(MatchStatus::Pending)
    } else if byte == 1 {
        Some(MatchStatus::Active)
    } else if byte == 2 {
        Some(MatchStatus::Settled)
    } else if byte == 3 {
        Some(MatchStatus::Refunded)
    } else {
        None
    }
}

/// Reads an outcome from its byte, if the byte stands for one.
fn decode_result(byte: u8) -> (kind: Option<ResultType>)
    ensures
        kind matches Some(k) ==> result_byte(k) == byte,
        kind is None ==> forall|k: ResultType| #[trigger] result_byte(k) != byte,
{
    if byte == 0 {
        Some(ResultType::Unresolved)
    } else if byte == 1 {
        Some(ResultType::Win)
    } else if byte == 2 {
        Some(ResultType::DrawFullRefund)
    } else if byte == 3 {
        Some(ResultType::DrawPartialRefund)
    } else {
        None
    }
}

/// Reads a flag from its byte, if the byte stands for one.
fn decode_flag(byte: u8) -> (flag: Option<bool>)
    ensures
        flag matches Some(f) ==> flag_byte(f) == byte,
        flag is None ==> forall|f: bool| #[trigger] flag_byte(f) != byte,
{
    if byte == 0 {
        Some(false)
    } else if byte == 1 {
        Some(true)
    } else {
        None
    }
}

/// Reads a point in time from its eight bytes.
fn decode_time(bytes: &[u8]) -> (time: i64)
    requires
        bytes@.len() == 8,
    ensures
        time_bytes(time) == bytes@,
{
    let raw: u64 = u64_from_le_bytes(bytes);
    let time: i64 = #[verifier::truncate] (raw as i64);
    proof {
        lemma_auto_spec_u64_to_from_le_bytes();
        assert((raw as i64) as u64 == raw) by (bit_vector);
    }
    time
}

/// Reads an account from its 32 bytes.
fn decode_account(bytes: &[u8]) -> (account: AccountId)
    requires
        bytes@.len() == 32,
    ensures
        account@ == bytes@,
{
    let mut account: AccountId = [0u8; 32];
    let mut i: usize = 0;
    while i < 32
        invariant
            i <= 32,
            bytes@.len() == 32,
            forall|j: int| 0 <= j < i ==> account@[j] == bytes@[j],
        decreases 32 - i,
    {
        account[i] = bytes[i];
        i += 1;
    }
    assert(account@ =~= bytes@);
    account
}

/// Reads an optional account from its 33 bytes, if they stand for one.
fn decode_optional_account(bytes: &[u8]) -> (account: Option<Option<AccountId>>)
    requires
        bytes@.len() == 33,
    ensures
        account matches Some(a) ==> optional_account_bytes(a) == bytes@,
        account is None ==> forall|a: Option<AccountId>| #[trigger]
            optional_account_bytes(a) != bytes@,
{
    let id: AccountId = decode_account(slice_subrange(bytes, 1, 33));
    if bytes[0] == 1 {
        assert(bytes@ =~= seq![1u8] + id@);
        Some(Some(id))
    } else if bytes[0] == 0 && crate::account::is_no_account(&id) {
        assert(bytes@ =~= seq![0u8] + spec_no_account());
        Some(None)
    } else {
        assert forall|a: Option<AccountId>| #[trigger] optional_account_bytes(a) != bytes@ by {
            let encoded = optional_account_bytes(a);
            if encoded == bytes@ {
                assert(encoded[0] == bytes@[0]);
                assert(encoded.subrange(1, 33) =~= bytes@.subrange(1, 33));
                if a is None {
                    assert(encoded.subrange(1, 33) =~= spec_no_account());
                }
            }
        }
        None
    }
}

/// Reads an optional point in time from its nine bytes, if they stand for
/// one.
fn decode_optional_time(bytes: &[u8]) -> (time: Option<Option<i64>>)
    requires
        bytes@.len() == 9,
    ensures
        time matches Some(t) ==> optional_time_bytes(t) == bytes@,
        time is None ==> forall|t: Option<i64>| #[trigger] optional_time_bytes(t) != bytes@,
{
    let at: i64 = decode_time(slice_subrange(bytes, 1, 9));
    if bytes[0] == 1 {
        assert(bytes@ =~= seq![1u8] + time_bytes(at));
        Some(Some(at))
    } else if bytes[0] == 0 && at == 0 {
        assert(bytes@ =~= seq![0u8] + time_bytes(0));
        Some(None)
    } else {
        assert forall|t: Option<i64>| #[trigger] optional_time_bytes(t) != bytes@ by {
            let encoded = optional_time_bytes(t);
            if encoded == bytes@ {
                assert(encoded[0] == bytes@[0]);
                assert(encoded.subrange(1, 9) =~= bytes@.subrange(1, 9));
                if t is None {
                    assert(encoded.subrange(1, 9) =~= time_bytes(0));
                    lemma_time_bytes_name_one_time(at, 0);
                }
            }
        }
        None
    }
}

/// Reads a record from its persisted form.
///
/// Returns the record whose persisted form the bytes are, and `None` where
/// they are that of no record: where there are not 152 of them, a tag or a
/// flag is out of range, or a field that is marked absent is not zero.
pub fn decode_record(bytes: &[u8]) -> (decoded: Option<MatchRecord>)
    ensures
        decoded matches Some(record) ==> bytes@ == encoded_record(record),
        forall|record: MatchRecord|
            bytes@ == #[trigger] encoded_record(record) ==> decoded == Some(record),
{
    if bytes.len() != RECORD_LEN {
        proof {
            assert forall|record: MatchRecord|
                bytes@ == #[trigger] encoded_record(record) implies false by {
                lemma_encoded_record_has_fixed_length(record);
            }
        }
        return None;
    }
    let status: Option<MatchStatus> = decode_status(bytes[98]);
    let result_kind: Option<ResultType> = decode_result(bytes[99]);
    let winner: Option<Option<AccountId>> = decode_optional_account(
        slice_subrange(bytes, 100, 133),
    );
    let deposited_a: Option<bool> = decode_flag(bytes[133]);
    let deposited_b: Option<bool> = decode_flag(bytes[134]);
    let settled_at: Option<Option<i64>> = decode_optional_time(slice_subrange(bytes, 143, 152));
    match (status, result_kind, winner, deposited_a, deposited_b, settled_at) {
        (
            Some(status),
            Some(result_kind),
            Some(winner),
            Some(deposited_a),
            Some(deposited_b),
            Some(settled_at),
        ) => {
            let record: MatchRecord = MatchRecord {
                match_id: u128_from_le_bytes(slice_subrange(bytes, 0, 16)),
                party_a: decode_account(slice_subrange(bytes, 16, 48)),
                party_b: decode_account(slice_subrange(bytes, 48, 80)),
                stake_amount: u64_from_le_bytes(slice_subrange(bytes, 80, 88)),
                fee_bps: u16_from_le_bytes(slice_subrange(bytes, 88, 90)),
                deadline: decode_time(slice_subrange(bytes, 90, 98)),
                status,
                deposited_a,
                deposited_b,
                result_kind,
                winner,
                created_at: decode_time(slice_subrange(bytes, 135, 143)),
                settled_at,
            };
            proof {
                lemma_auto_spec_u128_to_from_le_bytes();
                lemma_auto_spec_u64_to_from_le_bytes();
                lemma_auto_spec_u16_to_from_le_bytes();
                assert(fields_lie_in(record, bytes@));
                lemma_encoded_record_is_its_fields(record, bytes@);
                assert forall|other: MatchRecord|
                    bytes@ == #[trigger] encoded_record(other) implies other == record by {
                    lemma_persisted_form_names_one_record(other, record);
                }
            }
            Some(record)
        },
        _ => {
            proof {
                assert forall|record: MatchRecord|
                    bytes@ == #[trigger] encoded_record(record) implies false by {
                    lemma_encoded_record_is_its_fields(record, bytes@);
                }
            }
            None
        },
    }
}

} // verus!
