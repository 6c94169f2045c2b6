use game_escrow::account::AccountId;
use game_escrow::layout::{decode_record, encode_record, RECORD_LEN};
use game_escrow::state::{MatchRecord, MatchStatus, ResultType};

fn key(fill: u8) -> AccountId {
    let mut id = [fill; 32];
    id[0] = 1;
    id[31] = 0xFE;
    id
}

fn sample_record() -> MatchRecord {
    MatchRecord {
        match_id: 0x0102_0304_0506_0708_090A_0B0C_0D0E_0F10,
        party_a: key(0xAA),
        party_b: key(0xBB),
        stake_amount: 0x1122_3344_5566_7788,
        fee_bps: 500,
        deadline: 1_700_000_600,
        status: MatchStatus::Active,
        deposited_a: true,
        deposited_b: true,
        result_kind: ResultType::Win,
        winner: Some(key(0xAA)),
        created_at: 1_700_000_000,
        settled_at: None,
    }
}

fn fresh_record() -> MatchRecord {
    MatchRecord {
        match_id: 1,
        party_a: key(1),
        party_b: key(2),
        stake_amount: 1,
        fee_bps: 0,
        deadline: 2,
        status: MatchStatus::Pending,
        deposited_a: false,
        deposited_b: false,
        result_kind: ResultType::Unresolved,
        winner: None,
        created_at: 1,
        settled_at: None,
    }
}

#[test]
fn persisted_record_has_every_field_at_its_place() {
    let bytes = encode_record(&sample_record());
    assert_eq!(RECORD_LEN, 152);
    assert_eq!(bytes.len(), 152);
    assert_eq!(
        &bytes[0..16],
        &[
            0x10, 0x0F, 0x0E, 0x0D, 0x0C, 0x0B, 0x0A, 0x09, 0x08, 0x07, 0x06, 0x05, 0x04, 0x03,
            0x02, 0x01
        ]
    );
    assert_eq!(&bytes[16..48], &key(0xAA));
    assert_eq!(&bytes[48..80], &key(0xBB));
    assert_eq!(&bytes[80..88], &[0x88, 0x77, 0x66, 0x55, 0x44, 0x33, 0x22, 0x11]);
    assert_eq!(&bytes[88..90], &[0xF4, 0x01]);
    assert_eq!(&bytes[90..98], &1_700_000_600i64.to_le_bytes());
    assert_eq!(bytes[98], 1);
    assert_eq!(bytes[99], 1);
    assert_eq!(bytes[100], 1);
    assert_eq!(&bytes[101..133], &key(0xAA));
    assert_eq!(bytes[133], 1);
    assert_eq!(bytes[134], 1);
    assert_eq!(&bytes[135..143], &1_700_000_000i64.to_le_bytes());
    assert_eq!(bytes[143], 0);
    assert_eq!(&bytes[144..152], &[0u8; 8]);
}

#[test]
fn absent_fields_are_persisted_as_zeros() {
    let bytes = encode_record(&fresh_record());
    assert_eq!(bytes[98], 0);
    assert_eq!(bytes[99], 0);
    assert_eq!(&bytes[100..133], &[0u8; 33]);
    assert_eq!(&bytes[133..135], &[0u8, 0]);
    assert_eq!(&bytes[143..152], &[0u8; 9]);
}

#[test]
fn statuses_and_outcomes_have_their_tags() {
    let statuses = [
        (MatchStatus::Pending, 0u8),
        (MatchStatus::Active, 1),
        (MatchStatus::Settled, 2),
        (MatchStatus::Refunded, 3),
    ];
    for (status, tag) in statuses {
        let bytes = encode_record(&MatchRecord { status, ..sample_record() });
        assert_eq!(bytes[98], tag);
    }
    let kinds = [
        (ResultType::Unresolved, 0u8),
        (ResultType::Win, 1),
        (ResultType::DrawFullRefund, 2),
        (ResultType::DrawPartialRefund, 3),
    ];
    for (result_kind, tag) in kinds {
        let bytes = encode_record(&MatchRecord { result_kind, ..sample_record() });
        assert_eq!(bytes[99], tag);
    }
}

#[test]
fn negative_times_are_persisted_in_twos_complement() {
    let record = MatchRecord {
        deadline: -1,
        created_at: i64::MIN,
        settled_at: Some(-2),
        ..sample_record()
    };
    let bytes = encode_record(&record);
    assert_eq!(&bytes[90..98], &[0xFF; 8]);
    assert_eq!(&bytes[135..143], &[0, 0, 0, 0, 0, 0, 0, 0x80]);
    assert_eq!(bytes[143], 1);
    assert_eq!(&bytes[144..152], &[0xFE, 0xFF, 0xFF, 0xFF, 0xFF, 0xFF, 0xFF, 0xFF]);
    assert_eq!(decode_record(&bytes), Some(record));
}

#[test]
fn decoding_gives_back_the_record() {
    let records = [
        sample_record(),
        fresh_record(),
        MatchRecord { settled_at: Some(0), status: MatchStatus::Settled, ..sample_record() },
        MatchRecord { settled_at: Some(i64::MAX), status: MatchStatus::Refunded, ..fresh_record() },
        MatchRecord { winner: Some([0u8; 32]), ..sample_record() },
        MatchRecord {
            match_id: u128::MAX,
            stake_amount: u64::MAX,
            fee_bps: u16::MAX,
            deadline: i64::MAX,
            created_at: i64::MIN,
            ..sample_record()
        },
        MatchRecord { deposited_a: true, deposited_b: false, ..fresh_record() },
        MatchRecord { deposited_a: false, deposited_b: true, ..fresh_record() },
    ];
    for record in records {
        let bytes = encode_record(&record);
        assert_eq!(decode_record(&bytes), Some(record));
    }
}

#[test]
fn encoding_gives_back_the_bytes() {
    let bytes = encode_record(&sample_record());
    let record = decode_record(&bytes).unwrap();
    assert_eq!(encode_record(&record), bytes);
}

#[test]
fn bytes_of_the_wrong_length_are_no_record() {
    let bytes = encode_record(&sample_record());
    assert_eq!(decode_record(&bytes[..151]), None);
    assert_eq!(decode_record(&[]), None);
    let mut longer = bytes.clone();
    longer.push(0);
    assert_eq!(decode_record(&longer), None);
}

#[test]
fn tags_and_flags_out_of_range_are_no_record() {
    let good = encode_record(&sample_record());
    for at in [98usize, 99, 100, 133, 134, 143] {
        for bad in [4u8, 5, 0x80, 0xFF] {
            let mut bytes = good.clone();
            bytes[at] = bad;
            assert_eq!(decode_record(&bytes), None);
        }
    }
    for at in [100usize, 133, 134, 143] {
        for bad in [2u8, 3] {
            let mut bytes = good.clone();
            bytes[at] = bad;
            assert_eq!(decode_record(&bytes), None);
        }
    }
}

#[test]
fn absent_field_that_is_not_zero_is_no_record() {
    let good = encode_record(&fresh_record());
    for at in 101..133 {
        let mut bytes = good.clone();
        bytes[at] = 1;
        assert_eq!(decode_record(&bytes), None);
    }
    for at in 144..152 {
        let mut bytes = good.clone();
        bytes[at] = 1;
        assert_eq!(decode_record(&bytes), None);
    }
}

#[test]
fn every_other_byte_changes_the_record() {
    let good = encode_record(&sample_record());
    let record = sample_record();
    for at in 0..98 {
        let mut bytes = good.clone();
        bytes[at] ^= 0x01;
        let decoded = decode_record(&bytes).unwrap();
        assert_ne!(decoded, record);
        assert_eq!(encode_record(&decoded), bytes);
    }
}
