use dragon_tools::{AkashicRecord, DragonError, RecordFault, RECORD_SIZE};

fn sample() -> AkashicRecord {
    AkashicRecord::new([1u8; 32], [2u8; 32], 12345, 0x0001, 1234567890)
}

#[test]
fn test_record_size() {
    assert_eq!(std::mem::size_of::<AkashicRecord>(), 128);
    assert_eq!(AkashicRecord::SIZE, 128);
}

#[test]
fn test_record_sanctification() {
    let record = AkashicRecord::new([1u8; 32], [2u8; 32], 12345, 0x0001, 1234567890);

    assert!(record.is_sanctified(), "Padding must be zeroed");

    let bytes = record.as_bytes();
    assert_eq!(bytes.len(), 128);

    let padding_start = 78;
    assert!(bytes[padding_start..].iter().all(|&b| b == 0));
}

#[test]
fn encoding_layout_is_little_endian_in_field_order() {
    let record = AkashicRecord::new([0xAA; 32], [0xBB; 32], 0x0102_0304, 0x0506, 0x0708_090A_0B0C_0D0E);
    let bytes = record.as_bytes();
    assert_eq!(bytes.len(), RECORD_SIZE);
    assert!(bytes[0..32].iter().all(|&b| b == 0xAA));
    assert!(bytes[32..64].iter().all(|&b| b == 0xBB));
    assert_eq!(&bytes[64..72], &[0x0E, 0x0D, 0x0C, 0x0B, 0x0A, 0x09, 0x08, 0x07]);
    assert_eq!(&bytes[72..76], &[0x04, 0x03, 0x02, 0x01]);
    assert_eq!(&bytes[76..78], &[0x06, 0x05]);
    assert!(bytes[78..].iter().all(|&b| b == 0));
}

#[test]
fn round_trip_gives_back_the_record() {
    let record = sample();
    let decoded = AkashicRecord::from_bytes(&record.as_bytes()).unwrap();
    assert_eq!(decoded.h_completion, record.h_completion);
    assert_eq!(decoded.h_previous, record.h_previous);
    assert_eq!(decoded.t_commit, record.t_commit);
    assert_eq!(decoded.t_pl, record.t_pl);
    assert_eq!(decoded.h_id, record.h_id);
    assert_eq!(decoded.padding, [0u8; 50]);
}

#[test]
fn boundary_values_keep_fixed_size_and_round_trip() {
    let record = AkashicRecord::new([0xFF; 32], [0x00; 32], 35999, 65535, u64::MAX);
    let bytes = record.as_bytes();
    assert_eq!(bytes.len(), 128);
    let decoded = AkashicRecord::from_bytes(&bytes).unwrap();
    assert_eq!(decoded.t_pl, 35999);
    assert_eq!(decoded.h_id, 65535);
    assert_eq!(decoded.t_commit, u64::MAX);
    assert_eq!(decoded.h_completion, [0xFF; 32]);
    assert_eq!(decoded.as_bytes(), bytes);
}

#[test]
fn decode_rejects_wrong_lengths() {
    let bytes = sample().as_bytes();
    for len in [0usize, 1, 78, 127] {
        assert_eq!(
            AkashicRecord::from_bytes(&bytes[..len]).unwrap_err(),
            DragonError::InvalidRecord(RecordFault::WrongSize { len })
        );
    }
    let mut longer = bytes.clone();
    longer.push(0);
    assert_eq!(
        AkashicRecord::from_bytes(&longer).unwrap_err(),
        DragonError::InvalidRecord(RecordFault::WrongSize { len: 129 })
    );
}

#[test]
fn decode_rejects_non_zero_padding() {
    for at in [78usize, 100, 127] {
        let mut bytes = sample().as_bytes();
        bytes[at] = 1;
        assert_eq!(
            AkashicRecord::from_bytes(&bytes).unwrap_err(),
            DragonError::InvalidRecord(RecordFault::UnsanctifiedPadding)
        );
    }
}

#[test]
fn dirty_padding_field_is_reported_and_never_encoded() {
    let mut record = sample();
    record.padding[10] = 7;
    assert!(!record.is_sanctified());
    let bytes = record.as_bytes();
    assert!(bytes[78..].iter().all(|&b| b == 0));
    assert_eq!(bytes, sample().as_bytes());
}
