use dragon_tools::{digest_input, check_digest, AkashicRecord, DragonError, ProtocolStack};

fn scenario_record() -> AkashicRecord {
    AkashicRecord::new([0xAA; 32], [0xBB; 32], 9000, 1, 1000)
}

#[test]
fn digest_input_covers_link_and_metadata_only() {
    let record = scenario_record();
    let input = digest_input(&record);
    assert_eq!(input.len(), 46);
    assert!(input[0..32].iter().all(|&b| b == 0xBB));
    assert_eq!(&input[32..40], &1000u64.to_le_bytes());
    assert_eq!(&input[40..44], &9000u32.to_le_bytes());
    assert_eq!(&input[44..46], &1u16.to_le_bytes());
}

#[test]
fn digest_is_blake3_of_the_digest_input() {
    let record = scenario_record();
    let protocol = ProtocolStack::new();
    let digest = protocol.hash_record(&record);
    let expected = *blake3::hash(&digest_input(&record)).as_bytes();
    assert_eq!(digest, expected);
    assert_ne!(digest[..], digest_input(&record)[..32]);
}

#[test]
fn scenario_digest_is_stable() {
    let protocol = ProtocolStack::new();
    let first = protocol.hash_record(&scenario_record());
    let second = ProtocolStack::new().hash_record(&scenario_record());
    assert_eq!(first.len(), 32);
    assert_eq!(first, second);
    assert_ne!(first, [0u8; 32]);
}

#[test]
fn record_verifies_against_its_own_digest() {
    let protocol = ProtocolStack::new();
    let record = scenario_record();
    let digest = protocol.hash_record(&record);
    assert_eq!(protocol.verify_integrity(&record, digest), Ok(()));
}

#[test]
fn changed_metadata_fails_verification() {
    let protocol = ProtocolStack::new();
    let record = scenario_record();
    let digest = protocol.hash_record(&record);

    let mut changed = record;
    changed.h_previous[0] ^= 1;
    assert_eq!(protocol.verify_integrity(&changed, digest), Err(DragonError::ChainIntegrityViolation));

    let mut changed = record;
    changed.t_commit += 1;
    assert_eq!(protocol.verify_integrity(&changed, digest), Err(DragonError::ChainIntegrityViolation));

    let mut changed = record;
    changed.t_pl = 9001;
    assert_eq!(protocol.verify_integrity(&changed, digest), Err(DragonError::ChainIntegrityViolation));

    let mut changed = record;
    changed.h_id = 2;
    assert_eq!(protocol.verify_integrity(&changed, digest), Err(DragonError::ChainIntegrityViolation));
}

#[test]
fn completion_hash_and_padding_do_not_change_digest() {
    let protocol = ProtocolStack::new();
    let record = scenario_record();
    let digest = protocol.hash_record(&record);

    let mut changed = record;
    changed.h_completion = [0x11; 32];
    changed.padding[3] = 9;
    assert_eq!(protocol.hash_record(&changed), digest);
    assert_eq!(protocol.verify_integrity(&changed, digest), Ok(()));
}

#[test]
fn check_digest_compares_every_byte() {
    let a = [5u8; 32];
    let mut b = a;
    assert_eq!(check_digest(&a, &b), Ok(()));
    b[31] = 6;
    assert_eq!(check_digest(&a, &b), Err(DragonError::ChainIntegrityViolation));
}
