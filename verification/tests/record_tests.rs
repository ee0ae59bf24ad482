use voter_weight_engine::action::VoterWeightAction;
use voter_weight_engine::pubkey::Pubkey;
use voter_weight_engine::record::{VoterWeightRecord, DISCRIMINATOR_SIZE};

fn key(seed: u8) -> Pubkey {
    Pubkey::new([seed; 32])
}

fn sample_record() -> VoterWeightRecord {
    VoterWeightRecord {
        realm: key(1),
        governing_token_mint: key(2),
        governing_token_owner: key(3),
        voter_weight: 42,
        voter_weight_expiry: Some(7),
        weight_action: Some(VoterWeightAction::CreateProposal),
        weight_action_target: Some(key(4)),
        reserved: [0u8; 8],
    }
}

#[test]
fn test_get_space() {
    // Arrange
    let expected_space = VoterWeightRecord::get_space();

    // Act
    let actual_space = DISCRIMINATOR_SIZE + VoterWeightRecord::default().to_bytes().len();

    // Assert
    assert_eq!(expected_space, actual_space);
}

#[test]
fn test_get_space_value() {
    assert_eq!(VoterWeightRecord::get_space(), 164);
}

#[test]
fn test_default_record_is_uninitialized() {
    let record = VoterWeightRecord::default();
    assert!(!record.is_initialized());
    assert_eq!(record.voter_weight, 0);
    assert_eq!(record.voter_weight_expiry, Some(0));
    assert_eq!(record.weight_action, Some(VoterWeightAction::CastVote));
    assert_eq!(record.weight_action_target, Some(Pubkey::new([0u8; 32])));
}

#[test]
fn test_populated_record_is_initialized() {
    let record = sample_record();
    assert!(record.is_initialized());
}

#[test]
fn test_record_with_zero_realm_is_uninitialized() {
    let mut record = sample_record();
    record.realm = Pubkey::new([0u8; 32]);
    assert!(!record.is_initialized());
}

#[test]
fn test_getters() {
    let record = sample_record();
    assert_eq!(record.get_realm(), key(1));
    assert_eq!(record.get_governing_token_mint(), key(2));
    assert_eq!(record.get_governing_token_owner(), key(3));
    assert_eq!(record.get_voter_weight(), 42);
    assert_eq!(record.get_vote_expiry(), Some(7));
    assert_eq!(record.get_weight_action(), Some(VoterWeightAction::CreateProposal));
    assert_eq!(record.get_weight_action_target(), Some(key(4)));
}

#[test]
fn test_serialized_layout() {
    let record = sample_record();
    let bytes = record.to_bytes();
    assert_eq!(bytes.len(), 156);
    assert_eq!(&bytes[0..32], &[1u8; 32]);
    assert_eq!(&bytes[32..64], &[2u8; 32]);
    assert_eq!(&bytes[64..96], &[3u8; 32]);
    // weight, little-endian
    assert_eq!(&bytes[96..104], &[42, 0, 0, 0, 0, 0, 0, 0]);
    // expiry: present, value 7
    assert_eq!(bytes[104], 1);
    assert_eq!(&bytes[105..113], &[7, 0, 0, 0, 0, 0, 0, 0]);
    // action: present, ordinal of CreateProposal
    assert_eq!(bytes[113], 1);
    assert_eq!(bytes[114], 3);
    // target: present, the proposal key
    assert_eq!(bytes[115], 1);
    assert_eq!(&bytes[116..148], &[4u8; 32]);
    // reserved padding
    assert_eq!(&bytes[148..156], &[0u8; 8]);
}

#[test]
fn test_serialized_layout_absent_fields() {
    let mut record = sample_record();
    record.voter_weight_expiry = None;
    record.weight_action = None;
    record.weight_action_target = None;
    let bytes = record.to_bytes();
    assert_eq!(bytes.len(), 156);
    assert_eq!(bytes[104], 0);
    assert_eq!(&bytes[105..113], &[0u8; 8]);
    assert_eq!(bytes[113], 0);
    assert_eq!(bytes[114], 0);
    assert_eq!(bytes[115], 0);
    assert_eq!(&bytes[116..148], &[0u8; 32]);
}

#[test]
fn test_pubkey_equality_by_value() {
    assert_eq!(key(9), Pubkey::new([9u8; 32]));
    assert_ne!(key(9), key(10));
    let mut bytes = [9u8; 32];
    bytes[31] = 8;
    assert_ne!(key(9), Pubkey::new(bytes));
}

#[test]
fn test_round_trip_through_bytes() {
    let record = sample_record();
    let bytes = record.to_bytes();
    let parsed = VoterWeightRecord::from_bytes(&bytes).unwrap();
    assert_eq!(parsed.realm, record.realm);
    assert_eq!(parsed.governing_token_mint, record.governing_token_mint);
    assert_eq!(parsed.governing_token_owner, record.governing_token_owner);
    assert_eq!(parsed.voter_weight, record.voter_weight);
    assert_eq!(parsed.voter_weight_expiry, record.voter_weight_expiry);
    assert_eq!(parsed.weight_action, record.weight_action);
    assert_eq!(parsed.weight_action_target, record.weight_action_target);
    assert_eq!(parsed.reserved, record.reserved);
}

#[test]
fn test_round_trip_with_absent_fields() {
    let mut record = sample_record();
    record.voter_weight_expiry = None;
    record.weight_action = None;
    record.weight_action_target = None;
    let bytes = record.to_bytes();
    let parsed = VoterWeightRecord::from_bytes(&bytes).unwrap();
    assert_eq!(parsed.voter_weight_expiry, None);
    assert_eq!(parsed.weight_action, None);
    assert_eq!(parsed.weight_action_target, None);
    assert_eq!(parsed.to_bytes(), bytes);
}

#[test]
fn test_from_bytes_rejects_malformed_input() {
    let good = sample_record().to_bytes();
    // wrong length
    assert!(VoterWeightRecord::from_bytes(&good[..155]).is_none());
    assert!(VoterWeightRecord::from_bytes(&[]).is_none());
    // a presence flag that is neither 0 nor 1
    let mut bad = good.clone();
    bad[104] = 2;
    assert!(VoterWeightRecord::from_bytes(&bad).is_none());
    // an absent expiry whose value bytes are not zero
    let mut bad = good.clone();
    bad[104] = 0;
    assert!(VoterWeightRecord::from_bytes(&bad).is_none());
    // an action ordinal outside the enumeration
    let mut bad = good.clone();
    bad[114] = 5;
    assert!(VoterWeightRecord::from_bytes(&bad).is_none());
}
