use voter_weight_engine::action::VoterWeightAction;
use voter_weight_engine::credential::Credential;
use voter_weight_engine::error::EngineError;
use voter_weight_engine::pubkey::Pubkey;
use voter_weight_engine::registrar::{configure_registrar, create_registrar, Registrar};
use voter_weight_engine::resolver::PredecessorRecord;
use voter_weight_engine::transform::QuadraticCoefficients;
use voter_weight_engine::update::{create_voter_weight_record, update_voter_weight_record};

fn key(seed: u8) -> Pubkey {
    Pubkey::new([seed; 32])
}

const REALM: u8 = 1;
const MINT: u8 = 2;
const AUTHORITY: u8 = 3;
const NETWORK: u8 = 4;
const VOTER: u8 = 5;
const PREDECESSOR_PROGRAM: u8 = 6;

fn plain_registrar() -> Registrar {
    create_registrar(key(REALM), key(MINT), key(AUTHORITY), key(NETWORK))
}

fn quadratic_registrar() -> Registrar {
    let mut registrar = plain_registrar();
    let q = QuadraticCoefficients { a: 1, b: 0, c: 0 };
    configure_registrar(&mut registrar, &key(AUTHORITY), key(NETWORK), false, None, Some(q))
        .unwrap();
    registrar
}

fn chained_registrar() -> Registrar {
    let mut registrar = plain_registrar();
    configure_registrar(
        &mut registrar,
        &key(AUTHORITY),
        key(NETWORK),
        true,
        Some(key(PREDECESSOR_PROGRAM)),
        None,
    )
    .unwrap();
    registrar
}

fn valid_credential() -> Credential {
    Credential { owner: key(VOTER), gatekeeper_network: key(NETWORK), is_active: true }
}

fn predecessor_record(weight: u64, action: Option<u8>, target: Option<Pubkey>) -> PredecessorRecord {
    PredecessorRecord {
        program_id: key(PREDECESSOR_PROGRAM),
        realm: key(REALM),
        governing_token_mint: key(MINT),
        governing_token_owner: key(VOTER),
        voter_weight: weight,
        voter_weight_expiry: None,
        weight_action: action,
        weight_action_target: target,
    }
}

#[test]
fn test_create_voter_weight_record_starts_expired() {
    let registrar = plain_registrar();
    let record = create_voter_weight_record(&registrar, key(VOTER));
    assert_eq!(record.realm, key(REALM));
    assert_eq!(record.governing_token_mint, key(MINT));
    assert_eq!(record.governing_token_owner, key(VOTER));
    assert_eq!(record.voter_weight, 0);
    assert_eq!(record.voter_weight_expiry, Some(0));
    assert_eq!(record.weight_action, None);
    assert_eq!(record.weight_action_target, None);
}

#[test]
fn test_update_voter_weight_record() {
    // Arrange: a registrar chained to a predecessor whose record carries
    // weight 1 scoped to the create-proposal action.
    let registrar = chained_registrar();
    let mut record = create_voter_weight_record(&registrar, key(VOTER));
    let predecessor = predecessor_record(1, Some(3), None);
    let slot = 20;

    // Act
    update_voter_weight_record(&registrar, &mut record, 0, Some(&predecessor), None, slot)
        .unwrap();

    // Assert
    assert_eq!(record.voter_weight, 1);
    assert_eq!(record.voter_weight_expiry, Some(slot));
    assert_eq!(record.weight_action, Some(VoterWeightAction::CreateProposal));
    assert_eq!(record.weight_action_target, None);
}

#[test]
fn test_update_voter_weight_with_cast_vote_not_allowed_error() {
    // Arrange: the predecessor record is scoped to cast-vote.
    let registrar = chained_registrar();
    let mut record = create_voter_weight_record(&registrar, key(VOTER));
    let predecessor = predecessor_record(1, Some(0), None);

    // Act
    let err = update_voter_weight_record(&registrar, &mut record, 0, Some(&predecessor), None, 20)
        .err()
        .unwrap();

    // Assert
    assert_eq!(err, EngineError::CastVoteIsNotAllowed);
    assert_eq!(record.voter_weight, 0);
}

#[test]
fn test_update_voter_weight_record_with_token_owner_record_as_input() {
    // Arrange: quadratic registrar, 1,000,000 tokens deposited.
    let registrar = quadratic_registrar();
    let mut record = create_voter_weight_record(&registrar, key(VOTER));
    let credential = valid_credential();
    let slot = 30;

    // Act
    update_voter_weight_record(&registrar, &mut record, 1000000, None, Some(&credential), slot)
        .unwrap();

    // Assert: the square root of 1,000,000, no scope on the deposit path.
    assert_eq!(record.voter_weight, 1000);
    assert_eq!(record.voter_weight_expiry, Some(slot));
    assert_eq!(record.weight_action, None);
    assert_eq!(record.weight_action_target, None);
}

#[test]
fn test_update_on_cast_vote_scoped_record_fails_and_leaves_it() {
    // A record mid-accumulation for a proposal must not be overwritten by
    // the general update path.
    let registrar = quadratic_registrar();
    let mut record = create_voter_weight_record(&registrar, key(VOTER));
    record.voter_weight = 77;
    record.voter_weight_expiry = Some(11);
    record.weight_action = Some(VoterWeightAction::CastVote);
    record.weight_action_target = Some(key(9));
    let credential = valid_credential();

    let err =
        update_voter_weight_record(&registrar, &mut record, 1000000, None, Some(&credential), 30)
            .err()
            .unwrap();

    assert_eq!(err, EngineError::CastVoteIsNotAllowed);
    assert_eq!(record.voter_weight, 77);
    assert_eq!(record.voter_weight_expiry, Some(11));
    assert_eq!(record.weight_action, Some(VoterWeightAction::CastVote));
    assert_eq!(record.weight_action_target, Some(key(9)));
}

#[test]
fn test_update_on_deposit_path_requires_credential() {
    let registrar = quadratic_registrar();
    let mut record = create_voter_weight_record(&registrar, key(VOTER));

    let err = update_voter_weight_record(&registrar, &mut record, 1000000, None, None, 30)
        .err()
        .unwrap();
    assert_eq!(err, EngineError::InvalidGatewayToken);

    let mut revoked = valid_credential();
    revoked.is_active = false;
    let err = update_voter_weight_record(&registrar, &mut record, 1000000, None, Some(&revoked), 30)
        .err()
        .unwrap();
    assert_eq!(err, EngineError::InvalidGatewayToken);
    assert_eq!(record.voter_weight, 0);
}

#[test]
fn test_update_rejects_foreign_record() {
    let registrar = quadratic_registrar();
    let mut record = create_voter_weight_record(&registrar, key(VOTER));
    let credential = valid_credential();

    record.realm = key(8);
    let err =
        update_voter_weight_record(&registrar, &mut record, 10, None, Some(&credential), 30)
            .err()
            .unwrap();
    assert_eq!(err, EngineError::InvalidVoterWeightRecordRealm);

    record.realm = key(REALM);
    record.governing_token_mint = key(8);
    let err =
        update_voter_weight_record(&registrar, &mut record, 10, None, Some(&credential), 30)
            .err()
            .unwrap();
    assert_eq!(err, EngineError::InvalidVoterWeightRecordMint);
}

#[test]
fn test_update_transform_overflow_leaves_record() {
    let mut registrar = plain_registrar();
    let q = QuadraticCoefficients { a: 0, b: 2, c: 0 };
    configure_registrar(&mut registrar, &key(AUTHORITY), key(NETWORK), false, None, Some(q))
        .unwrap();
    let mut record = create_voter_weight_record(&registrar, key(VOTER));
    let credential = valid_credential();

    let err =
        update_voter_weight_record(&registrar, &mut record, u64::MAX, None, Some(&credential), 30)
            .err()
            .unwrap();
    assert_eq!(err, EngineError::ArithmeticOverflow);
    assert_eq!(record.voter_weight, 0);
    assert_eq!(record.voter_weight_expiry, Some(0));
}

#[test]
fn test_cast_vote_with_update_voter_weight_record() {
    // Arrange: quadratic registrar, 1,000,000 tokens deposited; the weight
    // for the host engine's vote is produced by the general update, which
    // registers no action or target when used with no predecessor plugin.
    let registrar = quadratic_registrar();
    let mut record = create_voter_weight_record(&registrar, key(VOTER));
    let credential = valid_credential();
    let slot = 31;

    // Act
    update_voter_weight_record(&registrar, &mut record, 1000000, None, Some(&credential), slot)
        .unwrap();

    // Assert
    assert_eq!(record.voter_weight, 1000);
    assert_eq!(record.voter_weight_expiry, Some(slot));
    assert_eq!(record.weight_action, None);
    assert_eq!(record.weight_action_target, None);
}
