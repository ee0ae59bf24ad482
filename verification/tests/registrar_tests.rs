use voter_weight_engine::error::EngineError;
use voter_weight_engine::pubkey::Pubkey;
use voter_weight_engine::registrar::{configure_registrar, create_registrar, Registrar};
use voter_weight_engine::transform::QuadraticCoefficients;

fn key(seed: u8) -> Pubkey {
    Pubkey::new([seed; 32])
}

fn sample_registrar() -> Registrar {
    create_registrar(key(1), key(2), key(3), key(4))
}

#[test]
fn test_create_registrar_fields() {
    let registrar = sample_registrar();
    assert_eq!(registrar.realm, key(1));
    assert_eq!(registrar.governing_token_mint, key(2));
    assert_eq!(registrar.realm_authority, key(3));
    assert_eq!(registrar.gatekeeper_network, key(4));
    assert_eq!(registrar.previous_voter_weight_plugin_program_id, None);
    assert!(registrar.quadratic_coefficients.is_none());
}

#[test]
fn test_update_registrar_new_gatekeeper_network() {
    // Arrange
    let mut registrar = sample_registrar();
    let new_gatekeeper_network = key(9);

    // Act
    let result = configure_registrar(&mut registrar, &key(3), new_gatekeeper_network, false, None, None);

    // Assert
    assert_eq!(result, Ok(()));
    assert_eq!(registrar.gatekeeper_network, new_gatekeeper_network);
}

#[test]
fn test_update_registrar_new_predecessor() {
    // Arrange
    let mut registrar = sample_registrar();
    let predecessor_program_id = key(7);

    // Act
    let result = configure_registrar(
        &mut registrar,
        &key(3),
        key(4),
        true,
        Some(predecessor_program_id),
        None,
    );

    // Assert
    assert_eq!(result, Ok(()));
    assert_eq!(
        registrar.previous_voter_weight_plugin_program_id,
        Some(predecessor_program_id)
    );
}

#[test]
fn test_update_registrar_with_invalid_realm_authority_error() {
    // Arrange
    let mut registrar = sample_registrar();

    // Act
    let err = configure_registrar(&mut registrar, &key(8), key(9), false, None, None)
        .err()
        .unwrap();

    // Assert
    assert_eq!(err, EngineError::InvalidRealmAuthority);
    assert_eq!(registrar.gatekeeper_network, key(4));
}

#[test]
fn test_update_registrar_predecessor_flag_without_identity_error() {
    let mut registrar = sample_registrar();
    let err = configure_registrar(&mut registrar, &key(3), key(4), true, None, None)
        .err()
        .unwrap();
    assert_eq!(err, EngineError::MissingPredecessorPlugin);
    assert_eq!(registrar.previous_voter_weight_plugin_program_id, None);
}

#[test]
fn test_update_registrar_sets_and_clears_coefficients() {
    let mut registrar = sample_registrar();
    let q = QuadraticCoefficients { a: 1, b: 0, c: 0 };
    configure_registrar(&mut registrar, &key(3), key(4), false, None, Some(q)).unwrap();
    assert_eq!(registrar.quadratic_coefficients, Some(q));
    configure_registrar(&mut registrar, &key(3), key(4), false, None, None).unwrap();
    assert_eq!(registrar.quadratic_coefficients, None);
    // realm, mint and authority never change
    assert_eq!(registrar.realm, key(1));
    assert_eq!(registrar.governing_token_mint, key(2));
    assert_eq!(registrar.realm_authority, key(3));
}

#[test]
fn test_update_registrar_clears_predecessor_when_flag_off() {
    let mut registrar = sample_registrar();
    configure_registrar(&mut registrar, &key(3), key(4), true, Some(key(7)), None).unwrap();
    configure_registrar(&mut registrar, &key(3), key(4), false, Some(key(7)), None).unwrap();
    assert_eq!(registrar.previous_voter_weight_plugin_program_id, None);
}
