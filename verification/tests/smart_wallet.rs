use p256::ecdsa::signature::SignerMut;
use p256::ecdsa::{SigningKey, VerifyingKey};
use rand_core::OsRng;
use rand_core::RngCore;
use sha2::Digest;
use smart_wallet::webauthn::{AUTH_DATA_FLAG_OFFSET, AUTH_DATA_FLAG_UP, AUTH_DATA_FLAG_UV};
use smart_wallet::{
    AccountContract, AccountContractError, Address, CredentialSignature, DataKey, Recovery,
    RecoveryError, SignerRegistry, WebAuthnCredential,
};

fn generate_test_p256_keypair() -> ([u8; 65], SigningKey) {
    let signing_key = SigningKey::random(&mut OsRng);
    let verifying_key = VerifyingKey::from(&signing_key);

    let point = verifying_key.to_encoded_point(false);
    let public_key: [u8; 65] = point.as_bytes().try_into().unwrap();

    (public_key, signing_key)
}

fn encoded_challenge(challenge_hash: &[u8; 32]) -> String {
    String::from_utf8(smart_wallet::base64_url::encode(challenge_hash)).unwrap()
}

fn sign(challenge_hash: &[u8; 32], signing_key: &mut SigningKey) -> WebAuthnCredential {
    let mut authenticator_data = vec![0u8; 37];

    // Fill in the RP ID hash. It is not verified by the account.
    for i in 0..32 {
        authenticator_data[i] = i as u8;
    }

    // Set flags: user present (UP) and user verified (UV).
    authenticator_data[AUTH_DATA_FLAG_OFFSET] = AUTH_DATA_FLAG_UP | AUTH_DATA_FLAG_UV;

    // Create the challenge string.
    let challenge_str = encoded_challenge(challenge_hash);

    let client_data_json = format!(
        r#"{{"type":"webauthn.get","challenge":"{}","origin":"https://example.com"}}"#,
        challenge_str
    );
    let client_data_bytes = client_data_json.as_bytes().to_vec();

    // Create the client data hash and the signed message.
    let client_data_hash = sha2::Sha256::digest(&client_data_bytes);
    let mut message = authenticator_data.clone();
    message.extend_from_slice(&client_data_hash);

    // Sign the message (authenticator data + client data hash).
    let signature_object: p256::ecdsa::Signature = signing_key.sign(&message);
    let normalized_signature = signature_object.normalize_s();

    let r_bytes = signature_object.r().to_bytes();
    let s_bytes = match normalized_signature {
        Some(normalized) => normalized.s().to_bytes(),
        None => signature_object.s().to_bytes(),
    };

    let mut raw_signature_bytes = [0u8; 64];
    raw_signature_bytes[0..32].copy_from_slice(r_bytes.as_slice());
    raw_signature_bytes[32..64].copy_from_slice(s_bytes.as_slice());

    WebAuthnCredential {
        authenticator_data,
        client_data_json: client_data_bytes,
        signature: raw_signature_bytes,
    }
}

fn random_payload_hash() -> [u8; 32] {
    let mut payload = [0u8; 32];
    OsRng.fill_bytes(&mut payload);
    let digest = sha2::Sha256::digest(&payload);
    digest.as_slice().try_into().unwrap()
}

fn admin_address() -> Address {
    Address { bytes: [7u8; 32] }
}

fn recovery_address_value() -> Address {
    Address { bytes: [9u8; 32] }
}

fn single_account(public_key: [u8; 65]) -> AccountContract {
    AccountContract::__constructor(
        Some(admin_address()),
        SignerRegistry::Single { public_key },
        Some(recovery_address_value()),
    )
}

fn one_signature(credential: WebAuthnCredential) -> Vec<CredentialSignature> {
    vec![CredentialSignature { credential_id: vec![], credential }]
}

#[test]
fn test_validate_signature() {
    let (public_key, mut signing_key) = generate_test_p256_keypair();
    let account = single_account(public_key);

    let payload_hash = random_payload_hash();
    let credential = sign(&payload_hash, &mut signing_key);

    let result = account.__check_auth(&payload_hash, &one_signature(credential));
    result.unwrap();
}

#[test]
fn test_webauthn_invalid_type() {
    let (public_key, mut signing_key) = generate_test_p256_keypair();
    let account = single_account(public_key);

    let payload_hash = random_payload_hash();
    let mut credential = sign(&payload_hash, &mut signing_key);

    let original_challenge_str = encoded_challenge(&payload_hash);
    let invalid_type_json_str = format!(
        r#"{{"type":"webauthn.create","challenge":"{}","origin":"https://example.com"}}"#,
        original_challenge_str
    );
    credential.client_data_json = invalid_type_json_str.as_bytes().to_vec();

    let result = account.__check_auth(&payload_hash, &one_signature(credential));
    assert_eq!(result, Err(AccountContractError::WebAuthnInvalidType));
}

#[test]
fn test_webauthn_client_data_duplicate_fields() {
    let (public_key, mut signing_key) = generate_test_p256_keypair();
    let account = single_account(public_key);

    let payload_hash = random_payload_hash();
    let mut credential = sign(&payload_hash, &mut signing_key);

    let original_challenge_str = encoded_challenge(&payload_hash);
    let invalid_type_json_str = format!(
        r#"{{"type":"webauthn.get","challenge":"{}", "challenge":"{}", "origin":"https://example.com"}}"#,
        original_challenge_str, original_challenge_str
    );
    credential.client_data_json = invalid_type_json_str.as_bytes().to_vec();

    let result = account.__check_auth(&payload_hash, &one_signature(credential));
    assert_eq!(result, Err(AccountContractError::WebAuthnInvalidClientData));
}

#[test]
fn test_webauthn_user_not_present() {
    let (public_key, mut signing_key) = generate_test_p256_keypair();
    let account = single_account(public_key);

    let payload_hash = random_payload_hash();
    let mut credential = sign(&payload_hash, &mut signing_key);

    // Clear the user-present flag (UP - bit 0).
    credential.authenticator_data[AUTH_DATA_FLAG_OFFSET] &= !AUTH_DATA_FLAG_UP;

    let result = account.__check_auth(&payload_hash, &one_signature(credential));
    assert_eq!(result, Err(AccountContractError::WebAuthnUserNotPresent));
}

#[test]
fn test_webauthn_user_not_verified() {
    let (public_key, mut signing_key) = generate_test_p256_keypair();
    let account = single_account(public_key);

    let payload_hash = random_payload_hash();
    let mut credential = sign(&payload_hash, &mut signing_key);

    // Clear the user-verified flag (UV - bit 2).
    credential.authenticator_data[AUTH_DATA_FLAG_OFFSET] &= !AUTH_DATA_FLAG_UV;

    let result = account.__check_auth(&payload_hash, &one_signature(credential));
    assert_eq!(result, Err(AccountContractError::WebAuthnUserNotVerified));
}

#[test]
fn test_webauthn_invalid_challenge_content() {
    let (public_key, mut signing_key) = generate_test_p256_keypair();
    let account = single_account(public_key);

    let payload_hash_sign = random_payload_hash();
    let credential = sign(&payload_hash_sign, &mut signing_key);

    let different_payload_hash = random_payload_hash();
    assert_ne!(payload_hash_sign, different_payload_hash);

    let result = account.__check_auth(&different_payload_hash, &one_signature(credential));
    assert_eq!(result, Err(AccountContractError::WebAuthnInvalidChallenge));
}

#[test]
fn test_webauthn_invalid_challenge_length_in_client_data() {
    let (public_key, mut signing_key) = generate_test_p256_keypair();
    let account = single_account(public_key);

    let payload_hash = random_payload_hash();
    let mut credential = sign(&payload_hash, &mut signing_key);

    let original_challenge_str = encoded_challenge(&payload_hash);
    let truncated_challenge_str = &original_challenge_str[0..42];
    let bad_client_data_json_str = format!(
        r#"{{"type":"webauthn.get","challenge":"{}","origin":"https://example.com"}}"#,
        truncated_challenge_str
    );
    credential.client_data_json = bad_client_data_json_str.as_bytes().to_vec();

    let result = account.__check_auth(&payload_hash, &one_signature(credential));
    assert_eq!(result, Err(AccountContractError::WebAuthnInvalidChallenge));
}

#[test]
fn test_webauthn_tampered_signature() {
    let (public_key, mut signing_key) = generate_test_p256_keypair();
    let account = single_account(public_key);

    let payload_hash = random_payload_hash();
    let mut credential = sign(&payload_hash, &mut signing_key);

    // Tamper with the signature.
    credential.signature[0] = credential.signature[0].wrapping_add(1);

    let result = account.__check_auth(&payload_hash, &one_signature(credential));
    assert!(result.is_err());
}

#[test]
fn test_encode_all_zero_bytes() {
    let encoded = smart_wallet::base64_url::encode(&[0u8; 32]);
    assert_eq!(encoded.len(), 43);
    assert_eq!(encoded, vec![b'A'; 43]);
}

#[test]
fn test_encode_all_ones_bytes() {
    let encoded = smart_wallet::base64_url::encode(&[0xFFu8; 32]);
    let mut expected = vec![b'_'; 42];
    expected.push(b'8');
    assert_eq!(encoded, expected);
}

#[test]
fn test_encode_round_trip_matches_challenge() {
    // A challenge field built from the encoder always satisfies the
    // challenge comparison: only the later signature check can fail.
    let (public_key, _) = generate_test_p256_keypair();
    let payload_hash = random_payload_hash();
    let challenge_str = encoded_challenge(&payload_hash);
    let client_data_json = format!(
        r#"{{"type":"webauthn.get","challenge":"{}"}}"#,
        challenge_str
    );
    let mut authenticator_data = vec![0u8; 37];
    authenticator_data[AUTH_DATA_FLAG_OFFSET] = AUTH_DATA_FLAG_UP | AUTH_DATA_FLAG_UV;
    let credential = WebAuthnCredential {
        authenticator_data,
        client_data_json: client_data_json.as_bytes().to_vec(),
        signature: [0u8; 64],
    };
    let result = smart_wallet::verify(&payload_hash, &credential, &public_key);
    assert_eq!(result, Err(AccountContractError::WebAuthnInvalidSignature));
}

#[test]
fn test_webauthn_duplicate_type_fields() {
    let (public_key, mut signing_key) = generate_test_p256_keypair();
    let account = single_account(public_key);

    let payload_hash = random_payload_hash();
    let mut credential = sign(&payload_hash, &mut signing_key);

    let challenge_str = encoded_challenge(&payload_hash);
    let json = format!(
        r#"{{"type":"webauthn.get","type":"webauthn.get","challenge":"{}"}}"#,
        challenge_str
    );
    credential.client_data_json = json.as_bytes().to_vec();

    let result = account.__check_auth(&payload_hash, &one_signature(credential));
    assert_eq!(result, Err(AccountContractError::WebAuthnInvalidClientData));
}

#[test]
fn test_webauthn_trailing_garbage_rejected() {
    let (public_key, mut signing_key) = generate_test_p256_keypair();
    let account = single_account(public_key);

    let payload_hash = random_payload_hash();
    let mut credential = sign(&payload_hash, &mut signing_key);

    let mut json = String::from_utf8(credential.client_data_json.clone()).unwrap();
    json.push_str("garbage");
    credential.client_data_json = json.as_bytes().to_vec();

    let result = account.__check_auth(&payload_hash, &one_signature(credential));
    assert_eq!(result, Err(AccountContractError::WebAuthnInvalidClientData));
}

#[test]
fn test_webauthn_escaped_challenge_rejected() {
    let (public_key, mut signing_key) = generate_test_p256_keypair();
    let account = single_account(public_key);

    let payload_hash = random_payload_hash();
    let mut credential = sign(&payload_hash, &mut signing_key);

    let challenge_str = encoded_challenge(&payload_hash);
    // An escape inside the recorded challenge string refuses the document,
    // whatever it would decode to.
    let json = format!(
        r#"{{"type":"webauthn.get","challenge":"\u0041{}"}}"#,
        &challenge_str[1..]
    );
    credential.client_data_json = json.as_bytes().to_vec();

    let result = account.__check_auth(&payload_hash, &one_signature(credential));
    assert_eq!(result, Err(AccountContractError::WebAuthnInvalidClientData));
}

#[test]
fn test_webauthn_oversized_client_data_rejected() {
    let (public_key, mut signing_key) = generate_test_p256_keypair();
    let account = single_account(public_key);

    let payload_hash = random_payload_hash();
    let mut credential = sign(&payload_hash, &mut signing_key);

    let challenge_str = encoded_challenge(&payload_hash);
    let padding = "x".repeat(1100);
    let json = format!(
        r#"{{"type":"webauthn.get","challenge":"{}","origin":"{}"}}"#,
        challenge_str, padding
    );
    credential.client_data_json = json.as_bytes().to_vec();

    let result = account.__check_auth(&payload_hash, &one_signature(credential));
    assert_eq!(result, Err(AccountContractError::WebAuthnInvalidClientData));
}

#[test]
fn test_missing_signer_rejected() {
    let account = AccountContract {
        admin: Some(admin_address()),
        signers: None,
        recovery: None,
    };
    let (_, mut signing_key) = generate_test_p256_keypair();
    let payload_hash = random_payload_hash();
    let credential = sign(&payload_hash, &mut signing_key);

    let result = account.__check_auth(&payload_hash, &one_signature(credential));
    assert_eq!(result, Err(AccountContractError::MissingSigner));
}

#[test]
fn test_single_signature_required_zero_and_two() {
    let (public_key, mut signing_key) = generate_test_p256_keypair();
    let account = single_account(public_key);

    let payload_hash = random_payload_hash();
    let credential = sign(&payload_hash, &mut signing_key);

    let none: Vec<CredentialSignature> = vec![];
    assert_eq!(
        account.__check_auth(&payload_hash, &none),
        Err(AccountContractError::SingleSignatureRequired)
    );

    let two = vec![
        CredentialSignature { credential_id: vec![], credential: credential.clone() },
        CredentialSignature { credential_id: vec![], credential },
    ];
    assert_eq!(
        account.__check_auth(&payload_hash, &two),
        Err(AccountContractError::SingleSignatureRequired)
    );
}

#[test]
fn test_multi_signer_lookup_and_unknown() {
    let (public_key_a, mut signing_key_a) = generate_test_p256_keypair();
    let (public_key_b, _) = generate_test_p256_keypair();

    let entries = vec![
        smart_wallet::SignerEntry { credential_id: b"cred-a".to_vec(), public_key: public_key_a },
        smart_wallet::SignerEntry { credential_id: b"cred-b".to_vec(), public_key: public_key_b },
    ];
    let account = AccountContract::__constructor(
        Some(admin_address()),
        SignerRegistry::Multi { entries },
        Some(recovery_address_value()),
    );

    let payload_hash = random_payload_hash();
    let credential = sign(&payload_hash, &mut signing_key_a);

    let known = vec![CredentialSignature {
        credential_id: b"cred-a".to_vec(),
        credential: credential.clone(),
    }];
    account.__check_auth(&payload_hash, &known).unwrap();

    // The right key under the wrong credential identifier is unknown.
    let unknown = vec![CredentialSignature {
        credential_id: b"cred-c".to_vec(),
        credential,
    }];
    assert_eq!(
        account.__check_auth(&payload_hash, &unknown),
        Err(AccountContractError::UnknownSigner)
    );
}

#[test]
fn test_multi_signer_wrong_entry_rejected() {
    let (public_key_a, mut signing_key_a) = generate_test_p256_keypair();
    let (public_key_b, _) = generate_test_p256_keypair();

    let entries = vec![
        smart_wallet::SignerEntry { credential_id: b"cred-a".to_vec(), public_key: public_key_a },
        smart_wallet::SignerEntry { credential_id: b"cred-b".to_vec(), public_key: public_key_b },
    ];
    let account = AccountContract::__constructor(
        Some(admin_address()),
        SignerRegistry::Multi { entries },
        Some(recovery_address_value()),
    );

    let payload_hash = random_payload_hash();
    let credential = sign(&payload_hash, &mut signing_key_a);

    // Signed by key A but claiming credential B: the signature check fails.
    let mismatched = vec![CredentialSignature {
        credential_id: b"cred-b".to_vec(),
        credential,
    }];
    assert_eq!(
        account.__check_auth(&payload_hash, &mismatched),
        Err(AccountContractError::WebAuthnInvalidSignature)
    );
}

#[test]
fn test_rotate_signer_requires_recovery() {
    let (public_key, _) = generate_test_p256_keypair();
    let (new_public_key, _) = generate_test_p256_keypair();
    let mut account = AccountContract::__constructor(
        Some(admin_address()),
        SignerRegistry::Single { public_key },
        None,
    );
    assert_eq!(
        account.rotate_signer(&new_public_key),
        Err(RecoveryError::RecoveryNotSet)
    );
}

#[test]
fn test_rotate_signer_switches_key() {
    let (public_key, mut signing_key) = generate_test_p256_keypair();
    let (new_public_key, mut new_signing_key) = generate_test_p256_keypair();
    let mut account = single_account(public_key);

    let payload_hash = random_payload_hash();
    let old_credential = sign(&payload_hash, &mut signing_key);
    account
        .__check_auth(&payload_hash, &one_signature(old_credential.clone()))
        .unwrap();

    account.rotate_signer(&new_public_key).unwrap();

    // The old key no longer authorizes anything.
    assert_eq!(
        account.__check_auth(&payload_hash, &one_signature(old_credential)),
        Err(AccountContractError::WebAuthnInvalidSignature)
    );

    // The new key does.
    let new_credential = sign(&payload_hash, &mut new_signing_key);
    account
        .__check_auth(&payload_hash, &one_signature(new_credential))
        .unwrap();
}

#[test]
fn test_remove_recovery_twice() {
    let (public_key, _) = generate_test_p256_keypair();
    let mut account = single_account(public_key);

    assert_eq!(account.recovery_address(), Some(recovery_address_value()));
    assert_eq!(account.remove_recovery(), Ok(()));
    assert_eq!(account.recovery_address(), None);
    assert_eq!(account.remove_recovery(), Err(RecoveryError::RecoveryNotSet));

    // Once recovery is gone, rotation is gone with it.
    let (new_public_key, _) = generate_test_p256_keypair();
    assert_eq!(
        account.rotate_signer(&new_public_key),
        Err(RecoveryError::RecoveryNotSet)
    );
}

#[test]
fn test_has_entry_reports_slots() {
    let (public_key, _) = generate_test_p256_keypair();
    let account = AccountContract::__constructor(
        None,
        SignerRegistry::Single { public_key },
        Some(recovery_address_value()),
    );
    assert!(!account.has_entry(DataKey::Admin));
    assert!(account.has_entry(DataKey::Signer));
    assert!(account.has_entry(DataKey::Recovery));
}
