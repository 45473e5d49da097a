use std::time::{SystemTime, UNIX_EPOCH};

use ic_agent::identity::{BasicIdentity, DelegatedIdentity, Prime256v1Identity, Secp256k1Identity};
use ic_agent::Identity;
use k256::elliptic_curve::rand_core::OsRng;
use k256::pkcs8::EncodePublicKey;
use k256::SecretKey;
use video_upload_core::delegation::{
    derive_principal, AuthError, DelegatedIdentityWire, Delegation, SignedDelegation,
};
use video_upload_core::principal::Principal;

fn library_link(link: &ic_agent::identity::SignedDelegation) -> SignedDelegation {
    SignedDelegation {
        delegation: Delegation {
            pubkey: link.delegation.pubkey.clone(),
            expiration: link.delegation.expiration,
            targets: link.delegation.targets.as_ref().map(|targets| {
                targets
                    .iter()
                    .map(|p| Principal::from_slice(p.as_slice()).unwrap())
                    .collect()
            }),
        },
        signature: link.signature.clone(),
    }
}

fn agent_link(link: &SignedDelegation) -> ic_agent::identity::SignedDelegation {
    ic_agent::identity::SignedDelegation {
        delegation: ic_agent::identity::Delegation {
            pubkey: link.delegation.pubkey.clone(),
            expiration: link.delegation.expiration,
            targets: link.delegation.targets.as_ref().map(|targets| {
                targets
                    .iter()
                    .map(|p| candid::Principal::from_slice(p.as_slice()))
                    .collect()
            }),
        },
        signature: link.signature.clone(),
    }
}

fn agent_identity(wire: &DelegatedIdentityWire) -> DelegatedIdentity {
    let to_secret = SecretKey::from_jwk_str(&wire.to_secret).unwrap();
    DelegatedIdentity::new(
        wire.from_key.clone(),
        Box::new(Secp256k1Identity::from_private_key(to_secret)),
        wire.delegation_chain.iter().map(agent_link).collect(),
    )
    .unwrap()
}

fn der_public_key(key: &SecretKey) -> Vec<u8> {
    key.public_key()
        .to_public_key_der()
        .unwrap()
        .as_bytes()
        .to_vec()
}

fn now_seconds() -> u64 {
    SystemTime::now()
        .duration_since(UNIX_EPOCH)
        .unwrap()
        .as_secs()
}

fn wire_expiring_at(from_key: impl Identity, to_key: SecretKey, expiration: u64) -> DelegatedIdentityWire {
    let delegation = ic_agent::identity::Delegation {
        pubkey: der_public_key(&to_key),
        expiration,
        targets: None,
    };

    let delegation_signature = from_key
        .sign_delegation(&delegation)
        .expect("Failed to sign delegation");

    let signed_delegation = ic_agent::identity::SignedDelegation {
        delegation,
        signature: delegation_signature.signature.unwrap(),
    };

    let mut delegation_chain = delegation_signature.delegations.unwrap_or_default();

    delegation_chain.push(signed_delegation);

    DelegatedIdentityWire {
        from_key: from_key.public_key().unwrap(),
        to_secret: to_key.to_jwk().to_string(),
        delegation_chain: delegation_chain.iter().map(library_link).collect(),
    }
}

fn create_delegated_identity_wire(from_key: impl Identity, to_key: SecretKey) -> DelegatedIdentityWire {
    // valid for 1 hour
    wire_expiring_at(from_key, to_key, now_seconds() + 3600)
}

fn fixed_key(seed: u8) -> SecretKey {
    SecretKey::from_slice(&[seed; 32]).unwrap()
}

fn root_principal(seed: u8) -> Principal {
    let expected = candid::Principal::self_authenticating(der_public_key(&fixed_key(seed)));
    Principal::from_slice(expected.as_slice()).unwrap()
}

/// A wire of two links: key 1 delegates to key 2, which delegates to key 3.
fn two_link_wire(first_expiration: u64, second_expiration: u64) -> DelegatedIdentityWire {
    let root = Secp256k1Identity::from_private_key(fixed_key(1));
    let first = wire_expiring_at(root, fixed_key(2), first_expiration);
    wire_expiring_at(agent_identity(&first), fixed_key(3), second_expiration)
}

#[test]
fn test_valid_delegated_identity_wire() {
    let from_main_secret_key = SecretKey::random(&mut OsRng);
    let from_secret_key = SecretKey::random(&mut OsRng);
    let to_secret_key = SecretKey::random(&mut OsRng);

    let main_key = Secp256k1Identity::from_private_key(from_main_secret_key);

    let from_delegated_identity_wire = create_delegated_identity_wire(main_key, from_secret_key);

    derive_principal(&from_delegated_identity_wire, now_seconds())
        .expect("Failed to create delegated identity from wire format");
    let delegated_identity = agent_identity(&from_delegated_identity_wire);

    let to_key_delegated_identity_wire =
        create_delegated_identity_wire(delegated_identity, to_secret_key);

    let _to_key_delegated_identity =
        derive_principal(&to_key_delegated_identity_wire, now_seconds())
            .expect("Failed to create delegated identity from wire format");
}

#[test]
fn single_link_chain_yields_root_principal() {
    let root = Secp256k1Identity::from_private_key(fixed_key(1));
    let wire = wire_expiring_at(root, fixed_key(2), 2_000);
    assert_eq!(wire.delegation_chain.len(), 1);
    assert_eq!(derive_principal(&wire, 1_000), Ok(root_principal(1)));
}

#[test]
fn multi_link_chain_yields_root_principal() {
    let wire = two_link_wire(2_000, 3_000);
    assert_eq!(wire.delegation_chain.len(), 2);
    assert_eq!(wire.from_key, der_public_key(&fixed_key(1)));
    let derived = derive_principal(&wire, 1_000).unwrap();
    assert_eq!(derived, root_principal(1));
    assert_ne!(derived, root_principal(3));
}

#[test]
fn empty_chain_with_root_as_terminal_is_accepted() {
    let wire = DelegatedIdentityWire {
        from_key: der_public_key(&fixed_key(7)),
        to_secret: fixed_key(7).to_jwk().to_string(),
        delegation_chain: vec![],
    };
    assert_eq!(derive_principal(&wire, 0), Ok(root_principal(7)));
    assert_eq!(derive_principal(&wire, u64::MAX), Ok(root_principal(7)));
}

#[test]
fn empty_chain_with_other_terminal_is_a_key_mismatch() {
    let wire = DelegatedIdentityWire {
        from_key: der_public_key(&fixed_key(7)),
        to_secret: fixed_key(8).to_jwk().to_string(),
        delegation_chain: vec![],
    };
    assert_eq!(derive_principal(&wire, 0), Err(AuthError::EmptyChainKeyMismatch));
}

#[test]
fn chain_that_ends_in_another_key_is_invalid() {
    let mut wire = two_link_wire(2_000, 3_000);
    wire.to_secret = fixed_key(9).to_jwk().to_string();
    assert_eq!(derive_principal(&wire, 1_000), Err(AuthError::InvalidDelegation));
}

#[test]
fn tampered_signature_is_invalid_at_every_position() {
    for position in 0..2 {
        for byte in [0usize, 17, 63] {
            let mut wire = two_link_wire(2_000, 3_000);
            wire.delegation_chain[position].signature[byte] ^= 0x01;
            assert_eq!(
                derive_principal(&wire, 1_000),
                Err(AuthError::InvalidDelegation),
                "link {position}, byte {byte}"
            );
        }
    }
}

#[test]
fn tampered_delegation_payload_is_invalid() {
    let mut wire = two_link_wire(2_000, 3_000);
    wire.delegation_chain[0].delegation.expiration += 1;
    assert_eq!(derive_principal(&wire, 1_000), Err(AuthError::InvalidDelegation));

    let mut wire = two_link_wire(2_000, 3_000);
    wire.delegation_chain[1].delegation.targets = Some(vec![root_principal(1)]);
    assert_eq!(derive_principal(&wire, 1_000), Err(AuthError::InvalidDelegation));
}

#[test]
fn expired_link_is_expired_at_every_position() {
    let first_expired = two_link_wire(1_000, 3_000);
    assert_eq!(derive_principal(&first_expired, 1_500), Err(AuthError::DelegationExpired));
    let second_expired = two_link_wire(3_000, 1_000);
    assert_eq!(derive_principal(&second_expired, 1_500), Err(AuthError::DelegationExpired));
}

#[test]
fn expiration_is_exclusive() {
    let wire = two_link_wire(2_000, 3_000);
    assert_eq!(derive_principal(&wire, 1_999), Ok(root_principal(1)));
    assert_eq!(derive_principal(&wire, 2_000), Err(AuthError::DelegationExpired));
}

#[test]
fn first_failing_link_decides_the_error() {
    // An expired first link comes before a forged second link.
    let mut wire = two_link_wire(1_000, 3_000);
    wire.delegation_chain[1].signature[5] ^= 0xff;
    assert_eq!(derive_principal(&wire, 1_500), Err(AuthError::DelegationExpired));

    // A forged first link comes before an expired second link.
    let mut wire = two_link_wire(3_000, 1_000);
    wire.delegation_chain[0].signature[5] ^= 0xff;
    assert_eq!(derive_principal(&wire, 1_500), Err(AuthError::InvalidDelegation));

    // A link that is both forged and expired is reported as forged.
    let mut wire = two_link_wire(1_000, 3_000);
    wire.delegation_chain[0].signature[5] ^= 0xff;
    assert_eq!(derive_principal(&wire, 1_500), Err(AuthError::InvalidDelegation));
}

#[test]
fn unreadable_keys_are_key_format_errors() {
    let mut wire = two_link_wire(2_000, 3_000);
    wire.to_secret = "not a key".to_string();
    assert_eq!(derive_principal(&wire, 1_000), Err(AuthError::KeyFormatError));

    let mut wire = two_link_wire(2_000, 3_000);
    wire.from_key = vec![1, 2, 3];
    assert_eq!(derive_principal(&wire, 1_000), Err(AuthError::KeyFormatError));

    let mut wire = two_link_wire(2_000, 3_000);
    wire.delegation_chain[0].signature.truncate(10);
    assert_eq!(derive_principal(&wire, 1_000), Err(AuthError::KeyFormatError));
}

#[test]
fn empty_chain_with_unreadable_terminal_key_is_a_key_format_error() {
    let wire = DelegatedIdentityWire {
        from_key: der_public_key(&fixed_key(7)),
        to_secret: "{\"kty\":\"EC\"}".to_string(),
        delegation_chain: vec![],
    };
    assert_eq!(derive_principal(&wire, 0), Err(AuthError::KeyFormatError));
}

#[test]
fn empty_chain_with_unreadable_root_key_is_a_key_mismatch() {
    let wire = DelegatedIdentityWire {
        from_key: vec![0x30, 0x00],
        to_secret: fixed_key(7).to_jwk().to_string(),
        delegation_chain: vec![],
    };
    assert_eq!(derive_principal(&wire, 0), Err(AuthError::EmptyChainKeyMismatch));
}

#[test]
fn chain_errors_come_before_terminal_key_errors() {
    let mut wire = two_link_wire(1_000, 3_000);
    wire.to_secret = "not a key".to_string();
    assert_eq!(derive_principal(&wire, 1_500), Err(AuthError::DelegationExpired));
}

#[test]
fn derivation_is_repeatable() {
    let wire = two_link_wire(2_000, 3_000);
    let first = derive_principal(&wire, 10);
    let second = derive_principal(&wire, 1_999);
    assert_eq!(first, second);
    assert_eq!(first, Ok(root_principal(1)));
}

#[test]
fn delegation_with_targets_verifies() {
    let root = Secp256k1Identity::from_private_key(fixed_key(1));
    let target = candid::Principal::from_text("aaaaa-aa").unwrap();
    let delegation = ic_agent::identity::Delegation {
        pubkey: der_public_key(&fixed_key(2)),
        expiration: 5_000,
        targets: Some(vec![target]),
    };
    let signature = root.sign_delegation(&delegation).unwrap().signature.unwrap();
    let wire = DelegatedIdentityWire {
        from_key: root.public_key().unwrap(),
        to_secret: fixed_key(2).to_jwk().to_string(),
        delegation_chain: vec![library_link(&ic_agent::identity::SignedDelegation {
            delegation,
            signature,
        })],
    };
    assert_eq!(derive_principal(&wire, 1_000), Ok(root_principal(1)));
}

fn principal_of_key(public_key: &[u8]) -> Principal {
    Principal::from_slice(candid::Principal::self_authenticating(public_key).as_slice()).unwrap()
}

#[test]
fn ed25519_root_key_signs_a_chain() {
    let root = BasicIdentity::from_signing_key(ed25519_consensus::SigningKey::from([5u8; 32]));
    let root_key = root.public_key().unwrap();
    let wire = wire_expiring_at(root, fixed_key(2), 2_000);
    assert_eq!(derive_principal(&wire, 1_000), Ok(principal_of_key(&root_key)));

    let mut forged = wire.clone();
    forged.delegation_chain[0].signature[40] ^= 0x10;
    assert_eq!(derive_principal(&forged, 1_000), Err(AuthError::InvalidDelegation));
    assert_eq!(derive_principal(&wire, 2_000), Err(AuthError::DelegationExpired));
}

#[test]
fn p256_root_key_signs_a_chain() {
    let root = Prime256v1Identity::from_private_key(p256::SecretKey::from_slice(&[6u8; 32]).unwrap());
    let root_key = root.public_key().unwrap();
    let wire = wire_expiring_at(root, fixed_key(2), 2_000);
    assert_eq!(derive_principal(&wire, 1_000), Ok(principal_of_key(&root_key)));

    let mut forged = wire.clone();
    forged.delegation_chain[0].signature[3] ^= 0x10;
    assert_eq!(derive_principal(&forged, 1_000), Err(AuthError::InvalidDelegation));
}

#[test]
fn three_links_of_mixed_keys() {
    let root = BasicIdentity::from_signing_key(ed25519_consensus::SigningKey::from([5u8; 32]));
    let root_key = root.public_key().unwrap();
    let first = wire_expiring_at(root, fixed_key(2), 5_000);
    let second = wire_expiring_at(agent_identity(&first), fixed_key(3), 4_000);
    let third = wire_expiring_at(agent_identity(&second), fixed_key(4), 3_000);
    assert_eq!(third.delegation_chain.len(), 3);
    assert_eq!(derive_principal(&third, 2_999), Ok(principal_of_key(&root_key)));
    assert_eq!(derive_principal(&third, 3_000), Err(AuthError::DelegationExpired));

    // A chain with its links out of order is broken at the first of them.
    let mut shuffled = third.clone();
    shuffled.delegation_chain.swap(1, 2);
    assert_eq!(derive_principal(&shuffled, 10), Err(AuthError::InvalidDelegation));

    // A chain that lacks its last link ends in another key than the terminal one.
    let mut short = third.clone();
    short.delegation_chain.pop();
    assert_eq!(derive_principal(&short, 10), Err(AuthError::InvalidDelegation));
}

#[test]
fn key_of_an_unknown_algorithm_is_a_key_format_error() {
    // An RSA key as the root: well formed, but none of the supported algorithms.
    let rsa_spki: Vec<u8> = vec![
        0x30, 0x1a, 0x30, 0x0d, 0x06, 0x09, 0x2a, 0x86, 0x48, 0x86, 0xf7, 0x0d, 0x01, 0x01, 0x01,
        0x05, 0x00, 0x03, 0x09, 0x00, 0x30, 0x06, 0x02, 0x01, 0x03, 0x02, 0x01, 0x03,
    ];
    let mut wire = two_link_wire(2_000, 3_000);
    wire.from_key = rsa_spki;
    assert_eq!(derive_principal(&wire, 1_000), Err(AuthError::KeyFormatError));
}
