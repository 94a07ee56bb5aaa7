use signal_wasm::error::{BridgeError, ErrorCode, ProtocolError, ProtocolErrorKind};
use signal_wasm::keys::{
    sign_with_identity_key, verify_identity_signature, WasmIdentityKeyPair, WasmPrivateKey,
    WasmPublicKey,
};

fn derive(key: &WasmPrivateKey) -> Result<Vec<u8>, String> {
    let mut public = vec![0x05u8];
    for byte in key.serialize() {
        public.push(byte ^ 0x5A);
    }
    Ok(public)
}

fn decode_public(data: &[u8]) -> Result<Vec<u8>, String> {
    if data.len() == 33 && data[0] == 0x05 {
        Ok(data.to_vec())
    } else {
        Err("bad public key".to_string())
    }
}

fn decode_private(data: &[u8]) -> Result<Vec<u8>, String> {
    if data.len() == 32 {
        Ok(data.to_vec())
    } else {
        Err("bad private key".to_string())
    }
}

fn encode_pair(public: &WasmPublicKey, private: &WasmPrivateKey) -> Vec<u8> {
    let mut bytes = public.serialize();
    bytes.extend(private.serialize());
    bytes
}

fn decode_pair(data: &[u8]) -> Result<(Vec<u8>, Vec<u8>), ProtocolError> {
    if data.len() == 65 {
        Ok((data[..33].to_vec(), data[33..].to_vec()))
    } else {
        Err(ProtocolError { kind: ProtocolErrorKind::Other, detail: "short".to_string() })
    }
}

fn digest(public: &[u8], message: &[u8]) -> Vec<u8> {
    let mut signature = vec![0u8; 64];
    for (i, byte) in public.iter().chain(message.iter()).enumerate() {
        let at = i % 64;
        signature[at] = signature[at].wrapping_mul(31).wrapping_add(*byte).wrapping_add(1);
    }
    signature
}

fn sign(key: &WasmPrivateKey, message: &[u8]) -> Result<Vec<u8>, String> {
    Ok(digest(&derive(key)?, message))
}

fn verify(key: &WasmPublicKey, message: &[u8], signature: &[u8]) -> bool {
    digest(&key.serialize(), message) == signature
}

fn create_test_identity(seed: u8) -> WasmIdentityKeyPair {
    let private_key = WasmPrivateKey::generate(|| vec![seed; 32]);
    let public_key = private_key.get_public_key(derive).unwrap();
    WasmIdentityKeyPair::new(&public_key, &private_key)
}

#[test]
fn test_identity_key_generation() {
    let private_key = WasmPrivateKey::generate(|| vec![7u8; 32]);
    let public_key = private_key.get_public_key(derive).expect("Failed to derive public key");

    assert!(!public_key.serialize().is_empty());

    let identity_key_pair = WasmIdentityKeyPair::new(&public_key, &private_key);
    assert_eq!(identity_key_pair.public_key().serialize(), public_key.serialize());
    assert_eq!(identity_key_pair.private_key().serialize(), private_key.serialize());

    // Round-trip serialization
    let serialized = identity_key_pair.serialize(encode_pair);
    let restored =
        WasmIdentityKeyPair::deserialize(&serialized, decode_pair).expect("Deserialization failed");
    assert_eq!(restored.public_key().serialize(), public_key.serialize());
    assert_eq!(restored.private_key().serialize(), private_key.serialize());
}

#[test]
fn test_identity_proof_of_possession() {
    let identity = create_test_identity(9);
    let message = b"re-key authorisation challenge 0123456789";

    // Round-trip.
    let signature = sign_with_identity_key(&identity.private_key(), message, sign)
        .expect("signing failed");
    assert_eq!(signature.len(), 64, "XEdDSA signature is 64 bytes");
    assert!(verify_identity_signature(&identity.public_key(), message, &signature, verify));

    // Negative: wrong message.
    assert!(!verify_identity_signature(
        &identity.public_key(),
        b"different challenge",
        &signature,
        verify
    ));

    // Negative: wrong key.
    let other_identity = create_test_identity(10);
    assert!(!verify_identity_signature(
        &other_identity.public_key(),
        message,
        &signature,
        verify
    ));

    // Negative: malformed signature must return false, not throw.
    assert!(!verify_identity_signature(&identity.public_key(), message, &[0u8; 8], verify));
}

#[test]
fn a_failed_signature_is_generic() {
    let identity = create_test_identity(1);
    let refused = sign_with_identity_key(&identity.private_key(), b"m", |_key, _message| {
        Err("no entropy".to_string())
    });
    match refused {
        Err(e) => {
            assert_eq!(e.code(), ErrorCode::Generic);
            assert_eq!(e.message(true), "SignalError: no entropy");
            assert_eq!(e.message(false), "SignalError: Operation failed");
        }
        Ok(_) => panic!("must fail"),
    }
}

#[test]
fn keys_are_held_as_the_decoder_gives_them() {
    let public = WasmPublicKey::deserialize(&[0x05u8; 33], decode_public).ok().unwrap();
    assert_eq!(public.serialize(), vec![0x05u8; 33]);
    assert_eq!(public.clone().serialize(), vec![0x05u8; 33]);
    let private = WasmPrivateKey::deserialize(&[3u8; 32], decode_private).ok().unwrap();
    assert_eq!(private.serialize(), vec![3u8; 32]);
    assert_eq!(private.clone().serialize(), vec![3u8; 32]);

    // A decoder that normalises is taken at its word.
    let clamped = WasmPrivateKey::deserialize(&[3u8; 32], |data| {
        let mut bytes = data.to_vec();
        bytes[0] &= 248;
        Ok(bytes)
    });
    assert_eq!(clamped.ok().unwrap().serialize()[0], 0);
}

#[test]
fn undecodable_keys_are_generic_and_identities_follow_the_protocol() {
    match WasmPublicKey::deserialize(&[1, 2, 3], decode_public) {
        Err(BridgeError::Generic(detail)) => assert_eq!(detail, "bad public key"),
        _ => panic!("must be a generic error"),
    }
    match WasmPrivateKey::deserialize(&[1, 2, 3], decode_private) {
        Err(BridgeError::Generic(detail)) => assert_eq!(detail, "bad private key"),
        _ => panic!("must be a generic error"),
    }
    match WasmIdentityKeyPair::deserialize(&[1, 2, 3], decode_pair) {
        Err(BridgeError::Protocol(e)) => {
            assert_eq!(e.kind, ProtocolErrorKind::Other);
            assert_eq!(e.detail, "short");
        }
        _ => panic!("must be a protocol error"),
    }
    let private_key = WasmPrivateKey::generate(|| vec![7u8; 32]);
    match private_key.get_public_key(|_key| Err("no point".to_string())) {
        Err(BridgeError::Generic(detail)) => assert_eq!(detail, "no point"),
        _ => panic!("must be a generic error"),
    }
}

#[test]
fn a_cloned_identity_has_the_same_keys() {
    let identity = create_test_identity(4);
    let copy = identity.clone();
    assert_eq!(copy.public_key().serialize(), identity.public_key().serialize());
    assert_eq!(copy.private_key().serialize(), identity.private_key().serialize());
}
