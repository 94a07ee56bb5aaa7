use signal_wasm::address::WasmProtocolAddress;
use signal_wasm::error::{ErrorCode, ProtocolError, ProtocolErrorKind};
use signal_wasm::identity_store::WasmInMemIdentityKeyStore;
use signal_wasm::keys::{WasmIdentityKeyPair, WasmPrivateKey};

fn identity(seed: u8) -> WasmIdentityKeyPair {
    let private_key = WasmPrivateKey::generate(|| vec![seed; 32]);
    let public_key = private_key
        .get_public_key(|key| {
            let mut public = vec![0x05u8];
            public.extend(key.serialize());
            Ok(public)
        })
        .unwrap();
    WasmIdentityKeyPair::new(&public_key, &private_key)
}

fn decode(data: &[u8]) -> Result<Vec<u8>, ProtocolError> {
    if data.len() == 33 && data[0] == 0x05 {
        Ok(data.to_vec())
    } else {
        Err(ProtocolError { kind: ProtocolErrorKind::Other, detail: "bad key type".to_string() })
    }
}

fn address(name: &str, device: u32) -> WasmProtocolAddress {
    WasmProtocolAddress::new(name.to_string(), device).unwrap()
}

#[test]
fn test_pinned_remote_identity_never_silently_replaces_a_key() {
    let mut store = WasmInMemIdentityKeyStore::new(&identity(1), 77);
    let address = address("00000000-0000-0000-0000-00000000000B", 1);
    let remote_bytes = identity(2).public_key().serialize();

    assert!(store
        .pin_remote_identity(&address, &remote_bytes, decode)
        .expect("first pin must succeed"));
    assert!(!store
        .pin_remote_identity(&address, &remote_bytes, decode)
        .expect("identical pin must be idempotent"));
    assert_eq!(
        store
            .pinned_remote_identity(&address)
            .expect("pinned identity lookup must succeed"),
        Some(remote_bytes.clone())
    );
    store
        .assert_pinned_remote_identity(&address, &remote_bytes, decode)
        .expect("matching pin must be accepted");

    let replacement_bytes = identity(3).public_key().serialize();
    let replace_error = store
        .pin_remote_identity(&address, &replacement_bytes, decode)
        .expect_err("a pin replacement must be rejected");
    assert_eq!(replace_error.code().as_str(), "PinnedIdentityMismatch");
    assert_eq!(
        replace_error.message(false),
        "A different remote identity is already pinned for this address"
    );
    let assert_error = store
        .assert_pinned_remote_identity(&address, &replacement_bytes, decode)
        .expect_err("a non-matching pin must be rejected");
    assert_eq!(assert_error.code().as_str(), "PinnedIdentityMismatch");
    assert_eq!(assert_error.message(false), "The pinned remote identity does not match");

    // The pin is what it was.
    assert_eq!(store.pinned_remote_identity(&address).unwrap(), Some(remote_bytes));
}

#[test]
fn a_missing_pin_is_no_approval() {
    let store = WasmInMemIdentityKeyStore::new(&identity(1), 77);
    let address = address("bob", 1);
    let key = identity(2).public_key().serialize();
    assert_eq!(store.pinned_remote_identity(&address).unwrap(), None);
    let e = store
        .assert_pinned_remote_identity(&address, &key, decode)
        .expect_err("nothing is pinned");
    assert_eq!(e.code(), ErrorCode::PinnedIdentityMissing);
    assert_eq!(e.message(true), "No remote identity is pinned for this address");
}

#[test]
fn an_undecodable_key_is_reported_before_the_pins_are_asked() {
    let mut store = WasmInMemIdentityKeyStore::new(&identity(1), 77);
    let address = address("bob", 1);
    let e = store.pin_remote_identity(&address, &[1, 2], decode).expect_err("undecodable");
    assert_eq!(e.code(), ErrorCode::Generic);
    assert_eq!(e.message(true), "SignalError: bad key type");
    assert_eq!(store.pinned_remote_identity(&address).unwrap(), None);
    let e = store
        .assert_pinned_remote_identity(&address, &[1, 2], decode)
        .expect_err("undecodable");
    assert_eq!(e.message(true), "SignalError: bad key type");
}

#[test]
fn pins_are_kept_by_name_and_device() {
    let mut store = WasmInMemIdentityKeyStore::new(&identity(1), 77);
    let key = identity(2).public_key().serialize();
    assert!(store.pin_remote_identity(&address("bob", 1), &key, decode).unwrap());
    assert_eq!(store.pinned_remote_identity(&address("bob", 2)).unwrap(), None);
    assert_eq!(store.pinned_remote_identity(&address("bobby", 1)).unwrap(), None);
    assert!(store.pin_remote_identity(&address("bob", 2), &key, decode).unwrap());
}

#[test]
fn pins_survive_a_restart() {
    let mut store = WasmInMemIdentityKeyStore::new(&identity(1), 77);
    let addresses = [address("bob", 1), address("carol", 1), address("carol", 2)];
    for (i, address) in addresses.iter().enumerate() {
        let key = identity(10 + i as u8).public_key().serialize();
        assert!(store.pin_remote_identity(address, &key, decode).unwrap());
    }
    let mut restored = WasmInMemIdentityKeyStore::new(&identity(1), 77);
    for address in &addresses {
        let key = store.pinned_remote_identity(address).unwrap().unwrap();
        assert!(restored.pin_remote_identity(address, &key, decode).unwrap());
    }
    for (i, address) in addresses.iter().enumerate() {
        let key = identity(10 + i as u8).public_key().serialize();
        restored.assert_pinned_remote_identity(address, &key, decode).unwrap();
    }
}

#[test]
fn a_pin_decides_trust() {
    let mut store = WasmInMemIdentityKeyStore::new(&identity(1), 77);
    let bob = address("bob", 1);
    let key = identity(2).public_key().serialize();
    let other = identity(3).public_key().serialize();
    assert!(store.is_trusted_identity(&bob, &other));
    assert!(store.pin_remote_identity(&bob, &key, decode).unwrap());
    assert!(store.is_trusted_identity(&bob, &key));
    assert!(!store.is_trusted_identity(&bob, &other));
    store.save_identity(&bob, key.clone()).unwrap();
    assert_eq!(store.pinned_remote_identity(&bob).unwrap(), Some(key.clone()));
    // Saving replaces no pin either.
    let e = store.save_identity(&bob, other.clone()).expect_err("another key is pinned");
    assert_eq!(e.kind, ProtocolErrorKind::UntrustedIdentity);
    assert_eq!(e.detail, "another identity is pinned for this address");
    store.assert_pinned_remote_identity(&bob, &key, decode).unwrap();
    let carol = address("carol", 1);
    store.save_identity(&carol, other.clone()).unwrap();
    assert_eq!(store.pinned_remote_identity(&carol).unwrap(), Some(other));
}

#[test]
fn the_local_identity_is_the_given_one() {
    let local = identity(1);
    let store = WasmInMemIdentityKeyStore::new(&local, 16380);
    assert_eq!(store.local_registration_id(), 16380);
    let pair = store.identity_key_pair();
    assert_eq!(pair.public_key().serialize(), local.public_key().serialize());
    assert_eq!(pair.private_key().serialize(), local.private_key().serialize());
}
