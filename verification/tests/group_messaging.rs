use signal_wasm::address::WasmProtocolAddress;
use signal_wasm::error::{BridgeError, ErrorCode, ProtocolError, ProtocolErrorKind};
use signal_wasm::group_messages::{
    create_sender_key_distribution, decrypt_group_message, encrypt_group_message,
    process_sender_key_distribution,
};
use signal_wasm::ids::{generate_uuid, uuid_from_string, uuid_to_string};
use signal_wasm::sender_keys::{RemovableSenderKeyStore, WasmInMemSenderKeyStore};
use std::cell::Cell;

// A miniature protocol. A sender key record is `[key, counter]`. A distribution
// message is the distribution id and the record, and a group message is the
// distribution id, the counter and the masked text.

fn no_sender_key() -> ProtocolError {
    ProtocolError {
        kind: ProtocolErrorKind::NoSenderKeyState,
        detail: "no sender key state".to_string(),
    }
}

fn create(
    fresh: &Cell<u8>,
    local: &WasmProtocolAddress,
    id: &Vec<u8>,
    keys: &mut WasmInMemSenderKeyStore,
) -> Result<Vec<u8>, ProtocolError> {
    let record = match keys.load_sender_key(local, id) {
        Some(record) => record,
        None => {
            fresh.set(fresh.get() + 1);
            vec![fresh.get(), 0]
        }
    };
    keys.store_sender_key(local, id, record.clone());
    let mut message = id.clone();
    message.extend(record);
    Ok(message)
}

fn parse(data: &[u8]) -> Result<Vec<u8>, ProtocolError> {
    if data.len() == 18 {
        Ok(data.to_vec())
    } else {
        Err(ProtocolError { kind: ProtocolErrorKind::Other, detail: "short".to_string() })
    }
}

fn process(
    sender: &WasmProtocolAddress,
    message: &Vec<u8>,
    keys: &mut WasmInMemSenderKeyStore,
) -> Result<(), ProtocolError> {
    keys.store_sender_key(sender, &message[..16].to_vec(), message[16..].to_vec());
    Ok(())
}

fn encrypt(
    keys: &mut WasmInMemSenderKeyStore,
    local: &WasmProtocolAddress,
    id: &Vec<u8>,
    plaintext: &[u8],
) -> Result<Vec<u8>, ProtocolError> {
    let mut record = keys.load_sender_key(local, id).ok_or_else(no_sender_key)?;
    let mut message = id.clone();
    message.push(record[1]);
    message.extend(plaintext.iter().map(|b| b ^ record[0]));
    record[1] += 1;
    keys.store_sender_key(local, id, record);
    Ok(message)
}

fn decrypt(
    ciphertext: &[u8],
    keys: &mut WasmInMemSenderKeyStore,
    sender: &WasmProtocolAddress,
) -> Result<Vec<u8>, ProtocolError> {
    let id = ciphertext[..16].to_vec();
    let record = keys.load_sender_key(sender, &id).ok_or_else(no_sender_key)?;
    Ok(ciphertext[17..].iter().map(|b| b ^ record[0]).collect())
}

fn alice() -> WasmProtocolAddress {
    WasmProtocolAddress::new("00000000-0000-0000-0000-00000000000A".to_string(), 1).unwrap()
}

/// Mint a caller-supplied distribution id.
fn mint_distribution_id() -> String {
    uuid_to_string(&generate_uuid()).expect("Failed to mint distribution id")
}

fn distribute(
    keys: &mut WasmInMemSenderKeyStore,
    distribution_id: &str,
    fresh: &Cell<u8>,
) -> Result<Vec<u8>, BridgeError> {
    create_sender_key_distribution(
        &alice(),
        distribution_id.to_string(),
        keys,
        |local, id, keys| create(fresh, local, id, keys),
    )
}

#[test]
fn test_group_messaging() {
    // Caller-minted distribution id (must be a UUID string).
    let distribution_id = mint_distribution_id();
    let fresh = Cell::new(0u8);
    let mut alice_sender_key_store = WasmInMemSenderKeyStore::new();
    let mut bob_sender_key_store = WasmInMemSenderKeyStore::new();

    // 1. Alice Creates Group (SenderKeyDistribution)
    let dist_msg = distribute(&mut alice_sender_key_store, &distribution_id, &fresh)
        .expect("Failed to create sender key distribution");

    // 2. Bob Processes Distribution
    process_sender_key_distribution(
        &alice(),
        &dist_msg,
        &mut bob_sender_key_store,
        parse,
        process,
    )
    .expect("Bob failed to process distribution");

    // 3. Alice Encrypts to Group
    let plaintext = b"Group Hello";
    let group_cipher = encrypt_group_message(
        &alice(),
        distribution_id.clone(),
        plaintext,
        &mut alice_sender_key_store,
        encrypt,
    )
    .expect("Group encryption failed");

    // 4. Bob Decrypts
    let decrypted =
        decrypt_group_message(&alice(), &group_cipher, &mut bob_sender_key_store, decrypt)
            .expect("Group decryption failed");

    assert_eq!(decrypted, plaintext);
}

#[test]
fn test_group_roundtrip_caller_minted_distribution_id() {
    let fresh = Cell::new(0u8);
    let mut alice_sender_key_store = WasmInMemSenderKeyStore::new();

    // Caller-minted distribution id, threaded end-to-end.
    let distribution_id = mint_distribution_id();

    // 1. Alice creates the distribution under the caller-minted id.
    distribute(&mut alice_sender_key_store, &distribution_id, &fresh)
        .expect("Failed to create sender key distribution");

    // 2. Export the record and hydrate a fresh store (persistence path).
    let exported = alice_sender_key_store
        .export_sender_key(&alice(), distribution_id.clone())
        .expect("Failed to export sender key")
        .expect("Sender key missing after create");

    let mut restored_sender_key_store = WasmInMemSenderKeyStore::new();
    restored_sender_key_store
        .import_sender_key(&alice(), distribution_id.clone(), &exported, |data| Ok(data.to_vec()))
        .expect("Failed to import sender key");

    // 3. Encrypt on Alice's store, decrypt on the restored store.
    let plaintext = b"Hydrated group round-trip";
    let ciphertext = encrypt_group_message(
        &alice(),
        distribution_id.clone(),
        plaintext,
        &mut alice_sender_key_store,
        encrypt,
    )
    .expect("Group encryption failed");

    let decrypted =
        decrypt_group_message(&alice(), &ciphertext, &mut restored_sender_key_store, decrypt)
            .expect("Group decryption on restored store failed");

    assert_eq!(decrypted, plaintext);
}

#[test]
fn test_group_decrypt_wrong_distribution_id_fails() {
    let fresh = Cell::new(0u8);
    let mut alice_sender_key_store = WasmInMemSenderKeyStore::new();
    let mut bob_sender_key_store = WasmInMemSenderKeyStore::new();

    let known_distribution_id = mint_distribution_id();
    let unknown_distribution_id = mint_distribution_id();

    // Bob knows only `known_distribution_id`.
    let dist_msg = distribute(&mut alice_sender_key_store, &known_distribution_id, &fresh)
        .expect("Failed to create sender key distribution");
    process_sender_key_distribution(
        &alice(),
        &dist_msg,
        &mut bob_sender_key_store,
        parse,
        process,
    )
    .expect("Bob failed to process distribution");

    // Alice encrypts under a different distribution id; the ciphertext
    // therefore embeds an id Bob has no record for.
    distribute(&mut alice_sender_key_store, &unknown_distribution_id, &fresh)
        .expect("Failed to create second distribution");
    let ciphertext = encrypt_group_message(
        &alice(),
        unknown_distribution_id.clone(),
        b"Wrong id",
        &mut alice_sender_key_store,
        encrypt,
    )
    .expect("Group encryption failed");

    let err = decrypt_group_message(&alice(), &ciphertext, &mut bob_sender_key_store, decrypt)
        .expect_err("Decryption with the wrong distribution id must fail");

    assert_eq!(err.code().as_str(), "NoSenderKeyState");
    assert!(err.message(true).starts_with("SignalError:"));
    assert!(err.message(false).starts_with("SignalError:"));
}

#[test]
fn test_remove_sender_key_rotates_key_material() {
    let fresh = Cell::new(0u8);
    let mut alice_sender_key_store = WasmInMemSenderKeyStore::new();
    let distribution_id = mint_distribution_id();

    // 1. Create and export the original key material.
    distribute(&mut alice_sender_key_store, &distribution_id, &fresh)
        .expect("Failed to create sender key distribution");
    let original = alice_sender_key_store
        .export_sender_key(&alice(), distribution_id.clone())
        .expect("Failed to export sender key")
        .expect("Sender key missing after create");

    // 2. Remove: export must then return None, and a second remove is a no-op.
    let removed = alice_sender_key_store
        .remove_sender_key(&alice(), distribution_id.clone())
        .expect("Failed to remove sender key");
    assert!(removed, "remove_sender_key should report a removed record");

    let after_remove = alice_sender_key_store
        .export_sender_key(&alice(), distribution_id.clone())
        .expect("Failed to export after remove");
    assert!(after_remove.is_none(), "export after remove must be None");

    let removed_again = alice_sender_key_store
        .remove_sender_key(&alice(), distribution_id.clone())
        .expect("Second remove failed");
    assert!(!removed_again, "second remove_sender_key should report no record");

    // 3. Re-create under the same distribution id: fresh key material.
    let new_dist_msg = distribute(&mut alice_sender_key_store, &distribution_id, &fresh)
        .expect("Failed to re-create distribution");
    let rotated = alice_sender_key_store
        .export_sender_key(&alice(), distribution_id.clone())
        .expect("Failed to export rotated sender key")
        .expect("Sender key missing after re-create");

    assert_ne!(original, rotated, "remove + re-create must produce fresh key material");

    // 4. The rotated distribution is fully functional.
    let mut bob_sender_key_store = WasmInMemSenderKeyStore::new();
    process_sender_key_distribution(
        &alice(),
        &new_dist_msg,
        &mut bob_sender_key_store,
        parse,
        process,
    )
    .expect("Bob failed to process rotated distribution");

    let plaintext = b"Post-rotation message";
    let ciphertext = encrypt_group_message(
        &alice(),
        distribution_id.clone(),
        plaintext,
        &mut alice_sender_key_store,
        encrypt,
    )
    .expect("Post-rotation encryption failed");
    let decrypted =
        decrypt_group_message(&alice(), &ciphertext, &mut bob_sender_key_store, decrypt)
            .expect("Post-rotation decryption failed");
    assert_eq!(decrypted, plaintext);
}

#[test]
fn test_group_decrypt_unknown_distribution_error_code() {
    let fresh = Cell::new(0u8);
    let mut alice_sender_key_store = WasmInMemSenderKeyStore::new();
    let distribution_id = mint_distribution_id();

    distribute(&mut alice_sender_key_store, &distribution_id, &fresh)
        .expect("Failed to create sender key distribution");
    let ciphertext = encrypt_group_message(
        &alice(),
        distribution_id.clone(),
        b"Unknown to Bob",
        &mut alice_sender_key_store,
        encrypt,
    )
    .expect("Group encryption failed");

    // Bob never processed any SKDM, so the record lookup misses.
    let mut fresh_sender_key_store = WasmInMemSenderKeyStore::new();
    let err = decrypt_group_message(&alice(), &ciphertext, &mut fresh_sender_key_store, decrypt)
        .expect_err("Decryption with an unknown distribution id must fail");

    assert_eq!(err.code().as_str(), "NoSenderKeyState");
    assert!(err.message(true).starts_with("SignalError:"));
}

#[test]
fn test_group_rejects_non_uuid_distribution_id() {
    let fresh = Cell::new(0u8);
    let mut sender_key_store = WasmInMemSenderKeyStore::new();

    // Arbitrary group strings are no distribution ids.
    let err = distribute(&mut sender_key_store, "team:general-chat-1", &fresh)
        .expect_err("Non-UUID distribution id must be rejected");
    assert_eq!(err.code().as_str(), "Generic");

    let err = encrypt_group_message(
        &alice(),
        "not-a-uuid".to_string(),
        b"x",
        &mut sender_key_store,
        encrypt,
    )
    .expect_err("Non-UUID distribution id must be rejected");
    assert_eq!(err.code().as_str(), "Generic");
    assert_eq!(
        err.message(false),
        "Invalid distribution id (must be a UUID string): not-a-uuid"
    );
    assert_eq!(fresh.get(), 0);
}

#[test]
fn the_store_refuses_other_ids_too() {
    let mut store = WasmInMemSenderKeyStore::default();
    let text = "Invalid distribution id (must be a UUID string): general";
    let e = store.export_sender_key(&alice(), "general".to_string()).expect_err("no UUID");
    assert_eq!(e.message(false), text);
    let asked = Cell::new(false);
    let e = store
        .import_sender_key(&alice(), "general".to_string(), &[1], |data| {
            asked.set(true);
            Ok(data.to_vec())
        })
        .expect_err("no UUID");
    assert_eq!(e.message(false), text);
    assert!(!asked.get());
    let e = store.remove_sender_key(&alice(), "general".to_string()).expect_err("no UUID");
    assert_eq!(e.message(false), text);
    assert_eq!(e.code(), ErrorCode::Generic);
}

#[test]
fn one_distribution_may_be_spelled_in_several_ways() {
    let mut store = WasmInMemSenderKeyStore::new();
    let id = "67e55044-10b1-426f-9247-bb680e5fe0c8";
    store.import_sender_key(&alice(), id.to_string(), &[4], |data| Ok(data.to_vec())).unwrap();
    for spelling in [
        "67E55044-10B1-426F-9247-BB680E5FE0C8",
        "67e5504410b1426f9247bb680e5fe0c8",
        "{67e55044-10b1-426f-9247-bb680e5fe0c8}",
        "urn:uuid:67e55044-10b1-426f-9247-bb680e5fe0c8",
    ] {
        let record = store.export_sender_key(&alice(), spelling.to_string()).unwrap();
        assert_eq!(record, Some(vec![4]));
    }
    let bytes = uuid_from_string(id).unwrap();
    assert_eq!(store.load_sender_key(&alice(), &bytes), Some(vec![4]));
}

#[test]
fn records_are_kept_by_sender_and_distribution() {
    let mut store = RemovableSenderKeyStore::new();
    let bob = WasmProtocolAddress::new("bob".to_string(), 1).unwrap();
    let (one, two) = (vec![1u8; 16], vec![2u8; 16]);
    store.store_sender_key(&alice(), &one, vec![11]);
    store.store_sender_key(&alice(), &two, vec![12]);
    store.store_sender_key(&bob, &one, vec![21]);
    store.store_sender_key(&alice(), &one, vec![13]);
    assert_eq!(store.load_sender_key(&alice(), &one), Some(vec![13]));
    assert!(store.remove(&alice(), &one));
    assert!(!store.remove(&alice(), &one));
    assert_eq!(store.load_sender_key(&alice(), &one), None);
    assert_eq!(store.load_sender_key(&alice(), &two), Some(vec![12]));
    assert_eq!(store.load_sender_key(&bob, &one), Some(vec![21]));
}

#[test]
fn unreadable_messages_change_nothing() {
    let mut store = WasmInMemSenderKeyStore::new();
    let e = process_sender_key_distribution(&alice(), &[1, 2], &mut store, parse, process)
        .expect_err("short");
    assert_eq!(e.message(true), "SignalError: short");
    let id = mint_distribution_id();
    let e = store
        .import_sender_key(&alice(), id.clone(), &[1], |_data| {
            Err(ProtocolError { kind: ProtocolErrorKind::Other, detail: "bad".to_string() })
        })
        .expect_err("bad");
    assert_eq!(e.message(true), "SignalError: bad");
    assert_eq!(store.export_sender_key(&alice(), id).unwrap(), None);
}
