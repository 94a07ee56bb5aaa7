use signal_wasm::address::WasmProtocolAddress;
use signal_wasm::error::{BridgeError, ErrorCode, ProtocolError, ProtocolErrorKind};
use signal_wasm::identity_store::WasmInMemIdentityKeyStore;
use signal_wasm::keys::{WasmIdentityKeyPair, WasmPrivateKey, WasmPublicKey};
use signal_wasm::messages::{
    decrypt_message, encrypt_message, message_type_pre_key, message_type_sender_key,
    message_type_signal, process_pre_key_bundle, BundleParts, MessageKind, SealedMessage,
    WasmCiphertext,
};
use signal_wasm::pre_key_stores::{
    WasmInMemKyberPreKeyStore, WasmInMemPreKeyStore, WasmInMemSignedPreKeyStore,
};
use signal_wasm::session_store::WasmInMemSessionStore;
use std::cell::Cell;

// A miniature protocol. A session record is `[acknowledged, sent, received, key]`.
// A message that sets a session up is the sender's public key, the id of the one-time
// key (0 for none), the session key, a counter and the masked text; any other is the
// counter and the masked text.

fn error(kind: ProtocolErrorKind, detail: &str) -> ProtocolError {
    ProtocolError { kind, detail: detail.to_string() }
}

struct ToyBundle {
    one_time: u8,
    key: u8,
    identity: Vec<u8>,
}

struct ToyMessage {
    kind: MessageKind,
    bytes: Vec<u8>,
}

fn build(parts: BundleParts<u8>) -> Result<ToyBundle, ProtocolError> {
    if parts.signed_pre_key_signature.is_empty() {
        return Err(error(ProtocolErrorKind::Other, "unsigned"));
    }
    let one_time = match &parts.pre_key {
        Some((id, _key)) => *id as u8,
        None => 0,
    };
    Ok(ToyBundle { one_time, key: parts.kyber_pre_key, identity: parts.identity_key.serialize() })
}

fn process(
    recipient: &WasmProtocolAddress,
    _local: &WasmProtocolAddress,
    sessions: &mut WasmInMemSessionStore,
    identities: &mut WasmInMemIdentityKeyStore,
    bundle: &ToyBundle,
) -> Result<(), ProtocolError> {
    if !identities.is_trusted_identity(recipient, &bundle.identity) {
        return Err(error(ProtocolErrorKind::UntrustedIdentity, "untrusted"));
    }
    identities.save_identity(recipient, bundle.identity.clone())?;
    sessions.store_session(recipient, vec![0, 0, 0, bundle.key, bundle.one_time]);
    Ok(())
}

fn encrypt(
    plaintext: &[u8],
    recipient: &WasmProtocolAddress,
    _local: &WasmProtocolAddress,
    sessions: &mut WasmInMemSessionStore,
    identities: &mut WasmInMemIdentityKeyStore,
) -> Result<SealedMessage, ProtocolError> {
    let mut record = match sessions.load_session(recipient) {
        Some(record) => record,
        None => return Err(error(ProtocolErrorKind::Other, "session not found")),
    };
    let mut body = Vec::new();
    let kind = if record[0] == 0 {
        body.extend(identities.identity_key_pair().public_key().serialize());
        body.push(record[4]);
        body.push(record[3]);
        MessageKind::PreKey
    } else {
        MessageKind::Whisper
    };
    body.push(record[1]);
    body.extend(plaintext.iter().map(|b| b ^ record[3]));
    record[1] += 1;
    sessions.store_session(recipient, record);
    Ok(SealedMessage { kind, body })
}

fn parse(data: &[u8], kind: MessageKind) -> Result<ToyMessage, ProtocolError> {
    let shortest = if kind == MessageKind::PreKey { 36 } else { 1 };
    if data.len() < shortest {
        return Err(error(ProtocolErrorKind::Other, "ciphertext too short"));
    }
    Ok(ToyMessage { kind, bytes: data.to_vec() })
}

#[allow(clippy::too_many_arguments)]
fn decrypt(
    message: &ToyMessage,
    sender: &WasmProtocolAddress,
    _local: &WasmProtocolAddress,
    sessions: &mut WasmInMemSessionStore,
    identities: &mut WasmInMemIdentityKeyStore,
    pre_keys: &mut WasmInMemPreKeyStore,
    _signed: &WasmInMemSignedPreKeyStore,
    _kyber: &mut WasmInMemKyberPreKeyStore,
) -> Result<Vec<u8>, ProtocolError> {
    let mut rest: &[u8] = &message.bytes;
    if message.kind == MessageKind::PreKey {
        let identity = rest[..33].to_vec();
        if !identities.is_trusted_identity(sender, &identity) {
            return Err(error(ProtocolErrorKind::UntrustedIdentity, "untrusted"));
        }
        let one_time = rest[33];
        let key = rest[34];
        rest = &rest[35..];
        if sessions.load_session(sender).is_none() {
            if one_time != 0 {
                pre_keys.get_pre_key(one_time as u32)?;
                pre_keys.remove_pre_key(one_time as u32);
            }
            sessions.store_session(sender, vec![1, 0, 0, key, 0]);
        }
        identities.save_identity(sender, identity)?;
    }
    let mut record = match sessions.load_session(sender) {
        Some(record) => record,
        None => return Err(error(ProtocolErrorKind::Other, "session not found")),
    };
    if rest[0] < record[2] {
        return Err(error(ProtocolErrorKind::DuplicatedMessage, "duplicate"));
    }
    record[0] = 1;
    record[2] = rest[0] + 1;
    let plaintext = rest[1..].iter().map(|b| b ^ record[3]).collect();
    sessions.store_session(sender, record);
    Ok(plaintext)
}

fn decode_kyber(data: &[u8]) -> Result<u8, ProtocolError> {
    if data.len() == 1569 {
        Ok(data[0])
    } else {
        Err(error(ProtocolErrorKind::Other, "bad KEM key length"))
    }
}

fn decode_public(data: &[u8]) -> Result<Vec<u8>, String> {
    if data.len() == 33 && data[0] == 0x05 {
        Ok(data.to_vec())
    } else {
        Err("bad key type".to_string())
    }
}

fn public(seed: u8) -> WasmPublicKey {
    let mut bytes = vec![seed; 33];
    bytes[0] = 0x05;
    WasmPublicKey::deserialize(&bytes, decode_public).ok().unwrap()
}

fn identity(seed: u8) -> WasmIdentityKeyPair {
    WasmIdentityKeyPair::new(&public(seed), &WasmPrivateKey::generate(|| vec![seed; 32]))
}

fn address(name: &str) -> WasmProtocolAddress {
    WasmProtocolAddress::new(name.to_string(), 1).unwrap()
}

fn alice_address() -> WasmProtocolAddress {
    address("00000000-0000-0000-0000-00000000000A")
}

fn bob_address() -> WasmProtocolAddress {
    address("00000000-0000-0000-0000-00000000000B")
}

struct Party {
    sessions: WasmInMemSessionStore,
    identities: WasmInMemIdentityKeyStore,
    pre_keys: WasmInMemPreKeyStore,
    signed: WasmInMemSignedPreKeyStore,
    kyber: WasmInMemKyberPreKeyStore,
}

fn party(seed: u8) -> Party {
    Party {
        sessions: WasmInMemSessionStore::new(),
        identities: WasmInMemIdentityKeyStore::new(&identity(seed), 1000 + seed as u32),
        pre_keys: WasmInMemPreKeyStore::new(),
        signed: WasmInMemSignedPreKeyStore::new(),
        kyber: WasmInMemKyberPreKeyStore::new(),
    }
}

fn establish(alice: &mut Party, one_time: Option<u32>) -> Result<(), BridgeError> {
    process_pre_key_bundle(
        &bob_address(),
        &alice_address(),
        1002,
        &public(2),
        1,
        &public(12),
        &[9u8; 64],
        one_time,
        one_time.map(|_| public(22).serialize()),
        1,
        &[0x42u8; 1569],
        &[9u8; 64],
        &mut alice.sessions,
        &mut alice.identities,
        decode_kyber,
        decode_public,
        build,
        process,
    )
}

fn send(from: &mut Party, local: &WasmProtocolAddress, to: &WasmProtocolAddress, text: &[u8]) -> Result<WasmCiphertext, BridgeError> {
    encrypt_message(text, to, local, &mut from.sessions, &mut from.identities, encrypt)
}

fn receive(
    to: &mut Party,
    sender: &WasmProtocolAddress,
    local: &WasmProtocolAddress,
    body: &[u8],
    message_type: u8,
) -> Result<Vec<u8>, BridgeError> {
    decrypt_message(
        body,
        message_type,
        sender,
        local,
        &mut to.sessions,
        &mut to.identities,
        &mut to.pre_keys,
        &to.signed,
        &mut to.kyber,
        parse,
        decrypt,
    )
}

#[test]
fn test_session_establishment_and_messaging() {
    let mut alice = party(1);
    let mut bob = party(2);
    bob.pre_keys.save_pre_key(1, vec![1]);

    // --- Alice Establishes Session ---
    establish(&mut alice, Some(1)).expect("Alice failed to process bundle");
    assert!(alice.sessions.has_session(&bob_address()).unwrap());
    assert!(!alice.sessions.has_session(&alice_address()).unwrap());

    // --- Messaging ---
    let message_body = b"Hello WASM World!";

    // 1. Alice Encrypts
    let ciphertext =
        send(&mut alice, &alice_address(), &bob_address(), message_body).ok().unwrap();
    assert_eq!(ciphertext.message_type(), 3); // PreKeyMessage initially

    // 2. Bob Decrypts
    let decrypted = receive(
        &mut bob,
        &alice_address(),
        &bob_address(),
        &ciphertext.body(),
        ciphertext.message_type(),
    )
    .expect("Decryption failed");
    assert_eq!(decrypted, message_body);

    // 3. Bob Replies (Standard Message)
    let reply_body = b"Ack!";
    let reply_cipher = send(&mut bob, &bob_address(), &alice_address(), reply_body).ok().unwrap();
    assert_eq!(reply_cipher.message_type(), 2); // SignalMessage now

    let reply_decrypted = receive(
        &mut alice,
        &bob_address(),
        &alice_address(),
        &reply_cipher.body(),
        reply_cipher.message_type(),
    )
    .expect("Reply decryption failed");
    assert_eq!(reply_decrypted, reply_body);

    // A pin outlasts attempts and messages.
    let e = bob
        .identities
        .pin_remote_identity(&alice_address(), &public(7).serialize(), |data| Ok(data.to_vec()))
        .expect_err("another key is pinned");
    assert_eq!(e.code(), ErrorCode::PinnedIdentityMismatch);

    // The one-time pre-key is used up, and both sides know each other.
    assert_eq!(bob.pre_keys.export_pre_key(1).unwrap(), None);
    assert_eq!(
        bob.identities.pinned_remote_identity(&alice_address()).unwrap(),
        Some(public(1).serialize())
    );

    // A second delivery is reported as what it is.
    let e = receive(
        &mut alice,
        &bob_address(),
        &alice_address(),
        &reply_cipher.body(),
        reply_cipher.message_type(),
    )
    .expect_err("a duplicate must fail");
    assert_eq!(e.code(), ErrorCode::DuplicatedMessage);
}

#[test]
fn test_persistence() {
    let mut alice = party(1);
    let mut bob = party(2);
    bob.pre_keys.save_pre_key(1, vec![1]);

    // Alice establishes session
    establish(&mut alice, Some(1)).expect("Alice failed to process bundle");

    // Alice sends a message
    let cipher1 = send(&mut alice, &alice_address(), &bob_address(), b"Msg 1").ok().unwrap();
    receive(&mut bob, &alice_address(), &bob_address(), &cipher1.body(), cipher1.message_type())
        .unwrap();

    // EXPORT SESSION (Alice)
    let alice_session_data = alice
        .sessions
        .export_session(&bob_address())
        .expect("Failed to export session")
        .expect("Session not found");
    assert!(!alice_session_data.is_empty());

    // RESTORE: Create Alice 2
    let mut alice2 = party(1);

    // Import the session we exported
    alice2
        .sessions
        .import_session(&bob_address(), &alice_session_data, |data| Ok(data.to_vec()))
        .expect("Failed to import session");

    // Alice 2 sends message to Bob (Should work if session persisted)
    let cipher2 = send(&mut alice2, &alice_address(), &bob_address(), b"Msg 2").ok().unwrap();
    let decrypted2 = receive(
        &mut bob,
        &alice_address(),
        &bob_address(),
        &cipher2.body(),
        cipher2.message_type(),
    )
    .unwrap();
    assert_eq!(decrypted2, b"Msg 2");
}

#[test]
fn a_pinned_identity_rejects_another_sender() {
    let mut alice = party(1);
    let mut bob = party(2);
    bob.identities
        .pin_remote_identity(&alice_address(), &public(7).serialize(), |data| Ok(data.to_vec()))
        .unwrap();
    establish(&mut alice, None).unwrap();
    let cipher = send(&mut alice, &alice_address(), &bob_address(), b"hi").ok().unwrap();
    let e = receive(
        &mut bob,
        &alice_address(),
        &bob_address(),
        &cipher.body(),
        cipher.message_type(),
    )
    .expect_err("the identity is not the pinned one");
    assert_eq!(e.code(), ErrorCode::UntrustedIdentity);
    assert!(!bob.sessions.has_session(&alice_address()).unwrap());
    assert_eq!(
        bob.identities.pinned_remote_identity(&alice_address()).unwrap(),
        Some(public(7).serialize())
    );
}

#[test]
fn a_missing_one_time_key_keeps_its_code() {
    let mut alice = party(1);
    let mut bob = party(2);
    establish(&mut alice, Some(1)).unwrap();
    let cipher = send(&mut alice, &alice_address(), &bob_address(), b"hi").ok().unwrap();
    let e = receive(
        &mut bob,
        &alice_address(),
        &bob_address(),
        &cipher.body(),
        cipher.message_type(),
    )
    .expect_err("the one-time key is gone");
    assert_eq!(e.code(), ErrorCode::InvalidPreKeyId);
}

#[test]
fn encryption_without_a_session_fails() {
    let mut alice = party(1);
    match send(&mut alice, &alice_address(), &bob_address(), b"hi") {
        Ok(_) => panic!("there is no session"),
        Err(e) => assert_eq!(e.message(true), "SignalError: session not found"),
    }
}

#[test]
fn only_session_messages_are_decrypted() {
    let mut bob = party(2);
    let texts = [
        (0u8, "Unknown message type: 0"),
        (1, "Unknown message type: 1"),
        (4, "Unknown message type: 4"),
        (7, "Unsupported message type for decrypt: SenderKey"),
        (8, "Unsupported message type for decrypt: Plaintext"),
        (9, "Unknown message type: 9"),
        (255, "Unknown message type: 255"),
    ];
    for (message_type, text) in texts {
        let e = receive(&mut bob, &alice_address(), &bob_address(), &[0], message_type)
            .expect_err("refused");
        assert_eq!(e.message(false), text);
        assert_eq!(e.code(), ErrorCode::Generic);
    }
    for message_type in [2u8, 3] {
        let e = receive(&mut bob, &alice_address(), &bob_address(), &[], message_type)
            .expect_err("too short");
        assert_eq!(e.message(true), "SignalError: ciphertext too short");
    }
}

#[test]
fn kinds_have_their_numbers() {
    assert_eq!(message_type_signal(), 2);
    assert_eq!(message_type_pre_key(), 3);
    assert_eq!(message_type_sender_key(), 7);
    for code in 0u8..=255 {
        match MessageKind::of(code) {
            Some(kind) => assert_eq!(kind.code(), code),
            None => assert!(![2, 3, 7, 8].contains(&code)),
        }
    }
    assert_eq!(MessageKind::Whisper.name(), "Whisper");
    assert_eq!(MessageKind::PreKey.name(), "PreKey");
}

#[allow(clippy::too_many_arguments)]
fn bundle(
    signature: &[u8],
    prekey_id: Option<u32>,
    prekey: Option<Vec<u8>>,
    kyber: &[u8],
    seen: &Cell<Option<(u32, u32, Option<u32>, u32, u32)>>,
) -> Result<(), BridgeError> {
    let mut alice = party(1);
    let recipient = WasmProtocolAddress::new("bob".to_string(), 5).unwrap();
    let r = process_pre_key_bundle(
        &recipient,
        &alice_address(),
        1002,
        &public(2),
        31,
        &public(12),
        signature,
        prekey_id,
        prekey,
        32,
        kyber,
        &[7u8; 64],
        &mut alice.sessions,
        &mut alice.identities,
        decode_kyber,
        decode_public,
        |parts: BundleParts<u8>| {
            seen.set(Some((
                parts.registration_id,
                parts.device_id,
                parts.pre_key.as_ref().map(|p| p.0),
                parts.signed_pre_key_id,
                parts.kyber_pre_key_id,
            )));
            assert_eq!(parts.signed_pre_key.serialize(), public(12).serialize());
            assert_eq!(parts.signed_pre_key_signature, signature.to_vec());
            assert_eq!(parts.kyber_pre_key, 0x42);
            assert_eq!(parts.kyber_pre_key_signature, vec![7u8; 64]);
            assert_eq!(parts.identity_key.serialize(), public(2).serialize());
            build(parts)
        },
        process,
    );
    if r.is_err() {
        assert!(!alice.sessions.has_session(&recipient).unwrap());
        assert_eq!(alice.identities.pinned_remote_identity(&recipient).unwrap(), None);
    }
    r
}

#[test]
fn a_bundle_takes_over_what_was_published() {
    let seen = Cell::new(None);
    let kyber = [0x42u8; 1569];
    let key = public(22).serialize();
    bundle(&[1], Some(30), Some(key.clone()), &kyber, &seen).unwrap();
    assert_eq!(seen.get(), Some((1002, 5, Some(30), 31, 32)));
    // An id or a key alone is no one-time key, and the key is then not read.
    bundle(&[1], Some(30), None, &kyber, &seen).unwrap();
    assert_eq!(seen.get(), Some((1002, 5, None, 31, 32)));
    bundle(&[1], None, Some(vec![1, 2]), &kyber, &seen).unwrap();
    assert_eq!(seen.get(), Some((1002, 5, None, 31, 32)));
}

#[test]
fn a_bad_bundle_is_refused_in_order() {
    let seen = Cell::new(None);
    // The Kyber key comes first.
    let e = bundle(&[], Some(30), Some(vec![1, 2]), &[1], &seen).expect_err("bad Kyber key");
    assert!(matches!(e, BridgeError::Protocol(_)));
    assert_eq!(e.message(true), "SignalError: bad KEM key length");
    // Then the one-time key.
    let kyber = [0x42u8; 1569];
    let e = bundle(&[], Some(30), Some(vec![1, 2]), &kyber, &seen).expect_err("bad key");
    assert!(matches!(e, BridgeError::Generic(_)));
    assert_eq!(e.message(true), "SignalError: bad key type");
    assert_eq!(seen.get(), None);
    // Then the bundle itself.
    let e = bundle(&[], Some(30), None, &kyber, &seen).expect_err("unsigned");
    assert!(matches!(e, BridgeError::Protocol(_)));
    assert_eq!(e.message(true), "SignalError: unsigned");
}

#[test]
fn a_changed_identity_stops_a_bundle() {
    let mut alice = party(1);
    alice
        .identities
        .pin_remote_identity(&bob_address(), &public(9).serialize(), |data| Ok(data.to_vec()))
        .unwrap();
    let e = establish(&mut alice, None).expect_err("another identity is pinned");
    assert_eq!(e.code(), ErrorCode::UntrustedIdentity);
    assert!(!alice.sessions.has_session(&bob_address()).unwrap());
}

#[test]
fn sessions_are_archived_in_place() {
    let mut sessions = WasmInMemSessionStore::default();
    let bob = bob_address();
    let asked = Cell::new(false);
    sessions
        .archive_session(&bob, |record| {
            asked.set(true);
            Ok(record)
        })
        .unwrap();
    assert!(!asked.get());
    assert!(!sessions.has_session(&bob).unwrap());

    sessions.store_session(&bob, vec![1, 2]);
    sessions.store_session(&alice_address(), vec![8]);
    sessions
        .archive_session(&bob, |mut record| {
            record.push(3);
            Ok(record)
        })
        .unwrap();
    assert_eq!(sessions.export_session(&bob).unwrap(), Some(vec![1, 2, 3]));
    assert_eq!(sessions.export_session(&alice_address()).unwrap(), Some(vec![8]));

    // An archiver that leaves an archived record alone changes nothing the second time.
    sessions.archive_session(&bob, |record| Ok(record)).unwrap();
    assert_eq!(sessions.export_session(&bob).unwrap(), Some(vec![1, 2, 3]));

    let e = sessions
        .archive_session(&bob, |_record| Err(error(ProtocolErrorKind::Other, "corrupt")))
        .expect_err("corrupt");
    assert_eq!(e.message(true), "SignalError: corrupt");
    assert_eq!(sessions.export_session(&bob).unwrap(), Some(vec![1, 2, 3]));
}

#[test]
fn an_undecodable_session_is_not_imported() {
    let mut sessions = WasmInMemSessionStore::new();
    let e = sessions
        .import_session(&bob_address(), &[1], |_data| {
            Err(error(ProtocolErrorKind::Other, "not a session"))
        })
        .expect_err("undecodable");
    assert_eq!(e.message(true), "SignalError: not a session");
    assert_eq!(sessions.export_session(&bob_address()).unwrap(), None);
}
