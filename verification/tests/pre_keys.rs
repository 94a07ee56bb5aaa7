use signal_wasm::error::{BridgeError, ErrorCode, ProtocolError, ProtocolErrorKind};
use signal_wasm::keys::{WasmIdentityKeyPair, WasmPrivateKey};
use signal_wasm::pre_key_stores::{
    export_loaded, DecodedRecord, WasmInMemKyberPreKeyStore, WasmInMemPreKeyStore,
    WasmInMemSignedPreKeyStore,
};
use signal_wasm::pre_keys::{
    generate_kyber_pre_key, generate_pre_keys, generate_signed_pre_key, GeneratedPair,
};
use std::cell::Cell;

fn create_test_identity() -> WasmIdentityKeyPair {
    let private_key = WasmPrivateKey::generate(|| vec![6u8; 32]);
    let public_key = private_key.get_public_key(|key| Ok(key.serialize())).unwrap();
    WasmIdentityKeyPair::new(&public_key, &private_key)
}

fn generate() -> GeneratedPair<u8> {
    GeneratedPair { public_key: vec![5u8; 33], pair: 200 }
}

fn generate_for(_id: u32) -> GeneratedPair<u8> {
    generate()
}

fn generate_kyber() -> GeneratedPair<u8> {
    GeneratedPair { public_key: vec![8u8; 1569], pair: 201 }
}

fn encode(id: u32, pair: &GeneratedPair<u8>) -> Result<Vec<u8>, ProtocolError> {
    let mut record = id.to_be_bytes().to_vec();
    record.push(pair.pair);
    Ok(record)
}

fn sign(key: &WasmPrivateKey, public: &Vec<u8>) -> Result<Vec<u8>, String> {
    let mut signature = key.serialize();
    signature.extend(&public[..2]);
    Ok(signature)
}

fn encode_signed(
    id: u32,
    time: u64,
    pair: &GeneratedPair<u8>,
    signature: &Vec<u8>,
) -> Result<Vec<u8>, ProtocolError> {
    let mut record = id.to_be_bytes().to_vec();
    record.extend(time.to_be_bytes());
    record.push(pair.pair);
    record.extend(signature);
    Ok(record)
}

fn failure() -> ProtocolError {
    ProtocolError { kind: ProtocolErrorKind::Other, detail: "cannot encode".to_string() }
}

fn decode(data: &[u8]) -> Result<DecodedRecord, ProtocolError> {
    if data.len() < 4 {
        return Err(ProtocolError {
            kind: ProtocolErrorKind::Other,
            detail: "short record".to_string(),
        });
    }
    Ok(DecodedRecord {
        id: u32::from_be_bytes([data[0], data[1], data[2], data[3]]),
        record: data.to_vec(),
    })
}

#[test]
fn test_pre_key_generation() {
    let mut prekey_store = WasmInMemPreKeyStore::new();

    let pre_keys = generate_pre_keys(1, 5, &mut prekey_store, generate_for, encode)
        .expect_or_panic("Failed to generate prekeys");
    assert_eq!(pre_keys.len(), 5);

    let first = &pre_keys[0];
    assert_eq!(first.id(), 1);
    assert!(!first.public_key().is_empty());
    assert!(!first.record().is_empty());

    // Store should contain the key
    let exported = prekey_store.export_pre_key(1).unwrap();
    assert!(exported.is_some());
    assert_eq!(exported, Some(first.record()));
}

trait ExpectOrPanic<T> {
    fn expect_or_panic(self, message: &str) -> T;
}

impl<T> ExpectOrPanic<T> for Result<T, BridgeError> {
    fn expect_or_panic(self, message: &str) -> T {
        match self {
            Ok(value) => value,
            Err(e) => panic!("{}: {}", message, e.message(true)),
        }
    }
}

fn refusal<T>(r: Result<T, BridgeError>) -> BridgeError {
    match r {
        Ok(_) => panic!("must fail"),
        Err(e) => e,
    }
}

#[test]
fn test_signed_pre_key_generation() {
    let identity_key_pair = create_test_identity();
    let mut signed_prekey_store = WasmInMemSignedPreKeyStore::new();

    let spk = generate_signed_pre_key(
        1,
        &identity_key_pair,
        &mut signed_prekey_store,
        generate,
        sign,
        || 1_700_000_000_123,
        encode_signed,
    )
    .expect_or_panic("Failed to generate signed prekey");

    assert_eq!(spk.id(), 1);
    assert!(!spk.signature().is_empty());
    assert!(!spk.public_key().is_empty());

    let exported = signed_prekey_store.export_signed_pre_key(1).unwrap();
    assert!(exported.is_some());

    // The signature is the identity's, over the published key.
    let mut signature = vec![6u8; 32];
    signature.extend([5u8, 5]);
    assert_eq!(spk.signature(), signature);
    assert_eq!(spk.timestamp(), 1_700_000_000_123);
    assert_eq!(exported, Some(spk.record()));
    let copy = spk.clone();
    assert_eq!(copy.id(), 1);
    assert_eq!(copy.record(), spk.record());
    assert_eq!(copy.signature(), spk.signature());
    assert_eq!(copy.public_key(), spk.public_key());
    assert_eq!(copy.timestamp(), spk.timestamp());
}

#[test]
fn test_kyber_pre_key_generation() {
    let identity_key_pair = create_test_identity();
    let mut kyber_prekey_store = WasmInMemKyberPreKeyStore::new();

    let kpk = generate_kyber_pre_key(
        1,
        &identity_key_pair,
        &mut kyber_prekey_store,
        generate_kyber,
        sign,
        || 42,
        encode_signed,
    )
    .expect_or_panic("Failed to generate kyber key");

    assert_eq!(kpk.id(), 1);
    assert!(!kpk.signature().is_empty());
    assert_eq!(kpk.public_key().len(), 1569); // Kyber1024 public key size

    let exported = kyber_prekey_store.export_kyber_pre_key(1).unwrap();
    assert!(exported.is_some());

    assert_eq!(kpk.timestamp(), 42);
    assert_eq!(exported, Some(kpk.record()));
    let copy = kpk.clone();
    assert_eq!(copy.id(), 1);
    assert_eq!(copy.record(), kpk.record());
    assert_eq!(copy.signature(), kpk.signature());
    assert_eq!(copy.public_key(), kpk.public_key());
    assert_eq!(copy.timestamp(), kpk.timestamp());
}

#[test]
fn a_batch_is_limited() {
    let mut store = WasmInMemPreKeyStore::new();
    let keys =
        generate_pre_keys(1, 500, &mut store, generate_for, encode).expect_or_panic("500 are allowed");
    assert_eq!(keys.len(), 500);
    let mut other = WasmInMemPreKeyStore::default();
    let e = refusal(generate_pre_keys(1, 501, &mut other, generate_for, encode));
    assert_eq!(e.message(false), "Batch size 501 exceeds maximum 500");
    assert_eq!(e.code(), ErrorCode::Generic);
    assert_eq!(other.export_pre_key(1).unwrap(), None);
    let e = refusal(generate_pre_keys(1, u32::MAX, &mut other, generate_for, encode));
    assert_eq!(e.message(false), "Batch size 4294967295 exceeds maximum 500");
}

#[test]
fn each_pre_key_has_a_pair_of_its_own() {
    let mut store = WasmInMemPreKeyStore::new();
    let made = Cell::new(0u8);
    let keys = generate_pre_keys(
        20,
        3,
        &mut store,
        |id| {
            made.set(made.get() + 1);
            GeneratedPair { public_key: vec![id as u8; 33], pair: 100 + made.get() }
        },
        encode,
    )
    .expect_or_panic("batch");
    for (i, key) in keys.iter().enumerate() {
        assert_eq!(key.public_key(), vec![20 + i as u8; 33]);
        assert_eq!(key.record()[4], 101 + i as u8);
    }
}

#[test]
fn an_empty_batch_changes_nothing() {
    let mut store = WasmInMemPreKeyStore::new();
    let keys = generate_pre_keys(1, 0, &mut store, generate_for, encode).expect_or_panic("empty");
    assert!(keys.is_empty());
    assert_eq!(store.export_pre_key(1).unwrap(), None);
}

#[test]
fn batch_ids_wrap_within_24_bits() {
    let mut store = WasmInMemPreKeyStore::new();
    let keys =
        generate_pre_keys(0x00FF_FFFE, 4, &mut store, generate_for, encode).expect_or_panic("wrap");
    let ids: Vec<u32> = keys.iter().map(|k| k.id()).collect();
    assert_eq!(ids, vec![0x00FF_FFFE, 0x00FF_FFFF, 0, 1]);
    let keys = generate_pre_keys(u32::MAX, 2, &mut store, generate_for, encode).expect_or_panic("wrap");
    let ids: Vec<u32> = keys.iter().map(|k| k.id()).collect();
    assert_eq!(ids, vec![0x00FF_FFFF, 0]);
    let keys =
        generate_pre_keys(0x0100_0005, 1, &mut store, generate_for, encode).expect_or_panic("mask");
    assert_eq!(keys[0].id(), 5);
    for key in &keys {
        assert_eq!(store.export_pre_key(key.id()).unwrap(), Some(key.record()));
        assert_eq!(key.clone().record(), key.record());
        assert_eq!(key.clone().public_key(), key.public_key());
    }
}

#[test]
fn a_failed_batch_keeps_what_it_made() {
    let mut store = WasmInMemPreKeyStore::new();
    store.save_pre_key(9, vec![1, 2, 3]);
    let generated = Cell::new(0u32);
    let e = refusal(generate_pre_keys(
        1,
        5,
        &mut store,
        |_id| {
            generated.set(generated.get() + 1);
            generate()
        },
        |id, pair| if id == 3 { Err(failure()) } else { encode(id, pair) },
    ));
    assert_eq!(generated.get(), 3);
    assert_eq!(e.message(true), "SignalError: cannot encode");
    assert!(store.export_pre_key(1).unwrap().is_some());
    assert!(store.export_pre_key(2).unwrap().is_some());
    assert!(store.export_pre_key(3).unwrap().is_none());
    assert!(store.export_pre_key(4).unwrap().is_none());
    assert_eq!(store.export_pre_key(9).unwrap(), Some(vec![1, 2, 3]));
}

#[test]
fn a_failed_signed_generation_changes_nothing() {
    let identity = create_test_identity();
    let mut signed = WasmInMemSignedPreKeyStore::default();
    let asked = Cell::new(false);
    let e = refusal(generate_signed_pre_key(
        1,
        &identity,
        &mut signed,
        generate,
        |_key, _public| Err("no entropy".to_string()),
        || {
            asked.set(true);
            0
        },
        encode_signed,
    ));
    assert!(!asked.get());
    assert!(matches!(e, BridgeError::Generic(_)));
    assert_eq!(signed.export_signed_pre_key(1).unwrap(), None);
    let e = refusal(generate_signed_pre_key(
        1,
        &identity,
        &mut signed,
        generate,
        sign,
        || 0,
        |_id, _time, _pair, _signature| Err(failure()),
    ));
    assert!(matches!(e, BridgeError::Protocol(_)));
    assert_eq!(signed.export_signed_pre_key(1).unwrap(), None);

    let mut kyber = WasmInMemKyberPreKeyStore::default();
    let e = refusal(generate_kyber_pre_key(
        1,
        &identity,
        &mut kyber,
        generate_kyber,
        |_key, _public| Err("no entropy".to_string()),
        || 0,
        encode_signed,
    ));
    assert!(matches!(e, BridgeError::Generic(_)));
    let e = refusal(generate_kyber_pre_key(
        1,
        &identity,
        &mut kyber,
        generate_kyber,
        sign,
        || 0,
        |_id, _time, _pair, _signature| Err(failure()),
    ));
    assert!(matches!(e, BridgeError::Protocol(_)));
    assert_eq!(kyber.export_kyber_pre_key(1).unwrap(), None);
}

#[test]
fn imports_check_the_id() {
    let record = encode(7, &generate()).unwrap();
    let mut store = WasmInMemPreKeyStore::new();
    let e = store.import_pre_key(8, &record, decode).expect_err("wrong id");
    assert_eq!(e.message(false), "PreKey ID mismatch");
    assert_eq!(store.export_pre_key(8).unwrap(), None);
    assert_eq!(store.export_pre_key(7).unwrap(), None);
    store.import_pre_key(7, &record, decode).unwrap();
    assert_eq!(store.export_pre_key(7).unwrap(), Some(record.clone()));

    let mut store = WasmInMemSignedPreKeyStore::new();
    let e = store.import_signed_pre_key(8, &record, decode).expect_err("wrong id");
    assert_eq!(e.message(false), "Signed PreKey ID mismatch");
    store.import_signed_pre_key(7, &record, decode).unwrap();
    assert_eq!(store.export_signed_pre_key(7).unwrap(), Some(record.clone()));

    let mut store = WasmInMemKyberPreKeyStore::new();
    let e = store.import_kyber_pre_key(8, &record, decode).expect_err("wrong id");
    assert_eq!(e.message(false), "Kyber PreKey ID mismatch");
    store.import_kyber_pre_key(7, &record, decode).unwrap();
    assert_eq!(store.export_kyber_pre_key(7).unwrap(), Some(record));
}

#[test]
fn undecodable_records_are_reported() {
    let mut one_time = WasmInMemPreKeyStore::new();
    let e = one_time.import_pre_key(7, &[1], decode).expect_err("short");
    assert_eq!(e.message(true), "SignalError: short record");
    let mut signed = WasmInMemSignedPreKeyStore::new();
    let e = signed.import_signed_pre_key(7, &[1], decode).expect_err("short");
    assert_eq!(e.message(true), "SignalError: short record");
    let mut kyber = WasmInMemKyberPreKeyStore::new();
    let e = kyber.import_kyber_pre_key(7, &[1], decode).expect_err("short");
    assert_eq!(e.message(true), "SignalError: short record");
}

#[test]
fn absent_records_have_their_own_kind() {
    let one_time = WasmInMemPreKeyStore::new();
    assert_eq!(one_time.get_pre_key(1).unwrap_err().kind, ProtocolErrorKind::InvalidPreKeyId);
    let signed = WasmInMemSignedPreKeyStore::new();
    assert_eq!(
        signed.get_signed_pre_key(1).unwrap_err().kind,
        ProtocolErrorKind::InvalidSignedPreKeyId
    );
    let kyber = WasmInMemKyberPreKeyStore::new();
    assert_eq!(
        kyber.get_kyber_pre_key(1).unwrap_err().kind,
        ProtocolErrorKind::InvalidKyberPreKeyId
    );
}

#[test]
fn only_an_absent_record_exports_as_none() {
    let absent = ProtocolErrorKind::InvalidPreKeyId;
    assert_eq!(export_loaded(Ok(vec![1]), absent).unwrap(), Some(vec![1]));
    let e = ProtocolError { kind: absent, detail: String::new() };
    assert_eq!(export_loaded(Err(e), absent).unwrap(), None);
    let e = ProtocolError {
        kind: ProtocolErrorKind::InvalidKyberPreKeyId,
        detail: "other".to_string(),
    };
    let e = export_loaded(Err(e), absent).expect_err("surfaced");
    assert_eq!(e.code(), ErrorCode::InvalidKyberPreKeyId);
}

#[test]
fn pre_keys_survive_a_restart() {
    let mut store = WasmInMemPreKeyStore::new();
    let keys = generate_pre_keys(100, 3, &mut store, generate_for, encode).expect_or_panic("batch");
    let mut restored = WasmInMemPreKeyStore::new();
    for key in &keys {
        let record = store.export_pre_key(key.id()).unwrap().unwrap();
        restored.import_pre_key(key.id(), &record, decode).unwrap();
    }
    for key in &keys {
        assert_eq!(restored.export_pre_key(key.id()).unwrap(), Some(key.record()));
    }
}

#[test]
fn used_pre_keys_are_removed_alone() {
    let mut store = WasmInMemPreKeyStore::new();
    generate_pre_keys(1, 3, &mut store, generate_for, encode).expect_or_panic("batch");
    store.remove_pre_key(2);
    store.remove_pre_key(2);
    assert!(store.export_pre_key(1).unwrap().is_some());
    assert!(store.export_pre_key(2).unwrap().is_none());
    assert!(store.export_pre_key(3).unwrap().is_some());
}
