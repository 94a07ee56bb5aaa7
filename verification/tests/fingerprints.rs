use signal_wasm::error::{BridgeError, ErrorCode, FingerprintError, FingerprintErrorKind};
use signal_wasm::fingerprint::{
    generate_safety_number, verify_safety_number, verify_scannable_fingerprint, BuiltFingerprint,
    WasmSafetyNumber,
    FINGERPRINT_ITERATIONS, FINGERPRINT_VERSION,
};
use signal_wasm::keys::WasmPublicKey;

const ALICE: &str = "00000000-0000-0000-0000-00000000000A";
const BOB: &str = "00000000-0000-0000-0000-00000000000B";

fn public(seed: u8) -> WasmPublicKey {
    WasmPublicKey::deserialize(&[seed; 33], |data| Ok(data.to_vec())).ok().unwrap()
}

fn half(id: &[u8], key: &WasmPublicKey) -> Vec<u8> {
    let mut bytes = vec![0u8; 32];
    for (i, byte) in id.iter().chain(key.serialize().iter()).enumerate() {
        bytes[i % 32] = bytes[i % 32].wrapping_mul(17).wrapping_add(*byte);
    }
    bytes
}

// A payload is `08`, the version, and the two halves.
fn build(
    version: u32,
    iterations: u32,
    local_id: &[u8],
    local_key: &WasmPublicKey,
    contact_id: &[u8],
    contact_key: &WasmPublicKey,
) -> Result<BuiltFingerprint<Vec<u8>>, FingerprintError> {
    assert_eq!(version, 2);
    assert_eq!(iterations, 5200);
    let local = half(local_id, local_key);
    let remote = half(contact_id, contact_key);
    let mut payload = vec![0x08u8, version as u8];
    payload.extend(&local);
    payload.extend(&remote);
    let (first, second) = if local < remote { (&local, &remote) } else { (&remote, &local) };
    Ok(BuiltFingerprint {
        display: format!("{:?}{:?}", first, second),
        scannable: payload,
    })
}

fn serialize(payload: &Vec<u8>) -> Result<Vec<u8>, FingerprintError> {
    Ok(payload.clone())
}

fn compare(ours: &Vec<u8>, scanned: &[u8]) -> Result<bool, FingerprintError> {
    if scanned.len() != 66 || scanned[0] != 0x08 {
        return Err(FingerprintError {
            kind: FingerprintErrorKind::ParsingError,
            detail: "cannot be decoded".to_string(),
        });
    }
    if scanned[1] != ours[1] {
        return Err(FingerprintError {
            kind: FingerprintErrorKind::VersionMismatch,
            detail: format!("theirs {} ours {}", scanned[1], ours[1]),
        });
    }
    Ok(scanned[2..34] == ours[34..] && scanned[34..] == ours[2..34])
}

fn number(
    local: &str,
    local_key: &WasmPublicKey,
    contact: &str,
    contact_key: &WasmPublicKey,
) -> WasmSafetyNumber {
    generate_safety_number(
        local.to_string(),
        local_key,
        contact.to_string(),
        contact_key,
        build,
        serialize,
    )
    .ok()
    .unwrap()
}

fn scan(
    scanned: &[u8],
    local: &str,
    local_key: &WasmPublicKey,
    contact: &str,
    contact_key: &WasmPublicKey,
) -> Result<bool, BridgeError> {
    verify_scannable_fingerprint(
        scanned,
        local.to_string(),
        local_key,
        contact.to_string(),
        contact_key,
        build,
        compare,
    )
}

#[test]
fn test_safety_numbers() {
    let (alice, bob) = (public(1), public(2));

    // 1. Generate SN (Alice view of Bob)
    let sn_alice = number(ALICE, &alice, BOB, &bob);

    // 2. Generate SN (Bob view of Alice)
    let sn_bob = number(BOB, &bob, ALICE, &alice);

    // 3. Compare (Should match)
    assert_eq!(sn_alice.displayable(), sn_bob.displayable());

    // 4. Verify Self-Consistency
    let valid = verify_safety_number(
        &sn_alice.scannable(),
        ALICE.to_string(),
        &alice,
        BOB.to_string(),
        &bob,
        build,
        serialize,
    )
    .expect("Verification failed");

    assert!(valid);

    // The contact's payload is not ours.
    let valid = verify_safety_number(
        &sn_bob.scannable(),
        ALICE.to_string(),
        &alice,
        BOB.to_string(),
        &bob,
        build,
        serialize,
    )
    .expect("Verification failed");
    assert!(!valid);
}

#[test]
fn test_scannable_fingerprint_cross_perspective() {
    let (alice, bob) = (public(1), public(2));

    // Bob's QR code: Bob's view (local=Bob, remote=Alice).
    let sn_bob = number(BOB, &bob, ALICE, &alice);

    // Positive: Alice scans Bob's QR and verifies against HER view.
    let valid = scan(&sn_bob.scannable(), ALICE, &alice, BOB, &bob)
        .expect("Cross-perspective verify failed");
    assert!(valid, "A scanning B's QR must verify");

    // Negative: tampered payload must not verify.
    let mut tampered = sn_bob.scannable();
    let n = tampered.len();
    tampered[n - 1] ^= 0x01;
    let result = scan(&tampered, ALICE, &alice, BOB, &bob);
    match result {
        Ok(v) => assert!(!v, "Tampered payload must not verify"),
        Err(e) => assert_eq!(e.code().as_str(), "FingerprintParsingError"),
    }
    // Nor one whose other half is tampered with.
    let mut tampered = sn_bob.scannable();
    tampered[2] ^= 0x01;
    assert!(!scan(&tampered, ALICE, &alice, BOB, &bob).unwrap());

    // Negative: wrong version throws FingerprintVersionMismatch.
    let mut wrong_version = sn_bob.scannable();
    assert_eq!(&wrong_version[..2], &[0x08, 0x02], "expected v2 varint header");
    wrong_version[1] = 0x01;
    let err = scan(&wrong_version, ALICE, &alice, BOB, &bob)
        .expect_err("Version mismatch must throw");
    assert_eq!(err.code().as_str(), "FingerprintVersionMismatch");
    assert_eq!(
        err.message(true),
        "SignalError: theirs 1 ours 2"
    );

    // Negative: garbage payload throws FingerprintParsingError.
    let err = scan(&[0xFF, 0xFF, 0xFF], ALICE, &alice, BOB, &bob)
        .expect_err("Garbage payload must throw");
    assert_eq!(err.code().as_str(), "FingerprintParsingError");

    // Negative: swapped identities (Alice verifies against the WRONG contact)
    // must not verify.
    let mallory = public(3);
    let valid = scan(
        &sn_bob.scannable(),
        ALICE,
        &alice,
        "00000000-0000-0000-0000-00000000000C",
        &mallory,
    )
    .expect("verify should return false, not throw");
    assert!(!valid, "Wrong contact identity must not verify");
}

#[test]
fn our_own_payload_is_no_scan() {
    let (alice, bob) = (public(1), public(2));
    let sn_alice = number(ALICE, &alice, BOB, &bob);
    assert!(!scan(&sn_alice.scannable(), ALICE, &alice, BOB, &bob).unwrap());
}

#[test]
fn the_parties_agree() {
    let (alice, bob) = (public(1), public(2));
    let sn_alice = number(ALICE, &alice, BOB, &bob);
    let sn_bob = number(BOB, &bob, ALICE, &alice);
    assert!(scan(&sn_bob.scannable(), ALICE, &alice, BOB, &bob).unwrap());
    assert!(scan(&sn_alice.scannable(), BOB, &bob, ALICE, &alice).unwrap());
    assert_eq!(FINGERPRINT_VERSION, 2);
    assert_eq!(FINGERPRINT_ITERATIONS, 5200);
}

#[test]
fn a_payload_of_another_length_is_not_ours() {
    let (alice, bob) = (public(1), public(2));
    let sn_alice = number(ALICE, &alice, BOB, &bob);
    let ours = sn_alice.scannable();
    for scanned in [&[][..], &[0xFF, 0xFF, 0xFF], &ours[..65]] {
        let valid = verify_safety_number(
            scanned,
            ALICE.to_string(),
            &alice,
            BOB.to_string(),
            &bob,
            build,
            serialize,
        );
        assert!(!valid.expect("no error for a payload that cannot be read"));
    }
}

#[test]
fn failures_below_keep_their_codes() {
    let (alice, bob) = (public(1), public(2));
    let broken = |_version: u32,
                  iterations: u32,
                  _local_id: &[u8],
                  _local_key: &WasmPublicKey,
                  _contact_id: &[u8],
                  _contact_key: &WasmPublicKey|
     -> Result<BuiltFingerprint<Vec<u8>>, FingerprintError> {
        Err(FingerprintError {
            kind: FingerprintErrorKind::InvalidIterationCount,
            detail: format!("invalid iteration count {}", iterations),
        })
    };
    let unserializable = |_payload: &Vec<u8>| -> Result<Vec<u8>, FingerprintError> {
        Err(FingerprintError {
            kind: FingerprintErrorKind::ParsingError,
            detail: "cannot be encoded".to_string(),
        })
    };
    match generate_safety_number(ALICE.to_string(), &alice, BOB.to_string(), &bob, broken, serialize)
    {
        Ok(_) => panic!("must fail"),
        Err(e) => {
            assert_eq!(e.code(), ErrorCode::FingerprintParsingError);
            assert_eq!(e.message(true), "SignalError: invalid iteration count 5200");
        }
    }
    match generate_safety_number(
        ALICE.to_string(),
        &alice,
        BOB.to_string(),
        &bob,
        build,
        unserializable,
    ) {
        Ok(_) => panic!("must fail"),
        Err(e) => assert_eq!(e.message(true), "SignalError: cannot be encoded"),
    }
    let e = verify_safety_number(
        &[1],
        ALICE.to_string(),
        &alice,
        BOB.to_string(),
        &bob,
        build,
        unserializable,
    )
    .expect_err("must fail");
    assert_eq!(e.code(), ErrorCode::FingerprintParsingError);
    let e = verify_scannable_fingerprint(
        &[1],
        ALICE.to_string(),
        &alice,
        BOB.to_string(),
        &bob,
        broken,
        compare,
    )
    .expect_err("must fail");
    assert_eq!(e.message(false), "SignalError: Operation failed");
}
