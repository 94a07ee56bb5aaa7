use signal_wasm::error::{BridgeError, ErrorCode};
use signal_wasm::ids::{generate_uuid, parse_distribution_id, uuid_from_string, uuid_to_string};
use signal_wasm::random::{
    draw_registration_id, filled_buffer, generate_attachment_key, generate_random_bytes, generate_registration_id,
    registration_id_from_sample, ACCEPTED_SAMPLES, MAX_RANDOM_BYTES_LENGTH, MAX_REGISTRATION_ID,
};
use signal_wasm::text::{decimal, join};

#[test]
fn test_registration_id_generation() {
    let reg_id = generate_registration_id();
    assert!(reg_id > 0);
    assert!(reg_id <= 16380);
}

#[test]
fn registration_ids_vary() {
    let ids: Vec<u32> = (0..64).map(|_| generate_registration_id()).collect();
    assert!(ids.iter().all(|id| (1..=MAX_REGISTRATION_ID).contains(id)));
    assert!(ids.iter().any(|id| *id != ids[0]));
}

#[test]
fn samples_beyond_the_last_round_are_rejected() {
    assert_eq!(ACCEPTED_SAMPLES, (u32::MAX / 16380) * 16380);
    assert_eq!(registration_id_from_sample(0), Some(1));
    assert_eq!(registration_id_from_sample(16379), Some(16380));
    assert_eq!(registration_id_from_sample(16380), Some(1));
    assert_eq!(registration_id_from_sample(4294967039), Some(16380));
    assert_eq!(registration_id_from_sample(4294967040), None);
    assert_eq!(registration_id_from_sample(u32::MAX), None);
}

#[test]
fn the_first_accepted_sample_gives_the_id() {
    let samples = [u32::MAX, 4294967040, 16381, 5];
    let (id, drawn) = draw_registration_id(0usize, |drawn| (samples[drawn], drawn + 1));
    assert_eq!(id, 2);
    assert_eq!(drawn, 3);
    // The first accepted sample is not weighed against a later one.
    let samples = [7u32, 3];
    let (id, drawn) = draw_registration_id(0usize, |drawn| (samples[drawn], drawn + 1));
    assert_eq!(id, 8);
    assert_eq!(drawn, 1);
    assert_eq!(draw_registration_id((), |_| (4294967039, ())).0, 16380);
}

#[test]
fn test_uuid_utilities() {
    let uuid_bytes = generate_uuid();
    assert_eq!(uuid_bytes.len(), 16);

    let uuid_str = uuid_to_string(&uuid_bytes).unwrap();
    let recovered = uuid_from_string(&uuid_str).unwrap();
    assert_eq!(recovered, uuid_bytes);
}

#[test]
fn random_uuids_are_of_version_four() {
    for _ in 0..32 {
        let bytes = generate_uuid();
        assert_eq!(bytes[6] >> 4, 4);
        assert_eq!(bytes[8] >> 6, 2);
    }
    assert_ne!(generate_uuid(), generate_uuid());
}

#[test]
fn uuids_are_written_in_lower_case_groups() {
    let bytes: Vec<u8> = vec![
        0x67, 0xE5, 0x50, 0x44, 0x10, 0xB1, 0x42, 0x6F, 0x92, 0x47, 0xBB, 0x68, 0x0E, 0x5F, 0xE0,
        0xC8,
    ];
    let text = "67e55044-10b1-426f-9247-bb680e5fe0c8";
    assert_eq!(uuid_to_string(&bytes).unwrap(), text);
    for spelling in [
        text,
        "67E55044-10B1-426F-9247-BB680E5FE0C8",
        "67e5504410b1426f9247bb680e5fe0c8",
        "{67e55044-10b1-426f-9247-bb680e5fe0c8}",
        "urn:uuid:67e55044-10b1-426f-9247-bb680e5fe0c8",
        "URN:UUID:67e55044-10b1-426f-9247-bb680e5fe0c8",
    ] {
        assert_eq!(uuid_from_string(spelling).unwrap(), bytes);
        assert_eq!(parse_distribution_id(spelling).unwrap(), bytes);
    }
}

#[test]
fn other_texts_are_no_uuids() {
    for text in [
        "",
        "not-a-uuid",
        "67e55044-10b1-426f-9247-bb680e5fe0c",
        "67e55044-10b1-426f-9247-bb680e5fe0c88",
        "67e5504410b1426f9247bb680e5fe0cg",
        "67e55044x10b1-426f-9247-bb680e5fe0c8",
        "{67e55044-10b1-426f-9247-bb680e5fe0c8)",
        "{67e5504410b1426f9247bb680e5fe0c8}",
        "urn-uuid:67e55044-10b1-426f-9247-bb680e5fe0c8",
        "67e5504-410b1-426f-9247-bb680e5fe0c8",
        " 67e55044-10b1-426f-9247-bb680e5fe0c8",
        "67e55044-10b1-426f-9247-bb680e5fe0\u{e9}8",
    ] {
        let e = uuid_from_string(text).expect_err("no UUID");
        assert!(matches!(e, BridgeError::Generic(_)));
        assert_eq!(e.code(), ErrorCode::Generic);
        assert!(e.message(true).len() > "SignalError: ".len());
        let e = parse_distribution_id(text).expect_err("no UUID");
        assert_eq!(
            e.message(false),
            format!("Invalid distribution id (must be a UUID string): {}", text)
        );
    }
}

#[test]
fn a_uuid_has_sixteen_bytes() {
    for length in [0usize, 15, 17, 32] {
        let e = uuid_to_string(&vec![0u8; length]).expect_err("wrong length");
        assert_eq!(e.message(false), "UUID must be 16 bytes");
        assert_eq!(e.code(), ErrorCode::Generic);
    }
    assert_eq!(uuid_to_string(&[0u8; 16]).unwrap(), "00000000-0000-0000-0000-000000000000");
}

#[test]
fn random_bytes_are_limited() {
    assert_eq!(generate_random_bytes(0).unwrap(), Vec::<u8>::new());
    assert_eq!(generate_random_bytes(33).unwrap().len(), 33);
    let most = generate_random_bytes(MAX_RANDOM_BYTES_LENGTH).unwrap();
    assert_eq!(most.len(), 1_048_576);
    let e = generate_random_bytes(1_048_577).expect_err("too many");
    assert_eq!(
        e.message(false),
        "Requested length 1048577 exceeds maximum allowed 1048576 bytes"
    );
    assert_eq!(e.code(), ErrorCode::Generic);
}

#[test]
fn random_bytes_are_random() {
    assert_ne!(generate_random_bytes(32).unwrap(), vec![0u8; 32]);
    assert_ne!(generate_random_bytes(32).unwrap(), generate_random_bytes(32).unwrap());
    let key = generate_attachment_key().unwrap();
    assert_eq!(key.len(), 64);
    assert_ne!(key, generate_attachment_key().unwrap());
}

#[test]
fn a_failing_source_is_reported() {
    let e = filled_buffer(Err("no device".to_string())).expect_err("failed");
    assert_eq!(e.message(false), "CSPRNG error: no device");
    assert_eq!(filled_buffer(Ok(vec![1, 2])).unwrap(), vec![1, 2]);
}

#[test]
fn numbers_are_written_in_decimal() {
    assert_eq!(decimal(0), "0");
    assert_eq!(decimal(7), "7");
    assert_eq!(decimal(10), "10");
    assert_eq!(decimal(1_048_577), "1048577");
    assert_eq!(decimal(u64::MAX), "18446744073709551615");
    assert_eq!(join("a: ", "b"), "a: b");
}
