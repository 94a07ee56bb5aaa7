use signal_wasm::address::{make_device_id, WasmProtocolAddress, MAX_DEVICE_ID};
use signal_wasm::error::ErrorCode;

#[test]
fn test_protocol_address() {
    let addr = WasmProtocolAddress::new("alice_firebase_uid".to_string(), 1).unwrap();
    assert_eq!(addr.name(), "alice_firebase_uid");
    assert_eq!(addr.device_id(), 1);
}

#[test]
fn device_ids_are_in_range() {
    assert_eq!(MAX_DEVICE_ID, 127);
    assert_eq!(make_device_id(1).unwrap(), 1);
    assert_eq!(make_device_id(127).unwrap(), 127);
    for id in [0u32, 128, 256, 257, u32::MAX] {
        let e = make_device_id(id).expect_err("out of range");
        assert_eq!(e.code(), ErrorCode::Generic);
        assert_eq!(e.message(false), "Invalid device ID (must be 1-127)");
        let e = WasmProtocolAddress::new("bob".to_string(), id).expect_err("out of range");
        assert_eq!(e.message(true), "Invalid device ID (must be 1-127)");
    }
}

#[test]
fn names_may_be_anything() {
    let empty = WasmProtocolAddress::new(String::new(), 127).unwrap();
    assert_eq!(empty.name(), "");
    let copy = WasmProtocolAddress::new("\u{1F511} key".to_string(), 2).unwrap().clone();
    assert_eq!(copy.name(), "\u{1F511} key");
    assert_eq!(copy.device_id(), 2);
}
