use signal_wasm::error::ErrorCode;
use signal_wasm::groups::{WasmGroupMasterKey, GROUP_MASTER_KEY_SIZE};

fn derive(key: &WasmGroupMasterKey) -> Vec<u8> {
    let mut params = vec![0u8];
    params.extend(key.serialize().iter().map(|b| b.wrapping_mul(3)));
    params
}

fn identify(params: &Vec<u8>) -> [u8; 32] {
    let mut id = [0u8; 32];
    for (i, byte) in params.iter().skip(1).enumerate() {
        id[i] = byte ^ 0xA5;
    }
    id
}

#[test]
fn test_gv2_key_derivation() {
    let master_key = WasmGroupMasterKey::generate();
    assert_eq!(master_key.serialize().len(), 32);

    let group_id = master_key.derive_identifier(derive, identify);
    assert_eq!(group_id.serialize().len(), 32);

    let params = master_key.derive_secret_params(derive);
    assert_eq!(params.serialize_master_key().len(), 32);

    let master_key_bytes = master_key.serialize();
    let master_key_2 = WasmGroupMasterKey::from_bytes(&master_key_bytes).ok().unwrap();
    assert_eq!(master_key_2.serialize(), master_key_bytes);

    let group_id_2 = master_key_2.derive_identifier(derive, identify);
    assert_eq!(group_id_2.serialize(), group_id.serialize());
    assert_eq!(params.get_identifier(identify).serialize(), group_id.serialize());
}

#[test]
fn test_group_secret_params_master_key_getter() {
    // The getter is explicitly the 32-byte master key, and it must agree
    // with the master key it was derived from.
    let master_key = WasmGroupMasterKey::generate();
    let params = master_key.derive_secret_params(derive);
    let exported = params.serialize_master_key();
    assert_eq!(exported.len(), 32);
    assert_eq!(exported, master_key.serialize());
}

#[test]
fn master_keys_have_32_bytes() {
    assert_eq!(GROUP_MASTER_KEY_SIZE, 32);
    for length in [0usize, 31, 33, 64] {
        match WasmGroupMasterKey::from_bytes(&vec![1u8; length]) {
            Ok(_) => panic!("must be refused"),
            Err(e) => {
                assert_eq!(e.message(false), "Invalid key length (must be 32 bytes)");
                assert_eq!(e.code(), ErrorCode::Generic);
            }
        }
    }
}

#[test]
fn identifiers_are_what_the_derivation_gives() {
    let key = WasmGroupMasterKey::from_bytes(&[2u8; 32]).ok().unwrap();
    assert_eq!(key.derive_identifier(derive, identify).serialize(), vec![6u8 ^ 0xA5; 32]);
}

#[test]
fn generated_keys_are_random() {
    let a = WasmGroupMasterKey::generate().serialize();
    let b = WasmGroupMasterKey::generate().serialize();
    assert_ne!(a, b);
    assert_ne!(a, vec![0u8; 32]);
}
