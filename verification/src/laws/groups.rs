//! Laws on messages to groups, and on group keys.

use crate::address::WasmProtocolAddress;
use crate::error::{BridgeError, ProtocolError};
use crate::group_messages::{
    create_sender_key_distribution, decrypt_group_message, encrypt_group_message,
    process_sender_key_distribution,
};
use crate::groups::{WasmGroupIdentifier, WasmGroupMasterKey, WasmGroupSecretParams};
use crate::ids::parse_distribution_id;
use crate::sender_keys::WasmInMemSenderKeyStore;
use vstd::prelude::*;

verus! {

/// A distribution is created for exactly this sender and the bytes of the distribution
/// id, on the store at hand, which is left as the protocol left it. A text that is no
/// distribution id is refused, and changes nothing.
pub proof fn law_distribution_is_what_was_created<
    F: FnOnce(&WasmProtocolAddress, &Vec<u8>, &mut WasmInMemSenderKeyStore) -> Result<
        Vec<u8>,
        ProtocolError,
    >,
>(
    local: &WasmProtocolAddress,
    distribution_id: String,
    text: &str,
    parsed: Result<Vec<u8>, BridgeError>,
    create: F,
    before: WasmInMemSenderKeyStore,
    after: WasmInMemSenderKeyStore,
    r: Result<Vec<u8>, BridgeError>,
)
    requires
        text@ == distribution_id@,
        call_ensures(parse_distribution_id, (text,), parsed),
        exists|store: &mut WasmInMemSenderKeyStore|
            *store == before && *final(store) == after && #[trigger] call_ensures(
                create_sender_key_distribution::<F>,
                (local, distribution_id, store, create),
                r,
            ),
    ensures
        parsed is Err ==> after == before && (r matches Err(BridgeError::Validation(m)) && m@
            == "Invalid distribution id (must be a UUID string): "@ + text@),
        parsed is Ok ==> exists|
            id: Vec<u8>,
            keys: &mut WasmInMemSenderKeyStore,
            created: Result<Vec<u8>, ProtocolError>,
        |
            {
                &&& id@ == parsed->Ok_0@
                &&& *keys == before && *final(keys) == after
                &&& #[trigger] call_ensures(create, (local, &id, keys), created)
                &&& created matches Ok(message) ==> r == Ok::<Vec<u8>, BridgeError>(message)
                &&& created matches Err(e) ==> r == Err::<Vec<u8>, BridgeError>(
                    BridgeError::Protocol(e),
                )
            },
{
}

/// A handed out key is processed from exactly the message given, for this sender, on the
/// store at hand. An unreadable message changes nothing; errors are told as they are.
pub proof fn law_distribution_is_processed_as_read<
    M,
    P: FnOnce(&[u8]) -> Result<M, ProtocolError>,
    F: FnOnce(&WasmProtocolAddress, &M, &mut WasmInMemSenderKeyStore) -> Result<(), ProtocolError>,
>(
    sender: &WasmProtocolAddress,
    data: &[u8],
    parse: P,
    process: F,
    before: WasmInMemSenderKeyStore,
    after: WasmInMemSenderKeyStore,
    r: Result<(), BridgeError>,
)
    requires
        exists|store: &mut WasmInMemSenderKeyStore|
            *store == before && *final(store) == after && #[trigger] call_ensures(
                process_sender_key_distribution::<M, P, F>,
                (sender, data, store, parse, process),
                r,
            ),
    ensures
        (exists|failure: ProtocolError| #[trigger]
            call_ensures(parse, (data,), Err(failure)) && after == before && r == Err::<
                (),
                BridgeError,
            >(BridgeError::Protocol(failure))) || (exists|
            message: M,
            keys: &mut WasmInMemSenderKeyStore,
            processed: Result<(), ProtocolError>,
        |
            {
                &&& #[trigger] call_ensures(parse, (data,), Ok(message))
                &&& *keys == before && *final(keys) == after
                &&& #[trigger] call_ensures(process, (sender, &message, keys), processed)
                &&& r is Ok <==> processed is Ok
                &&& processed matches Err(e) ==> r == Err::<(), BridgeError>(
                    BridgeError::Protocol(e),
                )
            }),
{
}

/// A group message is what the protocol sealed of this text, for exactly this sender and
/// the bytes of the distribution id, on the store at hand. A text that is no
/// distribution id is refused, and changes nothing.
pub proof fn law_group_message_is_what_was_sealed<
    F: FnOnce(&mut WasmInMemSenderKeyStore, &WasmProtocolAddress, &Vec<u8>, &[u8]) -> Result<
        Vec<u8>,
        ProtocolError,
    >,
>(
    local: &WasmProtocolAddress,
    distribution_id: String,
    text: &str,
    parsed: Result<Vec<u8>, BridgeError>,
    plaintext: &[u8],
    encrypt: F,
    before: WasmInMemSenderKeyStore,
    after: WasmInMemSenderKeyStore,
    r: Result<Vec<u8>, BridgeError>,
)
    requires
        text@ == distribution_id@,
        call_ensures(parse_distribution_id, (text,), parsed),
        exists|store: &mut WasmInMemSenderKeyStore|
            *store == before && *final(store) == after && #[trigger] call_ensures(
                encrypt_group_message::<F>,
                (local, distribution_id, plaintext, store, encrypt),
                r,
            ),
    ensures
        parsed is Err ==> after == before && (r matches Err(BridgeError::Validation(m)) && m@
            == "Invalid distribution id (must be a UUID string): "@ + text@),
        parsed is Ok ==> exists|
            keys: &mut WasmInMemSenderKeyStore,
            id: Vec<u8>,
            sealed: Result<Vec<u8>, ProtocolError>,
        |
            {
                &&& id@ == parsed->Ok_0@
                &&& *keys == before && *final(keys) == after
                &&& #[trigger] call_ensures(encrypt, (keys, local, &id, plaintext), sealed)
                &&& sealed matches Ok(message) ==> r == Ok::<Vec<u8>, BridgeError>(message)
                &&& sealed matches Err(e) ==> r == Err::<Vec<u8>, BridgeError>(
                    BridgeError::Protocol(e),
                )
            },
{
}

/// A decrypted group message is what the protocol opened of exactly these bytes, for
/// this sender, on the store at hand; its errors are told as they are.
pub proof fn law_decrypted_group_message_is_what_was_opened<
    F: FnOnce(&[u8], &mut WasmInMemSenderKeyStore, &WasmProtocolAddress) -> Result<
        Vec<u8>,
        ProtocolError,
    >,
>(
    sender: &WasmProtocolAddress,
    ciphertext: &[u8],
    decrypt: F,
    before: WasmInMemSenderKeyStore,
    after: WasmInMemSenderKeyStore,
    r: Result<Vec<u8>, BridgeError>,
)
    requires
        exists|store: &mut WasmInMemSenderKeyStore|
            *store == before && *final(store) == after && #[trigger] call_ensures(
                decrypt_group_message::<F>,
                (sender, ciphertext, store, decrypt),
                r,
            ),
    ensures
        exists|keys: &mut WasmInMemSenderKeyStore, opened: Result<Vec<u8>, ProtocolError>|
            {
                &&& *keys == before && *final(keys) == after
                &&& #[trigger] call_ensures(decrypt, (ciphertext, keys, sender), opened)
                &&& opened matches Ok(text) ==> r == Ok::<Vec<u8>, BridgeError>(text)
                &&& opened matches Err(e) ==> r == Err::<Vec<u8>, BridgeError>(
                    BridgeError::Protocol(e),
                )
            },
{
}

/// Thirty-two bytes, and no other number of them, are a group master key, which
/// serializes as those bytes. Any other number is refused, with the one message.
pub proof fn law_master_key_serializes_as_read(
    bytes: &[u8],
    r: Result<WasmGroupMasterKey, BridgeError>,
)
    requires
        call_ensures(WasmGroupMasterKey::from_bytes, (bytes,), r),
    ensures
        r is Ok <==> bytes@.len() == 32,
        r matches Ok(key) ==> forall|shown: Vec<u8>| #[trigger]
            call_ensures(WasmGroupMasterKey::serialize, (&key,), shown) ==> shown@ == bytes@,
        r matches Err(e) ==> (e matches BridgeError::Validation(m) && m@
            == "Invalid key length (must be 32 bytes)"@),
{
}

/// Secret params show the master key that they were derived from, and their identifier
/// is what identifying the params that were derived of that key gave. So is the
/// identifier that is derived of the key directly.
pub proof fn law_group_derivations_follow_the_key<
    P,
    F: FnOnce(&WasmGroupMasterKey) -> P,
    G: FnOnce(&P) -> [u8; 32],
>(
    key: &WasmGroupMasterKey,
    derive: F,
    identify: G,
    bytes: Vec<u8>,
    params: WasmGroupSecretParams<P>,
    master: Vec<u8>,
    through_params: WasmGroupIdentifier,
    direct: WasmGroupIdentifier,
    through_bytes: Vec<u8>,
    direct_bytes: Vec<u8>,
)
    requires
        call_ensures(WasmGroupMasterKey::serialize, (key,), bytes),
        call_ensures(WasmGroupMasterKey::derive_secret_params::<P, F>, (key, derive), params),
        call_ensures(WasmGroupSecretParams::<P>::serialize_master_key, (&params,), master),
        call_ensures(
            WasmGroupSecretParams::<P>::get_identifier::<G>,
            (&params, identify),
            through_params,
        ),
        call_ensures(
            WasmGroupMasterKey::derive_identifier::<P, F, G>,
            (key, derive, identify),
            direct,
        ),
        call_ensures(WasmGroupIdentifier::serialize, (&through_params,), through_bytes),
        call_ensures(WasmGroupIdentifier::serialize, (&direct,), direct_bytes),
    ensures
        master@ == bytes@,
        exists|derived: P, id: [u8; 32]| #[trigger]
            call_ensures(derive, (key,), derived) && #[trigger] call_ensures(
                identify,
                (&derived,),
                id,
            ) && through_bytes@ == id@,
        exists|derived: P, id: [u8; 32]| #[trigger]
            call_ensures(derive, (key,), derived) && #[trigger] call_ensures(
                identify,
                (&derived,),
                id,
            ) && direct_bytes@ == id@,
{
}

} // verus!
