//! Messages to groups, under sender keys.
//!
//! The chains are the protocol implementation's. Each operation takes what it
//! needs of them as a function, hands it the caller's store, and leaves in the
//! store what it left there.

use crate::address::WasmProtocolAddress;
use crate::error::{protocol_outcome, BridgeError, ProtocolError};
use crate::ids::parse_distribution_id;
use crate::sender_keys::{SenderKeyView, WasmInMemSenderKeyStore};
use vstd::prelude::*;

verus! {

/// Makes the message by which `local_address` hands its sender key for a
/// distribution out. `create` makes the key where the store has none, and goes on
/// with the existing one where it has.
pub fn create_sender_key_distribution<
    F: FnOnce(&WasmProtocolAddress, &Vec<u8>, &mut WasmInMemSenderKeyStore) -> Result<
        Vec<u8>,
        ProtocolError,
    >,
>(
    local_address: &WasmProtocolAddress,
    distribution_id: String,
    sender_key_store: &mut WasmInMemSenderKeyStore,
    create: F,
) -> (r: Result<Vec<u8>, BridgeError>)
    requires
        crate::ids::uuid_of_text(distribution_id@) matches Some(id_bytes) ==> forall|
            id: Vec<u8>,
            keys: &mut WasmInMemSenderKeyStore,
        |
            id@ == id_bytes ==> #[trigger] call_requires(create, (local_address, &id, keys)),
    ensures
        match crate::ids::uuid_of_text(distribution_id@) {
            None => *final(sender_key_store) == *old(sender_key_store)
                && crate::sender_keys::refuses_distribution_id(distribution_id@, r),
            Some(id_bytes) => exists|
                id: Vec<u8>,
                keys: &mut WasmInMemSenderKeyStore,
                created: Result<Vec<u8>, ProtocolError>,
            |
                {
                    &&& id@ == id_bytes
                    &&& *keys == *old(sender_key_store)
                    &&& *final(keys) == *final(sender_key_store)
                    &&& #[trigger] call_ensures(create, (local_address, &id, keys), created)
                    &&& r == crate::error::lift_protocol(created)
                },
        },
{
    match parse_distribution_id(distribution_id.as_str()) {
        Ok(id) => protocol_outcome(create(local_address, &id, sender_key_store)),
        Err(e) => Err(e),
    }
}

/// Takes over the sender key that `sender_address` handed out. The message names
/// its distribution itself. `parse` reads it, and `process` keeps the key; a message
/// that cannot be read leaves the store alone.
pub fn process_sender_key_distribution<
    M,
    P: FnOnce(&[u8]) -> Result<M, ProtocolError>,
    F: FnOnce(&WasmProtocolAddress, &M, &mut WasmInMemSenderKeyStore) -> Result<(), ProtocolError>,
>(
    sender_address: &WasmProtocolAddress,
    distribution_message: &[u8],
    sender_key_store: &mut WasmInMemSenderKeyStore,
    parse: P,
    process: F,
) -> (r: Result<(), BridgeError>)
    requires
        call_requires(parse, (distribution_message,)),
        forall|message: M, keys: &mut WasmInMemSenderKeyStore| #[trigger]
            call_requires(process, (sender_address, &message, keys)),
    ensures
        exists|parsed: Result<M, ProtocolError>| #[trigger]
            call_ensures(parse, (distribution_message,), parsed) && match parsed {
                Err(e) => *final(sender_key_store) == *old(sender_key_store) && r == Err::<
                    (),
                    BridgeError,
                >(BridgeError::Protocol(e)),
                Ok(message) => exists|
                    keys: &mut WasmInMemSenderKeyStore,
                    processed: Result<(), ProtocolError>,
                |
                    {
                        &&& *keys == *old(sender_key_store)
                        &&& *final(keys) == *final(sender_key_store)
                        &&& #[trigger] call_ensures(
                            process,
                            (sender_address, &message, keys),
                            processed,
                        )
                        &&& r == crate::error::lift_protocol(processed)
                    },
            },
{
    match parse(distribution_message) {
        Ok(message) => protocol_outcome(process(sender_address, &message, sender_key_store)),
        Err(e) => Err(BridgeError::Protocol(e)),
    }
}

/// Encrypts a message to the group of a distribution, under the sender key that
/// `local_address` handed out for it. `encrypt` advances that key's chain.
pub fn encrypt_group_message<
    F: FnOnce(&mut WasmInMemSenderKeyStore, &WasmProtocolAddress, &Vec<u8>, &[u8]) -> Result<
        Vec<u8>,
        ProtocolError,
    >,
>(
    local_address: &WasmProtocolAddress,
    distribution_id: String,
    plaintext: &[u8],
    sender_key_store: &mut WasmInMemSenderKeyStore,
    encrypt: F,
) -> (r: Result<Vec<u8>, BridgeError>)
    requires
        crate::ids::uuid_of_text(distribution_id@) matches Some(id_bytes) ==> forall|
            keys: &mut WasmInMemSenderKeyStore,
            id: Vec<u8>,
        |
            id@ == id_bytes ==> #[trigger] call_requires(
                encrypt,
                (keys, local_address, &id, plaintext),
            ),
    ensures
        match crate::ids::uuid_of_text(distribution_id@) {
            None => *final(sender_key_store) == *old(sender_key_store)
                && crate::sender_keys::refuses_distribution_id(distribution_id@, r),
            Some(id_bytes) => exists|
                keys: &mut WasmInMemSenderKeyStore,
                id: Vec<u8>,
                sealed: Result<Vec<u8>, ProtocolError>,
            |
                {
                    &&& id@ == id_bytes
                    &&& *keys == *old(sender_key_store)
                    &&& *final(keys) == *final(sender_key_store)
                    &&& #[trigger] call_ensures(
                        encrypt,
                        (keys, local_address, &id, plaintext),
                        sealed,
                    )
                    &&& r == crate::error::lift_protocol(sealed)
                },
        },
{
    match parse_distribution_id(distribution_id.as_str()) {
        Ok(id) => protocol_outcome(encrypt(sender_key_store, local_address, &id, plaintext)),
        Err(e) => Err(e),
    }
}

/// Decrypts a group message of `sender_address`. The message names its distribution
/// itself; where the store has no key for it, `decrypt` reports `NoSenderKeyState`.
pub fn decrypt_group_message<
    F: FnOnce(&[u8], &mut WasmInMemSenderKeyStore, &WasmProtocolAddress) -> Result<
        Vec<u8>,
        ProtocolError,
    >,
>(
    sender_address: &WasmProtocolAddress,
    ciphertext: &[u8],
    sender_key_store: &mut WasmInMemSenderKeyStore,
    decrypt: F,
) -> (r: Result<Vec<u8>, BridgeError>)
    requires
        forall|keys: &mut WasmInMemSenderKeyStore| #[trigger]
            call_requires(decrypt, (ciphertext, keys, sender_address)),
    ensures
        exists|keys: &mut WasmInMemSenderKeyStore, opened: Result<Vec<u8>, ProtocolError>|
            {
                &&& *keys == *old(sender_key_store)
                &&& *final(keys) == *final(sender_key_store)
                &&& #[trigger] call_ensures(decrypt, (ciphertext, keys, sender_address), opened)
                &&& r == crate::error::lift_protocol(opened)
            },
{
    protocol_outcome(decrypt(ciphertext, sender_key_store, sender_address))
}

/// Every name but `name` has the record that it had.
pub open spec fn other_records_unchanged(
    before: Map<SenderKeyView, Seq<u8>>,
    after: Map<SenderKeyView, Seq<u8>>,
    name: SenderKeyView,
) -> bool {
    before.remove(name) == after.remove(name)
}

/// What a distribution makes of the keys that it finds: it goes on with the record of
/// its name, or makes one where there is none, touches no other, and hands out the
/// message that `announced` gives of the record.
pub open spec fn distributes(
    before: Map<SenderKeyView, Seq<u8>>,
    after: Map<SenderKeyView, Seq<u8>>,
    name: SenderKeyView,
    announced: spec_fn(Seq<u8>) -> Seq<u8>,
    created: Result<Vec<u8>, ProtocolError>,
) -> bool {
    &&& after.dom().contains(name)
    &&& before.dom().contains(name) ==> after[name] == before[name]
    &&& other_records_unchanged(before, after, name)
    &&& created matches Ok(message) && message@ == announced(after[name])
}

/// A second distribution under the same name goes on with the existing chain: the same
/// message, the same record, and no other record is touched. This holds where the
/// protocol does its part, which is what `distributes` says.
pub proof fn law_distribution_goes_on<
    F: FnOnce(&WasmProtocolAddress, &Vec<u8>, &mut WasmInMemSenderKeyStore) -> Result<
        Vec<u8>,
        ProtocolError,
    >,
>(
    create: F,
    announced: spec_fn(Seq<u8>) -> Seq<u8>,
    local_address: &WasmProtocolAddress,
    id: Seq<u8>,
    before: WasmInMemSenderKeyStore,
    once: WasmInMemSenderKeyStore,
    twice: WasmInMemSenderKeyStore,
    first: Result<Vec<u8>, BridgeError>,
    second: Result<Vec<u8>, BridgeError>,
)
    requires
        forall|
            given: Vec<u8>,
            keys: &mut WasmInMemSenderKeyStore,
            created: Result<Vec<u8>, ProtocolError>,
        |
            given@ == id && #[trigger] call_ensures(
                create,
                (local_address, &given, keys),
                created,
            ) ==> distributes(
                (*keys)@,
                (*final(keys))@,
                (local_address@, id),
                announced,
                created,
            ),
        exists|
            given: Vec<u8>,
            keys: &mut WasmInMemSenderKeyStore,
            created: Result<Vec<u8>, ProtocolError>,
        |
            {
                &&& given@ == id
                &&& *keys == before
                &&& *final(keys) == once
                &&& #[trigger] call_ensures(create, (local_address, &given, keys), created)
                &&& first == crate::error::lift_protocol(created)
            },
        exists|
            given: Vec<u8>,
            keys: &mut WasmInMemSenderKeyStore,
            created: Result<Vec<u8>, ProtocolError>,
        |
            {
                &&& given@ == id
                &&& *keys == once
                &&& *final(keys) == twice
                &&& #[trigger] call_ensures(create, (local_address, &given, keys), created)
                &&& second == crate::error::lift_protocol(created)
            },
    ensures
        first matches Ok(m1) && second matches Ok(m2) && m1@ == m2@,
        twice@ == once@,
        other_records_unchanged(before@, twice@, (local_address@, id)),
{
    let name = (local_address@, id);
    assert(exists|created: Result<Vec<u8>, ProtocolError>| #[trigger]
        distributes(before@, once@, name, announced, created) && first
            == crate::error::lift_protocol(created));
    assert(exists|created: Result<Vec<u8>, ProtocolError>| #[trigger]
        distributes(once@, twice@, name, announced, created) && second
            == crate::error::lift_protocol(created));
    assert forall|other: SenderKeyView| #[trigger]
        twice@.dom().contains(other) == once@.dom().contains(other) && (once@.dom().contains(other)
            ==> twice@[other] == once@[other]) by {
        if other != name {
            assert(twice@.remove(name).dom().contains(other) == once@.remove(name).dom().contains(
                other,
            ));
            assert(twice@.remove(name)[other] == once@.remove(name)[other]);
        }
    }
    assert(twice@ =~= once@);
}

/// A distribution after a removal makes fresh key material: a record that is none of
/// those that were there before, where the protocol makes no record twice. No other
/// record is touched.
pub proof fn law_rotation_makes_fresh_keys<
    F: FnOnce(&WasmProtocolAddress, &Vec<u8>, &mut WasmInMemSenderKeyStore) -> Result<
        Vec<u8>,
        ProtocolError,
    >,
>(
    create: F,
    announced: spec_fn(Seq<u8>) -> Seq<u8>,
    local_address: &WasmProtocolAddress,
    id: Seq<u8>,
    before: WasmInMemSenderKeyStore,
    removed: WasmInMemSenderKeyStore,
    after: WasmInMemSenderKeyStore,
    r: Result<Vec<u8>, BridgeError>,
)
    requires
        before@.dom().contains((local_address@, id)),
        removed@ == before@.remove((local_address@, id)),
        forall|
            given: Vec<u8>,
            keys: &mut WasmInMemSenderKeyStore,
            created: Result<Vec<u8>, ProtocolError>,
        |
            given@ == id && #[trigger] call_ensures(
                create,
                (local_address, &given, keys),
                created,
            ) ==> distributes(
                (*keys)@,
                (*final(keys))@,
                (local_address@, id),
                announced,
                created,
            ) && (!(*keys)@.dom().contains((local_address@, id)) ==> (*final(keys))@[(
                local_address@,
                id,
            )] != before@[(local_address@, id)]),
        exists|
            given: Vec<u8>,
            keys: &mut WasmInMemSenderKeyStore,
            created: Result<Vec<u8>, ProtocolError>,
        |
            {
                &&& given@ == id
                &&& *keys == removed
                &&& *final(keys) == after
                &&& #[trigger] call_ensures(create, (local_address, &given, keys), created)
                &&& r == crate::error::lift_protocol(created)
            },
    ensures
        r is Ok,
        after@.dom().contains((local_address@, id)),
        after@[(local_address@, id)] != before@[(local_address@, id)],
        other_records_unchanged(before@, after@, (local_address@, id)),
{
    let name = (local_address@, id);
    assert(exists|created: Result<Vec<u8>, ProtocolError>| #[trigger]
        distributes(removed@, after@, name, announced, created) && r
            == crate::error::lift_protocol(created));
    assert(before@.remove(name).remove(name) =~= before@.remove(name));
}

/// What was encrypted to a group is decrypted to the same text, where the protocol
/// does its part: on the store at hand it opens the message to that text and touches
/// no record but the sender's for the distribution `id`.
pub proof fn law_group_decryption_gives_the_plaintext<
    F: FnOnce(&[u8], &mut WasmInMemSenderKeyStore, &WasmProtocolAddress) -> Result<
        Vec<u8>,
        ProtocolError,
    >,
>(
    decrypt: F,
    plaintext: Seq<u8>,
    sealed: Result<Vec<u8>, ProtocolError>,
    encrypted: Result<Vec<u8>, BridgeError>,
    ciphertext: &[u8],
    id: Seq<u8>,
    sender_address: &WasmProtocolAddress,
    before: WasmInMemSenderKeyStore,
    after: WasmInMemSenderKeyStore,
    r: Result<Vec<u8>, BridgeError>,
)
    requires
        encrypted == crate::error::lift_protocol(sealed),
        encrypted matches Ok(message) && message@ == ciphertext@,
        forall|
            message: Vec<u8>,
            data: &[u8],
            keys: &mut WasmInMemSenderKeyStore,
            opened: Result<Vec<u8>, ProtocolError>,
        |
            sealed == Ok::<Vec<u8>, ProtocolError>(message) && data@ == #[trigger] message@ && *keys
                == before && #[trigger] call_ensures(decrypt, (data, keys, sender_address), opened)
                ==> (opened matches Ok(text) && text@ == plaintext) && other_records_unchanged(
                (*keys)@,
                (*final(keys))@,
                (sender_address@, id),
            ),
        exists|keys: &mut WasmInMemSenderKeyStore, opened: Result<Vec<u8>, ProtocolError>|
            {
                &&& *keys == before
                &&& *final(keys) == after
                &&& #[trigger] call_ensures(decrypt, (ciphertext, keys, sender_address), opened)
                &&& r == crate::error::lift_protocol(opened)
            },
    ensures
        r matches Ok(text) && text@ == plaintext,
        other_records_unchanged(before@, after@, (sender_address@, id)),
{
    let message = sealed->Ok_0;
    assert(message@ == ciphertext@);
}

} // verus!
