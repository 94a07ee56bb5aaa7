//! Laws on messages between two devices.

use crate::address::WasmProtocolAddress;
use crate::error::{BridgeError, ProtocolError};
use crate::identity_store::WasmInMemIdentityKeyStore;
use crate::keys::WasmPublicKey;
use crate::messages::{
    decrypt_message, encrypt_message, message_type_pre_key, message_type_sender_key,
    message_type_signal, process_pre_key_bundle, BundleParts, MessageKind, SealedMessage,
    WasmCiphertext,
};
use crate::pre_key_stores::{
    WasmInMemKyberPreKeyStore, WasmInMemPreKeyStore, WasmInMemSignedPreKeyStore,
};
use crate::session_store::WasmInMemSessionStore;
use vstd::prelude::*;

verus! {

/// The kinds of message have the numbers 2, 3, 7 and 8 on the wire, no other number
/// stands for one, and each has its name.
pub proof fn law_message_kinds_have_their_numbers(
    kind: MessageKind,
    number: u8,
    name: &str,
    code: u8,
    of: Option<MessageKind>,
    signal: u8,
    pre_key: u8,
    sender_key: u8,
)
    requires
        call_ensures(MessageKind::code, (&kind,), number),
        call_ensures(MessageKind::name, (&kind,), name),
        call_ensures(MessageKind::of, (code,), of),
        call_ensures(message_type_signal, (), signal),
        call_ensures(message_type_pre_key, (), pre_key),
        call_ensures(message_type_sender_key, (), sender_key),
    ensures
        match kind {
            MessageKind::Whisper => number == 2 && name@ == "Whisper"@,
            MessageKind::PreKey => number == 3 && name@ == "PreKey"@,
            MessageKind::SenderKey => number == 7 && name@ == "SenderKey"@,
            MessageKind::Plaintext => number == 8 && name@ == "Plaintext"@,
        },
        of == Some(kind) <==> code == number,
        of is Some <==> code == 2 || code == 3 || code == 7 || code == 8,
        signal == 2,
        pre_key == 3,
        sender_key == 7,
{
}

/// A message on the wire shows what it consists of.
pub proof fn law_ciphertext_shows_its_parts(
    ciphertext: WasmCiphertext,
    message_type: u8,
    body: Vec<u8>,
)
    requires
        call_ensures(WasmCiphertext::message_type, (&ciphertext,), message_type),
        call_ensures(WasmCiphertext::body, (&ciphertext,), body),
    ensures
        message_type == ciphertext@.0,
        body@ == ciphertext@.1,
{
}

/// An encrypted message is what the protocol sealed of this text, for this recipient
/// and sender, on the stores at hand: the number of its kind, and its body byte for
/// byte. The stores are left as the protocol left them, and its error is told as it is.
pub proof fn law_encrypted_message_is_what_was_sealed<
    F: FnOnce(
        &[u8],
        &WasmProtocolAddress,
        &WasmProtocolAddress,
        &mut WasmInMemSessionStore,
        &mut WasmInMemIdentityKeyStore,
    ) -> Result<SealedMessage, ProtocolError>,
>(
    plaintext: &[u8],
    recipient: &WasmProtocolAddress,
    local: &WasmProtocolAddress,
    encrypt: F,
    sessions_before: WasmInMemSessionStore,
    sessions_after: WasmInMemSessionStore,
    identities_before: WasmInMemIdentityKeyStore,
    identities_after: WasmInMemIdentityKeyStore,
    r: Result<WasmCiphertext, BridgeError>,
)
    requires
        exists|
            sessions: &mut WasmInMemSessionStore,
            identities: &mut WasmInMemIdentityKeyStore,
        |
            {
                &&& *sessions == sessions_before && *final(sessions) == sessions_after
                &&& *identities == identities_before && *final(identities) == identities_after
                &&& #[trigger] call_ensures(
                    encrypt_message::<F>,
                    (plaintext, recipient, local, sessions, identities, encrypt),
                    r,
                )
            },
    ensures
        exists|
            sessions: &mut WasmInMemSessionStore,
            identities: &mut WasmInMemIdentityKeyStore,
            sealed: Result<SealedMessage, ProtocolError>,
        |
            {
                &&& *sessions == sessions_before && *final(sessions) == sessions_after
                &&& *identities == identities_before && *final(identities) == identities_after
                &&& #[trigger] call_ensures(
                    encrypt,
                    (plaintext, recipient, local, sessions, identities),
                    sealed,
                )
                &&& r is Ok <==> sealed is Ok
                &&& sealed is Ok ==> {
                    &&& r->Ok_0@.0 == match sealed->Ok_0.kind {
                        MessageKind::Whisper => 2u8,
                        MessageKind::PreKey => 3u8,
                        MessageKind::SenderKey => 7u8,
                        MessageKind::Plaintext => 8u8,
                    }
                    &&& r->Ok_0@.1 == sealed->Ok_0.body@
                }
                &&& sealed matches Err(e) ==> r == Err::<WasmCiphertext, BridgeError>(
                    BridgeError::Protocol(e),
                )
            },
{
}

/// The stores that decryption may change.
pub struct Stores {
    pub sessions: WasmInMemSessionStore,
    pub identities: WasmInMemIdentityKeyStore,
    pub pre_keys: WasmInMemPreKeyStore,
    pub kyber: WasmInMemKyberPreKeyStore,
}

/// Only the numbers 2 and 3 are decrypted. The other two kinds are refused by name, and
/// any other number by itself; then nothing changes.
pub proof fn law_other_messages_are_refused<
    M,
    P: FnOnce(&[u8], MessageKind) -> Result<M, ProtocolError>,
    D: FnOnce(
        &M,
        &WasmProtocolAddress,
        &WasmProtocolAddress,
        &mut WasmInMemSessionStore,
        &mut WasmInMemIdentityKeyStore,
        &mut WasmInMemPreKeyStore,
        &WasmInMemSignedPreKeyStore,
        &mut WasmInMemKyberPreKeyStore,
    ) -> Result<Vec<u8>, ProtocolError>,
>(
    ciphertext: &[u8],
    message_type: u8,
    sender: &WasmProtocolAddress,
    local: &WasmProtocolAddress,
    signed: &WasmInMemSignedPreKeyStore,
    parse: P,
    decrypt: D,
    before: Stores,
    after: Stores,
    r: Result<Vec<u8>, BridgeError>,
)
    requires
        message_type != 2,
        message_type != 3,
        exists|
            sessions: &mut WasmInMemSessionStore,
            identities: &mut WasmInMemIdentityKeyStore,
            pre_keys: &mut WasmInMemPreKeyStore,
            kyber: &mut WasmInMemKyberPreKeyStore,
        |
            {
                &&& *sessions == before.sessions && *final(sessions) == after.sessions
                &&& *identities == before.identities && *final(identities) == after.identities
                &&& *pre_keys == before.pre_keys && *final(pre_keys) == after.pre_keys
                &&& *kyber == before.kyber && *final(kyber) == after.kyber
                &&& #[trigger] call_ensures(
                    decrypt_message::<M, P, D>,
                    (
                        ciphertext,
                        message_type,
                        sender,
                        local,
                        sessions,
                        identities,
                        pre_keys,
                        signed,
                        kyber,
                        parse,
                        decrypt,
                    ),
                    r,
                )
            },
    ensures
        after == before,
        r matches Err(BridgeError::Validation(m)) && if message_type == 7 {
            m@ == "Unsupported message type for decrypt: "@ + "SenderKey"@
        } else if message_type == 8 {
            m@ == "Unsupported message type for decrypt: "@ + "Plaintext"@
        } else {
            m@ == "Unknown message type: "@ + crate::text::decimal_text(message_type as nat)
        },
{
}

/// A message of number 2 or 3 is read as exactly the kind with that number, from
/// exactly the bytes given, and then opened for this sender and recipient on the stores
/// at hand. What was opened is the answer, the stores are left as the protocol left
/// them, and its errors are told as they are; an unreadable message changes nothing.
pub proof fn law_decrypted_message_is_what_was_opened<
    M,
    P: FnOnce(&[u8], MessageKind) -> Result<M, ProtocolError>,
    D: FnOnce(
        &M,
        &WasmProtocolAddress,
        &WasmProtocolAddress,
        &mut WasmInMemSessionStore,
        &mut WasmInMemIdentityKeyStore,
        &mut WasmInMemPreKeyStore,
        &WasmInMemSignedPreKeyStore,
        &mut WasmInMemKyberPreKeyStore,
    ) -> Result<Vec<u8>, ProtocolError>,
>(
    kind: MessageKind,
    ciphertext: &[u8],
    message_type: u8,
    sender: &WasmProtocolAddress,
    local: &WasmProtocolAddress,
    signed: &WasmInMemSignedPreKeyStore,
    parse: P,
    decrypt: D,
    before: Stores,
    after: Stores,
    r: Result<Vec<u8>, BridgeError>,
)
    requires
        message_type == 2 && kind == MessageKind::Whisper || message_type == 3 && kind
            == MessageKind::PreKey,
        exists|
            sessions: &mut WasmInMemSessionStore,
            identities: &mut WasmInMemIdentityKeyStore,
            pre_keys: &mut WasmInMemPreKeyStore,
            kyber: &mut WasmInMemKyberPreKeyStore,
        |
            {
                &&& *sessions == before.sessions && *final(sessions) == after.sessions
                &&& *identities == before.identities && *final(identities) == after.identities
                &&& *pre_keys == before.pre_keys && *final(pre_keys) == after.pre_keys
                &&& *kyber == before.kyber && *final(kyber) == after.kyber
                &&& #[trigger] call_ensures(
                    decrypt_message::<M, P, D>,
                    (
                        ciphertext,
                        message_type,
                        sender,
                        local,
                        sessions,
                        identities,
                        pre_keys,
                        signed,
                        kyber,
                        parse,
                        decrypt,
                    ),
                    r,
                )
            },
    ensures
        (exists|failure: ProtocolError| #[trigger]
            call_ensures(parse, (ciphertext, kind), Err(failure)) && after == before && r == Err::<
                Vec<u8>,
                BridgeError,
            >(BridgeError::Protocol(failure))) || (exists|
            message: M,
            sessions: &mut WasmInMemSessionStore,
            identities: &mut WasmInMemIdentityKeyStore,
            pre_keys: &mut WasmInMemPreKeyStore,
            kyber: &mut WasmInMemKyberPreKeyStore,
            opened: Result<Vec<u8>, ProtocolError>,
        |
            {
                &&& #[trigger] call_ensures(parse, (ciphertext, kind), Ok(message))
                &&& *sessions == before.sessions && *final(sessions) == after.sessions
                &&& *identities == before.identities && *final(identities) == after.identities
                &&& *pre_keys == before.pre_keys && *final(pre_keys) == after.pre_keys
                &&& *kyber == before.kyber && *final(kyber) == after.kyber
                &&& #[trigger] call_ensures(
                    decrypt,
                    (&message, sender, local, sessions, identities, pre_keys, signed, kyber),
                    opened,
                )
                &&& opened matches Ok(text) ==> r == Ok::<Vec<u8>, BridgeError>(text)
                &&& opened matches Err(e) ==> r == Err::<Vec<u8>, BridgeError>(
                    BridgeError::Protocol(e),
                )
            }),
{
    let parsed = choose|parsed: Result<M, ProtocolError>| #[trigger]
        call_ensures(parse, (ciphertext, kind), parsed) && match parsed {
            Err(e) => {
                &&& after == before
                &&& r == Err::<Vec<u8>, BridgeError>(BridgeError::Protocol(e))
            },
            Ok(message) => exists|
                sessions: &mut WasmInMemSessionStore,
                identities: &mut WasmInMemIdentityKeyStore,
                pre_keys: &mut WasmInMemPreKeyStore,
                kyber: &mut WasmInMemKyberPreKeyStore,
                opened: Result<Vec<u8>, ProtocolError>,
            |
                {
                    &&& *sessions == before.sessions && *final(sessions) == after.sessions
                    &&& *identities == before.identities && *final(identities)
                        == after.identities
                    &&& *pre_keys == before.pre_keys && *final(pre_keys) == after.pre_keys
                    &&& *kyber == before.kyber && *final(kyber) == after.kyber
                    &&& #[trigger] call_ensures(
                        decrypt,
                        (&message, sender, local, sessions, identities, pre_keys, signed, kyber),
                        opened,
                    )
                    &&& r == crate::error::lift_protocol(opened)
                },
        };
    match parsed {
        Ok(message) => {
            assert(call_ensures(parse, (ciphertext, kind), Ok(message)));
        },
        Err(failure) => {
            assert(call_ensures(parse, (ciphertext, kind), Err(failure)));
        },
    }
}

/// The parts of a bundle are what the recipient published, each in its own place, and
/// the device of the recipient's address.
pub open spec fn has_the_published_parts<K>(
    parts: BundleParts<K>,
    recipient: &WasmProtocolAddress,
    registration_id: u32,
    identity_key: &WasmPublicKey,
    signed_id: u32,
    signed_key: &WasmPublicKey,
    signed_signature: &[u8],
    kyber_id: u32,
    kyber_key: K,
    kyber_signature: &[u8],
) -> bool {
    &&& parts.registration_id == registration_id
    &&& parts.device_id == recipient@.1
    &&& parts.identity_key@ == identity_key@
    &&& parts.signed_pre_key_id == signed_id
    &&& parts.signed_pre_key@ == signed_key@
    &&& parts.signed_pre_key_signature@ == signed_signature@
    &&& parts.kyber_pre_key_id == kyber_id
    &&& parts.kyber_pre_key == kyber_key
    &&& parts.kyber_pre_key_signature@ == kyber_signature@
}

/// The bundle has the one-time key, as it was read and under its id, exactly where both
/// the id and the key are given.
pub open spec fn has_the_one_time_key<K, DP: FnOnce(&[u8]) -> Result<Vec<u8>, String>>(
    decode_public: DP,
    one_time_id: Option<u32>,
    one_time_key: Option<Vec<u8>>,
    parts: BundleParts<K>,
) -> bool {
    &&& parts.pre_key is Some <==> one_time_id is Some && one_time_key is Some
    &&& parts.pre_key matches Some(one_time) ==> {
        &&& one_time.0 == one_time_id->0
        &&& exists|data: &[u8], read: Vec<u8>|
            data@ == one_time_key->0@ && #[trigger] call_ensures(decode_public, (data,), Ok(read))
                && one_time.1@ == read@
    }
}

/// A session is set up of exactly what the recipient published: every id, key and
/// signature in its own place, the device of the recipient's address, and the one-time
/// key where both its id and the key are given. It is set up on the stores at hand,
/// which are left as the protocol left them.
pub proof fn law_session_is_set_up_of_what_was_published<
    K,
    B,
    DK: FnOnce(&[u8]) -> Result<K, ProtocolError>,
    DP: FnOnce(&[u8]) -> Result<Vec<u8>, String>,
    BU: FnOnce(BundleParts<K>) -> Result<B, ProtocolError>,
    PR: FnOnce(
        &WasmProtocolAddress,
        &WasmProtocolAddress,
        &mut WasmInMemSessionStore,
        &mut WasmInMemIdentityKeyStore,
        &B,
    ) -> Result<(), ProtocolError>,
>(
    recipient: &WasmProtocolAddress,
    local: &WasmProtocolAddress,
    registration_id: u32,
    identity_key: &WasmPublicKey,
    signed_id: u32,
    signed_key: &WasmPublicKey,
    signed_signature: &[u8],
    one_time_id: Option<u32>,
    one_time_key: Option<Vec<u8>>,
    kyber_id: u32,
    kyber_key: &[u8],
    kyber_signature: &[u8],
    decode_kyber: DK,
    decode_public: DP,
    build: BU,
    process: PR,
    sessions_before: WasmInMemSessionStore,
    sessions_after: WasmInMemSessionStore,
    identities_before: WasmInMemIdentityKeyStore,
    identities_after: WasmInMemIdentityKeyStore,
)
    requires
        exists|
            sessions: &mut WasmInMemSessionStore,
            identities: &mut WasmInMemIdentityKeyStore,
        |
            {
                &&& *sessions == sessions_before && *final(sessions) == sessions_after
                &&& *identities == identities_before && *final(identities) == identities_after
                &&& #[trigger] call_ensures(
                    process_pre_key_bundle::<K, B, DK, DP, BU, PR>,
                    (
                        recipient,
                        local,
                        registration_id,
                        identity_key,
                        signed_id,
                        signed_key,
                        signed_signature,
                        one_time_id,
                        one_time_key,
                        kyber_id,
                        kyber_key,
                        kyber_signature,
                        sessions,
                        identities,
                        decode_kyber,
                        decode_public,
                        build,
                        process,
                    ),
                    Ok(()),
                )
            },
    ensures
        exists|
            key: K,
            parts: BundleParts<K>,
            bundle: B,
            sessions: &mut WasmInMemSessionStore,
            identities: &mut WasmInMemIdentityKeyStore,
        |
            {
                &&& #[trigger] call_ensures(decode_kyber, (kyber_key,), Ok(key))
                &&& has_the_published_parts(
                    parts,
                    recipient,
                    registration_id,
                    identity_key,
                    signed_id,
                    signed_key,
                    signed_signature,
                    kyber_id,
                    key,
                    kyber_signature,
                )
                &&& has_the_one_time_key(decode_public, one_time_id, one_time_key, parts)
                &&& #[trigger] call_ensures(build, (parts,), Ok(bundle))
                &&& *sessions == sessions_before && *final(sessions) == sessions_after
                &&& *identities == identities_before && *final(identities) == identities_after
                &&& #[trigger] call_ensures(
                    process,
                    (recipient, local, sessions, identities, &bundle),
                    Ok(()),
                )
            },
{
}

/// A bundle is refused for the first of these that fails: reading the Kyber key,
/// reading a one-time key that is given with its id, building the bundle, and
/// processing it. The error is told as it is, and before processing nothing changes.
pub proof fn law_bundle_failures<
    K,
    B,
    DK: FnOnce(&[u8]) -> Result<K, ProtocolError>,
    DP: FnOnce(&[u8]) -> Result<Vec<u8>, String>,
    BU: FnOnce(BundleParts<K>) -> Result<B, ProtocolError>,
    PR: FnOnce(
        &WasmProtocolAddress,
        &WasmProtocolAddress,
        &mut WasmInMemSessionStore,
        &mut WasmInMemIdentityKeyStore,
        &B,
    ) -> Result<(), ProtocolError>,
>(
    recipient: &WasmProtocolAddress,
    local: &WasmProtocolAddress,
    registration_id: u32,
    identity_key: &WasmPublicKey,
    signed_id: u32,
    signed_key: &WasmPublicKey,
    signed_signature: &[u8],
    one_time_id: Option<u32>,
    one_time_key: Option<Vec<u8>>,
    kyber_id: u32,
    kyber_key: &[u8],
    kyber_signature: &[u8],
    decode_kyber: DK,
    decode_public: DP,
    build: BU,
    process: PR,
    sessions_before: WasmInMemSessionStore,
    sessions_after: WasmInMemSessionStore,
    identities_before: WasmInMemIdentityKeyStore,
    identities_after: WasmInMemIdentityKeyStore,
    e: BridgeError,
)
    requires
        exists|
            sessions: &mut WasmInMemSessionStore,
            identities: &mut WasmInMemIdentityKeyStore,
        |
            {
                &&& *sessions == sessions_before && *final(sessions) == sessions_after
                &&& *identities == identities_before && *final(identities) == identities_after
                &&& #[trigger] call_ensures(
                    process_pre_key_bundle::<K, B, DK, DP, BU, PR>,
                    (
                        recipient,
                        local,
                        registration_id,
                        identity_key,
                        signed_id,
                        signed_key,
                        signed_signature,
                        one_time_id,
                        one_time_key,
                        kyber_id,
                        kyber_key,
                        kyber_signature,
                        sessions,
                        identities,
                        decode_kyber,
                        decode_public,
                        build,
                        process,
                    ),
                    Err(e),
                )
            },
    ensures
        (exists|failure: ProtocolError| #[trigger]
            call_ensures(decode_kyber, (kyber_key,), Err(failure)) && e == BridgeError::Protocol(
                failure,
            ) && sessions_after == sessions_before && identities_after == identities_before) || (
        one_time_id is Some && one_time_key is Some && exists|
            key: K,
            data: &[u8],
            detail: String,
        |
            {
                &&& #[trigger] call_ensures(decode_kyber, (kyber_key,), Ok(key))
                &&& data@ == one_time_key->0@
                &&& #[trigger] call_ensures(decode_public, (data,), Err(detail))
                &&& e == BridgeError::Generic(detail)
                &&& sessions_after == sessions_before
                &&& identities_after == identities_before
            }) || (exists|key: K, parts: BundleParts<K>, failure: ProtocolError|
            {
                &&& #[trigger] call_ensures(decode_kyber, (kyber_key,), Ok(key))
                &&& has_the_published_parts(
                    parts,
                    recipient,
                    registration_id,
                    identity_key,
                    signed_id,
                    signed_key,
                    signed_signature,
                    kyber_id,
                    key,
                    kyber_signature,
                )
                &&& has_the_one_time_key(decode_public, one_time_id, one_time_key, parts)
                &&& #[trigger] call_ensures(build, (parts,), Err(failure))
                &&& e == BridgeError::Protocol(failure)
                &&& sessions_after == sessions_before
                &&& identities_after == identities_before
            }) || (exists|
            key: K,
            parts: BundleParts<K>,
            bundle: B,
            sessions: &mut WasmInMemSessionStore,
            identities: &mut WasmInMemIdentityKeyStore,
            failure: ProtocolError,
        |
            {
                &&& #[trigger] call_ensures(decode_kyber, (kyber_key,), Ok(key))
                &&& has_the_published_parts(
                    parts,
                    recipient,
                    registration_id,
                    identity_key,
                    signed_id,
                    signed_key,
                    signed_signature,
                    kyber_id,
                    key,
                    kyber_signature,
                )
                &&& has_the_one_time_key(decode_public, one_time_id, one_time_key, parts)
                &&& #[trigger] call_ensures(build, (parts,), Ok(bundle))
                &&& *sessions == sessions_before && *final(sessions) == sessions_after
                &&& *identities == identities_before && *final(identities) == identities_after
                &&& #[trigger] call_ensures(
                    process,
                    (recipient, local, sessions, identities, &bundle),
                    Err(failure),
                )
                &&& e == BridgeError::Protocol(failure)
            }),
{
    let kyber = choose|kyber: Result<K, ProtocolError>| #[trigger]
        call_ensures(decode_kyber, (kyber_key,), kyber) && match kyber {
            Err(failure) => {
                &&& sessions_after == sessions_before && identities_after == identities_before
                &&& e == BridgeError::Protocol(failure)
            },
            Ok(key) => exists|one_time: Result<Option<(u32, Seq<u8>)>, String>| #[trigger]
                crate::messages::one_time_read(decode_public, one_time_id, one_time_key, one_time)
                    && match one_time {
                    Err(detail) => {
                        &&& sessions_after == sessions_before
                        &&& identities_after == identities_before
                        &&& e == BridgeError::Generic(detail)
                    },
                    Ok(given) => exists|parts: BundleParts<K>, built: Result<B, ProtocolError>|
                        {
                            &&& has_the_published_parts(
                                parts,
                                recipient,
                                registration_id,
                                identity_key,
                                signed_id,
                                signed_key,
                                signed_signature,
                                kyber_id,
                                key,
                                kyber_signature,
                            )
                            &&& parts.one_time() == given
                            &&& #[trigger] call_ensures(build, (parts,), built)
                            &&& match built {
                                Err(failure) => {
                                    &&& sessions_after == sessions_before
                                    &&& identities_after == identities_before
                                    &&& e == BridgeError::Protocol(failure)
                                },
                                Ok(bundle) => exists|
                                    sessions: &mut WasmInMemSessionStore,
                                    identities: &mut WasmInMemIdentityKeyStore,
                                    failure: ProtocolError,
                                |
                                    {
                                        &&& *sessions == sessions_before
                                        &&& *final(sessions) == sessions_after
                                        &&& *identities == identities_before
                                        &&& *final(identities) == identities_after
                                        &&& #[trigger] call_ensures(
                                            process,
                                            (recipient, local, sessions, identities, &bundle),
                                            Err(failure),
                                        )
                                        &&& e == BridgeError::Protocol(failure)
                                    },
                            }
                        },
                },
        };
    match kyber {
        Err(failure) => {
            assert(call_ensures(decode_kyber, (kyber_key,), Err(failure)));
        },
        Ok(key) => {
            assert(call_ensures(decode_kyber, (kyber_key,), Ok(key)));
        },
    }
}

} // verus!
