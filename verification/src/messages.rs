//! Messages between two devices: kinds of ciphertext, session set-up, encryption
//! and decryption.
//!
//! The ratchets are the protocol implementation's. Each operation takes what it
//! needs of them as functions, hands them the caller's stores, and leaves in the
//! stores what they left there.

use crate::address::{AddressView, WasmProtocolAddress};
use crate::error::{protocol_outcome, BridgeError, ProtocolError};
use crate::identity_store::WasmInMemIdentityKeyStore;
use crate::keys::WasmPublicKey;
use crate::pre_key_stores::{
    WasmInMemKyberPreKeyStore, WasmInMemPreKeyStore, WasmInMemSignedPreKeyStore,
};
use crate::session_store::WasmInMemSessionStore;
use crate::table::copy_bytes;
use crate::text::{decimal, join};
use vstd::prelude::*;

verus! {

/// The kinds of ciphertext message.
#[derive(Clone, Copy, Debug, PartialEq, Eq, Structural)]
pub enum MessageKind {
    /// A message of an established session.
    Whisper,
    /// A message that also sets its session up.
    PreKey,
    /// A message to a group.
    SenderKey,
    /// A message that is not encrypted.
    Plaintext,
}

impl MessageKind {
    /// The number that stands for the kind on the wire.
    pub open spec fn spec_code(self) -> u8 {
        match self {
            MessageKind::Whisper => 2,
            MessageKind::PreKey => 3,
            MessageKind::SenderKey => 7,
            MessageKind::Plaintext => 8,
        }
    }

    /// The kind that a number stands for, if it stands for one.
    pub open spec fn spec_of(code: u8) -> Option<MessageKind> {
        if code == 2 {
            Some(MessageKind::Whisper)
        } else if code == 3 {
            Some(MessageKind::PreKey)
        } else if code == 7 {
            Some(MessageKind::SenderKey)
        } else if code == 8 {
            Some(MessageKind::Plaintext)
        } else {
            None
        }
    }

    /// The name of the kind.
    pub open spec fn text(self) -> Seq<char> {
        match self {
            MessageKind::Whisper => "Whisper"@,
            MessageKind::PreKey => "PreKey"@,
            MessageKind::SenderKey => "SenderKey"@,
            MessageKind::Plaintext => "Plaintext"@,
        }
    }

    /// Messages of a session between two devices.
    pub open spec fn belongs_to_session(self) -> bool {
        self == MessageKind::Whisper || self == MessageKind::PreKey
    }

    /// The number that stands for the kind on the wire.
    pub fn code(&self) -> (code: u8)
        ensures
            code == self.spec_code(),
    {
        match self {
            MessageKind::Whisper => 2,
            MessageKind::PreKey => 3,
            MessageKind::SenderKey => 7,
            MessageKind::Plaintext => 8,
        }
    }

    /// The kind that a number stands for.
    pub fn of(code: u8) -> (kind: Option<MessageKind>)
        ensures
            kind == MessageKind::spec_of(code),
    {
        if code == 2 {
            Some(MessageKind::Whisper)
        } else if code == 3 {
            Some(MessageKind::PreKey)
        } else if code == 7 {
            Some(MessageKind::SenderKey)
        } else if code == 8 {
            Some(MessageKind::Plaintext)
        } else {
            None
        }
    }

    /// The name of the kind.
    pub fn name(&self) -> (name: &'static str)
        ensures
            name@ == self.text(),
    {
        match self {
            MessageKind::Whisper => "Whisper",
            MessageKind::PreKey => "PreKey",
            MessageKind::SenderKey => "SenderKey",
            MessageKind::Plaintext => "Plaintext",
        }
    }
}

/// The number of a message of an established session.
pub fn message_type_signal() -> (code: u8)
    ensures
        code == MessageKind::Whisper.spec_code(),
{
    MessageKind::Whisper.code()
}

/// The number of a message that also sets its session up.
pub fn message_type_pre_key() -> (code: u8)
    ensures
        code == MessageKind::PreKey.spec_code(),
{
    MessageKind::PreKey.code()
}

/// The number of a message to a group.
pub fn message_type_sender_key() -> (code: u8)
    ensures
        code == MessageKind::SenderKey.spec_code(),
{
    MessageKind::SenderKey.code()
}

/// A message as the protocol sealed it.
pub struct SealedMessage {
    pub kind: MessageKind,
    pub body: Vec<u8>,
}

/// A message on the wire: the number of its kind and its serialized body.
pub struct WasmCiphertext {
    message_type: u8,
    body: Vec<u8>,
}

impl View for WasmCiphertext {
    type V = (u8, Seq<u8>);

    closed spec fn view(&self) -> (u8, Seq<u8>) {
        (self.message_type, self.body@)
    }
}

impl WasmCiphertext {
    /// The number of the message's kind.
    pub fn message_type(&self) -> (code: u8)
        ensures
            code == self@.0,
    {
        self.message_type
    }

    /// The serialized body.
    pub fn body(&self) -> (bytes: Vec<u8>)
        ensures
            bytes@ == self@.1,
    {
        copy_bytes(&self.body)
    }
}

/// What becomes of a message that was sealed, or was not.
pub open spec fn sealed_outcome(
    sealed: Result<SealedMessage, ProtocolError>,
    r: Result<WasmCiphertext, BridgeError>,
) -> bool {
    match sealed {
        Ok(message) => r matches Ok(ciphertext) && ciphertext@ == (
            message.kind.spec_code(),
            message.body@,
        ),
        Err(e) => r == Err::<WasmCiphertext, BridgeError>(BridgeError::Protocol(e)),
    }
}

/// Encrypts a message to `recipient`, for which `encrypt` advances the session.
pub fn encrypt_message<
    F: FnOnce(
        &[u8],
        &WasmProtocolAddress,
        &WasmProtocolAddress,
        &mut WasmInMemSessionStore,
        &mut WasmInMemIdentityKeyStore,
    ) -> Result<SealedMessage, ProtocolError>,
>(
    plaintext: &[u8],
    recipient: &WasmProtocolAddress,
    local_address: &WasmProtocolAddress,
    session_store: &mut WasmInMemSessionStore,
    identity_store: &mut WasmInMemIdentityKeyStore,
    encrypt: F,
) -> (r: Result<WasmCiphertext, BridgeError>)
    requires
        forall|sessions: &mut WasmInMemSessionStore, identities: &mut WasmInMemIdentityKeyStore|
            #[trigger] call_requires(
                encrypt,
                (plaintext, recipient, local_address, sessions, identities),
            ),
    ensures
        exists|
            sessions: &mut WasmInMemSessionStore,
            identities: &mut WasmInMemIdentityKeyStore,
            sealed: Result<SealedMessage, ProtocolError>,
        |
            {
                &&& *sessions == *old(session_store) && *final(sessions) == *final(session_store)
                &&& *identities == *old(identity_store) && *final(identities) == *final(identity_store)
                &&& #[trigger] call_ensures(
                    encrypt,
                    (plaintext, recipient, local_address, sessions, identities),
                    sealed,
                )
                &&& sealed_outcome(sealed, r)
            },
        // Where `encrypt` changes the pins by attempts and trusted saves alone, so does this.
        (forall|
            sessions: &mut WasmInMemSessionStore,
            identities: &mut WasmInMemIdentityKeyStore,
            sealed: Result<SealedMessage, ProtocolError>,
        |
            #[trigger] call_ensures(
                encrypt,
                (plaintext, recipient, local_address, sessions, identities),
                sealed,
            ) ==> crate::identity_store::pins_reached(
                (*identities)@.pins,
                (*final(identities))@.pins,
            )) ==> crate::identity_store::pins_reached(
            old(identity_store)@.pins,
            final(identity_store)@.pins,
        ),
{
    match encrypt(plaintext, recipient, local_address, session_store, identity_store) {
        Ok(message) => Ok(
            WasmCiphertext { message_type: message.kind.code(), body: message.body },
        ),
        Err(e) => Err(BridgeError::Protocol(e)),
    }
}

/// Decrypts a message of `sender`. Only messages of a session can be decrypted
/// here. `parse` reads the message, and `decrypt` opens it and advances the
/// session; what comes before `decrypt` leaves every store alone.
pub fn decrypt_message<
    M,
    P: FnOnce(&[u8], MessageKind) -> Result<M, ProtocolError>,
    D: FnOnce(
        &M,
        &WasmProtocolAddress,
        &WasmProtocolAddress,
        &mut WasmInMemSessionStore,
        &mut WasmInMemIdentityKeyStore,
        &mut WasmInMemPreKeyStore,
        &WasmInMemSignedPreKeyStore,
        &mut WasmInMemKyberPreKeyStore,
    ) -> Result<Vec<u8>, ProtocolError>,
>(
    ciphertext: &[u8],
    message_type: u8,
    sender: &WasmProtocolAddress,
    local_address: &WasmProtocolAddress,
    session_store: &mut WasmInMemSessionStore,
    identity_store: &mut WasmInMemIdentityKeyStore,
    prekey_store: &mut WasmInMemPreKeyStore,
    signed_prekey_store: &WasmInMemSignedPreKeyStore,
    kyber_prekey_store: &mut WasmInMemKyberPreKeyStore,
    parse: P,
    decrypt: D,
) -> (r: Result<Vec<u8>, BridgeError>)
    requires
        session_kind(message_type) matches Ok(kind) ==> call_requires(parse, (ciphertext, kind)),
        forall|
            message: M,
            sessions: &mut WasmInMemSessionStore,
            identities: &mut WasmInMemIdentityKeyStore,
            pre_keys: &mut WasmInMemPreKeyStore,
            kyber_pre_keys: &mut WasmInMemKyberPreKeyStore,
        |
            #[trigger] call_requires(
                decrypt,
                (
                    &message,
                    sender,
                    local_address,
                    sessions,
                    identities,
                    pre_keys,
                    signed_prekey_store,
                    kyber_pre_keys,
                ),
            ),
    ensures
        match session_kind(message_type) {
            Err(reason) => {
                &&& *final(session_store) == *old(session_store)
                &&& *final(identity_store) == *old(identity_store)
                &&& *final(prekey_store) == *old(prekey_store)
                &&& *final(kyber_prekey_store) == *old(kyber_prekey_store)
                &&& r matches Err(e) && crate::error::refused_with(e, reason)
            },
            Ok(kind) => exists|parsed: Result<M, ProtocolError>| #[trigger]
                call_ensures(parse, (ciphertext, kind), parsed) && match parsed {
                    Err(e) => {
                        &&& *final(session_store) == *old(session_store)
                        &&& *final(identity_store) == *old(identity_store)
                        &&& *final(prekey_store) == *old(prekey_store)
                        &&& *final(kyber_prekey_store) == *old(kyber_prekey_store)
                        &&& r == Err::<Vec<u8>, BridgeError>(BridgeError::Protocol(e))
                    },
                    Ok(message) => exists|
                        sessions: &mut WasmInMemSessionStore,
                        identities: &mut WasmInMemIdentityKeyStore,
                        pre_keys: &mut WasmInMemPreKeyStore,
                        kyber_pre_keys: &mut WasmInMemKyberPreKeyStore,
                        opened: Result<Vec<u8>, ProtocolError>,
                    |
                        {
                            &&& *sessions == *old(session_store) && *final(sessions) == *final(session_store)
                            &&& *identities == *old(identity_store) && *final(identities)
                                == *final(identity_store)
                            &&& *pre_keys == *old(prekey_store) && *final(pre_keys) == *final(prekey_store)
                            &&& *kyber_pre_keys == *old(kyber_prekey_store) && *final(kyber_pre_keys) == *final(kyber_prekey_store)
                            &&& #[trigger] call_ensures(
                                decrypt,
                                (
                                    &message,
                                    sender,
                                    local_address,
                                    sessions,
                                    identities,
                                    pre_keys,
                                    signed_prekey_store,
                                    kyber_pre_keys,
                                ),
                                opened,
                            )
                            &&& r == crate::error::lift_protocol(opened)
                        },
                },
        },
        // Where `decrypt` changes the pins by attempts and trusted saves alone, so does this.
        (forall|
            message: M,
            sessions: &mut WasmInMemSessionStore,
            identities: &mut WasmInMemIdentityKeyStore,
            pre_keys: &mut WasmInMemPreKeyStore,
            kyber_pre_keys: &mut WasmInMemKyberPreKeyStore,
            opened: Result<Vec<u8>, ProtocolError>,
        |
            #[trigger] call_ensures(
                decrypt,
                (
                    &message,
                    sender,
                    local_address,
                    sessions,
                    identities,
                    pre_keys,
                    signed_prekey_store,
                    kyber_pre_keys,
                ),
                opened,
            ) ==> crate::identity_store::pins_reached(
                (*identities)@.pins,
                (*final(identities))@.pins,
            )) ==> crate::identity_store::pins_reached(
            old(identity_store)@.pins,
            final(identity_store)@.pins,
        ),
{
    proof {
        crate::identity_store::law_steps_are_series(
            identity_store@.pins,
            identity_store@.pins,
            sender@,
            Seq::empty(),
        );
    }
    let kind = match MessageKind::of(message_type) {
        Some(kind) => kind,
        None => {
            let number = decimal(message_type as u64);
            return Err(BridgeError::Validation(join("Unknown message type: ", number.as_str())));
        },
    };
    match kind {
        MessageKind::Whisper | MessageKind::PreKey => {},
        MessageKind::SenderKey | MessageKind::Plaintext => {
            return Err(
                BridgeError::Validation(
                    join("Unsupported message type for decrypt: ", kind.name()),
                ),
            );
        },
    }
    let message = match parse(ciphertext, kind) {
        Ok(message) => message,
        Err(e) => {
            return Err(BridgeError::Protocol(e));
        },
    };
    let opened = decrypt(
        &message,
        sender,
        local_address,
        session_store,
        identity_store,
        prekey_store,
        signed_prekey_store,
        kyber_prekey_store,
    );
    protocol_outcome(opened)
}

/// The kind of session message that a number stands for, or why it is refused.
pub open spec fn session_kind(code: u8) -> Result<MessageKind, Seq<char>> {
    match MessageKind::spec_of(code) {
        None => Err("Unknown message type: "@ + crate::text::decimal_text(code as nat)),
        Some(kind) => if kind.belongs_to_session() {
            Ok(kind)
        } else {
            Err("Unsupported message type for decrypt: "@ + kind.text())
        },
    }
}

/// What a recipient published, with its Kyber key as the protocol holds it.
pub struct BundleParts<K> {
    pub registration_id: u32,
    pub device_id: u32,
    /// The one-time pre-key, where there is one left.
    pub pre_key: Option<(u32, WasmPublicKey)>,
    pub signed_pre_key_id: u32,
    pub signed_pre_key: WasmPublicKey,
    pub signed_pre_key_signature: Vec<u8>,
    pub kyber_pre_key_id: u32,
    pub kyber_pre_key: K,
    pub kyber_pre_key_signature: Vec<u8>,
    pub identity_key: WasmPublicKey,
}

impl<K> BundleParts<K> {
    /// The one-time pre-key, as its id and its bytes.
    pub open spec fn one_time(self) -> Option<(u32, Seq<u8>)> {
        match self.pre_key {
            Some(p) => Some((p.0, p.1@)),
            None => None,
        }
    }
}

/// What the one-time pre-key of a bundle is read as. It takes an id and a key; with
/// either alone the bundle has none. `decode` reads the key.
pub open spec fn one_time_read<F: FnOnce(&[u8]) -> Result<Vec<u8>, String>>(
    decode: F,
    prekey_id: Option<u32>,
    prekey: Option<Vec<u8>>,
    read: Result<Option<(u32, Seq<u8>)>, String>,
) -> bool {
    match (prekey_id, prekey) {
        (Some(id), Some(bytes)) => exists|data: &[u8], decoded: Result<Vec<u8>, String>|
            data@ == bytes@ && #[trigger] call_ensures(decode, (data,), decoded) && match decoded {
                Ok(key) => read == Ok::<Option<(u32, Seq<u8>)>, String>(Some((id, key@))),
                Err(detail) => read == Err::<Option<(u32, Seq<u8>)>, String>(detail),
            },
        _ => read == Ok::<Option<(u32, Seq<u8>)>, String>(None),
    }
}

/// Reads the one-time pre-key of a bundle.
fn read_one_time<F: FnOnce(&[u8]) -> Result<Vec<u8>, String>>(
    decode: F,
    prekey_id: Option<u32>,
    prekey: Option<Vec<u8>>,
) -> (r: Result<Option<(u32, WasmPublicKey)>, BridgeError>)
    requires
        prekey_id is Some ==> (prekey matches Some(bytes) ==> forall|data: &[u8]|
            data@ == bytes@ ==> #[trigger] call_requires(decode, (data,))),
    ensures
        match r {
            Ok(None) => one_time_read(decode, prekey_id, prekey, Ok(None)),
            Ok(Some(p)) => one_time_read(decode, prekey_id, prekey, Ok(Some((p.0, p.1@)))),
            Err(e) => e matches BridgeError::Generic(detail) && one_time_read(
                decode,
                prekey_id,
                prekey,
                Err(detail),
            ),
        },
{
    match (prekey_id, prekey) {
        (Some(id), Some(bytes)) => match WasmPublicKey::deserialize(bytes.as_slice(), decode) {
            Ok(key) => Ok(Some((id, key))),
            Err(e) => Err(e),
        },
        _ => Ok(None),
    }
}

/// Sets a session with `recipient` up from the keys that it published.
///
/// `decode_kyber` reads the Kyber key, and `decode_public` the one-time key where
/// the bundle has one. `build` makes the protocol's bundle of the parts, and
/// `process` sets the session up; what comes before `process` leaves both stores
/// alone.
pub fn process_pre_key_bundle<
    K,
    B,
    DK: FnOnce(&[u8]) -> Result<K, ProtocolError>,
    DP: FnOnce(&[u8]) -> Result<Vec<u8>, String>,
    BU: FnOnce(BundleParts<K>) -> Result<B, ProtocolError>,
    PR: FnOnce(
        &WasmProtocolAddress,
        &WasmProtocolAddress,
        &mut WasmInMemSessionStore,
        &mut WasmInMemIdentityKeyStore,
        &B,
    ) -> Result<(), ProtocolError>,
>(
    recipient: &WasmProtocolAddress,
    local_address: &WasmProtocolAddress,
    registration_id: u32,
    identity_key: &WasmPublicKey,
    signed_prekey_id: u32,
    signed_prekey: &WasmPublicKey,
    signed_prekey_signature: &[u8],
    prekey_id: Option<u32>,
    prekey: Option<Vec<u8>>,
    kyber_prekey_id: u32,
    kyber_prekey: &[u8],
    kyber_prekey_signature: &[u8],
    session_store: &mut WasmInMemSessionStore,
    identity_store: &mut WasmInMemIdentityKeyStore,
    decode_kyber: DK,
    decode_public: DP,
    build: BU,
    process: PR,
) -> (r: Result<(), BridgeError>)
    requires
        call_requires(decode_kyber, (kyber_prekey,)),
        prekey_id is Some ==> (prekey matches Some(bytes) ==> forall|data: &[u8]|
            data@ == bytes@ ==> #[trigger] call_requires(decode_public, (data,))),
        forall|parts: BundleParts<K>| #[trigger] call_requires(build, (parts,)),
        forall|
            sessions: &mut WasmInMemSessionStore,
            identities: &mut WasmInMemIdentityKeyStore,
            bundle: B,
        |
            #[trigger] call_requires(
                process,
                (recipient, local_address, sessions, identities, &bundle),
            ),
    ensures
        exists|kyber: Result<K, ProtocolError>| #[trigger]
            call_ensures(decode_kyber, (kyber_prekey,), kyber) && match kyber {
                Err(e) => {
                    &&& *final(session_store) == *old(session_store)
                    &&& *final(identity_store) == *old(identity_store)
                    &&& r == Err::<(), BridgeError>(BridgeError::Protocol(e))
                },
                Ok(kyber_key) => exists|one_time: Result<Option<(u32, Seq<u8>)>, String>|
                    #[trigger] one_time_read(decode_public, prekey_id, prekey, one_time)
                        && match one_time {
                        Err(detail) => {
                            &&& *final(session_store) == *old(session_store)
                            &&& *final(identity_store) == *old(identity_store)
                            &&& r == Err::<(), BridgeError>(BridgeError::Generic(detail))
                        },
                        Ok(one_time_key) => exists|
                            parts: BundleParts<K>,
                            built: Result<B, ProtocolError>,
                        |
                            {
                                &&& parts.registration_id == registration_id
                                &&& parts.device_id == recipient@.1
                                &&& parts.one_time() == one_time_key
                                &&& parts.signed_pre_key_id == signed_prekey_id
                                &&& parts.signed_pre_key@ == signed_prekey@
                                &&& parts.signed_pre_key_signature@ == signed_prekey_signature@
                                &&& parts.kyber_pre_key_id == kyber_prekey_id
                                &&& parts.kyber_pre_key == kyber_key
                                &&& parts.kyber_pre_key_signature@ == kyber_prekey_signature@
                                &&& parts.identity_key@ == identity_key@
                                &&& #[trigger] call_ensures(build, (parts,), built)
                                &&& match built {
                                    Err(e) => {
                                        &&& *final(session_store) == *old(session_store)
                                        &&& *final(identity_store) == *old(identity_store)
                                        &&& r == Err::<(), BridgeError>(BridgeError::Protocol(e))
                                    },
                                    Ok(bundle) => exists|
                                        sessions: &mut WasmInMemSessionStore,
                                        identities: &mut WasmInMemIdentityKeyStore,
                                        processed: Result<(), ProtocolError>,
                                    |
                                        {
                                            &&& *sessions == *old(session_store)
                                            &&& *final(sessions) == *final(session_store)
                                            &&& *identities == *old(identity_store)
                                            &&& *final(identities) == *final(identity_store)
                                            &&& #[trigger] call_ensures(
                                                process,
                                                (
                                                    recipient,
                                                    local_address,
                                                    sessions,
                                                    identities,
                                                    &bundle,
                                                ),
                                                processed,
                                            )
                                            &&& r == crate::error::lift_protocol(processed)
                                        },
                                }
                            },
                    },
            },
        // Where `process` changes the pins by attempts and trusted saves alone, so does this.
        (forall|
            sessions: &mut WasmInMemSessionStore,
            identities: &mut WasmInMemIdentityKeyStore,
            bundle: B,
            processed: Result<(), ProtocolError>,
        |
            #[trigger] call_ensures(
                process,
                (recipient, local_address, sessions, identities, &bundle),
                processed,
            ) ==> crate::identity_store::pins_reached(
                (*identities)@.pins,
                (*final(identities))@.pins,
            )) ==> crate::identity_store::pins_reached(
            old(identity_store)@.pins,
            final(identity_store)@.pins,
        ),
{
    proof {
        crate::identity_store::law_steps_are_series(
            identity_store@.pins,
            identity_store@.pins,
            recipient@,
            Seq::empty(),
        );
    }
    let kyber_pre_key = match decode_kyber(kyber_prekey) {
        Ok(key) => key,
        Err(e) => {
            return Err(BridgeError::Protocol(e));
        },
    };
    let pre_key = match read_one_time(decode_public, prekey_id, prekey) {
        Ok(pre_key) => pre_key,
        Err(e) => {
            return Err(e);
        },
    };
    let parts = BundleParts {
        registration_id,
        device_id: recipient.device_id(),
        pre_key,
        signed_pre_key_id: signed_prekey_id,
        signed_pre_key: signed_prekey.clone(),
        signed_pre_key_signature: vstd::slice::slice_to_vec(signed_prekey_signature),
        kyber_pre_key_id: kyber_prekey_id,
        kyber_pre_key,
        kyber_pre_key_signature: vstd::slice::slice_to_vec(kyber_prekey_signature),
        identity_key: identity_key.clone(),
    };
    let bundle = match build(parts) {
        Ok(bundle) => bundle,
        Err(e) => {
            return Err(BridgeError::Protocol(e));
        },
    };
    let processed = process(recipient, local_address, session_store, identity_store, &bundle);
    protocol_outcome(processed)
}

/// A number stands for a kind exactly if it is the kind's number.
pub proof fn law_kinds_and_numbers_correspond(kind: MessageKind, code: u8)
    ensures
        MessageKind::spec_of(code) == Some(kind) <==> code == kind.spec_code(),
{
}

/// A message is taken for decryption exactly if its number is that of one of the
/// two kinds of session message, and then as that kind.
pub proof fn law_only_session_messages_are_decrypted(code: u8)
    ensures
        session_kind(code) is Ok <==> code == MessageKind::Whisper.spec_code() || code
            == MessageKind::PreKey.spec_code(),
        session_kind(code) matches Ok(kind) ==> kind.spec_code() == code,
{
}

/// What encryption gives of a session message is taken for decryption, as the kind
/// that was sealed.
pub proof fn law_sealed_messages_are_accepted(
    sealed: SealedMessage,
    ciphertext: WasmCiphertext,
)
    requires
        sealed.kind.belongs_to_session(),
        sealed_outcome(Ok(sealed), Ok(ciphertext)),
    ensures
        session_kind(ciphertext@.0) == Ok::<MessageKind, Seq<char>>(sealed.kind),
        ciphertext@.1 == sealed.body@,
{
}

/// A sealed message goes out under the number of its kind: 3 where it sets its session
/// up, 2 in an established session.
pub proof fn law_sealed_kinds_have_their_numbers(
    sealed: SealedMessage,
    ciphertext: WasmCiphertext,
)
    requires
        sealed_outcome(Ok(sealed), Ok(ciphertext)),
    ensures
        sealed.kind == MessageKind::PreKey <==> ciphertext@.0 == 3,
        sealed.kind == MessageKind::Whisper <==> ciphertext@.0 == 2,
{
}

/// Every address but `address` has the session that it had.
pub open spec fn other_sessions_unchanged(
    before: Map<AddressView, Seq<u8>>,
    after: Map<AddressView, Seq<u8>>,
    address: AddressView,
) -> bool {
    before.remove(address) == after.remove(address)
}

/// Encryption changes no session but the recipient's, where `encrypt` changes none.
pub proof fn law_encryption_is_local<
    F: FnOnce(
        &[u8],
        &WasmProtocolAddress,
        &WasmProtocolAddress,
        &mut WasmInMemSessionStore,
        &mut WasmInMemIdentityKeyStore,
    ) -> Result<SealedMessage, ProtocolError>,
>(
    encrypt: F,
    plaintext: &[u8],
    recipient: &WasmProtocolAddress,
    local_address: &WasmProtocolAddress,
    before: WasmInMemSessionStore,
    after: WasmInMemSessionStore,
)
    requires
        exists|
            sessions: &mut WasmInMemSessionStore,
            identities: &mut WasmInMemIdentityKeyStore,
            sealed: Result<SealedMessage, ProtocolError>,
        |
            *sessions == before && *final(sessions) == after && #[trigger] call_ensures(
                encrypt,
                (plaintext, recipient, local_address, sessions, identities),
                sealed,
            ),
        forall|
            sessions: &mut WasmInMemSessionStore,
            identities: &mut WasmInMemIdentityKeyStore,
            sealed: Result<SealedMessage, ProtocolError>,
        |
            #[trigger] call_ensures(
                encrypt,
                (plaintext, recipient, local_address, sessions, identities),
                sealed,
            ) ==> other_sessions_unchanged(
                (*sessions)@,
                (*final(sessions))@,
                recipient@,
            ),
    ensures
        other_sessions_unchanged(before@, after@, recipient@),
{
}

/// What was encrypted is decrypted to the same text, where the protocol does its part:
/// it reads the sealed message, and opens it to that text on the stores at hand. The
/// bridge hands it the body and the kind that were sealed.
pub proof fn law_decryption_gives_the_plaintext<
    M,
    P: FnOnce(&[u8], MessageKind) -> Result<M, ProtocolError>,
    D: FnOnce(
        &M,
        &WasmProtocolAddress,
        &WasmProtocolAddress,
        &mut WasmInMemSessionStore,
        &mut WasmInMemIdentityKeyStore,
        &mut WasmInMemPreKeyStore,
        &WasmInMemSignedPreKeyStore,
        &mut WasmInMemKyberPreKeyStore,
    ) -> Result<Vec<u8>, ProtocolError>,
>(
    parse: P,
    decrypt: D,
    plaintext: Seq<u8>,
    sealed: SealedMessage,
    ciphertext: WasmCiphertext,
    body: &[u8],
    kind: MessageKind,
    sender: &WasmProtocolAddress,
    local_address: &WasmProtocolAddress,
    session_store: WasmInMemSessionStore,
    identity_store: WasmInMemIdentityKeyStore,
    prekey_store: WasmInMemPreKeyStore,
    signed_prekey_store: &WasmInMemSignedPreKeyStore,
    kyber_prekey_store: WasmInMemKyberPreKeyStore,
    r: Result<Vec<u8>, BridgeError>,
)
    requires
        sealed.kind.belongs_to_session(),
        sealed_outcome(Ok(sealed), Ok(ciphertext)),
        body@ == ciphertext@.1,
        // The protocol reads and opens what it sealed.
        forall|data: &[u8], parsed: Result<M, ProtocolError>|
            data@ == sealed.body@ && #[trigger] call_ensures(parse, (data, sealed.kind), parsed)
                ==> parsed is Ok,
        forall|
            data: &[u8],
            message: M,
            sessions: &mut WasmInMemSessionStore,
            identities: &mut WasmInMemIdentityKeyStore,
            pre_keys: &mut WasmInMemPreKeyStore,
            kyber_pre_keys: &mut WasmInMemKyberPreKeyStore,
            opened: Result<Vec<u8>, ProtocolError>,
        |
            {
                &&& data@ == sealed.body@
                &&& #[trigger] call_ensures(parse, (data, sealed.kind), Ok(message))
                &&& *sessions == session_store
                &&& *identities == identity_store
                &&& *pre_keys == prekey_store
                &&& *kyber_pre_keys == kyber_prekey_store
                &&& #[trigger] call_ensures(
                    decrypt,
                    (
                        &message,
                        sender,
                        local_address,
                        sessions,
                        identities,
                        pre_keys,
                        signed_prekey_store,
                        kyber_pre_keys,
                    ),
                    opened,
                )
            } ==> (opened matches Ok(text) && text@ == plaintext),
        // `r` is what decrypting the ciphertext on these stores gave.
        session_kind(ciphertext@.0) == Ok::<MessageKind, Seq<char>>(kind),
        exists|parsed: Result<M, ProtocolError>| #[trigger]
            call_ensures(parse, (body, kind), parsed) && match parsed {
                Err(e) => r == Err::<Vec<u8>, BridgeError>(BridgeError::Protocol(e)),
                Ok(message) => exists|
                    sessions: &mut WasmInMemSessionStore,
                    identities: &mut WasmInMemIdentityKeyStore,
                    pre_keys: &mut WasmInMemPreKeyStore,
                    kyber_pre_keys: &mut WasmInMemKyberPreKeyStore,
                    opened: Result<Vec<u8>, ProtocolError>,
                |
                    {
                        &&& *sessions == session_store
                        &&& *identities == identity_store
                        &&& *pre_keys == prekey_store
                        &&& *kyber_pre_keys == kyber_prekey_store
                        &&& #[trigger] call_ensures(
                            decrypt,
                            (
                                &message,
                                sender,
                                local_address,
                                sessions,
                                identities,
                                pre_keys,
                                signed_prekey_store,
                                kyber_pre_keys,
                            ),
                            opened,
                        )
                        &&& r == crate::error::lift_protocol(opened)
                    },
            },
    ensures
        kind == sealed.kind,
        r matches Ok(text) && text@ == plaintext,
{
}

} // verus!
