//! Identity keys, held in the serialized form that the protocol gives them.
//!
//! The curve arithmetic is the protocol implementation's. Where an operation
//! needs it, the operation takes it as a function, and its contract says what
//! that function is handed and what becomes of each outcome.

use crate::error::{generic_outcome, protocol_outcome, BridgeError, ProtocolError};
use crate::table::copy_bytes;
use vstd::prelude::*;

verus! {

/// A private key.
///
/// The protocol's own private key is a plain array that nothing overwrites, so
/// the scalar is not erased here either. Erased are the buffers in which pre-keys,
/// stores and group master keys hold their bytes; a copy that was handed out is the
/// caller's.
pub struct WasmPrivateKey {
    serialized: Vec<u8>,
}

impl View for WasmPrivateKey {
    type V = Seq<u8>;

    closed spec fn view(&self) -> Seq<u8> {
        self.serialized@
    }
}

/// The private key that a decoding yielded, or its error.
pub open spec fn private_key_outcome(
    outcome: Result<Vec<u8>, String>,
    r: Result<WasmPrivateKey, BridgeError>,
) -> bool {
    match outcome {
        Ok(bytes) => r matches Ok(key) && key@ == bytes@,
        Err(detail) => r == Err::<WasmPrivateKey, BridgeError>(BridgeError::Generic(detail)),
    }
}

/// The public key that a decoding or a derivation yielded, or its error.
pub open spec fn public_key_outcome(
    outcome: Result<Vec<u8>, String>,
    r: Result<WasmPublicKey, BridgeError>,
) -> bool {
    match outcome {
        Ok(bytes) => r matches Ok(key) && key@ == bytes@,
        Err(detail) => r == Err::<WasmPublicKey, BridgeError>(BridgeError::Generic(detail)),
    }
}

/// The identity that a decoding yielded, or its error.
pub open spec fn identity_outcome(
    outcome: Result<(Vec<u8>, Vec<u8>), ProtocolError>,
    r: Result<WasmIdentityKeyPair, BridgeError>,
) -> bool {
    match outcome {
        Ok(keys) => r matches Ok(pair) && pair@ == (keys.0@, keys.1@),
        Err(e) => r == Err::<WasmIdentityKeyPair, BridgeError>(BridgeError::Protocol(e)),
    }
}

impl WasmPrivateKey {
    /// The private half of a new key pair, which `generate_private` makes.
    pub fn generate<F: FnOnce() -> Vec<u8>>(generate_private: F) -> (key: WasmPrivateKey)
        requires
            call_requires(generate_private, ()),
        ensures
            exists|bytes: Vec<u8>|
                #[trigger] call_ensures(generate_private, (), bytes) && key@ == bytes@,
    {
        WasmPrivateKey { serialized: generate_private() }
    }

    /// The public key that `derive` gives of this key.
    pub fn get_public_key<F: FnOnce(&WasmPrivateKey) -> Result<Vec<u8>, String>>(
        &self,
        derive: F,
    ) -> (r: Result<WasmPublicKey, BridgeError>)
        requires
            call_requires(derive, (self,)),
        ensures
            exists|outcome: Result<Vec<u8>, String>| #[trigger]
                call_ensures(derive, (self,), outcome) && public_key_outcome(outcome, r),
    {
        match generic_outcome(derive(self)) {
            Ok(serialized) => Ok(WasmPublicKey { serialized }),
            Err(e) => Err(e),
        }
    }

    /// The serialized key.
    pub fn serialize(&self) -> (bytes: Vec<u8>)
        ensures
            bytes@ == self@,
    {
        copy_bytes(&self.serialized)
    }

    /// The key in `data`, which `decode` reads and gives back in its serialized
    /// form.
    pub fn deserialize<F: FnOnce(&[u8]) -> Result<Vec<u8>, String>>(data: &[u8], decode: F) -> (r:
        Result<WasmPrivateKey, BridgeError>)
        requires
            call_requires(decode, (data,)),
        ensures
            exists|outcome: Result<Vec<u8>, String>| #[trigger]
                call_ensures(decode, (data,), outcome) && private_key_outcome(outcome, r),
    {
        match generic_outcome(decode(data)) {
            Ok(serialized) => Ok(WasmPrivateKey { serialized }),
            Err(e) => Err(e),
        }
    }
}

impl Clone for WasmPrivateKey {
    fn clone(&self) -> (copy: Self)
        ensures
            copy@ == self@,
    {
        WasmPrivateKey { serialized: copy_bytes(&self.serialized) }
    }
}

/// A public key.
pub struct WasmPublicKey {
    serialized: Vec<u8>,
}

impl View for WasmPublicKey {
    type V = Seq<u8>;

    closed spec fn view(&self) -> Seq<u8> {
        self.serialized@
    }
}

impl WasmPublicKey {
    /// The serialized key.
    pub fn serialize(&self) -> (bytes: Vec<u8>)
        ensures
            bytes@ == self@,
    {
        copy_bytes(&self.serialized)
    }

    /// The key in `data`, which `decode` reads and gives back in its serialized
    /// form.
    pub fn deserialize<F: FnOnce(&[u8]) -> Result<Vec<u8>, String>>(data: &[u8], decode: F) -> (r:
        Result<WasmPublicKey, BridgeError>)
        requires
            call_requires(decode, (data,)),
        ensures
            exists|outcome: Result<Vec<u8>, String>| #[trigger]
                call_ensures(decode, (data,), outcome) && public_key_outcome(outcome, r),
    {
        match generic_outcome(decode(data)) {
            Ok(serialized) => Ok(WasmPublicKey { serialized }),
            Err(e) => Err(e),
        }
    }
}

impl Clone for WasmPublicKey {
    fn clone(&self) -> (copy: Self)
        ensures
            copy@ == self@,
    {
        WasmPublicKey { serialized: copy_bytes(&self.serialized) }
    }
}

/// A public and a private key that make up a long-term identity.
pub struct WasmIdentityKeyPair {
    public_key: WasmPublicKey,
    private_key: WasmPrivateKey,
}

impl View for WasmIdentityKeyPair {
    type V = (Seq<u8>, Seq<u8>);

    closed spec fn view(&self) -> (Seq<u8>, Seq<u8>) {
        (self.public_key@, self.private_key@)
    }
}

impl WasmIdentityKeyPair {
    /// The identity of the two keys.
    pub fn new(public_key: &WasmPublicKey, private_key: &WasmPrivateKey) -> (pair:
        WasmIdentityKeyPair)
        ensures
            pair@ == (public_key@, private_key@),
    {
        WasmIdentityKeyPair { public_key: public_key.clone(), private_key: private_key.clone() }
    }

    /// The public key.
    pub fn public_key(&self) -> (key: WasmPublicKey)
        ensures
            key@ == self@.0,
    {
        self.public_key.clone()
    }

    /// The private key.
    pub fn private_key(&self) -> (key: WasmPrivateKey)
        ensures
            key@ == self@.1,
    {
        self.private_key.clone()
    }

    /// The protocol's standard encoding of the two keys, which `encode` gives.
    pub fn serialize<F: FnOnce(&WasmPublicKey, &WasmPrivateKey) -> Vec<u8>>(
        &self,
        encode: F,
    ) -> (bytes: Vec<u8>)
        requires
            forall|public: WasmPublicKey, private: WasmPrivateKey|
                (public@, private@) == self@ ==> #[trigger] call_requires(
                    encode,
                    (&public, &private),
                ),
        ensures
            exists|public: WasmPublicKey, private: WasmPrivateKey|
                (public@, private@) == self@ && #[trigger] call_ensures(
                    encode,
                    (&public, &private),
                    bytes,
                ),
    {
        encode(&self.public_key, &self.private_key)
    }

    /// The identity in `data`, in the protocol's standard encoding. `decode` reads
    /// it and gives the public and the private key in their serialized forms.
    pub fn deserialize<F: FnOnce(&[u8]) -> Result<(Vec<u8>, Vec<u8>), ProtocolError>>(
        data: &[u8],
        decode: F,
    ) -> (r: Result<WasmIdentityKeyPair, BridgeError>)
        requires
            call_requires(decode, (data,)),
        ensures
            exists|outcome: Result<(Vec<u8>, Vec<u8>), ProtocolError>| #[trigger]
                call_ensures(decode, (data,), outcome) && identity_outcome(outcome, r),
    {
        match protocol_outcome(decode(data)) {
            Ok(keys) => {
                let public_key = WasmPublicKey { serialized: keys.0 };
                let private_key = WasmPrivateKey { serialized: keys.1 };
                Ok(WasmIdentityKeyPair { public_key, private_key })
            },
            Err(e) => Err(e),
        }
    }
}

impl Clone for WasmIdentityKeyPair {
    fn clone(&self) -> (copy: Self)
        ensures
            copy@ == self@,
    {
        WasmIdentityKeyPair::new(&self.public_key, &self.private_key)
    }
}

/// Signs `message` with an identity's private key, to prove possession of it.
/// `sign` computes the signature.
pub fn sign_with_identity_key<F: FnOnce(&WasmPrivateKey, &[u8]) -> Result<Vec<u8>, String>>(
    identity_private_key: &WasmPrivateKey,
    message: &[u8],
    sign: F,
) -> (r: Result<Vec<u8>, BridgeError>)
    requires
        call_requires(sign, (identity_private_key, message)),
    ensures
        exists|outcome: Result<Vec<u8>, String>| #[trigger]
            call_ensures(sign, (identity_private_key, message), outcome) && r
                == crate::error::lift_generic(outcome),
{
    generic_outcome(sign(identity_private_key, message))
}

/// Whether `verify` accepts `signature` for `message` under an identity's public
/// key. A signature that does not verify, or is none, is no error.
pub fn verify_identity_signature<F: FnOnce(&WasmPublicKey, &[u8], &[u8]) -> bool>(
    identity_public_key: &WasmPublicKey,
    message: &[u8],
    signature: &[u8],
    verify: F,
) -> (valid: bool)
    requires
        call_requires(verify, (identity_public_key, message, signature)),
    ensures
        call_ensures(verify, (identity_public_key, message, signature), valid),
{
    verify(identity_public_key, message, signature)
}

/// An identity that is encoded and decoded again, by a decoder that reads back what
/// the encoder was handed, is the same identity.
pub proof fn law_identity_round_trip<E: FnOnce(&WasmPublicKey, &WasmPrivateKey) -> Vec<u8>>(
    encode: E,
    pair: WasmIdentityKeyPair,
    encoded: Vec<u8>,
    outcome: Result<(Vec<u8>, Vec<u8>), ProtocolError>,
    restored: Result<WasmIdentityKeyPair, BridgeError>,
)
    requires
        exists|public: WasmPublicKey, private: WasmPrivateKey|
            (public@, private@) == pair@ && #[trigger] call_ensures(
                encode,
                (&public, &private),
                encoded,
            ),
        forall|public: WasmPublicKey, private: WasmPrivateKey| #[trigger]
            call_ensures(encode, (&public, &private), encoded) ==> (outcome matches Ok(keys)
                && keys.0@ == public@ && keys.1@ == private@),
        identity_outcome(outcome, restored),
    ensures
        restored matches Ok(copy) && copy@ == pair@,
{
}

/// A signature of the identity's private key verifies for its message under the
/// identity's public key, where the protocol does its part: what `verify` answers
/// follows from the bytes of its arguments, and it `accepts` what `sign` gives.
pub proof fn law_signature_verifies<
    S: FnOnce(&WasmPrivateKey, &[u8]) -> Result<Vec<u8>, String>,
    V: FnOnce(&WasmPublicKey, &[u8], &[u8]) -> bool,
>(
    sign: S,
    verify: V,
    accepts: spec_fn(Seq<u8>, Seq<u8>, Seq<u8>) -> bool,
    private_key: &WasmPrivateKey,
    public_key: &WasmPublicKey,
    message: &[u8],
    outcome: Result<Vec<u8>, String>,
    signed: Result<Vec<u8>, BridgeError>,
    presented: &[u8],
    signature: &[u8],
    valid: bool,
)
    requires
        forall|key: &WasmPublicKey, m: &[u8], s: &[u8], answer: bool| #[trigger]
            call_ensures(verify, (key, m, s), answer) ==> answer == accepts(key@, m@, s@),
        forall|made: Vec<u8>| #[trigger]
            call_ensures(sign, (private_key, message), Ok(made)) ==> accepts(
                public_key@,
                message@,
                made@,
            ),
        // `signed` is what signing gave, and `valid` what verifying it gave.
        call_ensures(sign, (private_key, message), outcome),
        signed == crate::error::lift_generic(outcome),
        signed matches Ok(made) && made@ == signature@,
        presented@ == message@,
        call_ensures(verify, (public_key, presented, signature), valid),
    ensures
        valid,
{
    let made = outcome->Ok_0;
    assert(call_ensures(sign, (private_key, message), Ok(made)));
}

} // verus!
