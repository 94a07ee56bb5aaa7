//! Group master keys, and what is derived from them.

use crate::error::{validation_error, BridgeError};
use crate::outside::{duplicate, expose, fill_random, obtained_for, seal, SecretBytes};
use vstd::prelude::*;

verus! {

/// The size of a group master key.
pub const GROUP_MASTER_KEY_SIZE: usize = 32;

/// A group master key of 32 bytes, which are overwritten when it is dropped.
pub struct WasmGroupMasterKey {
    bytes: SecretBytes,
}

impl View for WasmGroupMasterKey {
    type V = Seq<u8>;

    closed spec fn view(&self) -> Seq<u8> {
        self.bytes@
    }
}

/// What reading a master key from `bytes` gives.
pub open spec fn master_key_outcome(
    bytes: Seq<u8>,
    r: Result<WasmGroupMasterKey, BridgeError>,
) -> bool {
    match r {
        Ok(key) => bytes.len() == GROUP_MASTER_KEY_SIZE && key@ == bytes,
        Err(e) => bytes.len() != GROUP_MASTER_KEY_SIZE && crate::error::refused_with(
            e,
            "Invalid key length (must be 32 bytes)"@,
        ),
    }
}

/// `id` is the group identifier that the two functions give for a master key:
/// `derive` the secret params of the key, and `identify` the identifier in them.
pub open spec fn identifier_derived<
    P,
    F: FnOnce(&WasmGroupMasterKey) -> P,
    G: FnOnce(&P) -> [u8; 32],
>(derive: F, identify: G, key: &WasmGroupMasterKey, id: Seq<u8>) -> bool {
    exists|params: P, identifier: [u8; 32]|
        {
            &&& #[trigger] call_ensures(derive, (key,), params)
            &&& #[trigger] call_ensures(identify, (&params,), identifier)
            &&& id == identifier@
        }
}

/// `filled` is what the random generator gave when it was handed `buffer` to fill.
pub closed spec fn randomly_filled(buffer: Vec<u8>, filled: Vec<u8>) -> bool {
    call_ensures(fill_random, (buffer,), filled)
}

impl WasmGroupMasterKey {
    #[verifier::type_invariant]
    spec fn inv(&self) -> bool {
        self.bytes@.len() == GROUP_MASTER_KEY_SIZE
    }

    /// A random master key: the bytes with which the random generator filled a buffer
    /// of that size.
    pub fn generate() -> (key: WasmGroupMasterKey)
        ensures
            key@.len() == GROUP_MASTER_KEY_SIZE,
            exists|buffer: Vec<u8>, filled: Vec<u8>|
                {
                    &&& buffer@.len() == GROUP_MASTER_KEY_SIZE
                    &&& #[trigger] randomly_filled(buffer, filled)
                    &&& key@ == filled@
                },
    {
        let buffer: Vec<u8> = vec![0u8; GROUP_MASTER_KEY_SIZE];
        let ghost handed = buffer;
        let filled = obtained_for(fill_random, buffer);
        assert(randomly_filled(handed, filled));
        WasmGroupMasterKey { bytes: seal(filled) }
    }

    /// The master key with these bytes, of which there must be 32.
    pub fn from_bytes(bytes: &[u8]) -> (r: Result<WasmGroupMasterKey, BridgeError>)
        ensures
            master_key_outcome(bytes@, r),
    {
        if bytes.len() != GROUP_MASTER_KEY_SIZE {
            return Err(validation_error("Invalid key length (must be 32 bytes)"));
        }
        Ok(WasmGroupMasterKey { bytes: seal(vstd::slice::slice_to_vec(bytes)) })
    }

    /// The bytes of the master key.
    pub fn serialize(&self) -> (bytes: Vec<u8>)
        ensures
            bytes@ == self@,
            bytes@.len() == GROUP_MASTER_KEY_SIZE,
    {
        proof {
            use_type_invariant(self);
        }
        expose(&self.bytes)
    }

    /// The secret params of the group, which `derive` gives.
    pub fn derive_secret_params<P, F: FnOnce(&WasmGroupMasterKey) -> P>(&self, derive: F) -> (params:
        WasmGroupSecretParams<P>)
        requires
            call_requires(derive, (self,)),
        ensures
            call_ensures(derive, (self,), params@.0),
            params@.1 == self@,
    {
        proof {
            use_type_invariant(self);
        }
        let inner = derive(self);
        WasmGroupSecretParams { inner, master_key_bytes: duplicate(&self.bytes) }
    }

    /// The identifier of the group: `derive` gives the secret params, and `identify`
    /// the identifier in them.
    pub fn derive_identifier<
        P,
        F: FnOnce(&WasmGroupMasterKey) -> P,
        G: FnOnce(&P) -> [u8; 32],
    >(&self, derive: F, identify: G) -> (identifier: WasmGroupIdentifier)
        requires
            call_requires(derive, (self,)),
            forall|params: P| #[trigger] call_requires(identify, (&params,)),
        ensures
            identifier_derived(derive, identify, self, identifier@),
    {
        let params = derive(self);
        WasmGroupIdentifier { inner: identify(&params) }
    }
}

/// The identifier of a group.
pub struct WasmGroupIdentifier {
    inner: [u8; 32],
}

impl View for WasmGroupIdentifier {
    type V = Seq<u8>;

    closed spec fn view(&self) -> Seq<u8> {
        self.inner@
    }
}

impl WasmGroupIdentifier {
    /// The bytes of the identifier.
    pub fn serialize(&self) -> (bytes: Vec<u8>)
        ensures
            bytes@ == self@,
            bytes@.len() == 32,
    {
        vstd::slice::slice_to_vec(self.inner.as_slice())
    }
}

/// The secret params of a group, with the master key that they were derived from.
/// That key is overwritten when the value is dropped.
pub struct WasmGroupSecretParams<P> {
    inner: P,
    master_key_bytes: SecretBytes,
}

impl<P> View for WasmGroupSecretParams<P> {
    type V = (P, Seq<u8>);

    closed spec fn view(&self) -> (P, Seq<u8>) {
        (self.inner, self.master_key_bytes@)
    }
}

impl<P> WasmGroupSecretParams<P> {
    #[verifier::type_invariant]
    spec fn inv(&self) -> bool {
        self.master_key_bytes@.len() == GROUP_MASTER_KEY_SIZE
    }

    /// The 32 bytes of the master key, not the encoding of the secret params.
    pub fn serialize_master_key(&self) -> (bytes: Vec<u8>)
        ensures
            bytes@ == self@.1,
            bytes@.len() == GROUP_MASTER_KEY_SIZE,
    {
        proof {
            use_type_invariant(self);
        }
        expose(&self.master_key_bytes)
    }

    /// The identifier of the group, which `identify` gives.
    pub fn get_identifier<G: FnOnce(&P) -> [u8; 32]>(&self, identify: G) -> (identifier:
        WasmGroupIdentifier)
        requires
            forall|params: P| params == self@.0 ==> #[trigger] call_requires(identify, (&params,)),
        ensures
            exists|id: [u8; 32]| #[trigger]
                call_ensures(identify, (&self@.0,), id) && identifier@ == id@,
    {
        WasmGroupIdentifier { inner: identify(&self.inner) }
    }
}

/// Reading back the bytes of a master key gives that key.
pub proof fn law_master_key_round_trip(
    key: WasmGroupMasterKey,
    r: Result<WasmGroupMasterKey, BridgeError>,
)
    requires
        key@.len() == GROUP_MASTER_KEY_SIZE,
        master_key_outcome(key@, r),
    ensures
        r matches Ok(copy) && copy@ == key@,
{
}

/// Where the derivations are functions of the key's bytes and of the params, keys
/// with the same bytes have the same identifier, and it is the one in the params of
/// either.
pub proof fn law_identifier_follows_from_the_key<
    P,
    F: FnOnce(&WasmGroupMasterKey) -> P,
    G: FnOnce(&P) -> [u8; 32],
>(
    derive: F,
    identify: G,
    key: WasmGroupMasterKey,
    other: WasmGroupMasterKey,
    params: WasmGroupSecretParams<P>,
    id: Seq<u8>,
    other_id: Seq<u8>,
    params_id: [u8; 32],
)
    requires
        forall|a: WasmGroupMasterKey, b: WasmGroupMasterKey, p: P, q: P|
            a@ == b@ && #[trigger] call_ensures(derive, (&a,), p) && #[trigger] call_ensures(
                derive,
                (&b,),
                q,
            ) ==> p == q,
        forall|p: P, i: [u8; 32], j: [u8; 32]| #[trigger]
            call_ensures(identify, (&p,), i) && #[trigger] call_ensures(identify, (&p,), j) ==> i@
                == j@,
        key@ == other@,
        identifier_derived(derive, identify, &key, id),
        identifier_derived(derive, identify, &other, other_id),
        call_ensures(derive, (&key,), params@.0),
        call_ensures(identify, (&params@.0,), params_id),
    ensures
        id == other_id,
        id == params_id@,
{
}

/// A generated master key is what the random generator gave for a buffer of 32 bytes.
pub(crate) proof fn law_generated_master_key_is_drawn(key: WasmGroupMasterKey)
    requires
        call_ensures(WasmGroupMasterKey::generate, (), key),
    ensures
        key@.len() == 32,
        exists|buffer: Vec<u8>, filled: Vec<u8>|
            buffer@.len() == 32 && #[trigger] call_ensures(fill_random, (buffer,), filled) && key@
                == filled@,
{
}

} // verus!
