//! Laws on identities and pins.

use crate::address::WasmProtocolAddress;
use crate::error::{BridgeError, ErrorCode, ProtocolError, ProtocolErrorKind};
use crate::identity_store::WasmInMemIdentityKeyStore;
use crate::keys::WasmIdentityKeyPair;
use vstd::prelude::*;

verus! {

/// A new store has no pin for any address, and holds the identity and the registration
/// id that it was given.
pub proof fn law_new_store_has_no_pins(
    pair: &WasmIdentityKeyPair,
    registration_id: u32,
    store: WasmInMemIdentityKeyStore,
    address: &WasmProtocolAddress,
    pinned: Result<Option<Vec<u8>>, BridgeError>,
    local: WasmIdentityKeyPair,
    id: u32,
)
    requires
        call_ensures(WasmInMemIdentityKeyStore::new, (pair, registration_id), store),
        call_ensures(
            WasmInMemIdentityKeyStore::pinned_remote_identity,
            (&store, address),
            pinned,
        ),
        call_ensures(WasmInMemIdentityKeyStore::identity_key_pair, (&store,), local),
        call_ensures(WasmInMemIdentityKeyStore::local_registration_id, (&store,), id),
    ensures
        pinned == Ok::<Option<Vec<u8>>, BridgeError>(None),
        local@ == pair@,
        id == registration_id,
{
}

/// A lookup gives the pin of exactly this name and device, and is never an error.
pub proof fn law_lookup_gives_the_pin(
    store: &WasmInMemIdentityKeyStore,
    address: &WasmProtocolAddress,
    r: Result<Option<Vec<u8>>, BridgeError>,
)
    requires
        call_ensures(
            WasmInMemIdentityKeyStore::pinned_remote_identity,
            (store, address),
            r,
        ),
    ensures
        r is Ok,
        r->Ok_0 is Some <==> store@.pins.dom().contains(address@),
        r->Ok_0 matches Some(key) ==> key@ == store@.pins[address@],
{
}

/// Pinning answers `true` exactly where it made a pin: the address had none, and has the
/// decoded key. It answers `false` exactly where the decoded key was pinned already. It
/// fails where the key cannot be decoded, or where another one is pinned, which is told
/// by its code. But for the new pin nothing changes, and no other address is touched.
pub proof fn law_pinning_answers<F: FnOnce(&[u8]) -> Result<Vec<u8>, ProtocolError>>(
    before: WasmInMemIdentityKeyStore,
    after: WasmInMemIdentityKeyStore,
    address: &WasmProtocolAddress,
    identity_key: &[u8],
    decode: F,
    r: Result<bool, BridgeError>,
)
    requires
        exists|store: &mut WasmInMemIdentityKeyStore|
            *store == before && *final(store) == after && #[trigger] call_ensures(
                WasmInMemIdentityKeyStore::pin_remote_identity::<F>,
                (store, address, identity_key, decode),
                r,
            ),
    ensures
        exists|decoded: Result<Vec<u8>, ProtocolError>| #[trigger]
            call_ensures(decode, (identity_key,), decoded) && {
                &&& r == Ok::<bool, BridgeError>(true) <==> decoded is Ok
                    && !before@.pins.dom().contains(address@)
                &&& r == Ok::<bool, BridgeError>(false) <==> decoded is Ok
                    && before@.pins.dom().contains(address@) && before@.pins[address@]
                    == decoded->Ok_0@
                &&& r == Ok::<bool, BridgeError>(true) ==> after@.pins == before@.pins.insert(
                    address@,
                    decoded->Ok_0@,
                )
                &&& r != Ok::<bool, BridgeError>(true) ==> after@ == before@
                &&& decoded matches Err(failure) ==> r == Err::<bool, BridgeError>(
                    BridgeError::Protocol(failure),
                )
                &&& decoded is Ok && r is Err ==> r->Err_0.spec_code()
                    == ErrorCode::PinnedIdentityMismatch && r->Err_0.spec_message(true)
                    == "A different remote identity is already pinned for this address"@
            },
        after@.identity == before@.identity,
        after@.registration_id == before@.registration_id,
        forall|other: crate::address::AddressView|
            other != address@ ==> (#[trigger] after@.pins.dom().contains(other)
                == before@.pins.dom().contains(other)),
        forall|other: crate::address::AddressView|
            other != address@ && before@.pins.dom().contains(other) ==> #[trigger] after@.pins[other]
                == before@.pins[other],
{
}

/// What was pinned is what a lookup gives from then on, and another address looks up as
/// before.
pub proof fn law_pinned_key_is_looked_up<F: FnOnce(&[u8]) -> Result<Vec<u8>, ProtocolError>>(
    before: WasmInMemIdentityKeyStore,
    after: WasmInMemIdentityKeyStore,
    address: &WasmProtocolAddress,
    identity_key: &[u8],
    decode: F,
    key: Seq<u8>,
    other: &WasmProtocolAddress,
    found: Result<Option<Vec<u8>>, BridgeError>,
    other_before: Result<Option<Vec<u8>>, BridgeError>,
    other_after: Result<Option<Vec<u8>>, BridgeError>,
)
    requires
        exists|store: &mut WasmInMemIdentityKeyStore, made: bool|
            *store == before && *final(store) == after && #[trigger] call_ensures(
                WasmInMemIdentityKeyStore::pin_remote_identity::<F>,
                (store, address, identity_key, decode),
                Ok(made),
            ),
        forall|decoded: Vec<u8>| #[trigger]
            call_ensures(decode, (identity_key,), Ok(decoded)) ==> decoded@ == key,
        call_ensures(
            WasmInMemIdentityKeyStore::pinned_remote_identity,
            (&after, address),
            found,
        ),
        other@ != address@,
        call_ensures(
            WasmInMemIdentityKeyStore::pinned_remote_identity,
            (&before, other),
            other_before,
        ),
        call_ensures(
            WasmInMemIdentityKeyStore::pinned_remote_identity,
            (&after, other),
            other_after,
        ),
    ensures
        found matches Ok(Some(bytes)) && bytes@ == key,
        match (other_before, other_after) {
            (Ok(Some(a)), Ok(Some(b))) => a@ == b@,
            (Ok(None), Ok(None)) => true,
            _ => false,
        },
{
    let decoded = choose|decoded: Result<Vec<u8>, ProtocolError>| #[trigger]
        call_ensures(decode, (identity_key,), decoded) && decoded is Ok && (if before@.pins.dom().contains(
            address@,
        ) {
            after@ == before@ && before@.pins[address@] == decoded->Ok_0@
        } else {
            after@.pins == before@.pins.insert(address@, decoded->Ok_0@)
        });
    let bytes = decoded->Ok_0;
    assert(decoded == Ok::<Vec<u8>, ProtocolError>(bytes));
    assert(call_ensures(decode, (identity_key,), Ok(bytes)));
}

/// An assertion succeeds if and only if exactly this address, name and device, has a
/// pin and the pin is the decoded key. Where this address has none, the answer is that
/// the pin is missing, whatever is pinned for other addresses; where it has another
/// key, that the pin does not match.
pub proof fn law_assertion_needs_this_pin<F: FnOnce(&[u8]) -> Result<Vec<u8>, ProtocolError>>(
    store: &WasmInMemIdentityKeyStore,
    address: &WasmProtocolAddress,
    identity_key: &[u8],
    decode: F,
    r: Result<(), BridgeError>,
)
    requires
        call_ensures(
            WasmInMemIdentityKeyStore::assert_pinned_remote_identity::<F>,
            (store, address, identity_key, decode),
            r,
        ),
    ensures
        exists|decoded: Result<Vec<u8>, ProtocolError>| #[trigger]
            call_ensures(decode, (identity_key,), decoded) && {
                &&& r is Ok <==> decoded is Ok && store@.pins.dom().contains(address@)
                    && store@.pins[address@] == decoded->Ok_0@
                &&& decoded matches Err(failure) ==> r == Err::<(), BridgeError>(
                    BridgeError::Protocol(failure),
                )
                &&& decoded is Ok && !store@.pins.dom().contains(address@) ==> r is Err
                    && r->Err_0.spec_code() == ErrorCode::PinnedIdentityMissing
                    && r->Err_0.spec_message(true)
                    == "No remote identity is pinned for this address"@
                &&& decoded is Ok && store@.pins.dom().contains(address@) && r is Err
                    ==> r->Err_0.spec_code() == ErrorCode::PinnedIdentityMismatch
                    && r->Err_0.spec_message(true) == "The pinned remote identity does not match"@
            },
{
}

/// An assertion agrees with the lookup: it succeeds only where looking up this address
/// gives the asserted key, and where it surely does, it succeeds.
pub proof fn law_assertion_agrees_with_the_lookup<F: FnOnce(&[u8]) -> Result<Vec<u8>, ProtocolError>>(
    store: &WasmInMemIdentityKeyStore,
    address: &WasmProtocolAddress,
    identity_key: &[u8],
    decode: F,
    r: Result<(), BridgeError>,
    found: Result<Option<Vec<u8>>, BridgeError>,
)
    requires
        call_ensures(
            WasmInMemIdentityKeyStore::assert_pinned_remote_identity::<F>,
            (store, address, identity_key, decode),
            r,
        ),
        call_ensures(
            WasmInMemIdentityKeyStore::pinned_remote_identity,
            (store, address),
            found,
        ),
    ensures
        r is Ok ==> (found matches Ok(Some(pin)) && exists|key: Vec<u8>| #[trigger]
            call_ensures(decode, (identity_key,), Ok(key)) && key@ == pin@),
        found == Ok::<Option<Vec<u8>>, BridgeError>(None) ==> r is Err,
        (found matches Ok(Some(pin)) && forall|decoded: Result<Vec<u8>, ProtocolError>| #[trigger]
            call_ensures(decode, (identity_key,), decoded) ==> decoded is Ok
                && decoded->Ok_0@ == pin@) ==> r is Ok,
{
    if r is Ok {
        let decoded = choose|decoded: Result<Vec<u8>, ProtocolError>| #[trigger]
            call_ensures(decode, (identity_key,), decoded) && decoded is Ok
                && store@.pins[address@] == decoded->Ok_0@;
        let key = decoded->Ok_0;
        assert(decoded == Ok::<Vec<u8>, ProtocolError>(key));
        assert(call_ensures(decode, (identity_key,), Ok(key)));
    }
}

/// A pin is for one device of one name alone: where another name or another device is
/// pinned, an address that looked up no pin before still has none. An assertion for it
/// fails, and says that the pin is missing wherever the asserted key can be read.
pub proof fn law_pin_is_for_its_own_address_alone<
    F: FnOnce(&[u8]) -> Result<Vec<u8>, ProtocolError>,
    G: FnOnce(&[u8]) -> Result<Vec<u8>, ProtocolError>,
>(
    before: WasmInMemIdentityKeyStore,
    after: WasmInMemIdentityKeyStore,
    pinned: &WasmProtocolAddress,
    pinned_name: String,
    pinned_device: u32,
    pinned_key: &[u8],
    decode_pinned: F,
    made: Result<bool, BridgeError>,
    address: &WasmProtocolAddress,
    name: String,
    device: u32,
    key: &[u8],
    decode: G,
    unpinned: Result<Option<Vec<u8>>, BridgeError>,
    r: Result<(), BridgeError>,
    e: BridgeError,
    code: ErrorCode,
    text: &str,
)
    requires
        call_ensures(WasmProtocolAddress::name, (pinned,), pinned_name),
        call_ensures(WasmProtocolAddress::device_id, (pinned,), pinned_device),
        call_ensures(WasmProtocolAddress::name, (address,), name),
        call_ensures(WasmProtocolAddress::device_id, (address,), device),
        pinned_name@ != name@ || pinned_device != device,
        call_ensures(
            WasmInMemIdentityKeyStore::pinned_remote_identity,
            (&before, address),
            unpinned,
        ),
        unpinned == Ok::<Option<Vec<u8>>, BridgeError>(None),
        exists|store: &mut WasmInMemIdentityKeyStore|
            *store == before && *final(store) == after && #[trigger] call_ensures(
                WasmInMemIdentityKeyStore::pin_remote_identity::<F>,
                (store, pinned, pinned_key, decode_pinned),
                made,
            ),
        call_ensures(
            WasmInMemIdentityKeyStore::assert_pinned_remote_identity::<G>,
            (&after, address, key, decode),
            r,
        ),
        r matches Err(failure) ==> e == failure,
        call_ensures(BridgeError::code, (&e,), code),
        call_ensures(ErrorCode::as_str, (&code,), text),
    ensures
        r is Err,
        (forall|decoded: Result<Vec<u8>, ProtocolError>| #[trigger]
            call_ensures(decode, (key,), decoded) ==> decoded is Ok) ==> text@
            == "PinnedIdentityMissing"@,
{
}

/// A key is trusted exactly if this address has no pin or has this one. Saving keeps a
/// trusted key for this address alone, and refuses any other without a change.
pub proof fn law_saving_needs_trust(
    before: WasmInMemIdentityKeyStore,
    after: WasmInMemIdentityKeyStore,
    address: &WasmProtocolAddress,
    key: Vec<u8>,
    trust: bool,
    r: Result<(), ProtocolError>,
)
    requires
        call_ensures(
            WasmInMemIdentityKeyStore::is_trusted_identity,
            (&before, address, &key),
            trust,
        ),
        exists|store: &mut WasmInMemIdentityKeyStore|
            *store == before && *final(store) == after && #[trigger] call_ensures(
                WasmInMemIdentityKeyStore::save_identity,
                (store, address, key),
                r,
            ),
    ensures
        trust <==> !before@.pins.dom().contains(address@) || before@.pins[address@] == key@,
        r is Ok <==> trust,
        r is Ok ==> after@.pins == before@.pins.insert(address@, key@),
        r matches Err(e) ==> after@ == before@ && e.kind == ProtocolErrorKind::UntrustedIdentity
            && e.detail@ == "another identity is pinned for this address"@,
        after@.identity == before@.identity,
        after@.registration_id == before@.registration_id,
{
}

} // verus!
