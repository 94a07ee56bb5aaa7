//! Laws on safety numbers.

use crate::error::{BridgeError, FingerprintError};
use crate::fingerprint::{
    generate_safety_number, verify_safety_number, verify_scannable_fingerprint, BuiltFingerprint,
    WasmSafetyNumber,
};
use crate::keys::WasmPublicKey;
use vstd::prelude::*;

verus! {

/// A safety number reads as the display text of a fingerprint that was built for the
/// two parties, of version 2 with 5200 iterations, from the bytes of their names and
/// their keys. Its payload is what serializing that same fingerprint gave.
pub proof fn law_safety_number_shows_the_fingerprint<
    S,
    F: FnOnce(u32, u32, &[u8], &WasmPublicKey, &[u8], &WasmPublicKey) -> Result<
        BuiltFingerprint<S>,
        FingerprintError,
    >,
    G: FnOnce(&S) -> Result<Vec<u8>, FingerprintError>,
>(
    local_uuid: String,
    local_key: &WasmPublicKey,
    contact_uuid: String,
    contact_key: &WasmPublicKey,
    build: F,
    serialize: G,
    number: WasmSafetyNumber,
)
    requires
        call_ensures(
            generate_safety_number::<S, F, G>,
            (local_uuid, local_key, contact_uuid, contact_key, build, serialize),
            Ok(number),
        ),
    ensures
        exists|
            local_id: &[u8],
            contact_id: &[u8],
            fingerprint: BuiltFingerprint<S>,
            payload: Vec<u8>,
        |
            {
                &&& local_id@ == vstd::utf8::encode_utf8(local_uuid@)
                &&& contact_id@ == vstd::utf8::encode_utf8(contact_uuid@)
                &&& #[trigger] call_ensures(
                    build,
                    (2u32, 5200u32, local_id, local_key, contact_id, contact_key),
                    Ok(fingerprint),
                )
                &&& #[trigger] call_ensures(serialize, (&fingerprint.scannable,), Ok(payload))
                &&& number@.0 == fingerprint.display@
                &&& number@.1 == payload@
            },
{
    let built = choose|built: Result<BuiltFingerprint<S>, FingerprintError>| #[trigger]
        crate::fingerprint::fingerprint_built(
            build,
            local_uuid@,
            local_key,
            contact_uuid@,
            contact_key,
            built,
        ) && match built {
            Err(_) => false,
            Ok(fingerprint) => exists|payload: Result<Vec<u8>, FingerprintError>| #[trigger]
                call_ensures(serialize, (&fingerprint.scannable,), payload)
                    && crate::fingerprint::safety_number_outcome(
                    fingerprint,
                    payload,
                    Ok(number),
                ),
        };
    let fingerprint = built->Ok_0;
    assert(built == Ok::<BuiltFingerprint<S>, FingerprintError>(fingerprint));
    let outcome = choose|payload: Result<Vec<u8>, FingerprintError>| #[trigger]
        call_ensures(serialize, (&fingerprint.scannable,), payload)
            && crate::fingerprint::safety_number_outcome(fingerprint, payload, Ok(number));
    let payload = outcome->Ok_0;
    assert(outcome == Ok::<Vec<u8>, FingerprintError>(payload));
    assert(call_ensures(serialize, (&fingerprint.scannable,), Ok(payload)));
}

/// Two safety numbers read alike only if the display texts of their fingerprints do:
/// where fingerprints of these parties never read alike, neither do the safety numbers.
pub proof fn law_safety_numbers_differ_with_their_fingerprints<
    S,
    F: FnOnce(u32, u32, &[u8], &WasmPublicKey, &[u8], &WasmPublicKey) -> Result<
        BuiltFingerprint<S>,
        FingerprintError,
    >,
    G: FnOnce(&S) -> Result<Vec<u8>, FingerprintError>,
>(
    local_uuid: String,
    local_key: &WasmPublicKey,
    contact_uuid: String,
    contact_key: &WasmPublicKey,
    other_contact_uuid: String,
    other_contact_key: &WasmPublicKey,
    build: F,
    serialize: G,
    number: WasmSafetyNumber,
    other: WasmSafetyNumber,
)
    requires
        call_ensures(
            generate_safety_number::<S, F, G>,
            (local_uuid, local_key, contact_uuid, contact_key, build, serialize),
            Ok(number),
        ),
        call_ensures(
            generate_safety_number::<S, F, G>,
            (local_uuid, local_key, other_contact_uuid, other_contact_key, build, serialize),
            Ok(other),
        ),
        forall|
            l1: &[u8],
            c1: &[u8],
            l2: &[u8],
            c2: &[u8],
            f: BuiltFingerprint<S>,
            g: BuiltFingerprint<S>,
        |
            {
                &&& l1@ == vstd::utf8::encode_utf8(local_uuid@)
                &&& c1@ == vstd::utf8::encode_utf8(contact_uuid@)
                &&& l2@ == vstd::utf8::encode_utf8(local_uuid@)
                &&& c2@ == vstd::utf8::encode_utf8(other_contact_uuid@)
                &&& #[trigger] call_ensures(
                    build,
                    (2u32, 5200u32, l1, local_key, c1, contact_key),
                    Ok(f),
                )
                &&& #[trigger] call_ensures(
                    build,
                    (2u32, 5200u32, l2, local_key, c2, other_contact_key),
                    Ok(g),
                )
            } ==> f.display@ != g.display@,
    ensures
        number@.0 != other@.0,
{
    law_safety_number_shows_the_fingerprint(
        local_uuid,
        local_key,
        contact_uuid,
        contact_key,
        build,
        serialize,
        number,
    );
    law_safety_number_shows_the_fingerprint(
        local_uuid,
        local_key,
        other_contact_uuid,
        other_contact_key,
        build,
        serialize,
        other,
    );
}

/// A safety number is refused only where building or serializing fails, with that
/// error.
pub proof fn law_safety_number_failures<
    S,
    F: FnOnce(u32, u32, &[u8], &WasmPublicKey, &[u8], &WasmPublicKey) -> Result<
        BuiltFingerprint<S>,
        FingerprintError,
    >,
    G: FnOnce(&S) -> Result<Vec<u8>, FingerprintError>,
>(
    local_uuid: String,
    local_key: &WasmPublicKey,
    contact_uuid: String,
    contact_key: &WasmPublicKey,
    build: F,
    serialize: G,
    e: BridgeError,
)
    requires
        call_ensures(
            generate_safety_number::<S, F, G>,
            (local_uuid, local_key, contact_uuid, contact_key, build, serialize),
            Err(e),
        ),
    ensures
        (exists|local_id: &[u8], contact_id: &[u8], failure: FingerprintError|
            {
                &&& local_id@ == vstd::utf8::encode_utf8(local_uuid@)
                &&& contact_id@ == vstd::utf8::encode_utf8(contact_uuid@)
                &&& #[trigger] call_ensures(
                    build,
                    (2u32, 5200u32, local_id, local_key, contact_id, contact_key),
                    Err(failure),
                )
                &&& e == BridgeError::Fingerprint(failure)
            }) || (exists|
            local_id: &[u8],
            contact_id: &[u8],
            fingerprint: BuiltFingerprint<S>,
            failure: FingerprintError,
        |
            {
                &&& local_id@ == vstd::utf8::encode_utf8(local_uuid@)
                &&& contact_id@ == vstd::utf8::encode_utf8(contact_uuid@)
                &&& #[trigger] call_ensures(
                    build,
                    (2u32, 5200u32, local_id, local_key, contact_id, contact_key),
                    Ok(fingerprint),
                )
                &&& #[trigger] call_ensures(serialize, (&fingerprint.scannable,), Err(failure))
                &&& e == BridgeError::Fingerprint(failure)
            }),
{
}

/// What verifying a scan answers is what comparing answered: our fingerprint of the two
/// parties, of version 2 with 5200 iterations, was compared with exactly the scanned
/// payload. An error is that of building or comparing.
pub proof fn law_scan_answers_the_comparison<
    S,
    F: FnOnce(u32, u32, &[u8], &WasmPublicKey, &[u8], &WasmPublicKey) -> Result<
        BuiltFingerprint<S>,
        FingerprintError,
    >,
    C: FnOnce(&S, &[u8]) -> Result<bool, FingerprintError>,
>(
    scanned: &[u8],
    local_uuid: String,
    local_key: &WasmPublicKey,
    contact_uuid: String,
    contact_key: &WasmPublicKey,
    build: F,
    compare: C,
    r: Result<bool, BridgeError>,
)
    requires
        call_ensures(
            verify_scannable_fingerprint::<S, F, C>,
            (scanned, local_uuid, local_key, contact_uuid, contact_key, build, compare),
            r,
        ),
    ensures
        (exists|local_id: &[u8], contact_id: &[u8], failure: FingerprintError|
            {
                &&& local_id@ == vstd::utf8::encode_utf8(local_uuid@)
                &&& contact_id@ == vstd::utf8::encode_utf8(contact_uuid@)
                &&& #[trigger] call_ensures(
                    build,
                    (2u32, 5200u32, local_id, local_key, contact_id, contact_key),
                    Err(failure),
                )
                &&& r == Err::<bool, BridgeError>(BridgeError::Fingerprint(failure))
            }) || (exists|
            local_id: &[u8],
            contact_id: &[u8],
            fingerprint: BuiltFingerprint<S>,
            compared: Result<bool, FingerprintError>,
        |
            {
                &&& local_id@ == vstd::utf8::encode_utf8(local_uuid@)
                &&& contact_id@ == vstd::utf8::encode_utf8(contact_uuid@)
                &&& #[trigger] call_ensures(
                    build,
                    (2u32, 5200u32, local_id, local_key, contact_id, contact_key),
                    Ok(fingerprint),
                )
                &&& #[trigger] call_ensures(compare, (&fingerprint.scannable, scanned), compared)
                &&& compared matches Ok(valid) ==> r == Ok::<bool, BridgeError>(valid)
                &&& compared matches Err(failure) ==> r == Err::<bool, BridgeError>(
                    BridgeError::Fingerprint(failure),
                )
            }),
{
}

/// The byte comparison accepts a payload exactly if it is what serializing our own
/// fingerprint gave. An error is that of building or serializing.
pub proof fn law_own_payload_is_compared_byte_for_byte<
    S,
    F: FnOnce(u32, u32, &[u8], &WasmPublicKey, &[u8], &WasmPublicKey) -> Result<
        BuiltFingerprint<S>,
        FingerprintError,
    >,
    G: FnOnce(&S) -> Result<Vec<u8>, FingerprintError>,
>(
    scanned: &[u8],
    local_uuid: String,
    local_key: &WasmPublicKey,
    contact_uuid: String,
    contact_key: &WasmPublicKey,
    build: F,
    serialize: G,
    r: Result<bool, BridgeError>,
)
    requires
        call_ensures(
            verify_safety_number::<S, F, G>,
            (scanned, local_uuid, local_key, contact_uuid, contact_key, build, serialize),
            r,
        ),
    ensures
        (exists|local_id: &[u8], contact_id: &[u8], failure: FingerprintError|
            {
                &&& local_id@ == vstd::utf8::encode_utf8(local_uuid@)
                &&& contact_id@ == vstd::utf8::encode_utf8(contact_uuid@)
                &&& #[trigger] call_ensures(
                    build,
                    (2u32, 5200u32, local_id, local_key, contact_id, contact_key),
                    Err(failure),
                )
                &&& r == Err::<bool, BridgeError>(BridgeError::Fingerprint(failure))
            }) || (exists|
            local_id: &[u8],
            contact_id: &[u8],
            fingerprint: BuiltFingerprint<S>,
            payload: Result<Vec<u8>, FingerprintError>,
        |
            {
                &&& local_id@ == vstd::utf8::encode_utf8(local_uuid@)
                &&& contact_id@ == vstd::utf8::encode_utf8(contact_uuid@)
                &&& #[trigger] call_ensures(
                    build,
                    (2u32, 5200u32, local_id, local_key, contact_id, contact_key),
                    Ok(fingerprint),
                )
                &&& #[trigger] call_ensures(serialize, (&fingerprint.scannable,), payload)
                &&& payload matches Ok(bytes) ==> r == Ok::<bool, BridgeError>(scanned@ == bytes@)
                &&& payload matches Err(failure) ==> r == Err::<bool, BridgeError>(
                    BridgeError::Fingerprint(failure),
                )
            }),
{
}

/// What a safety number shows is what it consists of.
pub proof fn law_safety_number_shows_its_parts(
    number: WasmSafetyNumber,
    displayable: String,
    scannable: Vec<u8>,
)
    requires
        call_ensures(WasmSafetyNumber::displayable, (&number,), displayable),
        call_ensures(WasmSafetyNumber::scannable, (&number,), scannable),
    ensures
        displayable@ == number@.0,
        scannable@ == number@.1,
{
}

} // verus!
