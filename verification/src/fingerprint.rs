//! Safety numbers: fingerprints of two identities, to be compared by eye or by a
//! scan.

use crate::error::{fingerprint_outcome, BridgeError, FingerprintError};
use crate::keys::WasmPublicKey;
use crate::outside::constant_time_eq;
use crate::table::copy_bytes;
use vstd::prelude::*;

verus! {

/// The version of the fingerprints.
pub const FINGERPRINT_VERSION: u32 = 2;

/// How often the hash behind a fingerprint is iterated.
pub const FINGERPRINT_ITERATIONS: u32 = 5200;

/// What a scannable fingerprint encodes: the fingerprint of the party that shows it,
/// and that of its contact.
#[verifier::ext_equal]
pub struct CombinedView {
    pub version: u32,
    pub local: Seq<u8>,
    pub remote: Seq<u8>,
}

impl CombinedView {
    /// The same two parties, as the contact shows them.
    pub open spec fn swapped(self) -> CombinedView {
        CombinedView { version: self.version, local: self.remote, remote: self.local }
    }
}

/// The fingerprint of two identities: the text to compare by eye, and the scannable
/// form as the protocol holds it.
pub struct BuiltFingerprint<S> {
    pub display: String,
    pub scannable: S,
}

/// A safety number: the text to compare by eye, and the payload to scan.
pub struct WasmSafetyNumber {
    displayable: String,
    scannable: Vec<u8>,
}

impl View for WasmSafetyNumber {
    type V = (Seq<char>, Seq<u8>);

    closed spec fn view(&self) -> (Seq<char>, Seq<u8>) {
        (self.displayable@, self.scannable@)
    }
}

impl WasmSafetyNumber {
    /// The text to compare by eye.
    pub fn displayable(&self) -> (text: String)
        ensures
            text@ == self@.0,
    {
        self.displayable.clone()
    }

    /// The payload to scan.
    pub fn scannable(&self) -> (bytes: Vec<u8>)
        ensures
            bytes@ == self@.1,
    {
        copy_bytes(&self.scannable)
    }
}

/// `built` is what `build` gave for the two parties: the version, the number of
/// iterations, and for each party the bytes of its name and its key.
pub open spec fn fingerprint_built<
    S,
    F: FnOnce(u32, u32, &[u8], &WasmPublicKey, &[u8], &WasmPublicKey) -> Result<
        BuiltFingerprint<S>,
        FingerprintError,
    >,
>(
    build: F,
    local_uuid: Seq<char>,
    local_identity_key: &WasmPublicKey,
    contact_uuid: Seq<char>,
    contact_identity_key: &WasmPublicKey,
    built: Result<BuiltFingerprint<S>, FingerprintError>,
) -> bool {
    exists|local_id: &[u8], contact_id: &[u8]|
        {
            &&& local_id@ == vstd::utf8::encode_utf8(local_uuid)
            &&& contact_id@ == vstd::utf8::encode_utf8(contact_uuid)
            &&& #[trigger] call_ensures(
                build,
                (
                    FINGERPRINT_VERSION,
                    FINGERPRINT_ITERATIONS,
                    local_id,
                    local_identity_key,
                    contact_id,
                    contact_identity_key,
                ),
                built,
            )
        }
}

/// The fingerprint of the two parties, which `build` computes.
fn build_fingerprint<
    S,
    F: FnOnce(u32, u32, &[u8], &WasmPublicKey, &[u8], &WasmPublicKey) -> Result<
        BuiltFingerprint<S>,
        FingerprintError,
    >,
>(
    local_uuid: &str,
    local_identity_key: &WasmPublicKey,
    contact_uuid: &str,
    contact_identity_key: &WasmPublicKey,
    build: F,
) -> (r: Result<BuiltFingerprint<S>, BridgeError>)
    requires
        forall|local_id: &[u8], contact_id: &[u8]| #[trigger]
            call_requires(
                build,
                (
                    FINGERPRINT_VERSION,
                    FINGERPRINT_ITERATIONS,
                    local_id,
                    local_identity_key,
                    contact_id,
                    contact_identity_key,
                ),
            ),
    ensures
        exists|built: Result<BuiltFingerprint<S>, FingerprintError>| #[trigger]
            fingerprint_built(
                build,
                local_uuid@,
                local_identity_key,
                contact_uuid@,
                contact_identity_key,
                built,
            ) && r == crate::error::lift_fingerprint(built),
{
    let built = build(
        FINGERPRINT_VERSION,
        FINGERPRINT_ITERATIONS,
        local_uuid.as_bytes(),
        local_identity_key,
        contact_uuid.as_bytes(),
        contact_identity_key,
    );
    proof {
        assert(fingerprint_built(
            build,
            local_uuid@,
            local_identity_key,
            contact_uuid@,
            contact_identity_key,
            built,
        ));
    }
    fingerprint_outcome(built)
}

/// What becomes of a fingerprint whose scannable form was serialized, or was not.
pub open spec fn safety_number_outcome<S>(
    fingerprint: BuiltFingerprint<S>,
    payload: Result<Vec<u8>, FingerprintError>,
    r: Result<WasmSafetyNumber, BridgeError>,
) -> bool {
    match payload {
        Ok(bytes) => r matches Ok(number) && number@ == (fingerprint.display@, bytes@),
        Err(e) => r == Err::<WasmSafetyNumber, BridgeError>(BridgeError::Fingerprint(e)),
    }
}

/// `r` is the safety number of the two parties: the text of the fingerprint that
/// `build` gave, and the payload that `serialize` gave of it; or the error of either.
pub open spec fn safety_number_generated<
    S,
    F: FnOnce(u32, u32, &[u8], &WasmPublicKey, &[u8], &WasmPublicKey) -> Result<
        BuiltFingerprint<S>,
        FingerprintError,
    >,
    G: FnOnce(&S) -> Result<Vec<u8>, FingerprintError>,
>(
    build: F,
    serialize: G,
    local_uuid: Seq<char>,
    local_identity_key: &WasmPublicKey,
    contact_uuid: Seq<char>,
    contact_identity_key: &WasmPublicKey,
    r: Result<WasmSafetyNumber, BridgeError>,
) -> bool {
    exists|built: Result<BuiltFingerprint<S>, FingerprintError>| #[trigger]
        fingerprint_built(
            build,
            local_uuid,
            local_identity_key,
            contact_uuid,
            contact_identity_key,
            built,
        ) && match built {
            Err(e) => r == Err::<WasmSafetyNumber, BridgeError>(BridgeError::Fingerprint(e)),
            Ok(fingerprint) => exists|payload: Result<Vec<u8>, FingerprintError>| #[trigger]
                call_ensures(serialize, (&fingerprint.scannable,), payload) && safety_number_outcome(
                    fingerprint,
                    payload,
                    r,
                ),
        }
}

/// The safety number of the two parties. `build` computes the fingerprint, and
/// `serialize` gives its scannable form as bytes.
pub fn generate_safety_number<
    S,
    F: FnOnce(u32, u32, &[u8], &WasmPublicKey, &[u8], &WasmPublicKey) -> Result<
        BuiltFingerprint<S>,
        FingerprintError,
    >,
    G: FnOnce(&S) -> Result<Vec<u8>, FingerprintError>,
>(
    local_uuid: String,
    local_identity_key: &WasmPublicKey,
    contact_uuid: String,
    contact_identity_key: &WasmPublicKey,
    build: F,
    serialize: G,
) -> (r: Result<WasmSafetyNumber, BridgeError>)
    requires
        forall|local_id: &[u8], contact_id: &[u8]| #[trigger]
            call_requires(
                build,
                (
                    FINGERPRINT_VERSION,
                    FINGERPRINT_ITERATIONS,
                    local_id,
                    local_identity_key,
                    contact_id,
                    contact_identity_key,
                ),
            ),
        forall|scannable: S| #[trigger] call_requires(serialize, (&scannable,)),
    ensures
        safety_number_generated(
            build,
            serialize,
            local_uuid@,
            local_identity_key,
            contact_uuid@,
            contact_identity_key,
            r,
        ),
{
    match build_fingerprint(
        local_uuid.as_str(),
        local_identity_key,
        contact_uuid.as_str(),
        contact_identity_key,
        build,
    ) {
        Ok(fingerprint) => match serialize(&fingerprint.scannable) {
            Ok(scannable) => Ok(
                WasmSafetyNumber { displayable: fingerprint.display, scannable },
            ),
            Err(e) => Err(BridgeError::Fingerprint(e)),
        },
        Err(e) => Err(e),
    }
}

/// `r` is what `compare` gave of the fingerprint that `build` gave and the scanned
/// payload, or the error of either.
pub open spec fn scan_verified<
    S,
    F: FnOnce(u32, u32, &[u8], &WasmPublicKey, &[u8], &WasmPublicKey) -> Result<
        BuiltFingerprint<S>,
        FingerprintError,
    >,
    C: FnOnce(&S, &[u8]) -> Result<bool, FingerprintError>,
>(
    build: F,
    compare: C,
    scanned: &[u8],
    local_uuid: Seq<char>,
    local_identity_key: &WasmPublicKey,
    contact_uuid: Seq<char>,
    contact_identity_key: &WasmPublicKey,
    r: Result<bool, BridgeError>,
) -> bool {
    exists|built: Result<BuiltFingerprint<S>, FingerprintError>| #[trigger]
        fingerprint_built(
            build,
            local_uuid,
            local_identity_key,
            contact_uuid,
            contact_identity_key,
            built,
        ) && match built {
            Err(e) => r == Err::<bool, BridgeError>(BridgeError::Fingerprint(e)),
            Ok(fingerprint) => exists|compared: Result<bool, FingerprintError>| #[trigger]
                call_ensures(compare, (&fingerprint.scannable, scanned), compared) && r
                    == crate::error::lift_fingerprint(compared),
        }
}

/// Whether a scanned payload shows the contact's view of the two identities that we
/// see. `build` computes our fingerprint, and `compare` compares it with the payload.
///
/// A payload of another version is an error, and so is one that cannot be read.
pub fn verify_scannable_fingerprint<
    S,
    F: FnOnce(u32, u32, &[u8], &WasmPublicKey, &[u8], &WasmPublicKey) -> Result<
        BuiltFingerprint<S>,
        FingerprintError,
    >,
    C: FnOnce(&S, &[u8]) -> Result<bool, FingerprintError>,
>(
    scanned: &[u8],
    local_uuid: String,
    local_identity_key: &WasmPublicKey,
    contact_uuid: String,
    contact_identity_key: &WasmPublicKey,
    build: F,
    compare: C,
) -> (r: Result<bool, BridgeError>)
    requires
        forall|local_id: &[u8], contact_id: &[u8]| #[trigger]
            call_requires(
                build,
                (
                    FINGERPRINT_VERSION,
                    FINGERPRINT_ITERATIONS,
                    local_id,
                    local_identity_key,
                    contact_id,
                    contact_identity_key,
                ),
            ),
        forall|scannable: S| #[trigger] call_requires(compare, (&scannable, scanned)),
    ensures
        scan_verified(
            build,
            compare,
            scanned,
            local_uuid@,
            local_identity_key,
            contact_uuid@,
            contact_identity_key,
            r,
        ),
{
    match build_fingerprint(
        local_uuid.as_str(),
        local_identity_key,
        contact_uuid.as_str(),
        contact_identity_key,
        build,
    ) {
        Ok(fingerprint) => fingerprint_outcome(compare(&fingerprint.scannable, scanned)),
        Err(e) => Err(e),
    }
}

/// `r` says whether `scanned` is the payload that `serialize` gave of the fingerprint
/// that `build` gave, or is the error of either.
pub open spec fn safety_number_verified<
    S,
    F: FnOnce(u32, u32, &[u8], &WasmPublicKey, &[u8], &WasmPublicKey) -> Result<
        BuiltFingerprint<S>,
        FingerprintError,
    >,
    G: FnOnce(&S) -> Result<Vec<u8>, FingerprintError>,
>(
    build: F,
    serialize: G,
    scanned: Seq<u8>,
    local_uuid: Seq<char>,
    local_identity_key: &WasmPublicKey,
    contact_uuid: Seq<char>,
    contact_identity_key: &WasmPublicKey,
    r: Result<bool, BridgeError>,
) -> bool {
    exists|built: Result<BuiltFingerprint<S>, FingerprintError>| #[trigger]
        fingerprint_built(
            build,
            local_uuid,
            local_identity_key,
            contact_uuid,
            contact_identity_key,
            built,
        ) && match built {
            Err(e) => r == Err::<bool, BridgeError>(BridgeError::Fingerprint(e)),
            Ok(fingerprint) => exists|payload: Result<Vec<u8>, FingerprintError>| #[trigger]
                call_ensures(serialize, (&fingerprint.scannable,), payload) && match payload {
                    Ok(bytes) => r == Ok::<bool, BridgeError>(scanned == bytes@),
                    Err(e) => r == Err::<bool, BridgeError>(BridgeError::Fingerprint(e)),
                },
        }
}

/// Whether `scanned` is our own payload, byte for byte.
///
/// This cannot validate a scan of the contact's payload, which shows the two
/// identities the other way round: [`verify_scannable_fingerprint`] does.
pub fn verify_safety_number<
    S,
    F: FnOnce(u32, u32, &[u8], &WasmPublicKey, &[u8], &WasmPublicKey) -> Result<
        BuiltFingerprint<S>,
        FingerprintError,
    >,
    G: FnOnce(&S) -> Result<Vec<u8>, FingerprintError>,
>(
    scanned: &[u8],
    local_uuid: String,
    local_identity_key: &WasmPublicKey,
    contact_uuid: String,
    contact_identity_key: &WasmPublicKey,
    build: F,
    serialize: G,
) -> (r: Result<bool, BridgeError>)
    requires
        forall|local_id: &[u8], contact_id: &[u8]| #[trigger]
            call_requires(
                build,
                (
                    FINGERPRINT_VERSION,
                    FINGERPRINT_ITERATIONS,
                    local_id,
                    local_identity_key,
                    contact_id,
                    contact_identity_key,
                ),
            ),
        forall|scannable: S| #[trigger] call_requires(serialize, (&scannable,)),
    ensures
        safety_number_verified(
            build,
            serialize,
            scanned@,
            local_uuid@,
            local_identity_key,
            contact_uuid@,
            contact_identity_key,
            r,
        ),
{
    match generate_safety_number(
        local_uuid,
        local_identity_key,
        contact_uuid,
        contact_identity_key,
        build,
        serialize,
    ) {
        Ok(expected) => Ok(constant_time_eq(scanned, expected.scannable.as_slice())),
        Err(e) => Err(e),
    }
}

/// A scan shows the contact's view of the same two identities: what is local there
/// is remote here, and the other way round.
pub open spec fn same_parties(ours: CombinedView, theirs: CombinedView) -> bool {
    theirs.local == ours.remote && theirs.remote == ours.local
}

/// What comparing our fingerprint with a scanned payload answers: `theirs` is what the
/// payload encodes, if it can be read.
pub open spec fn comparison(
    ours: CombinedView,
    theirs: Option<CombinedView>,
    r: Result<bool, FingerprintError>,
) -> bool {
    match theirs {
        None => r matches Err(e) && e.kind == crate::error::FingerprintErrorKind::ParsingError,
        Some(theirs) => if theirs.version != ours.version {
            r matches Err(e) && e.kind == crate::error::FingerprintErrorKind::VersionMismatch
        } else {
            r == Ok::<bool, FingerprintError>(same_parties(ours, theirs))
        },
    }
}

/// `compare` does its part: it compares what a scannable fingerprint encodes with what
/// is read of a payload, by the versions and by both halves.
pub open spec fn compares_scans<S, C: FnOnce(&S, &[u8]) -> Result<bool, FingerprintError>>(
    compare: C,
    encoded: spec_fn(S) -> CombinedView,
    read: spec_fn(Seq<u8>) -> Option<CombinedView>,
) -> bool {
    forall|scannable: S, data: &[u8], compared: Result<bool, FingerprintError>| #[trigger]
        call_ensures(compare, (&scannable, data), compared) ==> comparison(
            encoded(scannable),
            read(data@),
            compared,
        )
}

/// The fingerprint of the two parties can be built, and shows `view`.
pub open spec fn shows<
    S,
    F: FnOnce(u32, u32, &[u8], &WasmPublicKey, &[u8], &WasmPublicKey) -> Result<
        BuiltFingerprint<S>,
        FingerprintError,
    >,
>(
    build: F,
    encoded: spec_fn(S) -> CombinedView,
    local_uuid: Seq<char>,
    local_identity_key: &WasmPublicKey,
    contact_uuid: Seq<char>,
    contact_identity_key: &WasmPublicKey,
    view: CombinedView,
) -> bool {
    forall|built: Result<BuiltFingerprint<S>, FingerprintError>| #[trigger]
        fingerprint_built(
            build,
            local_uuid,
            local_identity_key,
            contact_uuid,
            contact_identity_key,
            built,
        ) ==> (built matches Ok(fingerprint) && encoded(fingerprint.scannable) == view)
}

/// A scan verifies exactly if the payload reads as our view with the two parties
/// swapped. One of our version that reads otherwise is told to be none, without an
/// error.
pub proof fn law_scan_verifies_exactly_the_swapped_view<
    S,
    F: FnOnce(u32, u32, &[u8], &WasmPublicKey, &[u8], &WasmPublicKey) -> Result<
        BuiltFingerprint<S>,
        FingerprintError,
    >,
    C: FnOnce(&S, &[u8]) -> Result<bool, FingerprintError>,
>(
    build: F,
    compare: C,
    encoded: spec_fn(S) -> CombinedView,
    read: spec_fn(Seq<u8>) -> Option<CombinedView>,
    ours: CombinedView,
    scanned: &[u8],
    local_uuid: Seq<char>,
    local_identity_key: &WasmPublicKey,
    contact_uuid: Seq<char>,
    contact_identity_key: &WasmPublicKey,
    r: Result<bool, BridgeError>,
)
    requires
        compares_scans(compare, encoded, read),
        shows(
            build,
            encoded,
            local_uuid,
            local_identity_key,
            contact_uuid,
            contact_identity_key,
            ours,
        ),
        scan_verified(
            build,
            compare,
            scanned,
            local_uuid,
            local_identity_key,
            contact_uuid,
            contact_identity_key,
            r,
        ),
    ensures
        r == Ok::<bool, BridgeError>(true) <==> read(scanned@) == Some(ours.swapped()),
        read(scanned@) matches Some(theirs) && theirs.version == ours.version && theirs
            != ours.swapped() ==> r == Ok::<bool, BridgeError>(false),
{
}

/// A payload of another version is neither accepted nor refused as a mismatch: it is
/// reported under a code of its own.
pub proof fn law_other_versions_are_reported<
    S,
    F: FnOnce(u32, u32, &[u8], &WasmPublicKey, &[u8], &WasmPublicKey) -> Result<
        BuiltFingerprint<S>,
        FingerprintError,
    >,
    C: FnOnce(&S, &[u8]) -> Result<bool, FingerprintError>,
>(
    build: F,
    compare: C,
    encoded: spec_fn(S) -> CombinedView,
    read: spec_fn(Seq<u8>) -> Option<CombinedView>,
    ours: CombinedView,
    scanned: &[u8],
    local_uuid: Seq<char>,
    local_identity_key: &WasmPublicKey,
    contact_uuid: Seq<char>,
    contact_identity_key: &WasmPublicKey,
    r: Result<bool, BridgeError>,
)
    requires
        compares_scans(compare, encoded, read),
        shows(
            build,
            encoded,
            local_uuid,
            local_identity_key,
            contact_uuid,
            contact_identity_key,
            ours,
        ),
        read(scanned@) matches Some(theirs) && theirs.version != ours.version,
        scan_verified(
            build,
            compare,
            scanned,
            local_uuid,
            local_identity_key,
            contact_uuid,
            contact_identity_key,
            r,
        ),
    ensures
        r matches Err(e) && e.spec_code()
            == crate::error::ErrorCode::FingerprintVersionMismatch,
{
}

/// A payload that cannot be read is told apart from one of another version by its
/// code.
pub proof fn law_unreadable_payloads_are_reported<
    S,
    F: FnOnce(u32, u32, &[u8], &WasmPublicKey, &[u8], &WasmPublicKey) -> Result<
        BuiltFingerprint<S>,
        FingerprintError,
    >,
    C: FnOnce(&S, &[u8]) -> Result<bool, FingerprintError>,
>(
    build: F,
    compare: C,
    encoded: spec_fn(S) -> CombinedView,
    read: spec_fn(Seq<u8>) -> Option<CombinedView>,
    ours: CombinedView,
    scanned: &[u8],
    local_uuid: Seq<char>,
    local_identity_key: &WasmPublicKey,
    contact_uuid: Seq<char>,
    contact_identity_key: &WasmPublicKey,
    r: Result<bool, BridgeError>,
)
    requires
        compares_scans(compare, encoded, read),
        shows(
            build,
            encoded,
            local_uuid,
            local_identity_key,
            contact_uuid,
            contact_identity_key,
            ours,
        ),
        read(scanned@) is None,
        scan_verified(
            build,
            compare,
            scanned,
            local_uuid,
            local_identity_key,
            contact_uuid,
            contact_identity_key,
            r,
        ),
    ensures
        r matches Err(e) && e.spec_code() == crate::error::ErrorCode::FingerprintParsingError,
{
}

/// The payload of the contact's safety number verifies on our side, where the protocol
/// does its part: what it serialized reads as what it encodes, and the contact's
/// fingerprint shows our view swapped.
pub proof fn law_contact_payload_verifies<
    S,
    F: FnOnce(u32, u32, &[u8], &WasmPublicKey, &[u8], &WasmPublicKey) -> Result<
        BuiltFingerprint<S>,
        FingerprintError,
    >,
    G: FnOnce(&S) -> Result<Vec<u8>, FingerprintError>,
    C: FnOnce(&S, &[u8]) -> Result<bool, FingerprintError>,
>(
    build: F,
    serialize: G,
    compare: C,
    encoded: spec_fn(S) -> CombinedView,
    read: spec_fn(Seq<u8>) -> Option<CombinedView>,
    ours: CombinedView,
    number: WasmSafetyNumber,
    scanned: &[u8],
    local_uuid: Seq<char>,
    local_identity_key: &WasmPublicKey,
    contact_uuid: Seq<char>,
    contact_identity_key: &WasmPublicKey,
    r: Result<bool, BridgeError>,
)
    requires
        compares_scans(compare, encoded, read),
        forall|scannable: S, payload: Vec<u8>| #[trigger]
            call_ensures(serialize, (&scannable,), Ok(payload)) ==> read(payload@) == Some(
                encoded(scannable),
            ),
        shows(
            build,
            encoded,
            local_uuid,
            local_identity_key,
            contact_uuid,
            contact_identity_key,
            ours,
        ),
        shows(
            build,
            encoded,
            contact_uuid,
            contact_identity_key,
            local_uuid,
            local_identity_key,
            ours.swapped(),
        ),
        safety_number_generated(
            build,
            serialize,
            contact_uuid,
            contact_identity_key,
            local_uuid,
            local_identity_key,
            Ok(number),
        ),
        scanned@ == number@.1,
        scan_verified(
            build,
            compare,
            scanned,
            local_uuid,
            local_identity_key,
            contact_uuid,
            contact_identity_key,
            r,
        ),
    ensures
        r == Ok::<bool, BridgeError>(true),
{
}

/// The two parties agree: one accepts the other's view exactly if the other accepts
/// its view.
pub proof fn law_comparison_is_symmetric(a: CombinedView, b: CombinedView)
    ensures
        same_parties(a, b) <==> same_parties(b, a),
        same_parties(a, a.swapped()),
        a.swapped().swapped() == a,
{
}

/// Our own view is no scan of the contact's, unless both fingerprints are one.
pub proof fn law_own_view_does_not_verify(ours: CombinedView)
    ensures
        same_parties(ours, ours) <==> ours.local == ours.remote,
{
}

/// Building is a function of what it is handed: the same parties give the same text
/// and the same scannable form, or no fingerprint.
pub open spec fn building_repeats<
    S,
    F: FnOnce(u32, u32, &[u8], &WasmPublicKey, &[u8], &WasmPublicKey) -> Result<
        BuiltFingerprint<S>,
        FingerprintError,
    >,
>(
    build: F,
    local_uuid: Seq<char>,
    local_identity_key: &WasmPublicKey,
    contact_uuid: Seq<char>,
    contact_identity_key: &WasmPublicKey,
) -> bool {
    forall|
        a: Result<BuiltFingerprint<S>, FingerprintError>,
        b: Result<BuiltFingerprint<S>, FingerprintError>,
    |
        #[trigger] fingerprint_built(
            build,
            local_uuid,
            local_identity_key,
            contact_uuid,
            contact_identity_key,
            a,
        ) && #[trigger] fingerprint_built(
            build,
            local_uuid,
            local_identity_key,
            contact_uuid,
            contact_identity_key,
            b,
        ) ==> match (a, b) {
            (Ok(f), Ok(g)) => f.display@ == g.display@ && f.scannable == g.scannable,
            (Err(_), Err(_)) => true,
            _ => false,
        }
}

/// Serializing is a function of what it is handed.
pub open spec fn serializing_repeats<S, G: FnOnce(&S) -> Result<Vec<u8>, FingerprintError>>(
    serialize: G,
) -> bool {
    forall|
        scannable: S,
        a: Result<Vec<u8>, FingerprintError>,
        b: Result<Vec<u8>, FingerprintError>,
    |
        #[trigger] call_ensures(serialize, (&scannable,), a) && #[trigger] call_ensures(
            serialize,
            (&scannable,),
            b,
        ) ==> match (a, b) {
            (Ok(x), Ok(y)) => x@ == y@,
            (Err(_), Err(_)) => true,
            _ => false,
        }
}

/// Where building and serializing are functions of what they are handed, the safety
/// number of the same parties is the same each time, and our own payload is exactly
/// what its byte comparison accepts.
pub proof fn law_own_payload_is_recognised<
    S,
    F: FnOnce(u32, u32, &[u8], &WasmPublicKey, &[u8], &WasmPublicKey) -> Result<
        BuiltFingerprint<S>,
        FingerprintError,
    >,
    G: FnOnce(&S) -> Result<Vec<u8>, FingerprintError>,
>(
    build: F,
    serialize: G,
    scanned: Seq<u8>,
    local_uuid: Seq<char>,
    local_identity_key: &WasmPublicKey,
    contact_uuid: Seq<char>,
    contact_identity_key: &WasmPublicKey,
    number: WasmSafetyNumber,
    again: Result<WasmSafetyNumber, BridgeError>,
    valid: Result<bool, BridgeError>,
)
    requires
        building_repeats(
            build,
            local_uuid,
            local_identity_key,
            contact_uuid,
            contact_identity_key,
        ),
        serializing_repeats(serialize),
        safety_number_generated(
            build,
            serialize,
            local_uuid,
            local_identity_key,
            contact_uuid,
            contact_identity_key,
            Ok(number),
        ),
        safety_number_generated(
            build,
            serialize,
            local_uuid,
            local_identity_key,
            contact_uuid,
            contact_identity_key,
            again,
        ),
        safety_number_verified(
            build,
            serialize,
            scanned,
            local_uuid,
            local_identity_key,
            contact_uuid,
            contact_identity_key,
            valid,
        ),
    ensures
        again matches Ok(other) && other@ == number@,
        valid == Ok::<bool, BridgeError>(scanned == number@.1),
{
}

/// Both parties read the same number, where the fingerprint of the two reads the same
/// from either side.
pub proof fn law_both_parties_read_the_same_number<
    S,
    F: FnOnce(u32, u32, &[u8], &WasmPublicKey, &[u8], &WasmPublicKey) -> Result<
        BuiltFingerprint<S>,
        FingerprintError,
    >,
    G: FnOnce(&S) -> Result<Vec<u8>, FingerprintError>,
>(
    build: F,
    serialize: G,
    local_uuid: Seq<char>,
    local_identity_key: &WasmPublicKey,
    contact_uuid: Seq<char>,
    contact_identity_key: &WasmPublicKey,
    ours: WasmSafetyNumber,
    theirs: WasmSafetyNumber,
)
    requires
        forall|a: BuiltFingerprint<S>, b: BuiltFingerprint<S>|
            #[trigger] fingerprint_built(
                build,
                local_uuid,
                local_identity_key,
                contact_uuid,
                contact_identity_key,
                Ok(a),
            ) && #[trigger] fingerprint_built(
                build,
                contact_uuid,
                contact_identity_key,
                local_uuid,
                local_identity_key,
                Ok(b),
            ) ==> a.display@ == b.display@,
        safety_number_generated(
            build,
            serialize,
            local_uuid,
            local_identity_key,
            contact_uuid,
            contact_identity_key,
            Ok(ours),
        ),
        safety_number_generated(
            build,
            serialize,
            contact_uuid,
            contact_identity_key,
            local_uuid,
            local_identity_key,
            Ok(theirs),
        ),
    ensures
        ours@.0 == theirs@.0,
{
}

} // verus!
