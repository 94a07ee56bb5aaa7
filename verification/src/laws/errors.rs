//! Laws on what the caller sees of an error.

use crate::error::{
    error_code, error_message, fingerprint_error_code, fingerprint_outcome, generic_outcome,
    protocol_outcome, validation_error, BridgeError, ErrorCode, FingerprintError,
    FingerprintErrorKind, ProtocolError, ProtocolErrorKind,
};
use vstd::prelude::*;

verus! {

/// With `debug`, an error from below reads as the mark and its whole description.
/// Without, it reads as one text that tells nothing of the description.
pub proof fn law_messages_carry_the_description_in_debug_alone(
    e: BridgeError,
    detail: Seq<char>,
    debug: String,
    release: String,
)
    requires
        match e {
            BridgeError::Protocol(p) => p.detail@ == detail,
            BridgeError::Generic(d) => d@ == detail,
            BridgeError::Fingerprint(f) => f.detail@ == detail,
            _ => false,
        },
        call_ensures(BridgeError::message, (&e, true), debug),
        call_ensures(BridgeError::message, (&e, false), release),
    ensures
        debug@.len() == 13 + detail.len(),
        debug@.skip(13) == detail,
        debug@.take(13) == "SignalError: "@,
        release@ == "SignalError: Operation failed"@,
{
    reveal_strlit("SignalError: ");
    assert(debug@ == "SignalError: "@ + detail);
    assert(debug@.skip(13) =~= detail);
    assert(debug@.take(13) =~= "SignalError: "@);
}

/// A refusal of the bridge itself reads as its message in both builds, and the three
/// errors on pins as their fixed texts.
pub proof fn law_refusals_read_as_their_message(
    message: &str,
    e: BridgeError,
    debug: bool,
    shown: String,
    mismatch: String,
    replacement: String,
    missing: String,
)
    requires
        call_ensures(validation_error, (message,), e),
        call_ensures(BridgeError::message, (&e, debug), shown),
        call_ensures(BridgeError::message, (&BridgeError::PinMismatch, debug), mismatch),
        call_ensures(BridgeError::message, (&BridgeError::PinReplacement, debug), replacement),
        call_ensures(BridgeError::message, (&BridgeError::PinMissing, debug), missing),
    ensures
        shown@ == message@,
        mismatch@ == "The pinned remote identity does not match"@,
        replacement@ == "A different remote identity is already pinned for this address"@,
        missing@ == "No remote identity is pinned for this address"@,
{
}

/// The code of a protocol error reads as the name of its kind, and as `Generic` where
/// callers cannot tell the kind apart; its description plays no part.
pub proof fn law_protocol_codes_read_as_their_kinds(
    e: ProtocolError,
    direct: ErrorCode,
    code: ErrorCode,
    text: &str,
)
    requires
        call_ensures(error_code, (&e,), direct),
        call_ensures(BridgeError::code, (&BridgeError::Protocol(e),), code),
        call_ensures(ErrorCode::as_str, (&code,), text),
    ensures
        direct == code,
        match e.kind {
            ProtocolErrorKind::NoSenderKeyState => text@ == "NoSenderKeyState"@,
            ProtocolErrorKind::DuplicatedMessage => text@ == "DuplicatedMessage"@,
            ProtocolErrorKind::UntrustedIdentity => text@ == "UntrustedIdentity"@,
            ProtocolErrorKind::InvalidKyberPreKeyId => text@ == "InvalidKyberPreKeyId"@,
            ProtocolErrorKind::InvalidPreKeyId => text@ == "InvalidPreKeyId"@,
            ProtocolErrorKind::InvalidSignedPreKeyId => text@ == "InvalidSignedPreKeyId"@,
            ProtocolErrorKind::Other => text@ == "Generic"@,
        },
{
}

/// The codes of all other errors: a fingerprint of another version is told apart from
/// one that cannot be read, pins have codes of their own, and the rest is generic.
pub proof fn law_other_codes_read_as_stated(
    e: BridgeError,
    code: ErrorCode,
    text: &str,
)
    requires
        call_ensures(BridgeError::code, (&e,), code),
        call_ensures(ErrorCode::as_str, (&code,), text),
    ensures
        match e {
            BridgeError::Protocol(_) => true,
            BridgeError::Generic(_) => text@ == "Generic"@,
            BridgeError::Validation(_) => text@ == "Generic"@,
            BridgeError::Fingerprint(f) => match f.kind {
                FingerprintErrorKind::VersionMismatch => text@ == "FingerprintVersionMismatch"@,
                FingerprintErrorKind::ParsingError => text@ == "FingerprintParsingError"@,
                FingerprintErrorKind::InvalidIterationCount => text@
                    == "FingerprintParsingError"@,
            },
            BridgeError::PinReplacement => text@ == "PinnedIdentityMismatch"@,
            BridgeError::PinMismatch => text@ == "PinnedIdentityMismatch"@,
            BridgeError::PinMissing => text@ == "PinnedIdentityMissing"@,
        },
{
}

/// The code of a fingerprint error is the one under which it is thrown.
pub proof fn law_fingerprint_codes_agree(
    e: FingerprintError,
    direct: ErrorCode,
    code: ErrorCode,
)
    requires
        call_ensures(fingerprint_error_code, (&e,), direct),
        call_ensures(BridgeError::code, (&BridgeError::Fingerprint(e),), code),
    ensures
        direct == code,
{
}

/// The message of a description is the one that an error with this description has.
pub proof fn law_error_message_agrees(
    detail: String,
    shown: &str,
    debug: bool,
    direct: String,
    thrown: String,
)
    requires
        shown@ == detail@,
        call_ensures(error_message, (shown, debug), direct),
        call_ensures(BridgeError::message, (&BridgeError::Generic(detail), debug), thrown),
    ensures
        direct@ == thrown@,
{
}

/// A value passes through as it is, and an error keeps its kind and its description.
pub proof fn law_outcomes_pass_through<T>(
    p: Result<T, ProtocolError>,
    g: Result<T, String>,
    f: Result<T, FingerprintError>,
    lifted_p: Result<T, BridgeError>,
    lifted_g: Result<T, BridgeError>,
    lifted_f: Result<T, BridgeError>,
)
    requires
        call_ensures(protocol_outcome::<T>, (p,), lifted_p),
        call_ensures(generic_outcome::<T>, (g,), lifted_g),
        call_ensures(fingerprint_outcome::<T>, (f,), lifted_f),
    ensures
        p matches Ok(v) ==> lifted_p == Ok::<T, BridgeError>(v),
        p matches Err(e) ==> lifted_p == Err::<T, BridgeError>(BridgeError::Protocol(e)),
        g matches Ok(v) ==> lifted_g == Ok::<T, BridgeError>(v),
        g matches Err(d) ==> lifted_g == Err::<T, BridgeError>(BridgeError::Generic(d)),
        f matches Ok(v) ==> lifted_f == Ok::<T, BridgeError>(v),
        f matches Err(e) ==> lifted_f == Err::<T, BridgeError>(BridgeError::Fingerprint(e)),
{
}

} // verus!
