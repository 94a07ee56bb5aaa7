//! Errors as the caller sees them: a message and a stable machine-readable code.

use crate::text::join;
use vstd::prelude::*;
use vstd::string::*;

verus! {

/// The protocol errors that callers can tell apart, and all others as `Other`.
#[derive(Clone, Copy, Debug, PartialEq, Eq, Structural)]
pub enum ProtocolErrorKind {
    NoSenderKeyState,
    DuplicatedMessage,
    UntrustedIdentity,
    InvalidKyberPreKeyId,
    InvalidPreKeyId,
    InvalidSignedPreKeyId,
    Other,
}

/// An error that the protocol implementation reported, with its own description.
#[derive(Debug)]
pub struct ProtocolError {
    pub kind: ProtocolErrorKind,
    pub detail: String,
}

/// The ways in which a fingerprint operation fails.
#[derive(Clone, Copy, Debug, PartialEq, Eq, Structural)]
pub enum FingerprintErrorKind {
    VersionMismatch,
    ParsingError,
    InvalidIterationCount,
}

/// A fingerprint error, with its own description.
#[derive(Debug)]
pub struct FingerprintError {
    pub kind: FingerprintErrorKind,
    pub detail: String,
}

/// The codes under which errors reach the caller.
#[derive(Clone, Copy, Debug, PartialEq, Eq, Structural)]
pub enum ErrorCode {
    Generic,
    NoSenderKeyState,
    DuplicatedMessage,
    UntrustedIdentity,
    InvalidKyberPreKeyId,
    InvalidPreKeyId,
    InvalidSignedPreKeyId,
    FingerprintVersionMismatch,
    FingerprintParsingError,
    PinnedIdentityMismatch,
    PinnedIdentityMissing,
}

impl ErrorCode {
    /// The code as the caller reads it.
    pub open spec fn text(self) -> Seq<char> {
        match self {
            ErrorCode::Generic => "Generic"@,
            ErrorCode::NoSenderKeyState => "NoSenderKeyState"@,
            ErrorCode::DuplicatedMessage => "DuplicatedMessage"@,
            ErrorCode::UntrustedIdentity => "UntrustedIdentity"@,
            ErrorCode::InvalidKyberPreKeyId => "InvalidKyberPreKeyId"@,
            ErrorCode::InvalidPreKeyId => "InvalidPreKeyId"@,
            ErrorCode::InvalidSignedPreKeyId => "InvalidSignedPreKeyId"@,
            ErrorCode::FingerprintVersionMismatch => "FingerprintVersionMismatch"@,
            ErrorCode::FingerprintParsingError => "FingerprintParsingError"@,
            ErrorCode::PinnedIdentityMismatch => "PinnedIdentityMismatch"@,
            ErrorCode::PinnedIdentityMissing => "PinnedIdentityMissing"@,
        }
    }

    /// The code as the caller reads it.
    pub fn as_str(&self) -> (s: &'static str)
        ensures
            s@ == self.text(),
    {
        match self {
            ErrorCode::Generic => "Generic",
            ErrorCode::NoSenderKeyState => "NoSenderKeyState",
            ErrorCode::DuplicatedMessage => "DuplicatedMessage",
            ErrorCode::UntrustedIdentity => "UntrustedIdentity",
            ErrorCode::InvalidKyberPreKeyId => "InvalidKyberPreKeyId",
            ErrorCode::InvalidPreKeyId => "InvalidPreKeyId",
            ErrorCode::InvalidSignedPreKeyId => "InvalidSignedPreKeyId",
            ErrorCode::FingerprintVersionMismatch => "FingerprintVersionMismatch",
            ErrorCode::FingerprintParsingError => "FingerprintParsingError",
            ErrorCode::PinnedIdentityMismatch => "PinnedIdentityMismatch",
            ErrorCode::PinnedIdentityMissing => "PinnedIdentityMissing",
        }
    }
}

/// The code of a protocol error, by its kind alone.
pub open spec fn protocol_code(kind: ProtocolErrorKind) -> ErrorCode {
    match kind {
        ProtocolErrorKind::NoSenderKeyState => ErrorCode::NoSenderKeyState,
        ProtocolErrorKind::DuplicatedMessage => ErrorCode::DuplicatedMessage,
        ProtocolErrorKind::UntrustedIdentity => ErrorCode::UntrustedIdentity,
        ProtocolErrorKind::InvalidKyberPreKeyId => ErrorCode::InvalidKyberPreKeyId,
        ProtocolErrorKind::InvalidPreKeyId => ErrorCode::InvalidPreKeyId,
        ProtocolErrorKind::InvalidSignedPreKeyId => ErrorCode::InvalidSignedPreKeyId,
        ProtocolErrorKind::Other => ErrorCode::Generic,
    }
}

/// The code of a fingerprint error: a payload that cannot be read is told apart
/// from one of another fingerprint version.
pub open spec fn fingerprint_code(kind: FingerprintErrorKind) -> ErrorCode {
    match kind {
        FingerprintErrorKind::VersionMismatch => ErrorCode::FingerprintVersionMismatch,
        FingerprintErrorKind::ParsingError => ErrorCode::FingerprintParsingError,
        FingerprintErrorKind::InvalidIterationCount => ErrorCode::FingerprintParsingError,
    }
}

/// The message of an error that was reported from below. Only a debug build
/// carries the description on.
pub open spec fn reported_message(detail: Seq<char>, debug: bool) -> Seq<char> {
    if debug {
        "SignalError: "@ + detail
    } else {
        "SignalError: Operation failed"@
    }
}

/// The code of a protocol error. It depends on the kind of the error, never on
/// its description, so it stays specific where messages are flattened.
pub fn error_code(e: &ProtocolError) -> (code: ErrorCode)
    ensures
        code == protocol_code(e.kind),
{
    match e.kind {
        ProtocolErrorKind::NoSenderKeyState => ErrorCode::NoSenderKeyState,
        ProtocolErrorKind::DuplicatedMessage => ErrorCode::DuplicatedMessage,
        ProtocolErrorKind::UntrustedIdentity => ErrorCode::UntrustedIdentity,
        ProtocolErrorKind::InvalidKyberPreKeyId => ErrorCode::InvalidKyberPreKeyId,
        ProtocolErrorKind::InvalidPreKeyId => ErrorCode::InvalidPreKeyId,
        ProtocolErrorKind::InvalidSignedPreKeyId => ErrorCode::InvalidSignedPreKeyId,
        ProtocolErrorKind::Other => ErrorCode::Generic,
    }
}

/// The code of a fingerprint error.
pub fn fingerprint_error_code(e: &FingerprintError) -> (code: ErrorCode)
    ensures
        code == fingerprint_code(e.kind),
{
    match e.kind {
        FingerprintErrorKind::VersionMismatch => ErrorCode::FingerprintVersionMismatch,
        FingerprintErrorKind::ParsingError => ErrorCode::FingerprintParsingError,
        FingerprintErrorKind::InvalidIterationCount => ErrorCode::FingerprintParsingError,
    }
}

/// The message of an error that was reported from below. Builds without `debug`
/// flatten the description, so that no protocol internals leak.
pub fn error_message(detail: &str, debug: bool) -> (message: String)
    ensures
        message@ == reported_message(detail@, debug),
{
    if debug {
        join("SignalError: ", detail)
    } else {
        String::from_str("SignalError: Operation failed")
    }
}

/// Everything that the bridge throws.
#[derive(Debug)]
pub enum BridgeError {
    /// The protocol implementation failed; the code follows its kind.
    Protocol(ProtocolError),
    /// Anything else below the bridge failed, with this description.
    Generic(String),
    /// A fingerprint operation failed; the code follows its kind.
    Fingerprint(FingerprintError),
    /// The bridge itself refused the input, with this message.
    Validation(String),
    /// A pin was to be replaced by another identity.
    PinReplacement,
    /// The pinned identity is not the one asserted.
    PinMismatch,
    /// No identity is pinned.
    PinMissing,
}

impl BridgeError {
    /// The code of the error.
    pub open spec fn spec_code(self) -> ErrorCode {
        match self {
            BridgeError::Protocol(e) => protocol_code(e.kind),
            BridgeError::Generic(_) => ErrorCode::Generic,
            BridgeError::Fingerprint(e) => fingerprint_code(e.kind),
            BridgeError::Validation(_) => ErrorCode::Generic,
            BridgeError::PinReplacement => ErrorCode::PinnedIdentityMismatch,
            BridgeError::PinMismatch => ErrorCode::PinnedIdentityMismatch,
            BridgeError::PinMissing => ErrorCode::PinnedIdentityMissing,
        }
    }

    /// The message of the error.
    pub open spec fn spec_message(self, debug: bool) -> Seq<char> {
        match self {
            BridgeError::Protocol(e) => reported_message(e.detail@, debug),
            BridgeError::Generic(detail) => reported_message(detail@, debug),
            BridgeError::Fingerprint(e) => reported_message(e.detail@, debug),
            BridgeError::Validation(message) => message@,
            BridgeError::PinReplacement => {
                "A different remote identity is already pinned for this address"@
            },
            BridgeError::PinMismatch => "The pinned remote identity does not match"@,
            BridgeError::PinMissing => "No remote identity is pinned for this address"@,
        }
    }

    /// The code under which the error reaches the caller.
    pub fn code(&self) -> (code: ErrorCode)
        ensures
            code == self.spec_code(),
    {
        match self {
            BridgeError::Protocol(e) => error_code(e),
            BridgeError::Generic(_) => ErrorCode::Generic,
            BridgeError::Fingerprint(e) => fingerprint_error_code(e),
            BridgeError::Validation(_) => ErrorCode::Generic,
            BridgeError::PinReplacement => ErrorCode::PinnedIdentityMismatch,
            BridgeError::PinMismatch => ErrorCode::PinnedIdentityMismatch,
            BridgeError::PinMissing => ErrorCode::PinnedIdentityMissing,
        }
    }

    /// The message with which the error reaches the caller.
    pub fn message(&self, debug: bool) -> (message: String)
        ensures
            message@ == self.spec_message(debug),
    {
        match self {
            BridgeError::Protocol(e) => error_message(e.detail.as_str(), debug),
            BridgeError::Generic(detail) => error_message(detail.as_str(), debug),
            BridgeError::Fingerprint(e) => error_message(e.detail.as_str(), debug),
            BridgeError::Validation(message) => message.clone(),
            BridgeError::PinReplacement => String::from_str(
                "A different remote identity is already pinned for this address",
            ),
            BridgeError::PinMismatch => String::from_str(
                "The pinned remote identity does not match",
            ),
            BridgeError::PinMissing => String::from_str(
                "No remote identity is pinned for this address",
            ),
        }
    }
}

/// A refusal of the bridge itself, with a fixed message.
pub fn validation_error(message: &str) -> (e: BridgeError)
    ensures
        refused_with(e, message@),
{
    BridgeError::Validation(String::from_str(message))
}

/// `e` is a refusal of the bridge itself, with this message.
pub open spec fn refused_with(e: BridgeError, message: Seq<char>) -> bool {
    e matches BridgeError::Validation(m) && m@ == message
}

/// What a protocol operation yielded, with its error as the caller sees it.
pub fn protocol_outcome<T>(outcome: Result<T, ProtocolError>) -> (r: Result<T, BridgeError>)
    ensures
        r == lift_protocol(outcome),
{
    match outcome {
        Ok(value) => Ok(value),
        Err(e) => Err(BridgeError::Protocol(e)),
    }
}

/// `outcome` with its error as the caller sees it.
pub open spec fn lift_protocol<T>(outcome: Result<T, ProtocolError>) -> Result<T, BridgeError> {
    match outcome {
        Ok(value) => Ok(value),
        Err(e) => Err(BridgeError::Protocol(e)),
    }
}

/// What an operation outside the protocol yielded, whose error has no code of
/// its own.
pub fn generic_outcome<T>(outcome: Result<T, String>) -> (r: Result<T, BridgeError>)
    ensures
        r == lift_generic(outcome),
{
    match outcome {
        Ok(value) => Ok(value),
        Err(detail) => Err(BridgeError::Generic(detail)),
    }
}

/// `outcome` with its error coded `Generic`.
pub open spec fn lift_generic<T>(outcome: Result<T, String>) -> Result<T, BridgeError> {
    match outcome {
        Ok(value) => Ok(value),
        Err(detail) => Err(BridgeError::Generic(detail)),
    }
}

/// What a fingerprint operation yielded, with its error as the caller sees it.
pub fn fingerprint_outcome<T>(outcome: Result<T, FingerprintError>) -> (r: Result<T, BridgeError>)
    ensures
        r == lift_fingerprint(outcome),
{
    match outcome {
        Ok(value) => Ok(value),
        Err(e) => Err(BridgeError::Fingerprint(e)),
    }
}

/// `outcome` with its error as the caller sees it.
pub open spec fn lift_fingerprint<T>(outcome: Result<T, FingerprintError>) -> Result<
    T,
    BridgeError,
> {
    match outcome {
        Ok(value) => Ok(value),
        Err(e) => Err(BridgeError::Fingerprint(e)),
    }
}

/// Distinct codes read differently, so a caller can match on the text alone.
pub proof fn law_codes_are_distinct(a: ErrorCode, b: ErrorCode)
    requires
        a != b,
    ensures
        a.text() != b.text(),
{
    reveal_strlit("Generic");
    reveal_strlit("NoSenderKeyState");
    reveal_strlit("DuplicatedMessage");
    reveal_strlit("UntrustedIdentity");
    reveal_strlit("InvalidKyberPreKeyId");
    reveal_strlit("InvalidPreKeyId");
    reveal_strlit("InvalidSignedPreKeyId");
    reveal_strlit("FingerprintVersionMismatch");
    reveal_strlit("FingerprintParsingError");
    reveal_strlit("PinnedIdentityMismatch");
    reveal_strlit("PinnedIdentityMissing");
    // Texts of one length differ in their first letter.
    assert(a.text().len() != b.text().len() || a.text()[0] != b.text()[0]);
}

/// Without `debug`, no error from below shows through its message: two errors
/// read alike whatever their descriptions, while their codes stay specific.
pub proof fn law_release_messages_are_flat(e: ProtocolError, f: ProtocolError)
    ensures
        BridgeError::Protocol(e).spec_message(false) == BridgeError::Protocol(f).spec_message(
            false,
        ),
        e.kind == f.kind ==> BridgeError::Protocol(e).spec_code() == BridgeError::Protocol(
            f,
        ).spec_code(),
        e.kind != f.kind ==> BridgeError::Protocol(e).spec_code() != BridgeError::Protocol(
            f,
        ).spec_code(),
{
}

/// Every message of a protocol error starts with `SignalError:`, in both builds.
pub proof fn law_protocol_messages_are_marked(e: ProtocolError, debug: bool)
    ensures
        "SignalError:"@.is_prefix_of(BridgeError::Protocol(e).spec_message(debug)),
{
    reveal_strlit("SignalError:");
    reveal_strlit("SignalError: ");
    reveal_strlit("SignalError: Operation failed");
    let m = BridgeError::Protocol(e).spec_message(debug);
    assert("SignalError:"@ =~= m.subrange(0, 12));
}

/// A refusal of the bridge itself is always coded `Generic`, and its message reads
/// the same in both builds.
pub proof fn law_refusals_are_generic(e: BridgeError, message: Seq<char>, debug: bool)
    requires
        refused_with(e, message),
    ensures
        e.spec_code() == ErrorCode::Generic,
        e.spec_message(debug) == message,
{
}

/// An error from outside the protocol is always coded `Generic`.
pub proof fn law_other_errors_are_generic<T>(
    outcome: Result<T, String>,
    r: Result<T, BridgeError>,
)
    requires
        outcome is Err,
        r == lift_generic(outcome),
    ensures
        r matches Err(e) && e.spec_code() == ErrorCode::Generic,
{
}

} // verus!
