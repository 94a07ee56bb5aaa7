use signal_wasm::error::{
    error_code, error_message, fingerprint_error_code, fingerprint_outcome, generic_outcome,
    protocol_outcome,
    validation_error, BridgeError, ErrorCode, FingerprintError, FingerprintErrorKind,
    ProtocolError, ProtocolErrorKind,
};

fn protocol(kind: ProtocolErrorKind) -> ProtocolError {
    ProtocolError { kind, detail: "internals".to_string() }
}

#[test]
fn protocol_errors_have_stable_codes() {
    let codes = [
        (ProtocolErrorKind::NoSenderKeyState, "NoSenderKeyState"),
        (ProtocolErrorKind::DuplicatedMessage, "DuplicatedMessage"),
        (ProtocolErrorKind::UntrustedIdentity, "UntrustedIdentity"),
        (ProtocolErrorKind::InvalidKyberPreKeyId, "InvalidKyberPreKeyId"),
        (ProtocolErrorKind::InvalidPreKeyId, "InvalidPreKeyId"),
        (ProtocolErrorKind::InvalidSignedPreKeyId, "InvalidSignedPreKeyId"),
        (ProtocolErrorKind::Other, "Generic"),
    ];
    for (kind, text) in codes {
        assert_eq!(error_code(&protocol(kind)).as_str(), text);
        let e = BridgeError::Protocol(protocol(kind));
        assert_eq!(e.code().as_str(), text);
        // The message is flattened, the code is not.
        assert_eq!(e.message(false), "SignalError: Operation failed");
        assert_eq!(e.message(true), "SignalError: internals");
    }
}

#[test]
fn fingerprint_errors_have_stable_codes() {
    let codes = [
        (FingerprintErrorKind::VersionMismatch, "FingerprintVersionMismatch"),
        (FingerprintErrorKind::ParsingError, "FingerprintParsingError"),
        (FingerprintErrorKind::InvalidIterationCount, "FingerprintParsingError"),
    ];
    for (kind, text) in codes {
        let e = FingerprintError { kind, detail: "qr".to_string() };
        assert_eq!(fingerprint_error_code(&e).as_str(), text);
        let e = BridgeError::Fingerprint(e);
        assert_eq!(e.code().as_str(), text);
        assert_eq!(e.message(true), "SignalError: qr");
        assert_eq!(e.message(false), "SignalError: Operation failed");
    }
}

#[test]
fn refusals_read_the_same_in_both_builds() {
    let e = validation_error("PreKey ID mismatch");
    assert_eq!(e.code(), ErrorCode::Generic);
    assert_eq!(e.message(true), "PreKey ID mismatch");
    assert_eq!(e.message(false), "PreKey ID mismatch");
    assert_eq!(BridgeError::PinReplacement.code().as_str(), "PinnedIdentityMismatch");
    assert_eq!(BridgeError::PinMismatch.code().as_str(), "PinnedIdentityMismatch");
    assert_eq!(BridgeError::PinMissing.code().as_str(), "PinnedIdentityMissing");
}

#[test]
fn outcomes_are_lifted() {
    assert_eq!(protocol_outcome(Ok(3u8)).unwrap(), 3);
    let e = protocol_outcome::<u8>(Err(protocol(ProtocolErrorKind::InvalidPreKeyId)));
    assert_eq!(e.unwrap_err().code(), ErrorCode::InvalidPreKeyId);
    assert_eq!(generic_outcome(Ok(3u8)).unwrap(), 3);
    let e = generic_outcome::<u8>(Err("why".to_string())).unwrap_err();
    assert_eq!(e.code(), ErrorCode::Generic);
    assert_eq!(e.message(true), "SignalError: why");
    assert_eq!(fingerprint_outcome(Ok(3u8)).unwrap(), 3);
    let e = FingerprintError {
        kind: FingerprintErrorKind::VersionMismatch,
        detail: "as reported".to_string(),
    };
    let e = fingerprint_outcome::<u8>(Err(e)).unwrap_err();
    assert_eq!(e.code(), ErrorCode::FingerprintVersionMismatch);
    assert_eq!(e.message(true), "SignalError: as reported");
    assert_eq!(error_message("x", true), "SignalError: x");
    assert_eq!(error_message("x", false), "SignalError: Operation failed");
}

#[test]
fn codes_read_differently() {
    let codes = [
        ErrorCode::Generic,
        ErrorCode::NoSenderKeyState,
        ErrorCode::DuplicatedMessage,
        ErrorCode::UntrustedIdentity,
        ErrorCode::InvalidKyberPreKeyId,
        ErrorCode::InvalidPreKeyId,
        ErrorCode::InvalidSignedPreKeyId,
        ErrorCode::FingerprintVersionMismatch,
        ErrorCode::FingerprintParsingError,
        ErrorCode::PinnedIdentityMismatch,
        ErrorCode::PinnedIdentityMissing,
    ];
    for (i, a) in codes.iter().enumerate() {
        for (j, b) in codes.iter().enumerate() {
            assert_eq!(a.as_str() == b.as_str(), i == j);
        }
    }
}
