use solar_telemetry::auth::{
    authenticate, check_probe, decode_challenge, respond_challenge, Scheme,
};
use solar_telemetry::errors::TelemetryError;

#[test]
fn responder_deterministic() {
    let challenge = decode_challenge(
        "Digest realm=\"gateway\", nonce=\"dcd98b7102dd2f0e8b11d0f600bfb0c093\", qop=\"auth\"",
    )
    .unwrap();
    let a = respond_challenge(&challenge, "installer", "secret").unwrap();
    let b = respond_challenge(&challenge, "installer", "secret").unwrap();
    assert_eq!(a, b);
}

#[test]
fn responder_deterministic_without_qop() {
    let challenge =
        decode_challenge("Digest realm=\"gateway\", nonce=\"abcdef0123456789\"").unwrap();
    let a = respond_challenge(&challenge, "installer", "secret").unwrap();
    let b = respond_challenge(&challenge, "installer", "secret").unwrap();
    assert_eq!(a, b);
    assert!(a.starts_with("Digest "));
}

#[test]
fn unsupported_scheme_fails() {
    let challenge = decode_challenge("Bearer realm=\"gateway\"").unwrap();
    assert!(matches!(challenge.scheme, Scheme::Unknown));
    let r = respond_challenge(&challenge, "installer", "secret");
    assert!(matches!(r, Err(TelemetryError::UnsupportedScheme)));
}

#[test]
fn digest_preferred_over_basic() {
    let challenge =
        decode_challenge("Basic realm=\"gateway\", Digest realm=\"gateway\", nonce=\"00ff\"")
            .unwrap();
    assert!(matches!(challenge.scheme, Scheme::Digest));
}

#[test]
fn basic_scheme_token() {
    let challenge = decode_challenge("Basic realm=\"foo\"").unwrap();
    assert!(matches!(challenge.scheme, Scheme::Basic));
    let token = respond_challenge(&challenge, "Aladdin", "open sesame").unwrap();
    assert_eq!(token, "Basic QWxhZGRpbjpvcGVuIHNlc2FtZQ==");
}

#[test]
fn empty_challenge_is_malformed() {
    let r = decode_challenge("");
    assert!(matches!(r, Err(TelemetryError::MalformedChallenge)));
}

#[test]
fn digest_without_nonce_is_malformed() {
    let challenge = decode_challenge("Digest realm=\"gateway\"").unwrap();
    assert!(matches!(challenge.scheme, Scheme::Digest));
    let r = respond_challenge(&challenge, "installer", "secret");
    assert!(matches!(r, Err(TelemetryError::MalformedChallenge)));
}

#[test]
fn probe_wrong_status_is_fatal() {
    let r = check_probe(200, Some(String::from("Digest realm=\"gateway\"")));
    assert!(matches!(
        r,
        Err(TelemetryError::UnexpectedProbeResponse { status: 200 })
    ));
}

#[test]
fn probe_needs_challenge_header() {
    let r = check_probe(401, None);
    assert!(matches!(r, Err(TelemetryError::MalformedChallenge)));
}

#[test]
fn probe_accepts_challenge() {
    let r = check_probe(401, Some(String::from("Basic realm=\"foo\"")));
    assert_eq!(r.unwrap(), "Basic realm=\"foo\"");
}

#[test]
fn whole_handshake_from_probe_outcome() {
    let token = authenticate(
        401,
        Some(String::from("Basic realm=\"foo\"")),
        "Aladdin",
        "open sesame",
    )
    .unwrap();
    assert_eq!(token, "Basic QWxhZGRpbjpvcGVuIHNlc2FtZQ==");
}

#[test]
fn whole_handshake_stops_on_wrong_status() {
    let r = authenticate(
        200,
        Some(String::from("Basic realm=\"foo\"")),
        "Aladdin",
        "open sesame",
    );
    assert!(matches!(
        r,
        Err(TelemetryError::UnexpectedProbeResponse { status: 200 })
    ));
}
