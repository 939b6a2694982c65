use vstd::prelude::*;
use crate::errors::TelemetryError;
use crate::text::{eq_ignore_case, opt_string_view, str_eq_ignore_case};

verus! {

/// The authentication schemes the responder implements, plus a marker for a
/// well-formed challenge naming any other scheme. The marker is what error
/// reporting goes by; the response computation reads the challenge text
/// itself, so a header whose digest challenge is unusable but whose basic
/// challenge is sound still yields a basic token under a `Digest` marker.
#[derive(Clone, Copy, Debug, PartialEq, Eq, Structural)]
pub enum Scheme {
    Digest,
    Basic,
    Unknown,
}

/// A decoded server challenge: the scheme the responder will follow, and the
/// challenge text it was derived from, kept verbatim for the response
/// computation.
#[derive(Debug)]
pub struct Challenge {
    pub scheme: Scheme,
    pub header: String,
}

/// The request parameters every token is bound to: the handshake uses one
/// probe request and the token is then reused verbatim.
pub const HANDSHAKE_URI: &'static str = "*";

pub const HANDSHAKE_METHOD: &'static str = "GET";

/// The fixed client nonce. The responder is specified as a pure function of
/// challenge and credentials, so the client nonce cannot be drawn at random;
/// it adds nothing against this device, which never sees a second handshake.
pub const HANDSHAKE_CNONCE: &'static str = "f8d2b1a4c7e09635";

/// What `http_auth::parse_challenges` yields on a header text: the scheme
/// name of each challenge in order, or nothing on a parse error.
pub uninterp spec fn parsed_schemes(h: Seq<char>) -> Option<Seq<Seq<char>>>;

pub open spec fn strings_view(v: Vec<String>) -> Seq<Seq<char>> {
    v@.map_values(|s: String| s@)
}

/// Relies on `http_auth::parse_challenges`: parsing the challenge list is a
/// function of the header text alone; each parsed challenge carries its
/// scheme name.
#[verifier::external_body]
fn challenge_schemes(header: &str) -> (r: Option<Vec<String>>)
    ensures
        match r {
            Some(v) => parsed_schemes(header@) == Some(strings_view(v)),
            None => parsed_schemes(header@) is None,
        },
{
    match http_auth::parse_challenges(header) {
        Ok(cs) => Some(cs.iter().map(|c| c.scheme.to_string()).collect()),
        Err(_) => None,
    }
}

/// The scheme a list of challenges selects: digest-style wherever offered
/// (it is the device family's default), otherwise basic-style, otherwise
/// none that the responder implements.
pub open spec fn scheme_choice(schemes: Seq<Seq<char>>) -> Scheme {
    if exists|i: int| 0 <= i < schemes.len() && eq_ignore_case(schemes[i], "Digest"@) {
        Scheme::Digest
    } else if exists|i: int| 0 <= i < schemes.len() && eq_ignore_case(schemes[i], "Basic"@) {
        Scheme::Basic
    } else {
        Scheme::Unknown
    }
}

/// Challenge Decoder: parses a `WWW-Authenticate` header into a structured
/// challenge, `MalformedChallenge` when the text is unparseable or holds no
/// challenge at all. A pure parse step: no network is touched.
pub fn decode_challenge(header: &str) -> (r: Result<Challenge, TelemetryError>)
    ensures
        match r {
            Ok(c) => parsed_schemes(header@) matches Some(ss) && ss.len() > 0
                && c.scheme == scheme_choice(ss) && c.header@ == header@,
            Err(e) => e is MalformedChallenge && match parsed_schemes(header@) {
                Some(ss) => ss.len() == 0,
                None => true,
            },
        },
{
    let schemes = match challenge_schemes(header) {
        Some(v) => v,
        None => {
            return Err(TelemetryError::MalformedChallenge);
        },
    };
    let n = schemes.len();
    if n == 0 {
        return Err(TelemetryError::MalformedChallenge);
    }
    let ghost ss = strings_view(schemes);
    let mut saw_basic = false;
    let mut i: usize = 0;
    while i < n
        invariant
            n == ss.len(),
            ss == strings_view(schemes),
            parsed_schemes(header@) == Some(ss),
            n > 0,
            i <= n,
            forall|j: int| 0 <= j < i ==> !eq_ignore_case(ss[j], "Digest"@),
            saw_basic == exists|j: int| 0 <= j < i && eq_ignore_case(ss[j], "Basic"@),
        decreases n - i,
    {
        proof {
            assert(ss[i as int] == schemes@[i as int]@);
        }
        if str_eq_ignore_case(schemes[i].as_str(), "Digest") {
            return Ok(Challenge { scheme: Scheme::Digest, header: header.to_owned() });
        }
        if str_eq_ignore_case(schemes[i].as_str(), "Basic") {
            saw_basic = true;
        }
        i += 1;
    }
    if saw_basic {
        Ok(Challenge { scheme: Scheme::Basic, header: header.to_owned() })
    } else {
        Ok(Challenge { scheme: Scheme::Unknown, header: header.to_owned() })
    }
}

/// What the challenge-response computation yields: the authorization header
/// value, a function of the challenge text, the credentials, the request
/// parameters — method, URI and body, all of which a digest construction may
/// hash — and the client nonce alone; or nothing, when the selected
/// challenge is missing a parameter or names an algorithm outside the
/// supported set.
pub uninterp spec fn auth_token_of(
    header: Seq<char>,
    username: Seq<char>,
    password: Seq<char>,
    uri: Seq<char>,
    method: Seq<char>,
    body: Seq<u8>,
    cnonce: Seq<char>,
) -> Option<Seq<char>>;

/// Relies on `http_auth::PasswordClient::try_from(&str)`,
/// `BasicClient::respond` and `DigestClient::respond_with_testing_cnonce`:
/// with the client nonce supplied by the caller, the authorization value is
/// a function of the arguments alone. The client is built and consumed in
/// one call so its nonce counter is always fresh; the request body is among
/// the named result's arguments because a digest construction may hash it.
#[verifier::external_body]
fn respond_raw<'a>(
    header: &str,
    username: &str,
    password: &str,
    uri: &str,
    method: &str,
    body: &'a [u8],
    cnonce: &str,
) -> (r: Option<String>)
    ensures
        opt_string_view(r) == auth_token_of(
            header@,
            username@,
            password@,
            uri@,
            method@,
            body@,
            cnonce@,
        ),
{
    let mut client = match http_auth::PasswordClient::try_from(header) {
        Ok(c) => c,
        Err(_) => return None,
    };
    match &mut client {
        http_auth::PasswordClient::Basic(c) => Some(c.respond(username, password)),
        http_auth::PasswordClient::Digest(c) => c
            .respond_with_testing_cnonce(
                &http_auth::PasswordParams { username, password, uri, method, body: Some(body) },
                cnonce,
            )
            .ok(),
        _ => None,
    }
}

/// The responder's result as a function of its inputs: a token whenever the
/// scheme is implemented and the challenge-response computation goes
/// through.
pub open spec fn credential_response(
    scheme: Scheme,
    header: Seq<char>,
    username: Seq<char>,
    password: Seq<char>,
) -> Result<Seq<char>, TelemetryError> {
    if scheme is Unknown {
        Err(TelemetryError::UnsupportedScheme)
    } else {
        match auth_token_of(
            header,
            username,
            password,
            "*"@,
            "GET"@,
            Seq::<u8>::empty(),
            "f8d2b1a4c7e09635"@,
        ) {
            Some(t) => Ok(t),
            None => Err(TelemetryError::MalformedChallenge),
        }
    }
}

/// Credential Responder: computes the reusable authorization header value
/// for a decoded challenge. Deterministic: the result is a function of the
/// challenge and the credentials alone. Fails with `UnsupportedScheme` when
/// the challenge names no implemented scheme, and performs no network call
/// in any case.
pub fn respond_challenge(c: &Challenge, username: &str, password: &str) -> (r: Result<
    String,
    TelemetryError,
>)
    ensures
        match r {
            Ok(t) => credential_response(c.scheme, c.header@, username@, password@)
                == Ok::<Seq<char>, TelemetryError>(t@),
            Err(e) => credential_response(c.scheme, c.header@, username@, password@)
                == Err::<Seq<char>, TelemetryError>(e),
        },
{
    if let Scheme::Unknown = c.scheme {
        return Err(TelemetryError::UnsupportedScheme);
    }
    let body: Vec<u8> = Vec::new();
    match respond_raw(
        c.header.as_str(),
        username,
        password,
        HANDSHAKE_URI,
        HANDSHAKE_METHOD,
        body.as_slice(),
        HANDSHAKE_CNONCE,
    ) {
        Some(t) => {
            proof {
                reveal_strlit("*");
                reveal_strlit("GET");
                reveal_strlit("f8d2b1a4c7e09635");
            }
            Ok(t)
        },
        None => {
            proof {
                reveal_strlit("*");
                reveal_strlit("GET");
                reveal_strlit("f8d2b1a4c7e09635");
            }
            Err(TelemetryError::MalformedChallenge)
        },
    }
}

/// Law: the Credential Responder is deterministic. Two computations from
/// equal challenges and equal credentials yield the same token or the same
/// failure.
pub proof fn lemma_responder_deterministic(
    s1: Scheme,
    h1: Seq<char>,
    u1: Seq<char>,
    p1: Seq<char>,
    s2: Scheme,
    h2: Seq<char>,
    u2: Seq<char>,
    p2: Seq<char>,
)
    requires
        s1 == s2,
        h1 == h2,
        u1 == u2,
        p1 == p2,
    ensures
        credential_response(s1, h1, u1, p1) == credential_response(s2, h2, u2, p2),
{
}

/// Checks the unauthenticated probe's outcome: only an HTTP 401 carrying a
/// challenge header may answer it. Any other status is fatal, and a 401
/// without the header is a malformed challenge.
pub fn check_probe(status: u16, challenge_header: Option<String>) -> (r: Result<
    String,
    TelemetryError,
>)
    ensures
        match r {
            Ok(h) => status == 401 && challenge_header == Some(h),
            Err(e) => match e {
                TelemetryError::UnexpectedProbeResponse { status: st } => st == status
                    && status != 401,
                TelemetryError::MalformedChallenge => status == 401
                    && challenge_header is None,
                _ => false,
            },
        },
{
    if status != 401 {
        return Err(TelemetryError::UnexpectedProbeResponse { status });
    }
    match challenge_header {
        Some(h) => Ok(h),
        None => Err(TelemetryError::MalformedChallenge),
    }
}

/// The whole handshake computation, from the probe's outcome to the
/// reusable credential token: decode the challenge and respond to it.
pub fn authenticate(
    status: u16,
    challenge_header: Option<String>,
    username: &str,
    password: &str,
) -> (r: Result<String, TelemetryError>)
    ensures
        status != 401 ==> (r matches Err(TelemetryError::UnexpectedProbeResponse { status: st })
            && st == status),
        status == 401 && challenge_header is None ==> (r matches Err(e)
            && e is MalformedChallenge),
        status == 401 ==> (challenge_header matches Some(h) ==> match parsed_schemes(h@) {
            None => r matches Err(e) && e is MalformedChallenge,
            Some(ss) => if ss.len() == 0 {
                r matches Err(e) && e is MalformedChallenge
            } else {
                match r {
                    Ok(t) => credential_response(scheme_choice(ss), h@, username@, password@)
                        == Ok::<Seq<char>, TelemetryError>(t@),
                    Err(e) => credential_response(scheme_choice(ss), h@, username@, password@)
                        == Err::<Seq<char>, TelemetryError>(e),
                }
            },
        }),
{
    let header = match check_probe(status, challenge_header) {
        Ok(h) => h,
        Err(e) => {
            return Err(e);
        },
    };
    let challenge = match decode_challenge(header.as_str()) {
        Ok(c) => c,
        Err(e) => {
            return Err(e);
        },
    };
    respond_challenge(&challenge, username, password)
}

} // verus!
