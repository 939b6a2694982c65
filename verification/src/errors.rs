use vstd::prelude::*;

verus! {

/// The two telemetry endpoints and the authentication probe.
#[derive(Clone, Copy, Debug, PartialEq, Eq, Structural)]
pub enum Endpoint {
    Probe,
    Home,
    Inverters,
}

/// Why a single JSON field could not be normalized.
#[derive(Clone, Copy, Debug, PartialEq, Eq, Structural)]
pub enum FieldFault {
    /// The response body is not JSON at all.
    Syntax,
    /// A required field is absent.
    Missing,
    /// A field holds a JSON value of the wrong shape.
    WrongType,
    /// A free-text size field has a malformed numeric portion,
    /// or the byte count does not fit the result type.
    InvalidSizeFormat,
    /// A string-encoded integer field holds non-numeric content,
    /// or a value outside the result type's range.
    InvalidIntegerFormat,
}

/// Every failure the collector can surface. All are terminal: nothing is
/// retried, and the first error aborts the poll cycle.
#[derive(Clone, Debug)]
pub enum TelemetryError {
    /// The unauthenticated probe got something other than a 401 challenge.
    UnexpectedProbeResponse { status: u16 },
    /// The challenge header is absent, empty or unparseable.
    MalformedChallenge,
    /// The challenge names no authentication scheme we implement.
    UnsupportedScheme,
    /// Transport failure while fetching an endpoint.
    FetchFailed { endpoint: Endpoint, cause: String },
    /// A response body did not decode into the expected record.
    DecodeFailed { endpoint: Endpoint, field: String, cause: FieldFault },
    /// No canonical timezone currently has the device-reported abbreviation.
    TimezoneNotResolved,
    /// The device-reported local date/time strings did not parse in the
    /// resolved zone.
    InvalidDeviceClockFormat,
}

} // verus!
