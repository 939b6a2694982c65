use vstd::prelude::*;
use crate::errors::TelemetryError;
use crate::text::{opt_string_view, str_eq};

verus! {

/// What the canonical timezone database shows for its `i`-th zone at a given
/// instant: the zone's current offset abbreviation, or nothing past the end
/// of the zone list.
pub uninterp spec fn tz_abbrev_at(i: int, now_nanos: i64) -> Option<Seq<char>>;

/// What interpreting a local wall-clock text in the `i`-th canonical zone
/// under a given format yields: the instant as epoch nanoseconds, or nothing
/// when the text does not parse, denotes no unambiguous local time in that
/// zone, or falls outside the nanosecond range.
pub uninterp spec fn tz_local_nanos(i: int, text: Seq<char>, fmt: Seq<char>) -> Option<i64>;

/// Relies on `chrono_tz::TZ_VARIANTS`: the canonical zone list is fixed at
/// build time, so every zone index below its length carries an abbreviation
/// at every instant, and no index at or above it does.
#[verifier::external_body]
fn zone_count() -> (n: usize)
    ensures
        forall|i: int, t: i64| #![auto] tz_abbrev_at(i, t) is Some <==> 0 <= i < n,
{
    chrono_tz::TZ_VARIANTS.len()
}

/// Relies on `chrono_tz::TZ_VARIANTS`, `chrono::TimeZone::timestamp_nanos`
/// and `chrono_tz::OffsetName::abbreviation`: a zone's offset abbreviation
/// at an instant is a function of the zone and the instant alone, the
/// timezone database being compiled in.
#[verifier::external_body]
fn zone_abbrev(i: usize, now_nanos: i64) -> (r: Option<String>)
    ensures
        opt_string_view(r) == tz_abbrev_at(i as int, now_nanos),
{
    let tz = chrono_tz::TZ_VARIANTS.get(i)?;
    let at_now = chrono::TimeZone::timestamp_nanos(tz, now_nanos);
    Some(chrono_tz::OffsetName::abbreviation(at_now.offset()).to_string())
}

/// Relies on `chrono_tz::TZ_VARIANTS`, `chrono::NaiveDateTime::parse_from_str`,
/// `NaiveDateTime::and_local_timezone` and `DateTime::timestamp_nanos_opt`:
/// what a wall-clock text denotes in a zone is a function of the zone, the
/// text and the format alone.
#[verifier::external_body]
fn zone_datetime_nanos(i: usize, text: &str, fmt: &str) -> (r: Option<i64>)
    ensures
        r == tz_local_nanos(i as int, text@, fmt@),
{
    let tz = *chrono_tz::TZ_VARIANTS.get(i)?;
    let naive = chrono::NaiveDateTime::parse_from_str(text, fmt).ok()?;
    let local = naive.and_local_timezone(tz).single()?;
    local.timestamp_nanos_opt()
}

/// Zone `i` currently carries exactly the device-reported abbreviation.
pub open spec fn zone_matches(i: int, label: Seq<char>, now_nanos: i64) -> bool {
    tz_abbrev_at(i, now_nanos) == Some(label)
}

/// Selects the canonical timezone whose offset abbreviation, observed at the
/// collector's instant `now_nanos`, equals the device-reported label: the
/// first zone in canonical order wins. Fails with `TimezoneNotResolved` when
/// no zone currently carries the label.
pub fn resolve_zone(label: &str, now_nanos: i64) -> (r: Result<usize, TelemetryError>)
    ensures
        match r {
            Ok(i) => zone_matches(i as int, label@, now_nanos) && (forall|j: int|
                0 <= j < i ==> !zone_matches(j, label@, now_nanos)),
            Err(e) => e is TimezoneNotResolved && (forall|j: int|
                !zone_matches(j, label@, now_nanos)),
        },
{
    let n = zone_count();
    let mut i: usize = 0;
    while i < n
        invariant
            forall|k: int, t: i64| #![auto] tz_abbrev_at(k, t) is Some <==> 0 <= k < n,
            i <= n,
            forall|j: int| 0 <= j < i ==> !zone_matches(j, label@, now_nanos),
        decreases n - i,
    {
        match zone_abbrev(i, now_nanos) {
            Some(a) => {
                if str_eq(a.as_str(), label) {
                    return Ok(i);
                }
            },
            None => {
                proof {
                    assert(tz_abbrev_at(i as int, now_nanos) is Some);
                    assert(false);
                }
            },
        }
        i += 1;
    }
    Err(TelemetryError::TimezoneNotResolved)
}

/// The wall-clock format the device reports its local date and time in:
/// month/day/year and a 24-hour clock.
pub const DEVICE_CLOCK_FORMAT: &'static str = "%m/%d/%Y %H:%M";

/// A device's local clock reading, reconciled against the canonical
/// timezone database.
#[derive(Clone, Copy, Debug, PartialEq, Eq, Structural)]
pub struct DeviceClock {
    /// Index of the selected zone in canonical order.
    pub zone_index: usize,
    /// The device's local date and time read in that zone, as epoch
    /// nanoseconds.
    pub local_nanos: i64,
}

/// Timezone Reconciler: selects the first canonical zone whose current
/// abbreviation equals the device-reported label, then reads the
/// device-reported local date and time in that zone. Fails with
/// `TimezoneNotResolved` when no zone matches, and with
/// `InvalidDeviceClockFormat` when the date/time strings do not denote an
/// unambiguous local instant there.
pub fn reconcile_device_clock(
    label: &str,
    date: &str,
    time: &str,
    now_nanos: i64,
) -> (r: Result<DeviceClock, TelemetryError>)
    ensures
        match r {
            Ok(clock) => zone_matches(clock.zone_index as int, label@, now_nanos) && (forall|
                j: int,
            |
                0 <= j < clock.zone_index ==> !zone_matches(j, label@, now_nanos))
                && tz_local_nanos(
                clock.zone_index as int,
                date@ + " "@ + time@,
                "%m/%d/%Y %H:%M"@,
            ) == Some(clock.local_nanos),
            Err(e) => {
                ||| (e is TimezoneNotResolved && forall|j: int|
                    !zone_matches(j, label@, now_nanos))
                ||| (e is InvalidDeviceClockFormat && exists|i: int|
                    {
                        &&& zone_matches(i, label@, now_nanos)
                        &&& forall|j: int| 0 <= j < i ==> !zone_matches(j, label@, now_nanos)
                        &&& tz_local_nanos(i, date@ + " "@ + time@, "%m/%d/%Y %H:%M"@) is None
                    })
            },
        },
{
    let zone_index = match resolve_zone(label, now_nanos) {
        Ok(i) => i,
        Err(e) => {
            return Err(e);
        },
    };
    let mut text = date.to_owned();
    text.append(" ");
    text.append(time);
    match zone_datetime_nanos(zone_index, text.as_str(), DEVICE_CLOCK_FORMAT) {
        Some(nanos) => Ok(DeviceClock { zone_index, local_nanos: nanos }),
        None => {
            proof {
                assert(zone_matches(zone_index as int, label@, now_nanos));
            }
            Err(TelemetryError::InvalidDeviceClockFormat)
        },
    }
}

} // verus!
