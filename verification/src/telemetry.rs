use vstd::prelude::*;
use crate::errors::{Endpoint, FieldFault, TelemetryError};
use crate::json::{json_parse, parse_json, spec_get, Json};
use crate::normalize::{parse_i64, parse_size, spec_parse_int, spec_parse_size};

verus! {

/// An instant on the UTC timeline, in whole seconds since the Unix epoch.
/// Device epoch fields pass through unchecked: any value a 64-bit count of
/// seconds can hold is kept as it is.
#[derive(Clone, Copy, Debug, PartialEq, Eq, Structural)]
pub struct UtcInstant {
    pub epoch_secs: i64,
}

impl UtcInstant {
    /// Epoch-seconds normalizer: a raw integer count of seconds becomes a
    /// UTC instant, with no bounds check beyond the integer's native range.
    pub fn from_epoch_seconds(secs: i64) -> (r: UtcInstant)
        ensures
            r.epoch_secs == secs,
    {
        UtcInstant { epoch_secs: secs }
    }

    /// The instant in nanoseconds since the epoch, when that fits 64 bits.
    pub fn epoch_nanos(&self) -> (r: Option<i64>)
        ensures
            match r {
                Some(n) => n == self.epoch_secs * 1_000_000_000,
                None => self.epoch_secs * 1_000_000_000 > i64::MAX || self.epoch_secs
                    * 1_000_000_000 < i64::MIN,
            },
    {
        self.epoch_secs.checked_mul(1_000_000_000)
    }
}

/// Communication signal as the device reports it.
#[derive(Clone, Copy, Debug, PartialEq, Eq, Structural)]
pub struct CommStatus {
    pub num: i64,
    pub level: i64,
}

/// The normalized system-status record of one poll cycle. No field is
/// stringly-typed beyond what the device genuinely reports as free text
/// (its local clock and zone label, consumed by the Timezone Reconciler,
/// and the update-status word).
#[derive(Debug)]
pub struct SystemStatus {
    pub software_build: UtcInstant,
    pub current_date: String,
    pub current_time: String,
    pub timezone: String,
    pub db_size: u64,
    pub db_percent_full: i64,
    pub last_report: UtcInstant,
    pub comm: CommStatus,
    pub alerts: usize,
    pub update_status: String,
}

/// One inverter's reading. Watts are signed: a device may report negative
/// or zero values during fault or offline states.
#[derive(Debug)]
pub struct InverterReading {
    pub serial_number: String,
    pub last_report: UtcInstant,
    pub last_report_watts: i64,
    pub max_report_watts: i64,
}

/// Mathematical image of a `SystemStatus`.
#[verifier::ext_equal]
pub struct HomeView {
    pub build_secs: i64,
    pub date: Seq<char>,
    pub time: Seq<char>,
    pub tz: Seq<char>,
    pub db_size: u64,
    pub db_percent: i64,
    pub last_report_secs: i64,
    pub comm_num: i64,
    pub comm_level: i64,
    pub alerts: nat,
    pub update_status: Seq<char>,
}

impl View for SystemStatus {
    type V = HomeView;

    open spec fn view(&self) -> HomeView {
        HomeView {
            build_secs: self.software_build.epoch_secs,
            date: self.current_date@,
            time: self.current_time@,
            tz: self.timezone@,
            db_size: self.db_size,
            db_percent: self.db_percent_full,
            last_report_secs: self.last_report.epoch_secs,
            comm_num: self.comm.num,
            comm_level: self.comm.level,
            alerts: self.alerts as nat,
            update_status: self.update_status@,
        }
    }
}

/// Mathematical image of an `InverterReading`.
#[verifier::ext_equal]
pub struct InverterView {
    pub serial: Seq<char>,
    pub last_report_secs: i64,
    pub last_watts: i64,
    pub max_watts: i64,
}

impl View for InverterReading {
    type V = InverterView;

    open spec fn view(&self) -> InverterView {
        InverterView {
            serial: self.serial_number@,
            last_report_secs: self.last_report.epoch_secs,
            last_watts: self.last_report_watts,
            max_watts: self.max_report_watts,
        }
    }
}

/// A decode failure: which field, and why.
#[verifier::ext_equal]
pub struct DecodeFault {
    pub field: Seq<char>,
    pub cause: FieldFault,
}

/// The integer under `key`.
pub open spec fn want_int(j: Json, key: Seq<char>) -> Result<i64, FieldFault> {
    match spec_get(j, key) {
        None => Err(FieldFault::Missing),
        Some(v) => match v {
            Json::Int(n) => Ok(n),
            _ => Err(FieldFault::WrongType),
        },
    }
}

/// The text under `key`.
pub open spec fn want_text(j: Json, key: Seq<char>) -> Result<Seq<char>, FieldFault> {
    match spec_get(j, key) {
        None => Err(FieldFault::Missing),
        Some(v) => match v {
            Json::Str(s) => Ok(s@),
            _ => Err(FieldFault::WrongType),
        },
    }
}

/// The object under `key`.
pub open spec fn want_obj(j: Json, key: Seq<char>) -> Result<Json, FieldFault> {
    match spec_get(j, key) {
        None => Err(FieldFault::Missing),
        Some(v) => match v {
            Json::Obj(entries) => Ok(Json::Obj(entries)),
            _ => Err(FieldFault::WrongType),
        },
    }
}

/// The free-text size under `key`, normalized to a byte count.
pub open spec fn want_size(j: Json, key: Seq<char>) -> Result<u64, FieldFault> {
    match spec_get(j, key) {
        None => Err(FieldFault::Missing),
        Some(v) => match v {
            Json::Str(s) => match spec_parse_size(s@) {
                Some(b) => if 0 <= b <= u64::MAX {
                    Ok(b as u64)
                } else {
                    Err(FieldFault::InvalidSizeFormat)
                },
                None => Err(FieldFault::InvalidSizeFormat),
            },
            _ => Err(FieldFault::WrongType),
        },
    }
}

/// The string-encoded integer under `key`, normalized.
pub open spec fn want_int_text(j: Json, key: Seq<char>) -> Result<i64, FieldFault> {
    match spec_get(j, key) {
        None => Err(FieldFault::Missing),
        Some(v) => match v {
            Json::Str(s) => match spec_parse_int(s@) {
                Some(n) => if i64::MIN <= n <= i64::MAX {
                    Ok(n as i64)
                } else {
                    Err(FieldFault::InvalidIntegerFormat)
                },
                None => Err(FieldFault::InvalidIntegerFormat),
            },
            _ => Err(FieldFault::WrongType),
        },
    }
}

/// The string-encoded database percentage under `key`: normalized like any
/// string-encoded integer, and then also rejected when negative — the data
/// model has the database fill level non-negative after normalization.
pub open spec fn want_percent(j: Json, key: Seq<char>) -> Result<i64, FieldFault> {
    match want_int_text(j, key) {
        Ok(n) => if n >= 0 {
            Ok(n)
        } else {
            Err(FieldFault::InvalidIntegerFormat)
        },
        Err(c) => Err(c),
    }
}

/// The element count of the array under `key`.
pub open spec fn want_count(j: Json, key: Seq<char>) -> Result<nat, FieldFault> {
    match spec_get(j, key) {
        None => Err(FieldFault::Missing),
        Some(v) => match v {
            Json::Arr(items) => Ok(items@.len()),
            _ => Err(FieldFault::WrongType),
        },
    }
}

/// What decoding a home/system-status document yields: the normalized
/// record, or the first offending field in declaration order.
pub open spec fn spec_decode_home(j: Json) -> Result<HomeView, DecodeFault> {
    match want_int(j, "software_build_epoch"@) {
        Err(c) => Err(DecodeFault { field: "software_build_epoch"@, cause: c }),
        Ok(build) => match want_text(j, "current_date"@) {
            Err(c) => Err(DecodeFault { field: "current_date"@, cause: c }),
            Ok(date) => match want_text(j, "current_time"@) {
                Err(c) => Err(DecodeFault { field: "current_time"@, cause: c }),
                Ok(time) => match want_text(j, "timezone"@) {
                    Err(c) => Err(DecodeFault { field: "timezone"@, cause: c }),
                    Ok(tz) => match want_size(j, "db_size"@) {
                        Err(c) => Err(DecodeFault { field: "db_size"@, cause: c }),
                        Ok(db_size) => match want_percent(j, "db_percent_full"@) {
                            Err(c) => Err(DecodeFault { field: "db_percent_full"@, cause: c }),
                            Ok(db_percent) => match want_obj(j, "network"@) {
                                Err(c) => Err(DecodeFault { field: "network"@, cause: c }),
                                Ok(network) => match want_int(
                                    network,
                                    "last_enlighten_report_time"@,
                                ) {
                                    Err(c) => Err(
                                        DecodeFault {
                                            field: "network.last_enlighten_report_time"@,
                                            cause: c,
                                        },
                                    ),
                                    Ok(last_report) => match want_obj(j, "comm"@) {
                                        Err(c) => Err(DecodeFault { field: "comm"@, cause: c }),
                                        Ok(comm) => match want_int(comm, "num"@) {
                                            Err(c) => Err(
                                                DecodeFault { field: "comm.num"@, cause: c },
                                            ),
                                            Ok(num) => match want_int(comm, "level"@) {
                                                Err(c) => Err(
                                                    DecodeFault { field: "comm.level"@, cause: c },
                                                ),
                                                Ok(level) => match want_count(j, "alerts"@) {
                                                    Err(c) => Err(
                                                        DecodeFault { field: "alerts"@, cause: c },
                                                    ),
                                                    Ok(alerts) => match want_text(
                                                        j,
                                                        "update_status"@,
                                                    ) {
                                                        Err(c) => Err(
                                                            DecodeFault {
                                                                field: "update_status"@,
                                                                cause: c,
                                                            },
                                                        ),
                                                        Ok(update_status) => Ok(
                                                            HomeView {
                                                                build_secs: build,
                                                                date,
                                                                time,
                                                                tz,
                                                                db_size,
                                                                db_percent,
                                                                last_report_secs: last_report,
                                                                comm_num: num,
                                                                comm_level: level,
                                                                alerts,
                                                                update_status,
                                                            },
                                                        ),
                                                    },
                                                },
                                            },
                                        },
                                    },
                                },
                            },
                        },
                    },
                },
            },
        },
    }
}

fn get_int(j: &Json, key: &str) -> (r: Result<i64, FieldFault>)
    ensures
        r == want_int(*j, key@),
{
    match j.get(key) {
        None => Err(FieldFault::Missing),
        Some(v) => match v {
            Json::Int(n) => Ok(*n),
            _ => Err(FieldFault::WrongType),
        },
    }
}

fn get_text(j: &Json, key: &str) -> (r: Result<String, FieldFault>)
    ensures
        match r {
            Ok(s) => want_text(*j, key@) == Ok::<Seq<char>, FieldFault>(s@),
            Err(c) => want_text(*j, key@) == Err::<Seq<char>, FieldFault>(c),
        },
{
    match j.get(key) {
        None => Err(FieldFault::Missing),
        Some(v) => match v {
            Json::Str(s) => Ok(s.clone()),
            _ => Err(FieldFault::WrongType),
        },
    }
}

fn get_obj<'a>(j: &'a Json, key: &str) -> (r: Result<&'a Json, FieldFault>)
    ensures
        match r {
            Ok(o) => want_obj(*j, key@) == Ok::<Json, FieldFault>(*o),
            Err(c) => want_obj(*j, key@) == Err::<Json, FieldFault>(c),
        },
{
    match j.get(key) {
        None => Err(FieldFault::Missing),
        Some(v) => match v {
            Json::Obj(_) => Ok(v),
            _ => Err(FieldFault::WrongType),
        },
    }
}

fn get_size(j: &Json, key: &str) -> (r: Result<u64, FieldFault>)
    ensures
        r == want_size(*j, key@),
{
    match j.get(key) {
        None => Err(FieldFault::Missing),
        Some(v) => match v {
            Json::Str(s) => parse_size(s.as_str()),
            _ => Err(FieldFault::WrongType),
        },
    }
}

fn get_int_text(j: &Json, key: &str) -> (r: Result<i64, FieldFault>)
    ensures
        r == want_int_text(*j, key@),
{
    match j.get(key) {
        None => Err(FieldFault::Missing),
        Some(v) => match v {
            Json::Str(s) => parse_i64(s.as_str()),
            _ => Err(FieldFault::WrongType),
        },
    }
}

fn get_percent(j: &Json, key: &str) -> (r: Result<i64, FieldFault>)
    ensures
        r == want_percent(*j, key@),
        r matches Ok(n) ==> n >= 0,
{
    match get_int_text(j, key) {
        Ok(n) => {
            if n >= 0 {
                Ok(n)
            } else {
                Err(FieldFault::InvalidIntegerFormat)
            }
        },
        Err(c) => Err(c),
    }
}

fn get_count(j: &Json, key: &str) -> (r: Result<usize, FieldFault>)
    ensures
        match r {
            Ok(n) => want_count(*j, key@) == Ok::<nat, FieldFault>(n as nat),
            Err(c) => want_count(*j, key@) == Err::<nat, FieldFault>(c),
        },
{
    match j.get(key) {
        None => Err(FieldFault::Missing),
        Some(v) => match v {
            Json::Arr(items) => Ok(items.len()),
            _ => Err(FieldFault::WrongType),
        },
    }
}

/// Decodes a home/system-status document into a normalized record, using
/// the field normalizers for the free-text size, the string-encoded
/// percentage, the array-as-count alert field and the epoch fields.
#[verifier::rlimit(30)]
pub fn decode_home(j: &Json) -> (r: Result<SystemStatus, TelemetryError>)
    ensures
        match r {
            Ok(s) => spec_decode_home(*j) == Ok::<HomeView, DecodeFault>(s@),
            Err(e) => (e matches TelemetryError::DecodeFailed { endpoint, field, cause }
                && endpoint == Endpoint::Home && spec_decode_home(*j) == Err::<
                HomeView,
                DecodeFault,
            >(DecodeFault { field: field@, cause })),
        },
{
    let build = match get_int(j, "software_build_epoch") {
        Ok(v) => v,
        Err(c) => {
            return Err(TelemetryError::DecodeFailed {
                endpoint: Endpoint::Home,
                field: "software_build_epoch".to_owned(),
                cause: c,
            });
        },
    };
    let date = match get_text(j, "current_date") {
        Ok(v) => v,
        Err(c) => {
            return Err(TelemetryError::DecodeFailed {
                endpoint: Endpoint::Home,
                field: "current_date".to_owned(),
                cause: c,
            });
        },
    };
    let time = match get_text(j, "current_time") {
        Ok(v) => v,
        Err(c) => {
            return Err(TelemetryError::DecodeFailed {
                endpoint: Endpoint::Home,
                field: "current_time".to_owned(),
                cause: c,
            });
        },
    };
    let tz = match get_text(j, "timezone") {
        Ok(v) => v,
        Err(c) => {
            return Err(TelemetryError::DecodeFailed {
                endpoint: Endpoint::Home,
                field: "timezone".to_owned(),
                cause: c,
            });
        },
    };
    let db_size = match get_size(j, "db_size") {
        Ok(v) => v,
        Err(c) => {
            return Err(TelemetryError::DecodeFailed {
                endpoint: Endpoint::Home,
                field: "db_size".to_owned(),
                cause: c,
            });
        },
    };
    let db_percent = match get_percent(j, "db_percent_full") {
        Ok(v) => v,
        Err(c) => {
            return Err(TelemetryError::DecodeFailed {
                endpoint: Endpoint::Home,
                field: "db_percent_full".to_owned(),
                cause: c,
            });
        },
    };
    let network = match get_obj(j, "network") {
        Ok(v) => v,
        Err(c) => {
            return Err(TelemetryError::DecodeFailed {
                endpoint: Endpoint::Home,
                field: "network".to_owned(),
                cause: c,
            });
        },
    };
    let last_report = match get_int(network, "last_enlighten_report_time") {
        Ok(v) => v,
        Err(c) => {
            return Err(TelemetryError::DecodeFailed {
                endpoint: Endpoint::Home,
                field: "network.last_enlighten_report_time".to_owned(),
                cause: c,
            });
        },
    };
    let comm = match get_obj(j, "comm") {
        Ok(v) => v,
        Err(c) => {
            return Err(TelemetryError::DecodeFailed {
                endpoint: Endpoint::Home,
                field: "comm".to_owned(),
                cause: c,
            });
        },
    };
    let num = match get_int(comm, "num") {
        Ok(v) => v,
        Err(c) => {
            return Err(TelemetryError::DecodeFailed {
                endpoint: Endpoint::Home,
                field: "comm.num".to_owned(),
                cause: c,
            });
        },
    };
    let level = match get_int(comm, "level") {
        Ok(v) => v,
        Err(c) => {
            return Err(TelemetryError::DecodeFailed {
                endpoint: Endpoint::Home,
                field: "comm.level".to_owned(),
                cause: c,
            });
        },
    };
    let alerts = match get_count(j, "alerts") {
        Ok(v) => v,
        Err(c) => {
            return Err(TelemetryError::DecodeFailed {
                endpoint: Endpoint::Home,
                field: "alerts".to_owned(),
                cause: c,
            });
        },
    };
    let update_status = match get_text(j, "update_status") {
        Ok(v) => v,
        Err(c) => {
            return Err(TelemetryError::DecodeFailed {
                endpoint: Endpoint::Home,
                field: "update_status".to_owned(),
                cause: c,
            });
        },
    };
    Ok(
        SystemStatus {
            software_build: UtcInstant::from_epoch_seconds(build),
            current_date: date,
            current_time: time,
            timezone: tz,
            db_size,
            db_percent_full: db_percent,
            last_report: UtcInstant::from_epoch_seconds(last_report),
            comm: CommStatus { num, level },
            alerts,
            update_status,
        },
    )
}

/// What decoding one inverter object yields.
pub open spec fn spec_decode_inverter(j: Json) -> Result<InverterView, DecodeFault> {
    match want_text(j, "serialNumber"@) {
        Err(c) => Err(DecodeFault { field: "serialNumber"@, cause: c }),
        Ok(serial) => match want_int(j, "lastReportDate"@) {
            Err(c) => Err(DecodeFault { field: "lastReportDate"@, cause: c }),
            Ok(last) => match want_int(j, "lastReportWatts"@) {
                Err(c) => Err(DecodeFault { field: "lastReportWatts"@, cause: c }),
                Ok(lw) => match want_int(j, "maxReportWatts"@) {
                    Err(c) => Err(DecodeFault { field: "maxReportWatts"@, cause: c }),
                    Ok(mw) => Ok(
                        InverterView {
                            serial,
                            last_report_secs: last,
                            last_watts: lw,
                            max_watts: mw,
                        },
                    ),
                },
            },
        },
    }
}

/// What decoding the elements of an inverter array from index `k` on
/// yields: the readings in response order, or the first failure.
pub open spec fn spec_decode_items(items: Seq<Json>, k: int) -> Result<Seq<InverterView>, DecodeFault>
    decreases items.len() - k when 0 <= k <= items.len()
{
    if k >= items.len() {
        Ok(Seq::empty())
    } else {
        match spec_decode_inverter(items[k]) {
            Err(e) => Err(e),
            Ok(v) => match spec_decode_items(items, k + 1) {
                Err(e) => Err(e),
                Ok(rest) => Ok(seq![v] + rest),
            },
        }
    }
}

/// What decoding an inverter-list document yields. The collection carries
/// no guarantee beyond device response order: each reading stands on its
/// own.
pub open spec fn spec_decode_inverters(j: Json) -> Result<Seq<InverterView>, DecodeFault> {
    match j {
        Json::Arr(items) => spec_decode_items(items@, 0),
        _ => Err(DecodeFault { field: ""@, cause: FieldFault::WrongType }),
    }
}

/// The views of a sequence of readings.
pub open spec fn reading_views(s: Seq<InverterReading>) -> Seq<InverterView> {
    s.map_values(|r: InverterReading| r@)
}

fn decode_inverter_one(j: &Json) -> (r: Result<InverterReading, TelemetryError>)
    ensures
        match r {
            Ok(v) => spec_decode_inverter(*j) == Ok::<InverterView, DecodeFault>(v@),
            Err(e) => (e matches TelemetryError::DecodeFailed { endpoint, field, cause }
                && endpoint == Endpoint::Inverters && spec_decode_inverter(*j) == Err::<
                InverterView,
                DecodeFault,
            >(DecodeFault { field: field@, cause })),
        },
{
    let serial = match get_text(j, "serialNumber") {
        Ok(v) => v,
        Err(c) => {
            return Err(TelemetryError::DecodeFailed {
                endpoint: Endpoint::Inverters,
                field: "serialNumber".to_owned(),
                cause: c,
            });
        },
    };
    let last = match get_int(j, "lastReportDate") {
        Ok(v) => v,
        Err(c) => {
            return Err(TelemetryError::DecodeFailed {
                endpoint: Endpoint::Inverters,
                field: "lastReportDate".to_owned(),
                cause: c,
            });
        },
    };
    let lw = match get_int(j, "lastReportWatts") {
        Ok(v) => v,
        Err(c) => {
            return Err(TelemetryError::DecodeFailed {
                endpoint: Endpoint::Inverters,
                field: "lastReportWatts".to_owned(),
                cause: c,
            });
        },
    };
    let mw = match get_int(j, "maxReportWatts") {
        Ok(v) => v,
        Err(c) => {
            return Err(TelemetryError::DecodeFailed {
                endpoint: Endpoint::Inverters,
                field: "maxReportWatts".to_owned(),
                cause: c,
            });
        },
    };
    Ok(
        InverterReading {
            serial_number: serial,
            last_report: UtcInstant::from_epoch_seconds(last),
            last_report_watts: lw,
            max_report_watts: mw,
        },
    )
}

/// Decodes an inverter-list document into readings, in device response
/// order.
pub fn decode_inverters(j: &Json) -> (r: Result<Vec<InverterReading>, TelemetryError>)
    ensures
        match r {
            Ok(v) => spec_decode_inverters(*j) == Ok::<Seq<InverterView>, DecodeFault>(
                reading_views(v@),
            ),
            Err(e) => (e matches TelemetryError::DecodeFailed { endpoint, field, cause }
                && endpoint == Endpoint::Inverters && spec_decode_inverters(*j) == Err::<
                Seq<InverterView>,
                DecodeFault,
            >(DecodeFault { field: field@, cause })),
        },
{
    let items = match j {
        Json::Arr(items) => items,
        _ => {
            return Err(TelemetryError::DecodeFailed {
                endpoint: Endpoint::Inverters,
                field: "".to_owned(),
                cause: FieldFault::WrongType,
            });
        },
    };
    let n = items.len();
    let mut out: Vec<InverterReading> = Vec::new();
    let mut i: usize = 0;
    proof {
        assert(reading_views(out@) =~= Seq::<InverterView>::empty());
    }
    while i < n
        invariant
            n == items@.len(),
            i <= n,
            spec_decode_inverters(*j) == spec_decode_items(items@, 0),
            out@.len() == i,
            match spec_decode_items(items@, i as int) {
                Ok(rest) => spec_decode_items(items@, 0) == Ok::<Seq<InverterView>, DecodeFault>(
                    reading_views(out@) + rest,
                ),
                Err(e) => spec_decode_items(items@, 0) == Err::<Seq<InverterView>, DecodeFault>(e),
            },
        decreases n - i,
    {
        let ghost old_out = out@;
        match decode_inverter_one(&items[i]) {
            Ok(v) => {
                out.push(v);
                proof {
                    assert(reading_views(out@) =~= reading_views(old_out).push(out@[i as int]@));
                    match spec_decode_items(items@, i as int + 1) {
                        Ok(rest) => {
                            assert(reading_views(out@) + rest =~= reading_views(old_out) + (seq![
                                out@[i as int]@,
                            ] + rest));
                        },
                        Err(_) => {},
                    }
                }
            },
            Err(e) => {
                return Err(e);
            },
        }
        i += 1;
    }
    proof {
        assert(reading_views(out@) + Seq::<InverterView>::empty() =~= reading_views(out@));
    }
    Ok(out)
}

/// Decodes the home/system-status endpoint's body text. A body that is not
/// JSON at all is a decode failure with no field to name.
pub fn decode_home_text(body: &str) -> (r: Result<SystemStatus, TelemetryError>)
    ensures
        match json_parse(body@) {
            None => (r matches Err(TelemetryError::DecodeFailed { endpoint, field, cause })
                && endpoint == Endpoint::Home && field@ == ""@ && cause == FieldFault::Syntax),
            Some(j) => match r {
                Ok(s) => spec_decode_home(j) == Ok::<HomeView, DecodeFault>(s@),
                Err(e) => (e matches TelemetryError::DecodeFailed { endpoint, field, cause }
                    && endpoint == Endpoint::Home && spec_decode_home(j) == Err::<
                    HomeView,
                    DecodeFault,
                >(DecodeFault { field: field@, cause })),
            },
        },
{
    match parse_json(body) {
        Some(j) => decode_home(&j),
        None => Err(TelemetryError::DecodeFailed {
            endpoint: Endpoint::Home,
            field: "".to_owned(),
            cause: FieldFault::Syntax,
        }),
    }
}

/// Decodes the inverter-list endpoint's body text. A body that is not JSON
/// at all is a decode failure with no field to name.
pub fn decode_inverters_text(body: &str) -> (r: Result<Vec<InverterReading>, TelemetryError>)
    ensures
        match json_parse(body@) {
            None => (r matches Err(TelemetryError::DecodeFailed { endpoint, field, cause })
                && endpoint == Endpoint::Inverters && field@ == ""@ && cause
                == FieldFault::Syntax),
            Some(j) => match r {
                Ok(v) => spec_decode_inverters(j) == Ok::<Seq<InverterView>, DecodeFault>(
                    reading_views(v@),
                ),
                Err(e) => (e matches TelemetryError::DecodeFailed { endpoint, field, cause }
                    && endpoint == Endpoint::Inverters && spec_decode_inverters(j) == Err::<
                    Seq<InverterView>,
                    DecodeFault,
                >(DecodeFault { field: field@, cause })),
            },
        },
{
    match parse_json(body) {
        Some(j) => decode_inverters(&j),
        None => Err(TelemetryError::DecodeFailed {
            endpoint: Endpoint::Inverters,
            field: "".to_owned(),
            cause: FieldFault::Syntax,
        }),
    }
}

} // verus!
