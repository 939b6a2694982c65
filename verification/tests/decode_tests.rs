use solar_telemetry::errors::{Endpoint, FieldFault, TelemetryError};
use solar_telemetry::json::Json;
use solar_telemetry::telemetry::{decode_home, decode_home_text, decode_inverters_text};

fn home_body() -> String {
    String::from(
        "{\
         \"software_build_epoch\":1234567890,\
         \"is_nonvoy\":false,\
         \"db_size\":\"12 MB\",\
         \"db_percent_full\":\"1\",\
         \"timezone\":\"EST\",\
         \"current_date\":\"01/01/2023\",\
         \"current_time\":\"01:00\",\
         \"network\":{\
            \"web_comm\":true,\
            \"last_enlighten_report_time\":1234567890,\
            \"primary_interface\":\"wlan0\"\
         },\
         \"comm\":{\"num\":1,\"level\":1},\
         \"alerts\":[],\
         \"update_status\":\"satisfied\"}",
    )
}

#[test]
fn home_scenario_normalizes() {
    let status = decode_home_text(&home_body()).unwrap();
    assert_eq!(status.db_size, 12582912);
    assert_eq!(status.db_percent_full, 1);
    assert_eq!(status.alerts, 0);
    assert_eq!(status.comm.num, 1);
    assert_eq!(status.comm.level, 1);
    assert_eq!(status.software_build.epoch_secs, 1234567890);
    assert_eq!(status.last_report.epoch_secs, 1234567890);
    assert_eq!(status.timezone, "EST");
    assert_eq!(status.current_date, "01/01/2023");
    assert_eq!(status.current_time, "01:00");
    assert_eq!(status.update_status, "satisfied");
}

#[test]
fn home_alert_count_counts_elements() {
    let body = home_body().replace("\"alerts\":[]", "\"alerts\":[{\"a\":1},{\"b\":2}]");
    let status = decode_home_text(&body).unwrap();
    assert_eq!(status.alerts, 2);
}

#[test]
fn home_missing_field_is_named() {
    let body = home_body().replace("\"db_size\":\"12 MB\",", "");
    match decode_home_text(&body) {
        Err(TelemetryError::DecodeFailed { endpoint, field, cause }) => {
            assert!(matches!(endpoint, Endpoint::Home));
            assert_eq!(field, "db_size");
            assert!(matches!(cause, FieldFault::Missing));
        }
        other => panic!("unexpected outcome: {:?}", other),
    }
}

#[test]
fn home_wrong_type_is_named() {
    let body = home_body().replace("\"db_size\":\"12 MB\"", "\"db_size\":12");
    match decode_home_text(&body) {
        Err(TelemetryError::DecodeFailed { field, cause, .. }) => {
            assert_eq!(field, "db_size");
            assert!(matches!(cause, FieldFault::WrongType));
        }
        other => panic!("unexpected outcome: {:?}", other),
    }
}

#[test]
fn home_bad_percent_is_invalid_integer() {
    let body = home_body().replace("\"db_percent_full\":\"1\"", "\"db_percent_full\":\"x1\"");
    match decode_home_text(&body) {
        Err(TelemetryError::DecodeFailed { field, cause, .. }) => {
            assert_eq!(field, "db_percent_full");
            assert!(matches!(cause, FieldFault::InvalidIntegerFormat));
        }
        other => panic!("unexpected outcome: {:?}", other),
    }
}

#[test]
fn home_negative_percent_is_rejected() {
    let body = home_body().replace("\"db_percent_full\":\"1\"", "\"db_percent_full\":\"-5\"");
    match decode_home_text(&body) {
        Err(TelemetryError::DecodeFailed { field, cause, .. }) => {
            assert_eq!(field, "db_percent_full");
            assert!(matches!(cause, FieldFault::InvalidIntegerFormat));
        }
        other => panic!("unexpected outcome: {:?}", other),
    }
}

#[test]
fn home_nested_field_is_named_with_its_path() {
    let body = home_body().replace("\"last_enlighten_report_time\":1234567890,", "");
    match decode_home_text(&body) {
        Err(TelemetryError::DecodeFailed { field, cause, .. }) => {
            assert_eq!(field, "network.last_enlighten_report_time");
            assert!(matches!(cause, FieldFault::Missing));
        }
        other => panic!("unexpected outcome: {:?}", other),
    }
}

#[test]
fn home_non_json_body_is_syntax_failure() {
    match decode_home_text("this is not json") {
        Err(TelemetryError::DecodeFailed { field, cause, .. }) => {
            assert_eq!(field, "");
            assert!(matches!(cause, FieldFault::Syntax));
        }
        other => panic!("unexpected outcome: {:?}", other),
    }
}

#[test]
fn home_decodes_from_built_document() {
    let j = Json::Obj(vec![
        (String::from("software_build_epoch"), Json::Int(5)),
        (String::from("current_date"), Json::Str(String::from("01/01/2023"))),
        (String::from("current_time"), Json::Str(String::from("01:00"))),
        (String::from("timezone"), Json::Str(String::from("EST"))),
        (String::from("db_size"), Json::Str(String::from("2 KB"))),
        (String::from("db_percent_full"), Json::Str(String::from("3"))),
        (
            String::from("network"),
            Json::Obj(vec![(
                String::from("last_enlighten_report_time"),
                Json::Int(7),
            )]),
        ),
        (
            String::from("comm"),
            Json::Obj(vec![
                (String::from("num"), Json::Int(4)),
                (String::from("level"), Json::Int(5)),
            ]),
        ),
        (String::from("alerts"), Json::Arr(vec![Json::Null])),
        (String::from("update_status"), Json::Str(String::from("ok"))),
    ]);
    let status = decode_home(&j).unwrap();
    assert_eq!(status.db_size, 2048);
    assert_eq!(status.db_percent_full, 3);
    assert_eq!(status.alerts, 1);
    assert_eq!(status.comm.num, 4);
    assert_eq!(status.comm.level, 5);
}

#[test]
fn inverter_scenario_decodes() {
    let body = "[{\"serialNumber\":\"123456789012\",\"lastReportDate\":1688000000,\
                 \"lastReportWatts\":123,\"maxReportWatts\":234}]";
    let readings = decode_inverters_text(body).unwrap();
    assert_eq!(readings.len(), 1);
    assert_eq!(readings[0].serial_number, "123456789012");
    assert_eq!(readings[0].last_report.epoch_secs, 1688000000);
    assert_eq!(
        readings[0].last_report.epoch_nanos(),
        Some(1_688_000_000_000_000_000)
    );
    assert_eq!(readings[0].last_report_watts, 123);
    assert_eq!(readings[0].max_report_watts, 234);
}

#[test]
fn inverter_list_keeps_response_order() {
    let body = "[{\"serialNumber\":\"A\",\"lastReportDate\":1,\"lastReportWatts\":-5,\
                 \"maxReportWatts\":0},\
                {\"serialNumber\":\"B\",\"lastReportDate\":2,\"lastReportWatts\":10,\
                 \"maxReportWatts\":20}]";
    let readings = decode_inverters_text(body).unwrap();
    assert_eq!(readings.len(), 2);
    assert_eq!(readings[0].serial_number, "A");
    assert_eq!(readings[0].last_report_watts, -5);
    assert_eq!(readings[1].serial_number, "B");
    assert_eq!(readings[1].max_report_watts, 20);
}

#[test]
fn inverter_empty_list_is_empty() {
    let readings = decode_inverters_text("[]").unwrap();
    assert_eq!(readings.len(), 0);
}

#[test]
fn inverter_bad_element_is_named() {
    let body = "[{\"serialNumber\":\"A\",\"lastReportDate\":1,\"lastReportWatts\":-5,\
                 \"maxReportWatts\":0},\
                {\"serialNumber\":\"B\",\"lastReportDate\":2,\"lastReportWatts\":10}]";
    match decode_inverters_text(body) {
        Err(TelemetryError::DecodeFailed { endpoint, field, cause }) => {
            assert!(matches!(endpoint, Endpoint::Inverters));
            assert_eq!(field, "maxReportWatts");
            assert!(matches!(cause, FieldFault::Missing));
        }
        other => panic!("unexpected outcome: {:?}", other),
    }
}

#[test]
fn inverter_non_array_body_is_wrong_type() {
    match decode_inverters_text("{\"0\":{}}") {
        Err(TelemetryError::DecodeFailed { field, cause, .. }) => {
            assert_eq!(field, "");
            assert!(matches!(cause, FieldFault::WrongType));
        }
        other => panic!("unexpected outcome: {:?}", other),
    }
}

#[test]
fn inverter_fractional_watts_is_wrong_type() {
    let body = "[{\"serialNumber\":\"A\",\"lastReportDate\":1,\"lastReportWatts\":1.5,\
                 \"maxReportWatts\":0}]";
    match decode_inverters_text(body) {
        Err(TelemetryError::DecodeFailed { field, cause, .. }) => {
            assert_eq!(field, "lastReportWatts");
            assert!(matches!(cause, FieldFault::WrongType));
        }
        other => panic!("unexpected outcome: {:?}", other),
    }
}
