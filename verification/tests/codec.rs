use antivirus_client::codec::{
    decode_authentication, decode_settings, decode_status, decode_update, find_bool, read_bool,
    read_text, read_unsigned, read_word,
};
use antivirus_client::json::put;
use antivirus_client::protocol::{Settings, PIPE_NAME};
use antivirus_client::request::{settings_document, Request};
use antivirus_client::service_client::ServiceClientError;
use antivirus_client::wire::{encode, receive, render};

fn parse(text: &str) -> serde_json::Value {
    serde_json::from_str(text).unwrap()
}

#[test]
fn pipe_name_is_the_well_known_endpoint() {
    assert_eq!(PIPE_NAME, r"\\.\pipe\AntivirusService");
}

#[test]
fn readers_fall_back_to_their_defaults() {
    let doc = parse("{\"flag\":true,\"count\":7,\"name\":\"n\",\"wide\":8589934594}");
    assert_eq!(find_bool(&doc, "flag"), Some(true));
    assert_eq!(find_bool(&doc, "count"), None);
    assert_eq!(find_bool(&doc, "absent"), None);
    assert!(read_bool(&doc, "flag", false));
    assert!(read_bool(&doc, "absent", true));
    assert!(!read_bool(&doc, "name", false));
    assert_eq!(read_unsigned(&doc, "count", 1), 7);
    assert_eq!(read_unsigned(&doc, "flag", 1), 1);
    assert_eq!(read_unsigned(&doc, "absent", 9), 9);
    assert_eq!(read_word(&doc, "count", 0), 7);
    assert_eq!(read_word(&doc, "wide", 0), 0);
    assert_eq!(read_word(&doc, "wide", 6), 6);
    assert_eq!(read_word(&doc, "flag", 8), 8);
    assert_eq!(read_word(&doc, "absent", 3), 3);
    assert_eq!(read_text(&doc, "name", "d"), "n");
    assert_eq!(read_text(&doc, "count", "d"), "d");
    assert_eq!(read_text(&doc, "absent", ""), "");
}

#[test]
fn readers_find_nothing_in_what_is_no_object() {
    let doc = parse("[1,2,3]");
    assert_eq!(find_bool(&doc, "0"), None);
    assert_eq!(read_unsigned(&doc, "0", 5), 5);
    assert_eq!(read_text(&parse("\"text\""), "text", "none"), "none");
}

#[test]
fn decoders_read_documents() {
    assert_eq!(decode_authentication(&parse("{\"result\":true}")), Ok(true));
    assert_eq!(
        decode_authentication(&parse("{\"message\":\"no\"}")),
        Err(ServiceClientError::ServiceError("no".to_string()))
    );
    assert!(decode_update(&parse("{\"success\":true}")));
    assert!(!decode_update(&parse("{\"success\":null}")));
    let status = decode_status(&parse("{\"database_version\":11,\"auto_scan_enabled\":true}"));
    assert_eq!(status.database_version, 11);
    assert!(status.auto_scan_enabled);
    assert!(!status.is_running);
    let settings = decode_settings(&parse("{\"settings\":{\"scan_time\":7,\"auto_update\":false}}"))
        .unwrap();
    assert_eq!(settings.scan_time, 7);
    assert!(!settings.auto_update);
    assert!(settings.real_time_protection);
    assert_eq!(settings.scan_schedule, 0);
    assert_eq!(
        decode_settings(&parse("{\"settings\":null}")),
        Err(ServiceClientError::ServiceError("No settings in response".to_string()))
    );
    assert_eq!(decode_status(&parse("{\"database_version\":4294967301}")).database_version, 0);
}

#[test]
fn every_request_has_its_tag() {
    let settings = Settings {
        real_time_protection: true,
        scan_on_access: true,
        scan_archives: false,
        auto_update: true,
        scan_schedule: 1,
        scan_time: 2,
        quarantine_path: "q".to_string(),
        exclusion_paths: String::new(),
    };
    let cases = vec![
        (Request::AuthRequest { username: "u".into(), password: "p".into() }, "auth_request", 3),
        (Request::LicenseCheck { username: "u".into() }, "license_check", 2),
        (
            Request::ActivateRequest { username: "u".into(), activation_key: "k".into() },
            "activate_request",
            3,
        ),
        (
            Request::ScanRequest { scan_type: "full".into(), path: "/".into(), deep_scan: false },
            "scan_request",
            4,
        ),
        (Request::StatusRequest, "status_request", 1),
        (Request::SettingsGet, "settings_get", 1),
        (Request::SettingsSet { settings }, "settings_set", 2),
    ];
    for (request, tag, fields) in cases {
        assert_eq!(request.tag(), tag);
        let doc = request.document();
        assert_eq!(doc.as_object().unwrap().len(), fields);
        assert_eq!(doc["type"].as_str(), Some(tag));
        let bytes = encode(&request).unwrap();
        assert_eq!(serde_json::from_slice::<serde_json::Value>(&bytes).unwrap(), doc);
    }
}

#[test]
fn encoded_request_is_one_bare_document() {
    let bytes = encode(&Request::LicenseCheck { username: "zo\u{eb}".to_string() }).unwrap();
    assert_eq!(bytes, "{\"type\":\"license_check\",\"username\":\"zo\u{eb}\"}".as_bytes().to_vec());
}

#[test]
fn settings_document_has_the_eight_fields() {
    let settings = Settings {
        real_time_protection: false,
        scan_on_access: false,
        scan_archives: true,
        auto_update: false,
        scan_schedule: 2,
        scan_time: 0,
        quarantine_path: "C:\\Q".to_string(),
        exclusion_paths: "C:\\a;C:\\b".to_string(),
    };
    let doc = settings_document(&settings);
    assert_eq!(
        doc,
        parse(
            "{\"real_time_protection\":false,\"scan_on_access\":false,\"scan_archives\":true,\"auto_update\":false,\"scan_schedule\":2,\"scan_time\":0,\"quarantine_path\":\"C:\\\\Q\",\"exclusion_paths\":\"C:\\\\a;C:\\\\b\"}"
        )
    );
}

#[test]
fn put_appends_an_entry() {
    let mut entries: Vec<(String, serde_json::Value)> = Vec::new();
    put(&mut entries, "a", serde_json::Value::from(1u64));
    put(&mut entries, "b", serde_json::Value::from(true));
    assert_eq!(entries.len(), 2);
    assert_eq!(entries[0].0, "a");
    assert_eq!(entries[1].0, "b");
    assert_eq!(entries[1].1, serde_json::Value::Bool(true));
}

#[test]
fn render_and_receive_are_inverse_on_documents() {
    let doc = parse("{\"a\":[1,2,{\"b\":null}],\"c\":\"\u{e9}\"}");
    let bytes = render(&doc).unwrap();
    assert_eq!(bytes, "{\"a\":[1,2,{\"b\":null}],\"c\":\"\u{e9}\"}".as_bytes().to_vec());
    assert_eq!(receive(Ok(bytes)), Ok(doc));
}

#[test]
fn receive_classifies_failures() {
    assert_eq!(
        receive(Err("timed out".to_string())),
        Err(ServiceClientError::CommunicationError("timed out".to_string()))
    );
    assert!(matches!(
        receive(Ok(vec![0xc3, 0x28])),
        Err(ServiceClientError::CommunicationError(_))
    ));
    assert!(matches!(
        receive(Ok(b"not json".to_vec())),
        Err(ServiceClientError::SerializationError(_))
    ));
}

#[test]
fn settings_validity_is_the_two_ranges() {
    let mut settings = Settings {
        real_time_protection: true,
        scan_on_access: true,
        scan_archives: false,
        auto_update: true,
        scan_schedule: 2,
        scan_time: 23,
        quarantine_path: String::new(),
        exclusion_paths: String::new(),
    };
    assert!(settings.is_valid());
    settings.scan_schedule = 3;
    assert!(!settings.is_valid());
    settings.scan_schedule = 0;
    settings.scan_time = 24;
    assert!(!settings.is_valid());
    settings.scan_time = 0;
    assert!(settings.is_valid());
}
