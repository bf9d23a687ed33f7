use antivirus_client::protocol::{ServiceStatus, Settings, PIPE_NAME};
use antivirus_client::request::Request;
use antivirus_client::service_client::{ServiceClient, ServiceClientError};
use antivirus_client::wire::{filled, REPLY_CAPACITY};

/// A service that answers each request by its tag and keeps the settings
/// that it was last sent.
struct TestService {
    settings: Option<serde_json::Value>,
    password: String,
    seen: Vec<String>,
}

impl TestService {
    fn new() -> TestService {
        TestService { settings: None, password: "hunter2".to_string(), seen: Vec::new() }
    }

    fn handle(&mut self, request: Vec<u8>) -> Result<Vec<u8>, String> {
        let doc: serde_json::Value = serde_json::from_slice(&request).map_err(|e| e.to_string())?;
        let tag = doc.get("type").and_then(|v| v.as_str()).unwrap_or("").to_string();
        self.seen.push(tag.clone());
        let mut answer = serde_json::Map::new();
        match tag.as_str() {
            "auth_request" => {
                let good = doc.get("password").and_then(|v| v.as_str()) == Some(&self.password);
                answer.insert("result".to_string(), serde_json::Value::Bool(good));
            }
            "settings_set" => {
                self.settings = doc.get("settings").cloned();
                answer.insert("success".to_string(), serde_json::Value::Bool(true));
            }
            "settings_get" => {
                if let Some(settings) = &self.settings {
                    answer.insert("settings".to_string(), settings.clone());
                }
            }
            "scan_request" => {
                let kind = doc.get("scan_type").and_then(|v| v.as_str()).unwrap_or("");
                answer.insert("scan_id".to_string(), serde_json::Value::from(format!("{}-1", kind)));
            }
            "license_check" => {
                answer.insert("is_valid".to_string(), serde_json::Value::Bool(true));
                answer.insert("expires_at".to_string(), serde_json::Value::from(99u64));
                answer.insert("license_type".to_string(), serde_json::Value::from("trial"));
            }
            "activate_request" => {
                let key = doc.get("activation_key").and_then(|v| v.as_str()).unwrap_or("");
                answer.insert("activated".to_string(), serde_json::Value::Bool(key == "KEY"));
                answer.insert("message".to_string(), serde_json::Value::from("done"));
            }
            _ => return Err(format!("unknown request {}", tag)),
        }
        serde_json::to_vec(&serde_json::Value::Object(answer)).map_err(|e| e.to_string())
    }
}

fn client() -> ServiceClient {
    ServiceClient::new(|_| true).unwrap()
}

fn settings(exclusion_paths: &str) -> Settings {
    Settings {
        real_time_protection: true,
        scan_on_access: false,
        scan_archives: true,
        auto_update: false,
        scan_schedule: 1,
        scan_time: 4,
        quarantine_path: "D:\\q".to_string(),
        exclusion_paths: exclusion_paths.to_string(),
    }
}

#[test]
fn status_exchange_with_a_full_reply() {
    let status = client().get_status(|request| {
        assert_eq!(request, b"{\"type\":\"status_request\"}".to_vec());
        Ok(b"{\"is_running\":true,\"real_time_protection\":true,\"auto_scan_enabled\":false,\"last_scan_time\":0,\"last_update_time\":0,\"database_version\":5,\"total_threats_blocked\":3}".to_vec())
    });
    assert_eq!(
        status,
        Ok(ServiceStatus {
            is_running: true,
            real_time_protection: true,
            auto_scan_enabled: false,
            last_scan_time: 0,
            last_update_time: 0,
            database_version: 5,
            total_threats_blocked: 3,
        })
    );
}

#[test]
fn update_then_get_returns_equal_settings() {
    let c = client();
    let mut service = TestService::new();
    let sent = settings("C:\\x");
    assert_eq!(c.update_settings(sent.clone(), |request| service.handle(request)), Ok(true));
    assert_eq!(c.get_settings(|request| service.handle(request)), Ok(sent));
    assert_eq!(service.seen, vec!["settings_set".to_string(), "settings_get".to_string()]);
}

#[test]
fn exclusion_paths_survive_update_then_get() {
    let c = client();
    let mut service = TestService::new();
    assert_eq!(c.update_settings(settings("C:\\a;C:\\b"), |request| service.handle(request)), Ok(true));
    let back = c.get_settings(|request| service.handle(request)).unwrap();
    assert_eq!(back.exclusion_paths, "C:\\a;C:\\b");
    assert_eq!(back, settings("C:\\a;C:\\b"));
}

#[test]
fn get_settings_before_any_update_is_a_service_error() {
    let mut service = TestService::new();
    assert_eq!(
        client().get_settings(|request| service.handle(request)),
        Err(ServiceClientError::ServiceError("No settings in response".to_string()))
    );
}

#[test]
fn authenticate_over_an_exchange() {
    let c = client();
    let mut service = TestService::new();
    assert_eq!(c.authenticate("alice", "hunter2", |request| service.handle(request)), Ok(true));
    assert_eq!(c.authenticate("alice", "guess", |request| service.handle(request)), Ok(false));
    assert_eq!(
        c.authenticate("alice", "hunter2", |_| Ok(b"{\"message\":\"service busy\"}".to_vec())),
        Err(ServiceClientError::ServiceError("service busy".to_string()))
    );
}

#[test]
fn license_scan_and_activation_over_an_exchange() {
    let c = client();
    let mut service = TestService::new();
    let info = c.check_license("alice", |request| service.handle(request)).unwrap();
    assert!(info.is_valid);
    assert_eq!(info.expires_at, 99);
    assert_eq!(info.license_type, "trial");
    assert_eq!(info.message, "");
    let activation = c.activate_license("alice", "KEY", |request| service.handle(request)).unwrap();
    assert!(activation.activated);
    assert_eq!(activation.expires_at, 0);
    assert_eq!(activation.message, "done");
    let refused = c.activate_license("alice", "nope", |request| service.handle(request)).unwrap();
    assert!(!refused.activated);
    assert_eq!(
        c.start_scan("quick", "C:\\", false, |request| service.handle(request)),
        Ok("quick-1".to_string())
    );
    assert_eq!(
        service.seen,
        vec![
            "license_check".to_string(),
            "activate_request".to_string(),
            "activate_request".to_string(),
            "scan_request".to_string()
        ]
    );
}

#[test]
fn each_operation_makes_exactly_one_exchange() {
    let c = client();
    let mut calls = 0;
    let _ = c.get_status(|_| {
        calls += 1;
        Err("pipe closed".to_string())
    });
    assert_eq!(calls, 1);
    let mut calls = 0;
    let _ = c.update_settings(settings(""), |_| {
        calls += 1;
        Ok(b"{}".to_vec())
    });
    assert_eq!(calls, 1);
}

#[test]
fn transport_failure_reaches_the_caller_unchanged() {
    let c = client();
    assert_eq!(
        c.get_status(|_| Err("pipe closed".to_string())),
        Err(ServiceClientError::CommunicationError("pipe closed".to_string()))
    );
    assert_eq!(
        c.start_scan("full", "/", true, |_| Err("write failed".to_string())),
        Err(ServiceClientError::CommunicationError("write failed".to_string()))
    );
    assert!(matches!(
        c.check_license("u", |_| Ok(vec![0xff])),
        Err(ServiceClientError::CommunicationError(_))
    ));
    assert!(matches!(
        c.authenticate("u", "p", |_| Ok(b"{".to_vec())),
        Err(ServiceClientError::SerializationError(_))
    ));
}

#[test]
fn send_request_hands_over_the_encoded_request() {
    let c = client();
    let outcome = c.send_request(&Request::SettingsGet, |request| {
        assert_eq!(request, b"{\"type\":\"settings_get\"}".to_vec());
        Ok(b"{\"anything\":[1,2]}".to_vec())
    });
    let mut expected = serde_json::Map::new();
    expected.insert(
        "anything".to_string(),
        serde_json::Value::Array(vec![serde_json::Value::from(1u64), serde_json::Value::from(2u64)]),
    );
    assert_eq!(outcome, Ok(serde_json::Value::Object(expected)));
    let failed = c.send_request(&Request::StatusRequest, |_| Err("down".to_string()));
    assert_eq!(failed, Err(ServiceClientError::CommunicationError("down".to_string())));
}

#[test]
fn reply_is_the_filled_front_of_the_buffer() {
    assert_eq!(REPLY_CAPACITY, 4096);
    let mut buffer = vec![0u8; 8];
    buffer[0] = b'{';
    buffer[1] = b'}';
    assert_eq!(filled(buffer.clone(), 2), b"{}".to_vec());
    assert_eq!(filled(buffer.clone(), 0), Vec::<u8>::new());
    assert_eq!(filled(buffer.clone(), 8), buffer);
    assert_eq!(filled(buffer.clone(), 9), buffer);
}

#[test]
fn connection_failure_leaves_no_client() {
    match ServiceClient::new(|_| false) {
        Ok(_) => panic!("a client without a connection"),
        Err(e) => {
            assert_eq!(
                e,
                ServiceClientError::ConnectionFailed("Failed to connect to named pipe".to_string())
            );
            assert_eq!(e.message(), "Failed to connect to service: Failed to connect to named pipe");
        }
    }
}

#[test]
fn construction_tries_the_endpoint_once() {
    let mut names: Vec<String> = Vec::new();
    let made = ServiceClient::new(|name| {
        names.push(name.to_string());
        true
    });
    assert!(made.is_ok());
    assert_eq!(names, vec![PIPE_NAME.to_string()]);

    let mut attempts = 0;
    let failed = ServiceClient::new(|_| {
        attempts += 1;
        false
    });
    assert!(failed.is_err());
    assert_eq!(attempts, 1);
}

#[test]
fn status_number_that_does_not_fit_gives_the_default() {
    let status = client()
        .get_status(|_| Ok(b"{\"database_version\":4294967301}".to_vec()))
        .unwrap();
    assert_eq!(status.database_version, 0);
}

#[test]
fn null_settings_are_a_service_error() {
    assert_eq!(
        client().get_settings(|_| Ok(b"{\"settings\":null}".to_vec())),
        Err(ServiceClientError::ServiceError("No settings in response".to_string()))
    );
}
