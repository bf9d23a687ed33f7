//! The client: its errors, the state of its one connection, and its
//! operations. Each operation encodes one request, has the caller's
//! transport perform the one exchange for it, and decodes the outcome. Its
//! two halves are offered too, for a caller that performs the exchange
//! itself: one gives the bytes to write, the other takes what was read.

use vstd::prelude::*;
use crate::codec::{
    lacks_status, status_at_rest, status_defaults, member_bool, field_bool, field_text, status_of,
    license_of, activation_of, settings_in, has_settings_object,
    decode_authentication, decode_license, decode_activation, decode_scan_id, decode_status,
    decode_settings, decode_update,
};
use crate::json::members;
use crate::protocol::{
    ActivationResult, LicenseInfo, ServiceStatus, Settings, SettingsView, PIPE_NAME,
};
use crate::request::{Request, RequestView, describes, settings_round_trip};
use crate::wire::{encode, receive, is_encoding, is_received, reply_document, is_reply_failure};

verus! {

/// Why an operation failed.
#[derive(Debug, Clone, PartialEq, Eq)]
pub enum ServiceClientError {
    /// The endpoint could not be opened when the client was made.
    ConnectionFailed(String),
    /// Writing or reading failed, or what was read is not UTF-8.
    CommunicationError(String),
    /// A request could not be rendered, or a reply is not JSON.
    SerializationError(String),
    /// The reply is JSON but reports a failure or lacks a mandatory part.
    ServiceError(String),
}

impl ServiceClientError {
    /// The words that introduce each kind of error.
    pub open spec fn prefix(self) -> Seq<char> {
        match self {
            ServiceClientError::ConnectionFailed(_) => "Failed to connect to service: "@,
            ServiceClientError::CommunicationError(_) => "Communication error: "@,
            ServiceClientError::SerializationError(_) => "Serialization error: "@,
            ServiceClientError::ServiceError(_) => "Service returned error: "@,
        }
    }

    /// The detail that the error carries.
    pub open spec fn detail(self) -> Seq<char> {
        match self {
            ServiceClientError::ConnectionFailed(m) => m@,
            ServiceClientError::CommunicationError(m) => m@,
            ServiceClientError::SerializationError(m) => m@,
            ServiceClientError::ServiceError(m) => m@,
        }
    }

    /// The error as one line for the user: its kind, then its detail.
    pub fn message(&self) -> (r: String)
        ensures
            r@ == self.prefix() + self.detail(),
    {
        match self {
            ServiceClientError::ConnectionFailed(m) => String::from_str(
                "Failed to connect to service: ",
            ).concat(m.as_str()),
            ServiceClientError::CommunicationError(m) => String::from_str(
                "Communication error: ",
            ).concat(m.as_str()),
            ServiceClientError::SerializationError(m) => String::from_str(
                "Serialization error: ",
            ).concat(m.as_str()),
            ServiceClientError::ServiceError(m) => String::from_str(
                "Service returned error: ",
            ).concat(m.as_str()),
        }
    }
}

/// What the outcome of an exchange means for an authentication: the boolean
/// under `result`; without one a service error with the reply's `message`,
/// or with "Authentication failed" where it has none.
pub open spec fn is_authentication(
    reply: Result<Vec<u8>, String>,
    r: Result<bool, ServiceClientError>,
) -> bool {
    match reply_document(reply) {
        Some(doc) => match member_bool(doc, "result"@) {
            Some(b) => r == Ok::<bool, ServiceClientError>(b),
            None => r matches Err(e) && e is ServiceError && e.detail() == field_text(
                doc,
                "message"@,
                "Authentication failed"@,
            ),
        },
        None => r matches Err(e) && is_reply_failure(reply, e),
    }
}

/// What the outcome of an exchange means for a license check.
pub open spec fn is_license(
    reply: Result<Vec<u8>, String>,
    r: Result<LicenseInfo, ServiceClientError>,
) -> bool {
    match reply_document(reply) {
        Some(doc) => r matches Ok(info) && info@ == license_of(doc),
        None => r matches Err(e) && is_reply_failure(reply, e),
    }
}

/// What the outcome of an exchange means for an activation.
pub open spec fn is_activation(
    reply: Result<Vec<u8>, String>,
    r: Result<ActivationResult, ServiceClientError>,
) -> bool {
    match reply_document(reply) {
        Some(doc) => r matches Ok(result) && result@ == activation_of(doc),
        None => r matches Err(e) && is_reply_failure(reply, e),
    }
}

/// What the outcome of an exchange means for the start of a scan: the
/// identifier under `scan_id`, empty where the reply names none.
pub open spec fn is_scan_start(
    reply: Result<Vec<u8>, String>,
    r: Result<String, ServiceClientError>,
) -> bool {
    match reply_document(reply) {
        Some(doc) => r matches Ok(id) && id@ == field_text(doc, "scan_id"@, ""@),
        None => r matches Err(e) && is_reply_failure(reply, e),
    }
}

/// What the outcome of an exchange means for a status request.
pub open spec fn is_status(
    reply: Result<Vec<u8>, String>,
    r: Result<ServiceStatus, ServiceClientError>,
) -> bool {
    match reply_document(reply) {
        Some(doc) => r == Ok::<ServiceStatus, ServiceClientError>(status_of(doc)),
        None => r matches Err(e) && is_reply_failure(reply, e),
    }
}

/// What the outcome of an exchange means for a request for the settings: a
/// reply without a settings object is a service error.
pub open spec fn is_settings(
    reply: Result<Vec<u8>, String>,
    r: Result<Settings, ServiceClientError>,
) -> bool {
    match reply_document(reply) {
        Some(doc) => match settings_in(doc) {
            Some(view) => r matches Ok(s) && s@ == view,
            None => r matches Err(e) && e is ServiceError && e.detail()
                == "No settings in response"@,
        },
        None => r matches Err(e) && is_reply_failure(reply, e),
    }
}

/// What the outcome of an exchange means for a change of the settings: the
/// boolean under `success`, `false` where there is none.
pub open spec fn is_update(
    reply: Result<Vec<u8>, String>,
    r: Result<bool, ServiceClientError>,
) -> bool {
    match reply_document(reply) {
        Some(doc) => r == Ok::<bool, ServiceClientError>(field_bool(doc, "success"@, false)),
        None => r matches Err(e) && is_reply_failure(reply, e),
    }
}

/// The transport can be called on every encoding of the request.
pub open spec fn accepts<F: FnOnce(Vec<u8>) -> Result<Vec<u8>, String>>(
    exchange: F,
    request: RequestView,
) -> bool {
    forall|bytes: Vec<u8>| #[trigger]
        is_encoding(request, Ok::<Vec<u8>, ServiceClientError>(bytes)) ==> call_requires(
            exchange,
            (bytes,),
        )
}

/// What sending a request over `exchange` gives: the error of encoding it,
/// or else an outcome of `exchange` on the bytes of its encoding.
pub open spec fn is_sending<F: FnOnce(Vec<u8>) -> Result<Vec<u8>, String>>(
    exchange: F,
    request: RequestView,
    outcome: Result<Result<Vec<u8>, String>, ServiceClientError>,
) -> bool {
    exists|sent: Result<Vec<u8>, ServiceClientError>| #[trigger]
        is_encoding(request, sent) && match sent {
            Ok(bytes) => outcome matches Ok(reply) && call_ensures(exchange, (bytes,), reply),
            Err(e) => outcome == Err::<Result<Vec<u8>, String>, ServiceClientError>(e),
        }
}

/// A status request fails only where the exchange gave no document, and a
/// document without any of the status fields gives the status in which
/// every flag is off and every number is zero.
pub proof fn status_falls_back_to_defaults(
    reply: Result<Vec<u8>, String>,
    r: Result<ServiceStatus, ServiceClientError>,
)
    requires
        is_status(reply, r),
    ensures
        r is Ok <==> reply_document(reply) is Some,
        reply_document(reply) matches Some(doc) && lacks_status(doc) ==> r == Ok::<
            ServiceStatus,
            ServiceClientError,
        >(status_at_rest()),
{
    if let Some(doc) = reply_document(reply) {
        if lacks_status(doc) {
            status_defaults(doc);
        }
    }
}

/// Settings that were sent come back unchanged: where the reply to a
/// request for the settings carries under `settings` the object that a
/// request to set them carried, the result is the settings of that request.
pub proof fn settings_come_back(
    settings: SettingsView,
    request: serde_json::Value,
    reply: Result<Vec<u8>, String>,
    r: Result<Settings, ServiceClientError>,
)
    requires
        describes(request, (RequestView::SettingsSet { settings })),
        reply_document(reply) matches Some(doc) && members(doc).contains_key("settings"@)
            && members(doc)["settings"@] == members(request)["settings"@],
        is_settings(reply, r),
    ensures
        r matches Ok(s) && s@ == settings,
{
    settings_round_trip(settings, request, reply_document(reply).unwrap());
}

/// A request for the settings gives settings exactly where the reply is a
/// document whose `settings` member is an object. A document without that
/// member, or with something else under it, gives a service error, never
/// settings made of defaults.
pub proof fn settings_need_their_object(
    reply: Result<Vec<u8>, String>,
    r: Result<Settings, ServiceClientError>,
)
    requires
        is_settings(reply, r),
    ensures
        r is Ok <==> (reply_document(reply) matches Some(doc) && has_settings_object(doc)),
        reply_document(reply) matches Some(doc) && !has_settings_object(doc) ==> (r matches Err(e)
            && e is ServiceError && e.detail() == "No settings in response"@),
{
}

/// An authentication gives exactly the boolean that the reply carries under
/// `result`.
pub proof fn authentication_is_the_result_field(
    reply: Result<Vec<u8>, String>,
    r: Result<bool, ServiceClientError>,
    b: bool,
)
    requires
        is_authentication(reply, r),
        reply_document(reply) matches Some(doc) && member_bool(doc, "result"@) == Some(b),
    ensures
        r == Ok::<bool, ServiceClientError>(b),
{
}

/// The client's side of one connection to the service. A client exists only
/// for a connection that was opened, and tells its owner exactly once to
/// release it.
pub struct ServiceClient {
    open: bool,
}

impl ServiceClient {
    /// Whether the connection has not been released yet.
    pub closed spec fn connected(&self) -> bool {
        self.open
    }

    /// Makes the client by one attempt to open the service's endpoint:
    /// `open` is called once, with the name of the pipe, and says whether it
    /// got a connection. Without a connection there is no client.
    pub fn new<F: FnOnce(&'static str) -> bool>(open: F) -> (r: Result<
        ServiceClient,
        ServiceClientError,
    >)
        requires
            call_requires(open, (PIPE_NAME,)),
        ensures
            exists|opened: bool| #[trigger]
                call_ensures(open, (PIPE_NAME,), opened) && match r {
                    Ok(client) => opened && client.connected(),
                    Err(e) => !opened && e is ConnectionFailed && e.detail()
                        == "Failed to connect to named pipe"@,
                },
    {
        if open(PIPE_NAME) {
            Ok(ServiceClient { open: true })
        } else {
            Err(
                ServiceClientError::ConnectionFailed(
                    String::from_str("Failed to connect to named pipe"),
                ),
            )
        }
    }

    /// Whether the connection has not been released yet.
    pub fn is_connected(&self) -> (r: bool)
        ensures
            r == self.connected(),
    {
        self.open
    }

    /// Closes the client. The result says whether the owner has to release
    /// the connection now: it does the first time, and never again.
    pub fn close(&mut self) -> (release: bool)
        ensures
            release == old(self).connected(),
            !final(self).connected(),
    {
        let release = self.open;
        self.open = false;
        release
    }

    /// Sends one request and receives its reply: encodes the request, has
    /// `exchange` write the bytes and read once, and parses what was read.
    /// `exchange` gives the bytes read, or the transport's error message.
    pub fn send_request<F: FnOnce(Vec<u8>) -> Result<Vec<u8>, String>>(
        &self,
        request: &Request,
        exchange: F,
    ) -> (r: Result<serde_json::Value, ServiceClientError>)
        requires
            accepts(exchange, request@),
        ensures
            exists|outcome: Result<Result<Vec<u8>, String>, ServiceClientError>| #[trigger]
                is_sending(exchange, request@, outcome) && match outcome {
                    Ok(reply) => is_received(reply, r),
                    Err(e) => r == Err::<serde_json::Value, ServiceClientError>(e),
                },
    {
        match encode(request) {
            Ok(bytes) => {
                let reply = exchange(bytes);
                proof {
                    let outcome = Ok::<Result<Vec<u8>, String>, ServiceClientError>(reply);
                    assert(is_sending(exchange, request@, outcome));
                }
                receive(reply)
            },
            Err(e) => {
                proof {
                    let outcome = Err::<Result<Vec<u8>, String>, ServiceClientError>(e);
                    assert(is_sending(exchange, request@, outcome));
                }
                Err(e)
            },
        }
    }

    /// Asks the service whether the credentials are good, in one exchange.
    pub fn authenticate<F: FnOnce(Vec<u8>) -> Result<Vec<u8>, String>>(
        &self,
        username: &str,
        password: &str,
        exchange: F,
    ) -> (r: Result<bool, ServiceClientError>)
        requires
            accepts(
                exchange,
                (RequestView::AuthRequest { username: username@, password: password@ }),
            ),
        ensures
            exists|outcome: Result<Result<Vec<u8>, String>, ServiceClientError>| #[trigger]
                is_sending(
                    exchange,
                    (RequestView::AuthRequest { username: username@, password: password@ }),
                    outcome,
                ) && match outcome {
                    Ok(reply) => is_authentication(reply, r),
                    Err(e) => r == Err::<bool, ServiceClientError>(e),
                },
    {
        match self.send_request(
            &Request::AuthRequest {
                username: String::from_str(username),
                password: String::from_str(password),
            },
            exchange,
        ) {
            Ok(doc) => decode_authentication(&doc),
            Err(e) => Err(e),
        }
    }

    /// The bytes of the request that asks the service to authenticate a user.
    pub fn authenticate_request(
        &self,
        username: &str,
        password: &str,
    ) -> (r: Result<Vec<u8>, ServiceClientError>)
        ensures
            is_encoding(
                (RequestView::AuthRequest { username: username@, password: password@ }),
                r,
            ),
    {
        encode(
            &Request::AuthRequest {
                username: String::from_str(username),
                password: String::from_str(password),
            },
        )
    }

    /// Decodes the outcome of the exchange for an authentication.
    pub fn authenticate_reply(&self, reply: Result<Vec<u8>, String>) -> (r: Result<
        bool,
        ServiceClientError,
    >)
        ensures
            is_authentication(reply, r),
    {
        match receive(reply) {
            Ok(doc) => decode_authentication(&doc),
            Err(e) => Err(e),
        }
    }

    /// Asks the service for the state of a user's license, in one exchange.
    pub fn check_license<F: FnOnce(Vec<u8>) -> Result<Vec<u8>, String>>(
        &self,
        username: &str,
        exchange: F,
    ) -> (r: Result<LicenseInfo, ServiceClientError>)
        requires
            accepts(
                exchange,
                (RequestView::LicenseCheck { username: username@ }),
            ),
        ensures
            exists|outcome: Result<Result<Vec<u8>, String>, ServiceClientError>| #[trigger]
                is_sending(
                    exchange,
                    (RequestView::LicenseCheck { username: username@ }),
                    outcome,
                ) && match outcome {
                    Ok(reply) => is_license(reply, r),
                    Err(e) => r == Err::<LicenseInfo, ServiceClientError>(e),
                },
    {
        match self.send_request(
            &Request::LicenseCheck { username: String::from_str(username) },
            exchange,
        ) {
            Ok(doc) => Ok(decode_license(&doc)),
            Err(e) => Err(e),
        }
    }

    /// The bytes of the request that asks for the state of a user's license.
    pub fn check_license_request(&self, username: &str) -> (r: Result<Vec<u8>, ServiceClientError>)
        ensures
            is_encoding(
                (RequestView::LicenseCheck { username: username@ }),
                r,
            ),
    {
        encode(&Request::LicenseCheck { username: String::from_str(username) })
    }

    /// Decodes the outcome of the exchange for a license check.
    pub fn check_license_reply(&self, reply: Result<Vec<u8>, String>) -> (r: Result<
        LicenseInfo,
        ServiceClientError,
    >)
        ensures
            is_license(reply, r),
    {
        match receive(reply) {
            Ok(doc) => Ok(decode_license(&doc)),
            Err(e) => Err(e),
        }
    }

    /// Asks the service to activate a license with a key, in one exchange.
    pub fn activate_license<F: FnOnce(Vec<u8>) -> Result<Vec<u8>, String>>(
        &self,
        username: &str,
        activation_key: &str,
        exchange: F,
    ) -> (r: Result<ActivationResult, ServiceClientError>)
        requires
            accepts(
                exchange,
                (RequestView::ActivateRequest {
                    username: username@,
                    activation_key: activation_key@,
                }),
            ),
        ensures
            exists|outcome: Result<Result<Vec<u8>, String>, ServiceClientError>| #[trigger]
                is_sending(
                    exchange,
                    (RequestView::ActivateRequest {
                        username: username@,
                        activation_key: activation_key@,
                    }),
                    outcome,
                ) && match outcome {
                    Ok(reply) => is_activation(reply, r),
                    Err(e) => r == Err::<ActivationResult, ServiceClientError>(e),
                },
    {
        match self.send_request(
            &Request::ActivateRequest {
                username: String::from_str(username),
                activation_key: String::from_str(activation_key),
            },
            exchange,
        ) {
            Ok(doc) => Ok(decode_activation(&doc)),
            Err(e) => Err(e),
        }
    }

    /// The bytes of the request that activates a license with a key.
    pub fn activate_license_request(
        &self,
        username: &str,
        activation_key: &str,
    ) -> (r: Result<Vec<u8>, ServiceClientError>)
        ensures
            is_encoding(
                (RequestView::ActivateRequest {
                    username: username@,
                    activation_key: activation_key@,
                }),
                r,
            ),
    {
        encode(
            &Request::ActivateRequest {
                username: String::from_str(username),
                activation_key: String::from_str(activation_key),
            },
        )
    }

    /// Decodes the outcome of the exchange for an activation.
    pub fn activate_license_reply(&self, reply: Result<Vec<u8>, String>) -> (r: Result<
        ActivationResult,
        ServiceClientError,
    >)
        ensures
            is_activation(reply, r),
    {
        match receive(reply) {
            Ok(doc) => Ok(decode_activation(&doc)),
            Err(e) => Err(e),
        }
    }

    /// Asks the service to start a scan, in one exchange, and gives the scan's
    /// identifier.
    pub fn start_scan<F: FnOnce(Vec<u8>) -> Result<Vec<u8>, String>>(
        &self,
        scan_type: &str,
        path: &str,
        deep_scan: bool,
        exchange: F,
    ) -> (r: Result<String, ServiceClientError>)
        requires
            accepts(
                exchange,
                (RequestView::ScanRequest { scan_type: scan_type@, path: path@, deep_scan }),
            ),
        ensures
            exists|outcome: Result<Result<Vec<u8>, String>, ServiceClientError>| #[trigger]
                is_sending(
                    exchange,
                    (RequestView::ScanRequest { scan_type: scan_type@, path: path@, deep_scan }),
                    outcome,
                ) && match outcome {
                    Ok(reply) => is_scan_start(reply, r),
                    Err(e) => r == Err::<String, ServiceClientError>(e),
                },
    {
        match self.send_request(
            &Request::ScanRequest {
                scan_type: String::from_str(scan_type),
                path: String::from_str(path),
                deep_scan,
            },
            exchange,
        ) {
            Ok(doc) => Ok(decode_scan_id(&doc)),
            Err(e) => Err(e),
        }
    }

    /// The bytes of the request that starts a scan.
    pub fn start_scan_request(
        &self,
        scan_type: &str,
        path: &str,
        deep_scan: bool,
    ) -> (r: Result<Vec<u8>, ServiceClientError>)
        ensures
            is_encoding(
                (RequestView::ScanRequest { scan_type: scan_type@, path: path@, deep_scan }),
                r,
            ),
    {
        encode(
            &Request::ScanRequest {
                scan_type: String::from_str(scan_type),
                path: String::from_str(path),
                deep_scan,
            },
        )
    }

    /// Decodes the outcome of the exchange for the start of a scan.
    pub fn start_scan_reply(&self, reply: Result<Vec<u8>, String>) -> (r: Result<
        String,
        ServiceClientError,
    >)
        ensures
            is_scan_start(reply, r),
    {
        match receive(reply) {
            Ok(doc) => Ok(decode_scan_id(&doc)),
            Err(e) => Err(e),
        }
    }

    /// Asks the service what it is doing, in one exchange.
    pub fn get_status<F: FnOnce(Vec<u8>) -> Result<Vec<u8>, String>>(
        &self,
        exchange: F,
    ) -> (r: Result<ServiceStatus, ServiceClientError>)
        requires
            accepts(exchange, RequestView::StatusRequest),
        ensures
            exists|outcome: Result<Result<Vec<u8>, String>, ServiceClientError>| #[trigger]
                is_sending(exchange, RequestView::StatusRequest, outcome) && match outcome {
                    Ok(reply) => is_status(reply, r),
                    Err(e) => r == Err::<ServiceStatus, ServiceClientError>(e),
                },
    {
        match self.send_request(&Request::StatusRequest, exchange) {
            Ok(doc) => Ok(decode_status(&doc)),
            Err(e) => Err(e),
        }
    }

    /// The bytes of the request that asks what the service is doing.
    pub fn get_status_request(&self) -> (r: Result<Vec<u8>, ServiceClientError>)
        ensures
            is_encoding(RequestView::StatusRequest, r),
    {
        encode(&Request::StatusRequest)
    }

    /// Decodes the outcome of the exchange for a status request.
    pub fn get_status_reply(&self, reply: Result<Vec<u8>, String>) -> (r: Result<
        ServiceStatus,
        ServiceClientError,
    >)
        ensures
            is_status(reply, r),
    {
        match receive(reply) {
            Ok(doc) => Ok(decode_status(&doc)),
            Err(e) => Err(e),
        }
    }

    /// Asks the service for its settings, in one exchange.
    pub fn get_settings<F: FnOnce(Vec<u8>) -> Result<Vec<u8>, String>>(
        &self,
        exchange: F,
    ) -> (r: Result<Settings, ServiceClientError>)
        requires
            accepts(exchange, RequestView::SettingsGet),
        ensures
            exists|outcome: Result<Result<Vec<u8>, String>, ServiceClientError>| #[trigger]
                is_sending(exchange, RequestView::SettingsGet, outcome) && match outcome {
                    Ok(reply) => is_settings(reply, r),
                    Err(e) => r == Err::<Settings, ServiceClientError>(e),
                },
    {
        match self.send_request(&Request::SettingsGet, exchange) {
            Ok(doc) => decode_settings(&doc),
            Err(e) => Err(e),
        }
    }

    /// The bytes of the request that asks for the settings.
    pub fn get_settings_request(&self) -> (r: Result<Vec<u8>, ServiceClientError>)
        ensures
            is_encoding(RequestView::SettingsGet, r),
    {
        encode(&Request::SettingsGet)
    }

    /// Decodes the outcome of the exchange for a request for the settings.
    pub fn get_settings_reply(&self, reply: Result<Vec<u8>, String>) -> (r: Result<
        Settings,
        ServiceClientError,
    >)
        ensures
            is_settings(reply, r),
    {
        match receive(reply) {
            Ok(doc) => decode_settings(&doc),
            Err(e) => Err(e),
        }
    }

    /// Hands the service a full set of settings, in one exchange, and says
    /// whether it took them.
    pub fn update_settings<F: FnOnce(Vec<u8>) -> Result<Vec<u8>, String>>(
        &self,
        settings: Settings,
        exchange: F,
    ) -> (r: Result<bool, ServiceClientError>)
        requires
            accepts(
                exchange,
                (RequestView::SettingsSet { settings: settings@ }),
            ),
        ensures
            exists|outcome: Result<Result<Vec<u8>, String>, ServiceClientError>| #[trigger]
                is_sending(
                    exchange,
                    (RequestView::SettingsSet { settings: settings@ }),
                    outcome,
                ) && match outcome {
                    Ok(reply) => is_update(reply, r),
                    Err(e) => r == Err::<bool, ServiceClientError>(e),
                },
    {
        match self.send_request(&Request::SettingsSet { settings }, exchange) {
            Ok(doc) => Ok(decode_update(&doc)),
            Err(e) => Err(e),
        }
    }

    /// The bytes of the request that hands the service a full set of settings.
    pub fn update_settings_request(
        &self,
        settings: Settings,
    ) -> (r: Result<Vec<u8>, ServiceClientError>)
        ensures
            is_encoding(
                (RequestView::SettingsSet { settings: settings@ }),
                r,
            ),
    {
        encode(&Request::SettingsSet { settings })
    }

    /// Decodes the outcome of the exchange for a change of the settings.
    pub fn update_settings_reply(&self, reply: Result<Vec<u8>, String>) -> (r: Result<
        bool,
        ServiceClientError,
    >)
        ensures
            is_update(reply, r),
    {
        match receive(reply) {
            Ok(doc) => Ok(decode_update(&doc)),
            Err(e) => Err(e),
        }
    }
}

} // verus!
