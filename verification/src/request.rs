//! The requests of the protocol and their JSON documents.

use vstd::prelude::*;
use crate::json::{
    members, holds_object, put, bool_value, unsigned_value, text_value, object_value,
};
use crate::codec::{member_bool, member_unsigned, member_text, settings_of, settings_in};
use crate::protocol::{Settings, SettingsView};

verus! {

/// One command to the service. Each has its own tag on the wire.
#[derive(Debug, Clone, PartialEq, Eq)]
pub enum Request {
    AuthRequest { username: String, password: String },
    LicenseCheck { username: String },
    ActivateRequest { username: String, activation_key: String },
    ScanRequest { scan_type: String, path: String, deep_scan: bool },
    StatusRequest,
    SettingsGet,
    SettingsSet { settings: Settings },
}

pub ghost enum RequestView {
    AuthRequest { username: Seq<char>, password: Seq<char> },
    LicenseCheck { username: Seq<char> },
    ActivateRequest { username: Seq<char>, activation_key: Seq<char> },
    ScanRequest { scan_type: Seq<char>, path: Seq<char>, deep_scan: bool },
    StatusRequest,
    SettingsGet,
    SettingsSet { settings: SettingsView },
}

impl View for Request {
    type V = RequestView;

    open spec fn view(&self) -> RequestView {
        match *self {
            Request::AuthRequest { username, password } => RequestView::AuthRequest {
                username: username@,
                password: password@,
            },
            Request::LicenseCheck { username } => RequestView::LicenseCheck { username: username@ },
            Request::ActivateRequest { username, activation_key } => RequestView::ActivateRequest {
                username: username@,
                activation_key: activation_key@,
            },
            Request::ScanRequest { scan_type, path, deep_scan } => RequestView::ScanRequest {
                scan_type: scan_type@,
                path: path@,
                deep_scan,
            },
            Request::StatusRequest => RequestView::StatusRequest,
            Request::SettingsGet => RequestView::SettingsGet,
            Request::SettingsSet { settings } => RequestView::SettingsSet { settings: settings@ },
        }
    }
}

impl RequestView {
    /// The tag that tells the service which request this is.
    pub open spec fn tag(self) -> Seq<char> {
        match self {
            RequestView::AuthRequest { .. } => "auth_request"@,
            RequestView::LicenseCheck { .. } => "license_check"@,
            RequestView::ActivateRequest { .. } => "activate_request"@,
            RequestView::ScanRequest { .. } => "scan_request"@,
            RequestView::StatusRequest => "status_request"@,
            RequestView::SettingsGet => "settings_get"@,
            RequestView::SettingsSet { .. } => "settings_set"@,
        }
    }

    /// Which of the seven requests this is, counted from zero in the order
    /// of their declaration.
    pub open spec fn ordinal(self) -> int {
        match self {
            RequestView::AuthRequest { .. } => 0,
            RequestView::LicenseCheck { .. } => 1,
            RequestView::ActivateRequest { .. } => 2,
            RequestView::ScanRequest { .. } => 3,
            RequestView::StatusRequest => 4,
            RequestView::SettingsGet => 5,
            RequestView::SettingsSet { .. } => 6,
        }
    }

    /// The keys of the request's document: `type` and one for each field.
    pub open spec fn keys(self) -> Set<Seq<char>> {
        match self {
            RequestView::AuthRequest { .. } => set!["type"@, "username"@, "password"@],
            RequestView::LicenseCheck { .. } => set!["type"@, "username"@],
            RequestView::ActivateRequest { .. } => set!["type"@, "username"@, "activation_key"@],
            RequestView::ScanRequest { .. } => set![
                "type"@,
                "scan_type"@,
                "path"@,
                "deep_scan"@,
            ],
            RequestView::StatusRequest => set!["type"@],
            RequestView::SettingsGet => set!["type"@],
            RequestView::SettingsSet { .. } => set!["type"@, "settings"@],
        }
    }
}

/// The keys of a settings object.
pub open spec fn settings_keys() -> Set<Seq<char>> {
    set![
        "real_time_protection"@,
        "scan_on_access"@,
        "scan_archives"@,
        "auto_update"@,
        "scan_schedule"@,
        "scan_time"@,
        "quarantine_path"@,
        "exclusion_paths"@,
    ]
}

/// A value holds these settings: it is a JSON object with exactly the eight
/// keys, each with the value of its field.
pub open spec fn describes_settings(obj: serde_json::Value, s: SettingsView) -> bool {
    &&& holds_object(obj)
    &&& members(obj).dom() =~= settings_keys()
    &&& member_bool(obj, "real_time_protection"@) == Some(s.real_time_protection)
    &&& member_bool(obj, "scan_on_access"@) == Some(s.scan_on_access)
    &&& member_bool(obj, "scan_archives"@) == Some(s.scan_archives)
    &&& member_bool(obj, "auto_update"@) == Some(s.auto_update)
    &&& member_unsigned(obj, "scan_schedule"@) == Some(s.scan_schedule as u64)
    &&& member_unsigned(obj, "scan_time"@) == Some(s.scan_time as u64)
    &&& member_text(obj, "quarantine_path"@) == Some(s.quarantine_path)
    &&& member_text(obj, "exclusion_paths"@) == Some(s.exclusion_paths)
}

/// A value is the document of a request: it is a JSON object with exactly
/// the keys of that request, its tag under `type`, and each field under its
/// own name.
pub open spec fn describes(doc: serde_json::Value, request: RequestView) -> bool {
    &&& holds_object(doc)
    &&& members(doc).dom() =~= request.keys()
    &&& member_text(doc, "type"@) == Some(request.tag())
    &&& match request {
        RequestView::AuthRequest { username, password } => {
            &&& member_text(doc, "username"@) == Some(username)
            &&& member_text(doc, "password"@) == Some(password)
        },
        RequestView::LicenseCheck { username } => member_text(doc, "username"@) == Some(username),
        RequestView::ActivateRequest { username, activation_key } => {
            &&& member_text(doc, "username"@) == Some(username)
            &&& member_text(doc, "activation_key"@) == Some(activation_key)
        },
        RequestView::ScanRequest { scan_type, path, deep_scan } => {
            &&& member_text(doc, "scan_type"@) == Some(scan_type)
            &&& member_text(doc, "path"@) == Some(path)
            &&& member_bool(doc, "deep_scan"@) == Some(deep_scan)
        },
        RequestView::StatusRequest => true,
        RequestView::SettingsGet => true,
        RequestView::SettingsSet { settings } => describes_settings(
            members(doc)["settings"@],
            settings,
        ),
    }
}

/// The tag tells the service which request it has: two requests with the
/// same tag are the same one of the seven.
pub proof fn tag_tells_the_request(a: RequestView, b: RequestView)
    requires
        a.tag() == b.tag(),
    ensures
        a.ordinal() == b.ordinal(),
{
    reveal_strlit("auth_request");
    reveal_strlit("license_check");
    reveal_strlit("activate_request");
    reveal_strlit("scan_request");
    reveal_strlit("status_request");
    reveal_strlit("settings_get");
    reveal_strlit("settings_set");
    assert("auth_request"@.len() == 12);
    assert("license_check"@.len() == 13);
    assert("activate_request"@.len() == 16);
    assert("scan_request"@.len() == 12);
    assert("status_request"@.len() == 14);
    assert("settings_get"@.len() == 12);
    assert("settings_set"@.len() == 12);
    assert("auth_request"@[0] != "scan_request"@[0]);
    assert("auth_request"@[0] != "settings_get"@[0]);
    assert("auth_request"@[0] != "settings_set"@[0]);
    assert("scan_request"@[1] != "settings_get"@[1]);
    assert("scan_request"@[1] != "settings_set"@[1]);
    assert("settings_get"@[9] != "settings_set"@[9]);
}

/// The keys that stand together in one object differ from each other.
pub proof fn keys_differ()
    ensures
        "type"@ != "username"@,
        "type"@ != "password"@,
        "username"@ != "password"@,
        "type"@ != "activation_key"@,
        "username"@ != "activation_key"@,
        "type"@ != "scan_type"@,
        "type"@ != "path"@,
        "type"@ != "deep_scan"@,
        "scan_type"@ != "path"@,
        "scan_type"@ != "deep_scan"@,
        "path"@ != "deep_scan"@,
        "type"@ != "settings"@,
{
    reveal_strlit("type");
    reveal_strlit("username");
    reveal_strlit("password");
    reveal_strlit("activation_key");
    reveal_strlit("scan_type");
    reveal_strlit("path");
    reveal_strlit("deep_scan");
    reveal_strlit("settings");
    assert("type"@.len() == 4);
    assert("username"@.len() == 8);
    assert("password"@.len() == 8);
    assert("activation_key"@.len() == 14);
    assert("scan_type"@.len() == 9);
    assert("path"@.len() == 4);
    assert("deep_scan"@.len() == 9);
    assert("settings"@.len() == 8);
    assert("username"@[0] != "password"@[0]);
    assert("type"@[0] != "path"@[0]);
    assert("scan_type"@[0] != "deep_scan"@[0]);
}

/// The keys of a settings object differ from each other.
pub proof fn settings_keys_differ()
    ensures
        "real_time_protection"@ != "scan_on_access"@,
        "real_time_protection"@ != "scan_archives"@,
        "real_time_protection"@ != "auto_update"@,
        "real_time_protection"@ != "scan_schedule"@,
        "real_time_protection"@ != "scan_time"@,
        "real_time_protection"@ != "quarantine_path"@,
        "real_time_protection"@ != "exclusion_paths"@,
        "scan_on_access"@ != "scan_archives"@,
        "scan_on_access"@ != "auto_update"@,
        "scan_on_access"@ != "scan_schedule"@,
        "scan_on_access"@ != "scan_time"@,
        "scan_on_access"@ != "quarantine_path"@,
        "scan_on_access"@ != "exclusion_paths"@,
        "scan_archives"@ != "auto_update"@,
        "scan_archives"@ != "scan_schedule"@,
        "scan_archives"@ != "scan_time"@,
        "scan_archives"@ != "quarantine_path"@,
        "scan_archives"@ != "exclusion_paths"@,
        "auto_update"@ != "scan_schedule"@,
        "auto_update"@ != "scan_time"@,
        "auto_update"@ != "quarantine_path"@,
        "auto_update"@ != "exclusion_paths"@,
        "scan_schedule"@ != "scan_time"@,
        "scan_schedule"@ != "quarantine_path"@,
        "scan_schedule"@ != "exclusion_paths"@,
        "scan_time"@ != "quarantine_path"@,
        "scan_time"@ != "exclusion_paths"@,
        "quarantine_path"@ != "exclusion_paths"@,
{
    reveal_strlit("real_time_protection");
    reveal_strlit("scan_on_access");
    reveal_strlit("scan_archives");
    reveal_strlit("auto_update");
    reveal_strlit("scan_schedule");
    reveal_strlit("scan_time");
    reveal_strlit("quarantine_path");
    reveal_strlit("exclusion_paths");
    assert("real_time_protection"@.len() == 20);
    assert("scan_on_access"@.len() == 14);
    assert("scan_archives"@.len() == 13);
    assert("auto_update"@.len() == 11);
    assert("scan_schedule"@.len() == 13);
    assert("scan_time"@.len() == 9);
    assert("quarantine_path"@.len() == 15);
    assert("exclusion_paths"@.len() == 15);
    assert("scan_archives"@[5] != "scan_schedule"@[5]);
    assert("quarantine_path"@[0] != "exclusion_paths"@[0]);
}

/// Builds the JSON object of a `Settings` value.
pub fn settings_document(settings: &Settings) -> (obj: serde_json::Value)
    ensures
        describes_settings(obj, settings@),
{
    proof {
        settings_keys_differ();
    }
    let mut entries: Vec<(String, serde_json::Value)> = Vec::new();
    put(&mut entries, "real_time_protection", bool_value(settings.real_time_protection));
    put(&mut entries, "scan_on_access", bool_value(settings.scan_on_access));
    put(&mut entries, "scan_archives", bool_value(settings.scan_archives));
    put(&mut entries, "auto_update", bool_value(settings.auto_update));
    put(&mut entries, "scan_schedule", unsigned_value(settings.scan_schedule as u64));
    put(&mut entries, "scan_time", unsigned_value(settings.scan_time as u64));
    put(&mut entries, "quarantine_path", text_value(settings.quarantine_path.as_str()));
    put(&mut entries, "exclusion_paths", text_value(settings.exclusion_paths.as_str()));
    object_value(entries)
}

impl Request {
    /// The tag of this request on the wire.
    pub fn tag(&self) -> (r: &'static str)
        ensures
            r@ == self@.tag(),
    {
        match self {
            Request::AuthRequest { .. } => "auth_request",
            Request::LicenseCheck { .. } => "license_check",
            Request::ActivateRequest { .. } => "activate_request",
            Request::ScanRequest { .. } => "scan_request",
            Request::StatusRequest => "status_request",
            Request::SettingsGet => "settings_get",
            Request::SettingsSet { .. } => "settings_set",
        }
    }

    /// Builds the JSON object of this request.
    pub fn document(&self) -> (doc: serde_json::Value)
        ensures
            describes(doc, self@),
    {
        proof {
            keys_differ();
        }
        let mut entries: Vec<(String, serde_json::Value)> = Vec::new();
        put(&mut entries, "type", text_value(self.tag()));
        match self {
            Request::AuthRequest { username, password } => {
                put(&mut entries, "username", text_value(username.as_str()));
                put(&mut entries, "password", text_value(password.as_str()));
            },
            Request::LicenseCheck { username } => {
                put(&mut entries, "username", text_value(username.as_str()));
            },
            Request::ActivateRequest { username, activation_key } => {
                put(&mut entries, "username", text_value(username.as_str()));
                put(&mut entries, "activation_key", text_value(activation_key.as_str()));
            },
            Request::ScanRequest { scan_type, path, deep_scan } => {
                put(&mut entries, "scan_type", text_value(scan_type.as_str()));
                put(&mut entries, "path", text_value(path.as_str()));
                put(&mut entries, "deep_scan", bool_value(*deep_scan));
            },
            Request::StatusRequest => {},
            Request::SettingsGet => {},
            Request::SettingsSet { settings } => {
                put(&mut entries, "settings", settings_document(settings));
            },
        }
        object_value(entries)
    }
}

/// Settings that were sent come back unchanged: where a reply carries under
/// `settings` the object that a request to set them carried, the reply
/// decodes to the settings of that request.
pub proof fn settings_round_trip(
    settings: SettingsView,
    request: serde_json::Value,
    reply: serde_json::Value,
)
    requires
        describes(request, (RequestView::SettingsSet { settings })),
        members(reply).contains_key("settings"@),
        members(reply)["settings"@] == members(request)["settings"@],
    ensures
        settings_in(reply) == Some(settings),
{
    let obj = members(request)["settings"@];
    assert(describes_settings(obj, settings));
    assert(settings_of(obj) == settings);
}

} // verus!
