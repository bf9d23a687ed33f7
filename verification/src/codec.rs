//! The message protocol: the shape of each request, and the rules by which
//! the fields of a reply are read, each with the default that stands in for
//! a field that is missing or of another type.

use vstd::prelude::*;
use crate::json::{
    members, bool_of, unsigned_of, text_of, holds_object, member, as_bool, as_u64, as_str,
    is_object,
};
use crate::protocol::{
    ActivationResult, ActivationResultView, LicenseInfo, LicenseInfoView, ServiceStatus, Settings,
    SettingsView,
};
use crate::service_client::ServiceClientError;

verus! {

/// The boolean stored under `key`, if the document has one there.
pub open spec fn member_bool(doc: serde_json::Value, key: Seq<char>) -> Option<bool> {
    if members(doc).contains_key(key) {
        bool_of(members(doc)[key])
    } else {
        None
    }
}

/// The unsigned integer stored under `key`, if the document has one there.
pub open spec fn member_unsigned(doc: serde_json::Value, key: Seq<char>) -> Option<u64> {
    if members(doc).contains_key(key) {
        unsigned_of(members(doc)[key])
    } else {
        None
    }
}

/// The text stored under `key`, if the document has one there.
pub open spec fn member_text(doc: serde_json::Value, key: Seq<char>) -> Option<Seq<char>> {
    if members(doc).contains_key(key) {
        text_of(members(doc)[key])
    } else {
        None
    }
}

/// The boolean under `key`, or `default` where it is missing or no boolean.
pub open spec fn field_bool(doc: serde_json::Value, key: Seq<char>, default: bool) -> bool {
    match member_bool(doc, key) {
        Some(b) => b,
        None => default,
    }
}

/// The unsigned integer under `key`, or `default` where it is missing or
/// not such a number.
pub open spec fn field_unsigned(doc: serde_json::Value, key: Seq<char>, default: u64) -> u64 {
    match member_unsigned(doc, key) {
        Some(n) => n,
        None => default,
    }
}

/// The text under `key`, or `default` where it is missing or no string.
pub open spec fn field_text(doc: serde_json::Value, key: Seq<char>, default: Seq<char>) -> Seq<
    char,
> {
    match member_text(doc, key) {
        Some(t) => t,
        None => default,
    }
}

/// The number under `key` for a 32-bit field, or `default` where it is
/// missing, not an unsigned integer, or too large for the field.
pub open spec fn field_word(doc: serde_json::Value, key: Seq<char>, default: u32) -> u32 {
    match member_unsigned(doc, key) {
        Some(n) => if n <= u32::MAX {
            n as u32
        } else {
            default
        },
        None => default,
    }
}

/// Reads the boolean under `key`, if there is one.
pub fn find_bool(doc: &serde_json::Value, key: &str) -> (r: Option<bool>)
    ensures
        r == member_bool(*doc, key@),
{
    match member(doc, key) {
        Some(value) => as_bool(value),
        None => None,
    }
}

/// Reads the boolean under `key`, with a default.
pub fn read_bool(doc: &serde_json::Value, key: &str, default: bool) -> (r: bool)
    ensures
        r == field_bool(*doc, key@, default),
{
    match find_bool(doc, key) {
        Some(b) => b,
        None => default,
    }
}

/// Reads the unsigned integer under `key`, with a default.
pub fn read_unsigned(doc: &serde_json::Value, key: &str, default: u64) -> (r: u64)
    ensures
        r == field_unsigned(*doc, key@, default),
{
    match member(doc, key) {
        Some(value) => match as_u64(value) {
            Some(n) => n,
            None => default,
        },
        None => default,
    }
}

/// Reads the unsigned integer under `key` into a 32-bit field, with a
/// default. A number that does not fit the field is not of its type, and
/// gives the default.
pub fn read_word(doc: &serde_json::Value, key: &str, default: u32) -> (r: u32)
    ensures
        r == field_word(*doc, key@, default),
{
    match member(doc, key) {
        Some(value) => match as_u64(value) {
            Some(n) => if n <= 0xffff_ffff {
                n as u32
            } else {
                default
            },
            None => default,
        },
        None => default,
    }
}

/// Reads the text under `key`, with a default.
pub fn read_text(doc: &serde_json::Value, key: &str, default: &str) -> (r: String)
    ensures
        r@ == field_text(*doc, key@, default@),
{
    match member(doc, key) {
        Some(value) => match as_str(value) {
            Some(s) => String::from_str(s),
            None => String::from_str(default),
        },
        None => String::from_str(default),
    }
}

/// The status that a reply to a status request describes.
pub open spec fn status_of(doc: serde_json::Value) -> ServiceStatus {
    ServiceStatus {
        is_running: field_bool(doc, "is_running"@, false),
        real_time_protection: field_bool(doc, "real_time_protection"@, false),
        auto_scan_enabled: field_bool(doc, "auto_scan_enabled"@, false),
        last_scan_time: field_unsigned(doc, "last_scan_time"@, 0),
        last_update_time: field_unsigned(doc, "last_update_time"@, 0),
        database_version: field_word(doc, "database_version"@, 0),
        total_threats_blocked: field_word(doc, "total_threats_blocked"@, 0),
    }
}

/// The license that a reply to a license check describes.
pub open spec fn license_of(doc: serde_json::Value) -> LicenseInfoView {
    LicenseInfoView {
        is_valid: field_bool(doc, "is_valid"@, false),
        expires_at: field_unsigned(doc, "expires_at"@, 0),
        license_type: field_text(doc, "license_type"@, ""@),
        message: field_text(doc, "message"@, ""@),
    }
}

/// The outcome that a reply to an activation describes.
pub open spec fn activation_of(doc: serde_json::Value) -> ActivationResultView {
    ActivationResultView {
        activated: field_bool(doc, "activated"@, false),
        expires_at: field_unsigned(doc, "expires_at"@, 0),
        message: field_text(doc, "message"@, ""@),
    }
}

/// The settings that a settings object describes.
pub open spec fn settings_of(obj: serde_json::Value) -> SettingsView {
    SettingsView {
        real_time_protection: field_bool(obj, "real_time_protection"@, true),
        scan_on_access: field_bool(obj, "scan_on_access"@, true),
        scan_archives: field_bool(obj, "scan_archives"@, false),
        auto_update: field_bool(obj, "auto_update"@, true),
        scan_schedule: field_word(obj, "scan_schedule"@, 0),
        scan_time: field_word(obj, "scan_time"@, 2),
        quarantine_path: field_text(obj, "quarantine_path"@, ""@),
        exclusion_paths: field_text(obj, "exclusion_paths"@, ""@),
    }
}

/// The document has a `settings` member and that member is an object.
pub open spec fn has_settings_object(doc: serde_json::Value) -> bool {
    members(doc).contains_key("settings"@) && holds_object(members(doc)["settings"@])
}

/// The settings that a reply carries under `settings`, if it has that
/// member and the member is an object.
pub open spec fn settings_in(doc: serde_json::Value) -> Option<SettingsView> {
    if has_settings_object(doc) {
        Some(settings_of(members(doc)["settings"@]))
    } else {
        None
    }
}

/// Decodes the reply to an authentication request: the boolean under
/// `result`, and without one a service error that carries the reply's
/// `message`, or "Authentication failed" where it has none.
pub fn decode_authentication(doc: &serde_json::Value) -> (r: Result<bool, ServiceClientError>)
    ensures
        match member_bool(*doc, "result"@) {
            Some(b) => r == Ok::<bool, ServiceClientError>(b),
            None => r matches Err(ServiceClientError::ServiceError(m)) && m@ == field_text(
                *doc,
                "message"@,
                "Authentication failed"@,
            ),
        },
{
    match find_bool(doc, "result") {
        Some(b) => Ok(b),
        None => Err(
            ServiceClientError::ServiceError(read_text(doc, "message", "Authentication failed")),
        ),
    }
}

/// Decodes the reply to a license check. Every field has a default.
pub fn decode_license(doc: &serde_json::Value) -> (r: LicenseInfo)
    ensures
        r@ == license_of(*doc),
{
    LicenseInfo {
        is_valid: read_bool(doc, "is_valid", false),
        expires_at: read_unsigned(doc, "expires_at", 0),
        license_type: read_text(doc, "license_type", ""),
        message: read_text(doc, "message", ""),
    }
}

/// Decodes the reply to an activation request. Every field has a default.
pub fn decode_activation(doc: &serde_json::Value) -> (r: ActivationResult)
    ensures
        r@ == activation_of(*doc),
{
    ActivationResult {
        activated: read_bool(doc, "activated", false),
        expires_at: read_unsigned(doc, "expires_at", 0),
        message: read_text(doc, "message", ""),
    }
}

/// Decodes the reply to a scan request: the scan's identifier, empty where
/// the reply names none.
pub fn decode_scan_id(doc: &serde_json::Value) -> (r: String)
    ensures
        r@ == field_text(*doc, "scan_id"@, ""@),
{
    read_text(doc, "scan_id", "")
}

/// Decodes the reply to a status request. Every field has a default.
pub fn decode_status(doc: &serde_json::Value) -> (r: ServiceStatus)
    ensures
        r == status_of(*doc),
{
    ServiceStatus {
        is_running: read_bool(doc, "is_running", false),
        real_time_protection: read_bool(doc, "real_time_protection", false),
        auto_scan_enabled: read_bool(doc, "auto_scan_enabled", false),
        last_scan_time: read_unsigned(doc, "last_scan_time", 0),
        last_update_time: read_unsigned(doc, "last_update_time", 0),
        database_version: read_word(doc, "database_version", 0),
        total_threats_blocked: read_word(doc, "total_threats_blocked", 0),
    }
}

/// Decodes the reply to a request for the settings. A reply without a
/// settings object, because it has no `settings` member or the member is
/// something else, is an error; within the object every field has a default.
pub fn decode_settings(doc: &serde_json::Value) -> (r: Result<Settings, ServiceClientError>)
    ensures
        match settings_in(*doc) {
            Some(view) => r matches Ok(s) && s@ == view,
            None => r matches Err(ServiceClientError::ServiceError(m)) && m@
                == "No settings in response"@,
        },
{
    match member(doc, "settings") {
        Some(obj) => if is_object(obj) {
            Ok(
                Settings {
                    real_time_protection: read_bool(obj, "real_time_protection", true),
                    scan_on_access: read_bool(obj, "scan_on_access", true),
                    scan_archives: read_bool(obj, "scan_archives", false),
                    auto_update: read_bool(obj, "auto_update", true),
                    scan_schedule: read_word(obj, "scan_schedule", 0),
                    scan_time: read_word(obj, "scan_time", 2),
                    quarantine_path: read_text(obj, "quarantine_path", ""),
                    exclusion_paths: read_text(obj, "exclusion_paths", ""),
                },
            )
        } else {
            Err(ServiceClientError::ServiceError(String::from_str("No settings in response")))
        },
        None => Err(ServiceClientError::ServiceError(String::from_str("No settings in response"))),
    }
}

/// Decodes the reply to a change of the settings: the boolean under
/// `success`, `false` where there is none.
pub fn decode_update(doc: &serde_json::Value) -> (r: bool)
    ensures
        r == field_bool(*doc, "success"@, false),
{
    read_bool(doc, "success", false)
}

/// The keys that a status reply may carry.
pub open spec fn status_keys() -> Set<Seq<char>> {
    set![
        "is_running"@,
        "real_time_protection"@,
        "auto_scan_enabled"@,
        "last_scan_time"@,
        "last_update_time"@,
        "database_version"@,
        "total_threats_blocked"@,
    ]
}

/// The status in which every flag is off and every number is zero.
pub open spec fn status_at_rest() -> ServiceStatus {
    ServiceStatus {
        is_running: false,
        real_time_protection: false,
        auto_scan_enabled: false,
        last_scan_time: 0,
        last_update_time: 0,
        database_version: 0,
        total_threats_blocked: 0,
    }
}

/// The document has none of the status fields.
pub open spec fn lacks_status(doc: serde_json::Value) -> bool {
    forall|key: Seq<char>| status_keys().contains(key) ==> !members(doc).contains_key(key)
}

/// A reply that carries none of the status fields decodes to the status in
/// which every flag is off and every number is zero.
pub proof fn status_defaults(doc: serde_json::Value)
    requires
        lacks_status(doc),
    ensures
        status_of(doc) == status_at_rest(),
{
    assert(status_keys().contains("is_running"@));
    assert(status_keys().contains("real_time_protection"@));
    assert(status_keys().contains("auto_scan_enabled"@));
    assert(status_keys().contains("last_scan_time"@));
    assert(status_keys().contains("last_update_time"@));
    assert(status_keys().contains("database_version"@));
    assert(status_keys().contains("total_threats_blocked"@));
}

} // verus!
