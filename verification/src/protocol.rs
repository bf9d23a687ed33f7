//! The typed results of the protocol, and the mathematical view of each.

use vstd::prelude::*;

verus! {

/// The name of the pipe on which the service listens.
pub const PIPE_NAME: &'static str = "\\\\.\\pipe\\AntivirusService";

/// The state of a user's license.
#[derive(Debug, Clone, PartialEq, Eq)]
pub struct LicenseInfo {
    pub is_valid: bool,
    pub expires_at: u64,
    pub license_type: String,
    pub message: String,
}

pub ghost struct LicenseInfoView {
    pub is_valid: bool,
    pub expires_at: u64,
    pub license_type: Seq<char>,
    pub message: Seq<char>,
}

impl View for LicenseInfo {
    type V = LicenseInfoView;

    open spec fn view(&self) -> LicenseInfoView {
        LicenseInfoView {
            is_valid: self.is_valid,
            expires_at: self.expires_at,
            license_type: self.license_type@,
            message: self.message@,
        }
    }
}

/// The outcome of an attempt to activate a license.
#[derive(Debug, Clone, PartialEq, Eq)]
pub struct ActivationResult {
    pub activated: bool,
    pub expires_at: u64,
    pub message: String,
}

pub ghost struct ActivationResultView {
    pub activated: bool,
    pub expires_at: u64,
    pub message: Seq<char>,
}

impl View for ActivationResult {
    type V = ActivationResultView;

    open spec fn view(&self) -> ActivationResultView {
        ActivationResultView {
            activated: self.activated,
            expires_at: self.expires_at,
            message: self.message@,
        }
    }
}

/// What the service reports of itself.
#[derive(Debug, Clone, PartialEq, Eq)]
pub struct ServiceStatus {
    pub is_running: bool,
    pub real_time_protection: bool,
    pub auto_scan_enabled: bool,
    pub last_scan_time: u64,
    pub last_update_time: u64,
    pub database_version: u32,
    pub total_threats_blocked: u32,
}

/// The configuration of the service. `scan_schedule` is 0 (disabled),
/// 1 (daily) or 2 (weekly); `scan_time` is an hour of the day;
/// `exclusion_paths` is a list of paths joined by `;`.
#[derive(Debug, Clone, PartialEq, Eq)]
pub struct Settings {
    pub real_time_protection: bool,
    pub scan_on_access: bool,
    pub scan_archives: bool,
    pub auto_update: bool,
    pub scan_schedule: u32,
    pub scan_time: u32,
    pub quarantine_path: String,
    pub exclusion_paths: String,
}

pub ghost struct SettingsView {
    pub real_time_protection: bool,
    pub scan_on_access: bool,
    pub scan_archives: bool,
    pub auto_update: bool,
    pub scan_schedule: u32,
    pub scan_time: u32,
    pub quarantine_path: Seq<char>,
    pub exclusion_paths: Seq<char>,
}

impl View for Settings {
    type V = SettingsView;

    open spec fn view(&self) -> SettingsView {
        SettingsView {
            real_time_protection: self.real_time_protection,
            scan_on_access: self.scan_on_access,
            scan_archives: self.scan_archives,
            auto_update: self.auto_update,
            scan_schedule: self.scan_schedule,
            scan_time: self.scan_time,
            quarantine_path: self.quarantine_path@,
            exclusion_paths: self.exclusion_paths@,
        }
    }
}

impl SettingsView {
    /// The schedule is one of the three known ones and the hour is an hour.
    pub open spec fn valid(self) -> bool {
        self.scan_schedule <= 2 && self.scan_time <= 23
    }
}

impl Settings {
    /// Whether the schedule is one of the three known ones and the scan
    /// time is an hour of the day.
    pub fn is_valid(&self) -> (r: bool)
        ensures
            r == self@.valid(),
    {
        self.scan_schedule <= 2 && self.scan_time <= 23
    }
}

/// One threat that a scan found.
#[derive(Debug, Clone, PartialEq, Eq)]
pub struct ThreatInfo {
    pub file_path: String,
    pub threat_name: String,
    pub threat_level: u32,
    pub file_size: u64,
}

pub ghost struct ThreatInfoView {
    pub file_path: Seq<char>,
    pub threat_name: Seq<char>,
    pub threat_level: u32,
    pub file_size: u64,
}

impl View for ThreatInfo {
    type V = ThreatInfoView;

    open spec fn view(&self) -> ThreatInfoView {
        ThreatInfoView {
            file_path: self.file_path@,
            threat_name: self.threat_name@,
            threat_level: self.threat_level,
            file_size: self.file_size,
        }
    }
}

/// How far a running scan has come.
#[derive(Debug, Clone, PartialEq, Eq)]
pub struct ScanProgress {
    pub files_scanned: u32,
    pub threats_found: u32,
    pub progress_percent: u32,
    pub current_file: String,
}

pub ghost struct ScanProgressView {
    pub files_scanned: u32,
    pub threats_found: u32,
    pub progress_percent: u32,
    pub current_file: Seq<char>,
}

impl View for ScanProgress {
    type V = ScanProgressView;

    open spec fn view(&self) -> ScanProgressView {
        ScanProgressView {
            files_scanned: self.files_scanned,
            threats_found: self.threats_found,
            progress_percent: self.progress_percent,
            current_file: self.current_file@,
        }
    }
}

/// What a finished scan found, the threats in the order of their discovery.
#[derive(Debug, Clone, PartialEq, Eq)]
pub struct ScanResult {
    pub total_files: u32,
    pub total_threats: u32,
    pub threats: Vec<ThreatInfo>,
}

pub ghost struct ScanResultView {
    pub total_files: u32,
    pub total_threats: u32,
    pub threats: Seq<ThreatInfoView>,
}

impl View for ScanResult {
    type V = ScanResultView;

    open spec fn view(&self) -> ScanResultView {
        ScanResultView {
            total_files: self.total_files,
            total_threats: self.total_threats,
            threats: self.threats@.map_values(|t: ThreatInfo| t@),
        }
    }
}

} // verus!
