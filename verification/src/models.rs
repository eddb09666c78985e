//! Record types of the console: users, cameras, activity logs, reports and
//! the singleton settings, together with the login message types.

use vstd::prelude::*;

use crate::table::Record;

verus! {

/// Role of a user account; a closed enumeration.
#[derive(Clone, Copy, Debug, PartialEq, Eq, Structural)]
pub enum UserRole {
    SuperAdmin,
    Admin,
    Viewer,
}

impl UserRole {
    /// Human-readable label shown in the user table.
    pub fn label(&self) -> (r: &'static str)
        ensures
            *self == UserRole::SuperAdmin ==> r@ == "Super Admin"@,
            *self == UserRole::Admin ==> r@ == "Admin"@,
            *self == UserRole::Viewer ==> r@ == "Viewer"@,
    {
        match self {
            UserRole::SuperAdmin => "Super Admin",
            UserRole::Admin => "Admin",
            UserRole::Viewer => "Viewer",
        }
    }
}

/// A user account record. The `id` is the caller-supplied key.
#[derive(Debug, PartialEq, Eq)]
pub struct User {
    pub id: String,
    pub username: String,
    pub name: String,
    pub email: String,
    pub role: UserRole,
    pub active: bool,
    pub last_login: String,
}

impl Clone for User {
    fn clone(&self) -> (r: Self)
        ensures
            r == *self,
    {
        User {
            id: self.id.clone(),
            username: self.username.clone(),
            name: self.name.clone(),
            email: self.email.clone(),
            role: self.role,
            active: self.active,
            last_login: self.last_login.clone(),
        }
    }
}

/// Reachability status of a camera; independent of the `active` flag.
#[derive(Clone, Copy, Debug, PartialEq, Eq, Structural)]
pub enum CameraStatus {
    Online,
    Offline,
    Maintenance,
}

impl CameraStatus {
    /// Human-readable label shown in camera tables.
    pub fn label(&self) -> (r: &'static str)
        ensures
            *self == CameraStatus::Online ==> r@ == "Online"@,
            *self == CameraStatus::Offline ==> r@ == "Offline"@,
            *self == CameraStatus::Maintenance ==> r@ == "Maintenance"@,
    {
        match self {
            CameraStatus::Online => "Online",
            CameraStatus::Offline => "Offline",
            CameraStatus::Maintenance => "Maintenance",
        }
    }

    /// CSS class of the status indicator for this status.
    pub fn css_class(&self) -> (r: &'static str)
        ensures
            *self == CameraStatus::Online ==> r@ == "status-online"@,
            *self == CameraStatus::Offline ==> r@ == "status-offline"@,
            *self == CameraStatus::Maintenance ==> r@ == "status-maintenance"@,
    {
        match self {
            CameraStatus::Online => "status-online",
            CameraStatus::Offline => "status-offline",
            CameraStatus::Maintenance => "status-maintenance",
        }
    }
}

/// A camera record. The `id` is the caller-supplied key.
#[derive(Debug, PartialEq, Eq)]
pub struct Camera {
    pub id: String,
    pub name: String,
    pub ip_address: String,
    pub port: u16,
    pub location: String,
    pub active: bool,
    pub status: CameraStatus,
    pub last_update: String,
}

impl Clone for Camera {
    fn clone(&self) -> (r: Self)
        ensures
            r == *self,
    {
        Camera {
            id: self.id.clone(),
            name: self.name.clone(),
            ip_address: self.ip_address.clone(),
            port: self.port,
            location: self.location.clone(),
            active: self.active,
            status: self.status,
            last_update: self.last_update.clone(),
        }
    }
}

/// One entry of the append-only activity log. `user_id` is an unchecked
/// reference to a user record.
#[derive(Debug, PartialEq, Eq)]
pub struct ActivityLog {
    pub id: String,
    pub timestamp: String,
    pub user_id: String,
    pub action: String,
    pub target: String,
    pub details: String,
}

impl Clone for ActivityLog {
    fn clone(&self) -> (r: Self)
        ensures
            r == *self,
    {
        ActivityLog {
            id: self.id.clone(),
            timestamp: self.timestamp.clone(),
            user_id: self.user_id.clone(),
            action: self.action.clone(),
            target: self.target.clone(),
            details: self.details.clone(),
        }
    }
}

/// Kind of a generated report; a closed enumeration.
#[derive(Clone, Copy, Debug, PartialEq, Eq, Structural)]
pub enum ReportType {
    UsageSummary,
    CameraStatus,
    UserActivity,
}

/// File format of a generated report.
#[derive(Clone, Copy, Debug, PartialEq, Eq, Structural)]
pub enum ReportFormat {
    PDF,
    CSV,
}

/// A report record; append-only. `created_by` is an unchecked reference to a
/// user record, and `url` is a static string.
#[derive(Debug, PartialEq, Eq)]
pub struct Report {
    pub id: String,
    pub name: String,
    pub type_: ReportType,
    pub created_at: String,
    pub created_by: String,
    pub period: String,
    pub format: ReportFormat,
    pub url: String,
}

impl Clone for Report {
    fn clone(&self) -> (r: Self)
        ensures
            r == *self,
    {
        Report {
            id: self.id.clone(),
            name: self.name.clone(),
            type_: self.type_,
            created_at: self.created_at.clone(),
            created_by: self.created_by.clone(),
            period: self.period.clone(),
            format: self.format,
            url: self.url.clone(),
        }
    }
}

/// The singleton settings record: exactly one instance per process, always
/// present, never deleted.
#[derive(Debug, PartialEq, Eq)]
pub struct Settings {
    pub registered_to: String,
    pub server_status: bool,
    pub api_url: String,
    pub license_expiry: String,
    pub theme: String,
    pub email_alerts: bool,
    pub sms_alerts: bool,
    pub refresh_interval: u32,
    pub app_version: String,
}

impl Clone for Settings {
    fn clone(&self) -> (r: Self)
        ensures
            r == *self,
    {
        Settings {
            registered_to: self.registered_to.clone(),
            server_status: self.server_status,
            api_url: self.api_url.clone(),
            license_expiry: self.license_expiry.clone(),
            theme: self.theme.clone(),
            email_alerts: self.email_alerts,
            sms_alerts: self.sms_alerts,
            refresh_interval: self.refresh_interval,
            app_version: self.app_version.clone(),
        }
    }
}

impl Record for User {
    fn duplicate(&self) -> (r: Self) {
        self.clone()
    }
}

impl Record for Camera {
    fn duplicate(&self) -> (r: Self) {
        self.clone()
    }
}

impl Record for ActivityLog {
    fn duplicate(&self) -> (r: Self) {
        self.clone()
    }
}

impl Record for Report {
    fn duplicate(&self) -> (r: Self) {
        self.clone()
    }
}

impl Record for Settings {
    fn duplicate(&self) -> (r: Self) {
        self.clone()
    }
}

/// Credentials presented to the login endpoint.
#[derive(Debug, PartialEq, Eq)]
pub struct LoginRequest {
    pub username: String,
    pub password: String,
}

impl Clone for LoginRequest {
    fn clone(&self) -> (r: Self)
        ensures
            r == *self,
    {
        LoginRequest { username: self.username.clone(), password: self.password.clone() }
    }
}

/// Successful login answer: a mock session token and the user record.
#[derive(Debug, PartialEq, Eq)]
pub struct LoginResponse {
    pub token: String,
    pub user: User,
}

impl Clone for LoginResponse {
    fn clone(&self) -> (r: Self)
        ensures
            r == *self,
    {
        LoginResponse { token: self.token.clone(), user: self.user.clone() }
    }
}

/// A human-readable error message carried back to a caller.
#[derive(Debug, PartialEq, Eq)]
pub struct ApiError {
    pub message: String,
}

impl Clone for ApiError {
    fn clone(&self) -> (r: Self)
        ensures
            r == *self,
    {
        ApiError { message: self.message.clone() }
    }
}

} // verus!
