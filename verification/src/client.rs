//! Client-side data services: the interpretation of fetch outcomes, and the
//! per-collection state slices the renderer reads.
//!
//! The browser runtime performs the actual requests and JSON decoding and
//! hands the library a plain outcome: either a transport failure with its
//! error text, or a response status together with what decoding the body
//! gave. Each operation maps a non-success status to its fixed,
//! operation-specific message — never the server's own error text — and a
//! transport failure to a message embedding the transport error. No retries
//! and no timeouts exist anywhere in this layer.

use vstd::prelude::*;
use vstd::string::StringExecFns;

use crate::models::{ActivityLog, Camera, LoginResponse, Report, Settings, User};

verus! {

/// What one fetch came back with: a response (status and the result of
/// decoding its body), or a transport failure with its error text.
pub enum FetchOutcome<T> {
    Response(u16, Result<T, String>),
    Transport(String),
}

/// What one body-less fetch came back with: a response status, or a
/// transport failure with its error text.
pub enum StatusOutcome {
    Response(u16),
    Transport(String),
}

/// Maps a fetch outcome to the decoded value or a human-readable error:
/// the expected status with a decoded body succeeds; the expected status
/// with a body that would not decode reads `Failed to parse response: `
/// and the decoder's text; any other status reads the fixed
/// `failure_message`; a transport failure reads `Request failed: ` and the
/// transport error.
pub fn interpret_fetch<T>(
    outcome: FetchOutcome<T>,
    success_status: u16,
    failure_message: &str,
) -> (r: Result<T, String>)
    ensures
        match outcome {
            FetchOutcome::Transport(e) => r matches Err(m) && m@ == "Request failed: "@ + e@,
            FetchOutcome::Response(status, body) => if status == success_status {
                match body {
                    Ok(d) => r == Ok::<T, String>(d),
                    Err(e) => r matches Err(m) && m@ == "Failed to parse response: "@ + e@,
                }
            } else {
                r matches Err(m) && m@ == failure_message@
            },
        },
{
    match outcome {
        FetchOutcome::Transport(e) => Err("Request failed: ".to_owned().concat(e.as_str())),
        FetchOutcome::Response(status, body) => {
            if status == success_status {
                match body {
                    Ok(d) => Ok(d),
                    Err(e) => Err("Failed to parse response: ".to_owned().concat(e.as_str())),
                }
            } else {
                Err(failure_message.to_owned())
            }
        },
    }
}

/// As `interpret_fetch`, for operations whose success carries no body: only
/// the status decides.
pub fn interpret_status_fetch(
    outcome: StatusOutcome,
    success_status: u16,
    failure_message: &str,
) -> (r: Result<(), String>)
    ensures
        match outcome {
            StatusOutcome::Transport(e) => r matches Err(m) && m@ == "Request failed: "@ + e@,
            StatusOutcome::Response(status) => if status == success_status {
                r == Ok::<(), String>(())
            } else {
                r matches Err(m) && m@ == failure_message@
            },
        },
{
    match outcome {
        StatusOutcome::Transport(e) => Err("Request failed: ".to_owned().concat(e.as_str())),
        StatusOutcome::Response(status) => {
            if status == success_status {
                Ok(())
            } else {
                Err(failure_message.to_owned())
            }
        },
    }
}

/// Interpretation of the login call: 200 succeeds; any other status reads
/// `Invalid credentials`.
pub fn interpret_login(outcome: FetchOutcome<LoginResponse>) -> (r: Result<LoginResponse, String>)
    ensures
        match outcome {
            FetchOutcome::Transport(e) => r matches Err(m) && m@ == "Request failed: "@ + e@,
            FetchOutcome::Response(status, body) => if status == 200u16 {
                match body {
                    Ok(d) => r == Ok::<LoginResponse, String>(d),
                    Err(e) => r matches Err(m) && m@ == "Failed to parse response: "@ + e@,
                }
            } else {
                r matches Err(m) && m@ == "Invalid credentials"@
            },
        },
{
    interpret_fetch(outcome, 200, "Invalid credentials")
}

/// Interpretation of the user-list fetch: 200 succeeds; any other status
/// reads `Failed to get users`.
pub fn interpret_get_users(outcome: FetchOutcome<Vec<User>>) -> (r: Result<Vec<User>, String>)
    ensures
        match outcome {
            FetchOutcome::Transport(e) => r matches Err(m) && m@ == "Request failed: "@ + e@,
            FetchOutcome::Response(status, body) => if status == 200u16 {
                match body {
                    Ok(d) => r == Ok::<Vec<User>, String>(d),
                    Err(e) => r matches Err(m) && m@ == "Failed to parse response: "@ + e@,
                }
            } else {
                r matches Err(m) && m@ == "Failed to get users"@
            },
        },
{
    interpret_fetch(outcome, 200, "Failed to get users")
}

/// Interpretation of a single-user fetch: 200 succeeds; any other status
/// reads `User not found`.
pub fn interpret_get_user(outcome: FetchOutcome<User>) -> (r: Result<User, String>)
    ensures
        match outcome {
            FetchOutcome::Transport(e) => r matches Err(m) && m@ == "Request failed: "@ + e@,
            FetchOutcome::Response(status, body) => if status == 200u16 {
                match body {
                    Ok(d) => r == Ok::<User, String>(d),
                    Err(e) => r matches Err(m) && m@ == "Failed to parse response: "@ + e@,
                }
            } else {
                r matches Err(m) && m@ == "User not found"@
            },
        },
{
    interpret_fetch(outcome, 200, "User not found")
}

/// Interpretation of a user creation: 200 succeeds; any other status reads
/// `Failed to create user`.
pub fn interpret_create_user(outcome: FetchOutcome<User>) -> (r: Result<User, String>)
    ensures
        match outcome {
            FetchOutcome::Transport(e) => r matches Err(m) && m@ == "Request failed: "@ + e@,
            FetchOutcome::Response(status, body) => if status == 200u16 {
                match body {
                    Ok(d) => r == Ok::<User, String>(d),
                    Err(e) => r matches Err(m) && m@ == "Failed to parse response: "@ + e@,
                }
            } else {
                r matches Err(m) && m@ == "Failed to create user"@
            },
        },
{
    interpret_fetch(outcome, 200, "Failed to create user")
}

/// Interpretation of a user update: 200 succeeds; any other status reads
/// `Failed to update user`.
pub fn interpret_update_user(outcome: FetchOutcome<User>) -> (r: Result<User, String>)
    ensures
        match outcome {
            FetchOutcome::Transport(e) => r matches Err(m) && m@ == "Request failed: "@ + e@,
            FetchOutcome::Response(status, body) => if status == 200u16 {
                match body {
                    Ok(d) => r == Ok::<User, String>(d),
                    Err(e) => r matches Err(m) && m@ == "Failed to parse response: "@ + e@,
                }
            } else {
                r matches Err(m) && m@ == "Failed to update user"@
            },
        },
{
    interpret_fetch(outcome, 200, "Failed to update user")
}

/// Interpretation of a user deletion: 204 succeeds with no body; any other
/// status reads `Failed to delete user`.
pub fn interpret_delete_user(outcome: StatusOutcome) -> (r: Result<(), String>)
    ensures
        match outcome {
            StatusOutcome::Transport(e) => r matches Err(m) && m@ == "Request failed: "@ + e@,
            StatusOutcome::Response(status) => if status == 204u16 {
                r == Ok::<(), String>(())
            } else {
                r matches Err(m) && m@ == "Failed to delete user"@
            },
        },
{
    interpret_status_fetch(outcome, 204, "Failed to delete user")
}

/// Interpretation of the camera-list fetch: 200 succeeds; any other status
/// reads `Failed to get cameras`.
pub fn interpret_get_cameras(outcome: FetchOutcome<Vec<Camera>>) -> (r: Result<Vec<Camera>, String>)
    ensures
        match outcome {
            FetchOutcome::Transport(e) => r matches Err(m) && m@ == "Request failed: "@ + e@,
            FetchOutcome::Response(status, body) => if status == 200u16 {
                match body {
                    Ok(d) => r == Ok::<Vec<Camera>, String>(d),
                    Err(e) => r matches Err(m) && m@ == "Failed to parse response: "@ + e@,
                }
            } else {
                r matches Err(m) && m@ == "Failed to get cameras"@
            },
        },
{
    interpret_fetch(outcome, 200, "Failed to get cameras")
}

/// Interpretation of a single-camera fetch: 200 succeeds; any other status
/// reads `Camera not found`.
pub fn interpret_get_camera(outcome: FetchOutcome<Camera>) -> (r: Result<Camera, String>)
    ensures
        match outcome {
            FetchOutcome::Transport(e) => r matches Err(m) && m@ == "Request failed: "@ + e@,
            FetchOutcome::Response(status, body) => if status == 200u16 {
                match body {
                    Ok(d) => r == Ok::<Camera, String>(d),
                    Err(e) => r matches Err(m) && m@ == "Failed to parse response: "@ + e@,
                }
            } else {
                r matches Err(m) && m@ == "Camera not found"@
            },
        },
{
    interpret_fetch(outcome, 200, "Camera not found")
}

/// Interpretation of the activity-log fetch: 200 succeeds; any other status
/// reads `Failed to get logs`.
pub fn interpret_get_logs(outcome: FetchOutcome<Vec<ActivityLog>>) -> (r: Result<
    Vec<ActivityLog>,
    String,
>)
    ensures
        match outcome {
            FetchOutcome::Transport(e) => r matches Err(m) && m@ == "Request failed: "@ + e@,
            FetchOutcome::Response(status, body) => if status == 200u16 {
                match body {
                    Ok(d) => r == Ok::<Vec<ActivityLog>, String>(d),
                    Err(e) => r matches Err(m) && m@ == "Failed to parse response: "@ + e@,
                }
            } else {
                r matches Err(m) && m@ == "Failed to get logs"@
            },
        },
{
    interpret_fetch(outcome, 200, "Failed to get logs")
}

/// Interpretation of the report-list fetch: 200 succeeds; any other status
/// reads `Failed to get reports`.
pub fn interpret_get_reports(outcome: FetchOutcome<Vec<Report>>) -> (r: Result<Vec<Report>, String>)
    ensures
        match outcome {
            FetchOutcome::Transport(e) => r matches Err(m) && m@ == "Request failed: "@ + e@,
            FetchOutcome::Response(status, body) => if status == 200u16 {
                match body {
                    Ok(d) => r == Ok::<Vec<Report>, String>(d),
                    Err(e) => r matches Err(m) && m@ == "Failed to parse response: "@ + e@,
                }
            } else {
                r matches Err(m) && m@ == "Failed to get reports"@
            },
        },
{
    interpret_fetch(outcome, 200, "Failed to get reports")
}

/// Interpretation of a single-report fetch: 200 succeeds; any other status
/// reads `Report not found`.
pub fn interpret_get_report(outcome: FetchOutcome<Report>) -> (r: Result<Report, String>)
    ensures
        match outcome {
            FetchOutcome::Transport(e) => r matches Err(m) && m@ == "Request failed: "@ + e@,
            FetchOutcome::Response(status, body) => if status == 200u16 {
                match body {
                    Ok(d) => r == Ok::<Report, String>(d),
                    Err(e) => r matches Err(m) && m@ == "Failed to parse response: "@ + e@,
                }
            } else {
                r matches Err(m) && m@ == "Report not found"@
            },
        },
{
    interpret_fetch(outcome, 200, "Report not found")
}

/// Interpretation of the settings fetch: 200 succeeds; any other status
/// reads `Failed to get settings`.
pub fn interpret_get_settings(outcome: FetchOutcome<Settings>) -> (r: Result<Settings, String>)
    ensures
        match outcome {
            FetchOutcome::Transport(e) => r matches Err(m) && m@ == "Request failed: "@ + e@,
            FetchOutcome::Response(status, body) => if status == 200u16 {
                match body {
                    Ok(d) => r == Ok::<Settings, String>(d),
                    Err(e) => r matches Err(m) && m@ == "Failed to parse response: "@ + e@,
                }
            } else {
                r matches Err(m) && m@ == "Failed to get settings"@
            },
        },
{
    interpret_fetch(outcome, 200, "Failed to get settings")
}

/// Interpretation of a settings replace: 200 succeeds with no body; any
/// other status reads `Failed to update settings`.
pub fn interpret_update_settings(outcome: StatusOutcome) -> (r: Result<(), String>)
    ensures
        match outcome {
            StatusOutcome::Transport(e) => r matches Err(m) && m@ == "Request failed: "@ + e@,
            StatusOutcome::Response(status) => if status == 200u16 {
                r == Ok::<(), String>(())
            } else {
                r matches Err(m) && m@ == "Failed to update settings"@
            },
        },
{
    interpret_status_fetch(outcome, 200, "Failed to update settings")
}

/// One named subset of UI state, populated by exactly one fetch: the data
/// once it has loaded, and the error message of the last failed fetch.
pub struct Slice<T> {
    pub data: Option<T>,
    pub error: Option<String>,
}

/// The slice after one fetch outcome is folded in: success replaces the
/// data and clears the error; failure keeps the prior data and records the
/// message.
pub open spec fn slice_after<T>(s: Slice<T>, outcome: Result<T, String>) -> Slice<T> {
    match outcome {
        Ok(d) => Slice { data: Some(d), error: None },
        Err(e) => Slice { data: s.data, error: Some(e) },
    }
}

impl<T> Slice<T> {
    /// A slice that has not loaded yet: no data, no error.
    pub fn empty() -> (r: Self)
        ensures
            r.data is None,
            r.error is None,
    {
        Slice { data: None, error: None }
    }

    /// Folds one fetch outcome in. A failure leaves the prior data in
    /// place, so a slice that loaded once stays usable.
    pub fn apply(&mut self, outcome: Result<T, String>)
        ensures
            *final(self) == slice_after(*old(self), outcome),
    {
        match outcome {
            Ok(d) => {
                self.data = Some(d);
                self.error = None;
            },
            Err(e) => {
                self.error = Some(e);
            },
        }
    }

    /// Whether the slice has loaded at least once; until then the renderer
    /// shows this collection's loading placeholder.
    pub fn is_loaded(&self) -> (r: bool)
        ensures
            r == (self.data is Some),
    {
        self.data.is_some()
    }
}

/// The view state the renderer reads: one slice per collection. The five
/// slices are filled by five independent fetches; no fetch is ordered
/// relative to another, and one slice's failure never touches another's
/// state.
pub struct ViewState {
    pub users: Slice<Vec<User>>,
    pub cameras: Slice<Vec<Camera>>,
    pub logs: Slice<Vec<ActivityLog>>,
    pub reports: Slice<Vec<Report>>,
    pub settings: Slice<Settings>,
}

impl ViewState {
    /// The state at mount: nothing loaded yet.
    pub fn new() -> (r: Self)
        ensures
            r.users.data is None && r.users.error is None,
            r.cameras.data is None && r.cameras.error is None,
            r.logs.data is None && r.logs.error is None,
            r.reports.data is None && r.reports.error is None,
            r.settings.data is None && r.settings.error is None,
    {
        ViewState {
            users: Slice::empty(),
            cameras: Slice::empty(),
            logs: Slice::empty(),
            reports: Slice::empty(),
            settings: Slice::empty(),
        }
    }

    /// Folds the user fetch in; the other slices are untouched.
    pub fn apply_users(&mut self, outcome: Result<Vec<User>, String>)
        ensures
            final(self).users == slice_after(old(self).users, outcome),
            final(self).cameras == old(self).cameras,
            final(self).logs == old(self).logs,
            final(self).reports == old(self).reports,
            final(self).settings == old(self).settings,
    {
        self.users.apply(outcome);
    }

    /// Folds the camera fetch in; the other slices are untouched.
    pub fn apply_cameras(&mut self, outcome: Result<Vec<Camera>, String>)
        ensures
            final(self).cameras == slice_after(old(self).cameras, outcome),
            final(self).users == old(self).users,
            final(self).logs == old(self).logs,
            final(self).reports == old(self).reports,
            final(self).settings == old(self).settings,
    {
        self.cameras.apply(outcome);
    }

    /// Folds the activity-log fetch in; the other slices are untouched.
    pub fn apply_logs(&mut self, outcome: Result<Vec<ActivityLog>, String>)
        ensures
            final(self).logs == slice_after(old(self).logs, outcome),
            final(self).users == old(self).users,
            final(self).cameras == old(self).cameras,
            final(self).reports == old(self).reports,
            final(self).settings == old(self).settings,
    {
        self.logs.apply(outcome);
    }

    /// Folds the report fetch in; the other slices are untouched.
    pub fn apply_reports(&mut self, outcome: Result<Vec<Report>, String>)
        ensures
            final(self).reports == slice_after(old(self).reports, outcome),
            final(self).users == old(self).users,
            final(self).cameras == old(self).cameras,
            final(self).logs == old(self).logs,
            final(self).settings == old(self).settings,
    {
        self.reports.apply(outcome);
    }

    /// Folds the settings fetch in; the other slices are untouched.
    pub fn apply_settings(&mut self, outcome: Result<Settings, String>)
        ensures
            final(self).settings == slice_after(old(self).settings, outcome),
            final(self).users == old(self).users,
            final(self).cameras == old(self).cameras,
            final(self).logs == old(self).logs,
            final(self).reports == old(self).reports,
    {
        self.settings.apply(outcome);
    }
}

} // verus!
