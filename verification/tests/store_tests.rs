use cam_console::models::{ActivityLog, Camera, CameraStatus, Report, ReportFormat, ReportType,
    Settings, User, UserRole};
use cam_console::store::MockData;

fn sample_user(id: &str, username: &str) -> User {
    User {
        id: id.to_string(),
        username: username.to_string(),
        name: "Sample User".to_string(),
        email: "sample@example.com".to_string(),
        role: UserRole::Viewer,
        active: true,
        last_login: "2025-03-01T00:00:00Z".to_string(),
    }
}

fn sample_camera(id: &str, name: &str) -> Camera {
    Camera {
        id: id.to_string(),
        name: name.to_string(),
        ip_address: "192.168.1.200".to_string(),
        port: 554,
        location: "Annex".to_string(),
        active: true,
        status: CameraStatus::Online,
        last_update: "2025-03-01T00:00:00Z".to_string(),
    }
}

#[test]
fn seeded_users_are_exactly_three_in_stable_order() {
    let store = MockData::new();
    let users = store.get_users();
    assert_eq!(users.len(), 3);
    assert_eq!(users[0].id, "1");
    assert_eq!(users[0].username, "admin");
    assert_eq!(users[0].role, UserRole::SuperAdmin);
    assert_eq!(users[1].id, "2");
    assert_eq!(users[1].username, "jdoe");
    assert_eq!(users[2].id, "3");
    assert_eq!(users[2].username, "asmith");
    // Absent writes, repeated calls return the same records in the same order.
    let again = store.get_users();
    assert_eq!(users, again);
}

#[test]
fn seeded_cameras_are_exactly_four() {
    let store = MockData::new();
    let cameras = store.get_cameras();
    assert_eq!(cameras.len(), 4);
    assert_eq!(cameras[0].id, "101");
    assert_eq!(cameras[0].name, "Front Gate");
    assert_eq!(cameras[0].status, CameraStatus::Online);
    assert_eq!(cameras[1].id, "102");
    assert_eq!(cameras[1].active, false);
    assert_eq!(cameras[2].id, "103");
    assert_eq!(cameras[3].id, "104");
    assert_eq!(cameras[3].status, CameraStatus::Maintenance);
}

#[test]
fn seeded_logs_and_reports_and_settings() {
    let store = MockData::new();
    let logs = store.get_activity_logs();
    assert_eq!(logs.len(), 4);
    assert_eq!(logs[0].id, "1001");
    assert_eq!(logs[0].action, "EDIT_CAMERA");
    assert_eq!(logs[3].id, "1004");
    let reports = store.get_reports();
    assert_eq!(reports.len(), 3);
    assert_eq!(reports[0].id, "2001");
    assert_eq!(reports[0].format, ReportFormat::PDF);
    assert_eq!(reports[1].type_, ReportType::CameraStatus);
    let settings = store.get_settings();
    assert_eq!(settings.registered_to, "Jane Doe");
    assert_eq!(settings.refresh_interval, 10);
    assert_eq!(settings.theme, "light");
}

#[test]
fn create_then_get_returns_same_record() {
    let mut store = MockData::new();
    let user = sample_user("42", "sampler");
    let returned = store.create_user(user.clone());
    assert_eq!(returned, user);
    let fetched = store.get_user("42");
    assert_eq!(fetched, Some(user));

    let camera = sample_camera("205", "Annex Cam");
    store.create_camera(camera.clone());
    assert_eq!(store.get_camera("205"), Some(camera));
}

#[test]
fn update_missing_id_is_not_found_and_no_insert() {
    let mut store = MockData::new();
    let before = store.get_users().len();
    let result = store.update_user("99", sample_user("99", "ghost"));
    assert!(result.is_none());
    assert_eq!(store.get_users().len(), before);
    assert!(store.get_user("99").is_none());

    let result = store.update_camera("999", sample_camera("999", "Ghost Cam"));
    assert!(result.is_none());
    assert_eq!(store.get_cameras().len(), 4);
}

#[test]
fn update_existing_id_replaces_record() {
    let mut store = MockData::new();
    let replacement = sample_user("2", "jdoe2");
    let result = store.update_user("2", replacement.clone());
    assert_eq!(result, Some(replacement.clone()));
    assert_eq!(store.get_user("2"), Some(replacement));
    assert_eq!(store.get_users().len(), 3);
}

#[test]
fn delete_semantics() {
    let mut store = MockData::new();
    // Missing id: false.
    assert!(!store.delete_user("99"));
    assert_eq!(store.get_users().len(), 3);
    // Existing id: true, and a subsequent get is not-found.
    assert!(store.delete_user("2"));
    assert!(store.get_user("2").is_none());
    assert_eq!(store.get_users().len(), 2);
    // A second delete of the same id: false.
    assert!(!store.delete_user("2"));
}

#[test]
fn create_with_colliding_id_overwrites_whole_record() {
    let mut store = MockData::new();
    let mut replacement = sample_user("1", "other");
    replacement.name = "Replacement".to_string();
    replacement.email = "other@example.com".to_string();
    replacement.role = UserRole::Viewer;
    store.create_user(replacement.clone());
    // No field-level merge: the stored record is the replacement, whole.
    assert_eq!(store.get_user("1"), Some(replacement));
    assert_eq!(store.get_users().len(), 3);
}

#[test]
fn creates_with_distinct_ids_both_persist() {
    let mut store = MockData::new();
    let a = sample_camera("301", "First");
    let b = sample_camera("302", "Second");
    store.create_camera(a.clone());
    store.create_camera(b.clone());
    assert_eq!(store.get_camera("301"), Some(a));
    assert_eq!(store.get_camera("302"), Some(b));
}

#[test]
fn activity_log_append_only() {
    let mut store = MockData::new();
    let log = ActivityLog {
        id: "1005".to_string(),
        timestamp: "2025-03-01T00:00:00Z".to_string(),
        user_id: "1".to_string(),
        action: "LOGIN".to_string(),
        target: "Session".to_string(),
        details: "Signed in".to_string(),
    };
    store.add_activity_log(log.clone());
    let logs = store.get_activity_logs();
    assert_eq!(logs.len(), 5);
    assert_eq!(logs[4], log);
}

#[test]
fn report_lookup_finds_first_match() {
    let mut store = MockData::new();
    assert_eq!(store.get_report("2002").map(|r| r.name), Some("Camera_Status_Q1_2025".to_string()));
    assert!(store.get_report("2999").is_none());
    // Reports are append-only with no key uniqueness: a duplicate id still
    // resolves to the first match.
    let duplicate = Report {
        id: "2002".to_string(),
        name: "Duplicate".to_string(),
        type_: ReportType::UsageSummary,
        created_at: "2025-03-01T00:00:00Z".to_string(),
        created_by: "1".to_string(),
        period: "March 2025".to_string(),
        format: ReportFormat::CSV,
        url: "/api/reports/2002/download".to_string(),
    };
    store.add_report(duplicate);
    assert_eq!(store.get_report("2002").map(|r| r.name), Some("Camera_Status_Q1_2025".to_string()));
    assert_eq!(store.get_reports().len(), 4);
}

#[test]
fn settings_replace_whole() {
    let mut store = MockData::new();
    let new_settings = Settings {
        registered_to: "New Owner".to_string(),
        server_status: false,
        api_url: "api.other.example".to_string(),
        license_expiry: "2026-12-31".to_string(),
        theme: "dark".to_string(),
        email_alerts: false,
        sms_alerts: true,
        refresh_interval: 30,
        app_version: "1.1.0".to_string(),
    };
    store.update_settings(new_settings.clone());
    assert_eq!(store.get_settings(), new_settings);
}

#[test]
fn update_stores_under_path_id_not_body_id() {
    let mut store = MockData::new();
    // The record body carries a different id than the path: the store keeps
    // filing the record under the path id, as the keyed map does.
    let body = sample_user("7", "drifter");
    let result = store.update_user("3", body.clone());
    assert_eq!(result, Some(body.clone()));
    assert_eq!(store.get_user("3"), Some(body));
    assert!(store.get_user("7").is_none());
}
