use cam_console::client::{interpret_create_user, interpret_delete_user, interpret_get_camera,
    interpret_get_cameras, interpret_get_logs, interpret_get_report, interpret_get_reports,
    interpret_get_settings, interpret_get_user, interpret_get_users, interpret_login,
    interpret_update_settings, interpret_update_user, FetchOutcome, Slice, StatusOutcome,
    ViewState};
use cam_console::models::{Camera, CameraStatus, LoginResponse, Settings, User, UserRole};

fn sample_user() -> User {
    User {
        id: "1".to_string(),
        username: "admin".to_string(),
        name: "Admin User".to_string(),
        email: "admin@example.com".to_string(),
        role: UserRole::SuperAdmin,
        active: true,
        last_login: "2025-02-25T14:30:00Z".to_string(),
    }
}

fn sample_camera() -> Camera {
    Camera {
        id: "101".to_string(),
        name: "Front Gate".to_string(),
        ip_address: "192.168.1.101".to_string(),
        port: 554,
        location: "Main Entrance".to_string(),
        active: true,
        status: CameraStatus::Online,
        last_update: "2025-02-25T14:35:00Z".to_string(),
    }
}

fn sample_settings() -> Settings {
    Settings {
        registered_to: "Jane Doe".to_string(),
        server_status: true,
        api_url: "api.example.com".to_string(),
        license_expiry: "2025-12-31".to_string(),
        theme: "light".to_string(),
        email_alerts: true,
        sms_alerts: false,
        refresh_interval: 10,
        app_version: "1.0.0".to_string(),
    }
}

#[test]
fn login_interpretation() {
    let body = LoginResponse { token: "mock-token-1".to_string(), user: sample_user() };
    let ok = interpret_login(FetchOutcome::Response(200, Ok(body.clone())));
    assert_eq!(ok, Ok(body));
    let unauthorized = interpret_login(FetchOutcome::Response(401, Err(String::new())));
    assert_eq!(unauthorized, Err("Invalid credentials".to_string()));
    let transport = interpret_login(FetchOutcome::Transport("connection refused".to_string()));
    assert_eq!(transport, Err("Request failed: connection refused".to_string()));
    let parse = interpret_login(FetchOutcome::Response(200, Err("missing field".to_string())));
    assert_eq!(parse, Err("Failed to parse response: missing field".to_string()));
}

#[test]
fn user_service_interpretation() {
    let users = vec![sample_user()];
    assert_eq!(interpret_get_users(FetchOutcome::Response(200, Ok(users.clone()))), Ok(users));
    assert_eq!(
        interpret_get_users(FetchOutcome::Response(500, Err(String::new()))),
        Err("Failed to get users".to_string())
    );
    assert_eq!(
        interpret_get_user(FetchOutcome::Response(404, Err(String::new()))),
        Err("User not found".to_string())
    );
    assert_eq!(
        interpret_get_user(FetchOutcome::Response(200, Ok(sample_user()))),
        Ok(sample_user())
    );
    assert_eq!(
        interpret_create_user(FetchOutcome::Response(500, Err(String::new()))),
        Err("Failed to create user".to_string())
    );
    assert_eq!(
        interpret_update_user(FetchOutcome::Response(404, Err(String::new()))),
        Err("Failed to update user".to_string())
    );
    assert_eq!(interpret_delete_user(StatusOutcome::Response(204)), Ok(()));
    assert_eq!(
        interpret_delete_user(StatusOutcome::Response(404)),
        Err("Failed to delete user".to_string())
    );
    assert_eq!(
        interpret_delete_user(StatusOutcome::Transport("timed out".to_string())),
        Err("Request failed: timed out".to_string())
    );
}

#[test]
fn camera_service_interpretation() {
    let cameras = vec![sample_camera()];
    assert_eq!(
        interpret_get_cameras(FetchOutcome::Response(200, Ok(cameras.clone()))),
        Ok(cameras)
    );
    assert_eq!(
        interpret_get_cameras(FetchOutcome::Response(502, Err(String::new()))),
        Err("Failed to get cameras".to_string())
    );
    assert_eq!(
        interpret_get_camera(FetchOutcome::Response(404, Err(String::new()))),
        Err("Camera not found".to_string())
    );
    assert_eq!(
        interpret_get_camera(FetchOutcome::Response(200, Ok(sample_camera()))),
        Ok(sample_camera())
    );
}

#[test]
fn log_report_settings_interpretation() {
    assert_eq!(
        interpret_get_logs(FetchOutcome::Response(500, Err(String::new()))),
        Err("Failed to get logs".to_string())
    );
    assert_eq!(interpret_get_logs(FetchOutcome::Response(200, Ok(vec![]))), Ok(vec![]));
    assert_eq!(
        interpret_get_reports(FetchOutcome::Response(500, Err(String::new()))),
        Err("Failed to get reports".to_string())
    );
    assert_eq!(
        interpret_get_report(FetchOutcome::Response(404, Err(String::new()))),
        Err("Report not found".to_string())
    );
    assert_eq!(
        interpret_get_settings(FetchOutcome::Response(200, Ok(sample_settings()))),
        Ok(sample_settings())
    );
    assert_eq!(
        interpret_get_settings(FetchOutcome::Response(500, Err(String::new()))),
        Err("Failed to get settings".to_string())
    );
    assert_eq!(interpret_update_settings(StatusOutcome::Response(200)), Ok(()));
    assert_eq!(
        interpret_update_settings(StatusOutcome::Response(500)),
        Err("Failed to update settings".to_string())
    );
    assert_eq!(
        interpret_get_settings(FetchOutcome::Transport("dns failure".to_string())),
        Err("Request failed: dns failure".to_string())
    );
}

#[test]
fn slice_apply_success_then_failure_keeps_data() {
    let mut slice: Slice<Vec<User>> = Slice::empty();
    assert!(!slice.is_loaded());
    assert!(slice.error.is_none());

    slice.apply(Ok(vec![sample_user()]));
    assert!(slice.is_loaded());
    assert_eq!(slice.data, Some(vec![sample_user()]));
    assert!(slice.error.is_none());

    // A later failure records the message but leaves the loaded data alone.
    slice.apply(Err("Failed to get users".to_string()));
    assert_eq!(slice.data, Some(vec![sample_user()]));
    assert_eq!(slice.error, Some("Failed to get users".to_string()));

    // A later success clears the error again.
    slice.apply(Ok(vec![]));
    assert_eq!(slice.data, Some(vec![]));
    assert!(slice.error.is_none());
}

#[test]
fn slice_failure_before_first_load_stays_unloaded() {
    let mut slice: Slice<Settings> = Slice::empty();
    slice.apply(Err("Failed to get settings".to_string()));
    assert!(!slice.is_loaded());
    assert_eq!(slice.error, Some("Failed to get settings".to_string()));
}

#[test]
fn view_state_slices_are_independent() {
    let mut state = ViewState::new();
    assert!(!state.users.is_loaded());
    assert!(!state.cameras.is_loaded());

    state.apply_users(Ok(vec![sample_user()]));
    state.apply_cameras(Err("Failed to get cameras".to_string()));
    state.apply_settings(Ok(sample_settings()));

    // One slice's failure does not block another's success.
    assert!(state.users.is_loaded());
    assert!(!state.cameras.is_loaded());
    assert_eq!(state.cameras.error, Some("Failed to get cameras".to_string()));
    assert!(state.settings.is_loaded());
    assert!(!state.logs.is_loaded());
    assert!(!state.reports.is_loaded());
    assert!(state.logs.error.is_none());
}
