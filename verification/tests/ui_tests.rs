use cam_console::models::{Camera, CameraStatus, UserRole};
use cam_console::ui::{count_online, mock_cameras, mock_users, Page, Route, UiChrome};

#[test]
fn page_titles_and_icons() {
    assert_eq!(Page::Home.to_string(), "Dashboard");
    assert_eq!(Page::Users.to_string(), "Users");
    assert_eq!(Page::Cameras.to_string(), "Cameras");
    assert_eq!(Page::Reports.to_string(), "Reports");
    assert_eq!(Page::Logs.to_string(), "Activity Logs");
    assert_eq!(Page::Settings.to_string(), "Settings");
    assert_eq!(Page::Home.icon(), "fa-home");
    assert_eq!(Page::Users.icon(), "fa-users");
    assert_eq!(Page::Cameras.icon(), "fa-video");
    assert_eq!(Page::Reports.icon(), "fa-chart-bar");
    assert_eq!(Page::Logs.icon(), "fa-history");
    assert_eq!(Page::Settings.icon(), "fa-cog");
}

#[test]
fn default_route_is_home() {
    assert_eq!(Route::default(), Route::Home);
}

#[test]
fn role_and_status_labels() {
    assert_eq!(UserRole::SuperAdmin.label(), "Super Admin");
    assert_eq!(UserRole::Admin.label(), "Admin");
    assert_eq!(UserRole::Viewer.label(), "Viewer");
    assert_eq!(CameraStatus::Online.label(), "Online");
    assert_eq!(CameraStatus::Offline.label(), "Offline");
    assert_eq!(CameraStatus::Maintenance.label(), "Maintenance");
    assert_eq!(CameraStatus::Online.css_class(), "status-online");
    assert_eq!(CameraStatus::Offline.css_class(), "status-offline");
    assert_eq!(CameraStatus::Maintenance.css_class(), "status-maintenance");
}

#[test]
fn chrome_toggles_are_local_and_independent() {
    let mut chrome = UiChrome::new();
    assert_eq!(chrome.current_page, Page::Home);
    assert!(!chrome.drawer_open);
    assert!(!chrome.dark_mode);

    chrome.toggle_drawer();
    assert!(chrome.drawer_open);
    assert!(!chrome.dark_mode);

    chrome.toggle_dark_mode();
    assert!(chrome.dark_mode);
    assert!(chrome.drawer_open);

    chrome.set_page(Page::Cameras);
    assert_eq!(chrome.current_page, Page::Cameras);
    assert!(chrome.drawer_open);

    chrome.toggle_drawer();
    assert!(!chrome.drawer_open);
    chrome.toggle_dark_mode();
    assert!(!chrome.dark_mode);
}

#[test]
fn dashboard_online_count() {
    let mut cameras: Vec<Camera> = mock_cameras();
    // The fixtures hold exactly one online camera.
    assert_eq!(count_online(&cameras), 1);
    assert_eq!(count_online(&Vec::new()), 0);
    cameras[1].status = CameraStatus::Online;
    assert_eq!(count_online(&cameras), 2);
}

#[test]
fn camera_fixtures_hold_three_records() {
    let cameras = mock_cameras();
    assert_eq!(cameras.len(), 3);
    assert_eq!(cameras[0].id, "camera1");
    assert_eq!(cameras[0].name, "Front Door");
    assert_eq!(cameras[0].port, 8080);
    assert_eq!(cameras[1].status, CameraStatus::Offline);
    assert_eq!(cameras[2].id, "camera3");
    assert_eq!(cameras[2].active, false);
}

#[test]
fn user_fixtures_hold_four_records() {
    let users = mock_users();
    assert_eq!(users.len(), 4);
    assert_eq!(users[0].username, "admin");
    assert_eq!(users[0].role, UserRole::SuperAdmin);
    assert_eq!(users[1].name, "Jane Smith");
    assert_eq!(users[3].username, "alice");
    assert_eq!(users[3].active, false);
}
