//! Local UI state and pure view helpers: page selection, drawer and theme
//! chrome, the dashboard's camera count, and the development fixtures the
//! camera page renders. None of this touches the server: page navigation,
//! drawer open/close and dark mode are purely local state.

use vstd::prelude::*;

use crate::models::{Camera, CameraStatus, User, UserRole};

verus! {

/// Top-level client route.
#[derive(Clone, Copy, Debug, PartialEq, Eq, Structural)]
pub enum Route {
    Home,
    Login,
}

impl Default for Route {
    /// The route shown before any navigation.
    fn default() -> (r: Self)
        ensures
            r == Route::Home,
    {
        Route::Home
    }
}

/// The page the renderer currently shows.
#[derive(Clone, Copy, Debug, PartialEq, Eq, Structural)]
pub enum Page {
    Home,
    Users,
    Cameras,
    Reports,
    Logs,
    Settings,
}

impl Page {
    /// The title shown in the header for this page.
    pub fn to_string(&self) -> (r: String)
        ensures
            *self == Page::Home ==> r@ == "Dashboard"@,
            *self == Page::Users ==> r@ == "Users"@,
            *self == Page::Cameras ==> r@ == "Cameras"@,
            *self == Page::Reports ==> r@ == "Reports"@,
            *self == Page::Logs ==> r@ == "Activity Logs"@,
            *self == Page::Settings ==> r@ == "Settings"@,
    {
        match self {
            Page::Home => "Dashboard".to_owned(),
            Page::Users => "Users".to_owned(),
            Page::Cameras => "Cameras".to_owned(),
            Page::Reports => "Reports".to_owned(),
            Page::Logs => "Activity Logs".to_owned(),
            Page::Settings => "Settings".to_owned(),
        }
    }

    /// The icon class of this page's navigation item.
    pub fn icon(&self) -> (r: String)
        ensures
            *self == Page::Home ==> r@ == "fa-home"@,
            *self == Page::Users ==> r@ == "fa-users"@,
            *self == Page::Cameras ==> r@ == "fa-video"@,
            *self == Page::Reports ==> r@ == "fa-chart-bar"@,
            *self == Page::Logs ==> r@ == "fa-history"@,
            *self == Page::Settings ==> r@ == "fa-cog"@,
    {
        match self {
            Page::Home => "fa-home".to_owned(),
            Page::Users => "fa-users".to_owned(),
            Page::Cameras => "fa-video".to_owned(),
            Page::Reports => "fa-chart-bar".to_owned(),
            Page::Logs => "fa-history".to_owned(),
            Page::Settings => "fa-cog".to_owned(),
        }
    }
}

/// Purely local UI chrome: the selected page, whether the navigation drawer
/// is open, and whether the dark theme is active.
pub struct UiChrome {
    pub current_page: Page,
    pub drawer_open: bool,
    pub dark_mode: bool,
}

impl UiChrome {
    /// The chrome at mount: dashboard shown, drawer closed, light theme.
    pub fn new() -> (r: Self)
        ensures
            r.current_page == Page::Home,
            !r.drawer_open,
            !r.dark_mode,
    {
        UiChrome { current_page: Page::Home, drawer_open: false, dark_mode: false }
    }

    /// Opens the drawer if closed, closes it if open.
    pub fn toggle_drawer(&mut self)
        ensures
            final(self).drawer_open == !old(self).drawer_open,
            final(self).current_page == old(self).current_page,
            final(self).dark_mode == old(self).dark_mode,
    {
        self.drawer_open = !self.drawer_open;
    }

    /// Switches between the dark and the light theme.
    pub fn toggle_dark_mode(&mut self)
        ensures
            final(self).dark_mode == !old(self).dark_mode,
            final(self).current_page == old(self).current_page,
            final(self).drawer_open == old(self).drawer_open,
    {
        self.dark_mode = !self.dark_mode;
    }

    /// Navigates to a page; the drawer and theme are untouched.
    pub fn set_page(&mut self, page: Page)
        ensures
            final(self).current_page == page,
            final(self).drawer_open == old(self).drawer_open,
            final(self).dark_mode == old(self).dark_mode,
    {
        self.current_page = page;
    }
}

/// How many cameras of `s` are online.
pub open spec fn online_count(s: Seq<Camera>) -> nat
    decreases s.len(),
{
    if s.len() == 0 {
        0
    } else {
        online_count(s.drop_last()) + if s.last().status == CameraStatus::Online {
            1nat
        } else {
            0nat
        }
    }
}

/// The dashboard's online-camera figure: how many of the given cameras are
/// online.
pub fn count_online(cameras: &Vec<Camera>) -> (r: usize)
    ensures
        r == online_count(cameras@),
{
    let n = cameras.len();
    let mut count: usize = 0;
    let mut i: usize = 0;
    proof {
        assert(cameras@.subrange(0, 0) =~= Seq::<Camera>::empty());
    }
    while i < n
        invariant
            n == cameras@.len(),
            i <= n,
            count <= i,
            count == online_count(cameras@.subrange(0, i as int)),
        decreases n - i,
    {
        proof {
            assert(cameras@.subrange(0, i as int + 1).drop_last() =~= cameras@.subrange(
                0,
                i as int,
            ));
            assert(cameras@.subrange(0, i as int + 1).last() == cameras@[i as int]);
        }
        if cameras[i].status == CameraStatus::Online {
            count = count + 1;
        }
        i = i + 1;
    }
    proof {
        assert(cameras@.subrange(0, n as int) =~= cameras@);
    }
    count
}

/// One development-fixture camera.
pub open spec fn fixture_camera(
    c: Camera,
    id: Seq<char>,
    name: Seq<char>,
    ip: Seq<char>,
    location: Seq<char>,
    active: bool,
    status: CameraStatus,
    last_update: Seq<char>,
) -> bool {
    &&& c.id@ == id
    &&& c.name@ == name
    &&& c.ip_address@ == ip
    &&& c.port == 8080u16
    &&& c.location@ == location
    &&& c.active == active
    &&& c.status == status
    &&& c.last_update@ == last_update
}

/// The three fixture cameras the camera page renders.
pub open spec fn fixture_cameras(s: Seq<Camera>) -> bool {
    &&& s.len() == 3
    &&& fixture_camera(
        s[0],
        "camera1"@,
        "Front Door"@,
        "192.168.1.101"@,
        "Main Entrance"@,
        true,
        CameraStatus::Online,
        "2023-01-15 10:30:45"@,
    )
    &&& fixture_camera(
        s[1],
        "camera2"@,
        "Back Yard"@,
        "192.168.1.102"@,
        "Rear Exit"@,
        true,
        CameraStatus::Offline,
        "2023-01-15 09:15:22"@,
    )
    &&& fixture_camera(
        s[2],
        "camera3"@,
        "Garage"@,
        "192.168.1.103"@,
        "Vehicle Entry"@,
        false,
        CameraStatus::Maintenance,
        "2023-01-14 14:45:30"@,
    )
}

/// Development fixture: the cameras the camera page renders.
pub fn mock_cameras() -> (r: Vec<Camera>)
    ensures
        fixture_cameras(r@),
{
    let mut cameras: Vec<Camera> = Vec::new();
    cameras.push(
        Camera {
            id: "camera1".to_owned(),
            name: "Front Door".to_owned(),
            ip_address: "192.168.1.101".to_owned(),
            port: 8080,
            location: "Main Entrance".to_owned(),
            active: true,
            status: CameraStatus::Online,
            last_update: "2023-01-15 10:30:45".to_owned(),
        },
    );
    cameras.push(
        Camera {
            id: "camera2".to_owned(),
            name: "Back Yard".to_owned(),
            ip_address: "192.168.1.102".to_owned(),
            port: 8080,
            location: "Rear Exit".to_owned(),
            active: true,
            status: CameraStatus::Offline,
            last_update: "2023-01-15 09:15:22".to_owned(),
        },
    );
    cameras.push(
        Camera {
            id: "camera3".to_owned(),
            name: "Garage".to_owned(),
            ip_address: "192.168.1.103".to_owned(),
            port: 8080,
            location: "Vehicle Entry".to_owned(),
            active: false,
            status: CameraStatus::Maintenance,
            last_update: "2023-01-14 14:45:30".to_owned(),
        },
    );
    cameras
}

/// One development-fixture user.
pub open spec fn fixture_user(
    u: User,
    id: Seq<char>,
    username: Seq<char>,
    name: Seq<char>,
    email: Seq<char>,
    role: UserRole,
    active: bool,
    last_login: Seq<char>,
) -> bool {
    &&& u.id@ == id
    &&& u.username@ == username
    &&& u.name@ == name
    &&& u.email@ == email
    &&& u.role == role
    &&& u.active == active
    &&& u.last_login@ == last_login
}

/// The four fixture users.
pub open spec fn fixture_users(s: Seq<User>) -> bool {
    &&& s.len() == 4
    &&& fixture_user(
        s[0],
        "user1"@,
        "admin"@,
        "Admin User"@,
        "admin@example.com"@,
        UserRole::SuperAdmin,
        true,
        "2025-02-25 08:15"@,
    )
    &&& fixture_user(
        s[1],
        "user2"@,
        "jane"@,
        "Jane Smith"@,
        "jane@example.com"@,
        UserRole::Admin,
        true,
        "2025-02-24 14:22"@,
    )
    &&& fixture_user(
        s[2],
        "user3"@,
        "john"@,
        "John Doe"@,
        "john@example.com"@,
        UserRole::Viewer,
        true,
        "2025-02-25 09:03"@,
    )
    &&& fixture_user(
        s[3],
        "user4"@,
        "alice"@,
        "Alice Brown"@,
        "alice@example.com"@,
        UserRole::Viewer,
        false,
        "2025-01-15 10:30"@,
    )
}

/// Development fixture: the users shown while no server data is wired in.
pub fn mock_users() -> (r: Vec<User>)
    ensures
        fixture_users(r@),
{
    let mut users: Vec<User> = Vec::new();
    users.push(
        User {
            id: "user1".to_owned(),
            username: "admin".to_owned(),
            name: "Admin User".to_owned(),
            email: "admin@example.com".to_owned(),
            role: UserRole::SuperAdmin,
            active: true,
            last_login: "2025-02-25 08:15".to_owned(),
        },
    );
    users.push(
        User {
            id: "user2".to_owned(),
            username: "jane".to_owned(),
            name: "Jane Smith".to_owned(),
            email: "jane@example.com".to_owned(),
            role: UserRole::Admin,
            active: true,
            last_login: "2025-02-24 14:22".to_owned(),
        },
    );
    users.push(
        User {
            id: "user3".to_owned(),
            username: "john".to_owned(),
            name: "John Doe".to_owned(),
            email: "john@example.com".to_owned(),
            role: UserRole::Viewer,
            active: true,
            last_login: "2025-02-25 09:03".to_owned(),
        },
    );
    users.push(
        User {
            id: "user4".to_owned(),
            username: "alice".to_owned(),
            name: "Alice Brown".to_owned(),
            email: "alice@example.com".to_owned(),
            role: UserRole::Viewer,
            active: false,
            last_login: "2025-01-15 10:30".to_owned(),
        },
    );
    users
}

} // verus!
