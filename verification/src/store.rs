//! The entity store: five in-memory collections owned by one value.
//!
//! Users and cameras are keyed tables (get/create/update/delete); activity
//! logs and reports are append-only sequences; settings is a singleton that
//! is always present. The store never raises on a missing key: it returns an
//! absence signal, which the handlers translate to a status code. Callers
//! that share the store across threads wrap it in their own lock; every
//! operation here is a plain call that completes in bounded time.

use vstd::prelude::*;

use crate::models::{ActivityLog, Camera, Report, Settings, User, UserRole, CameraStatus,
    ReportFormat, ReportType};
use crate::table::{spec_get, Entry, Record, Table};

verus! {

/// Duplicates a sequence of records.
fn clone_records<R: Record>(v: &Vec<R>) -> (r: Vec<R>)
    ensures
        r@ == v@,
{
    let n = v.len();
    let mut out: Vec<R> = Vec::new();
    let mut i: usize = 0;
    while i < n
        invariant
            n == v@.len(),
            i <= n,
            out@ == v@.subrange(0, i as int),
        decreases n - i,
    {
        out.push(v[i].duplicate());
        proof {
            assert(out@ =~= v@.subrange(0, i as int + 1));
        }
        i = i + 1;
    }
    proof {
        assert(v@.subrange(0, n as int) =~= v@);
    }
    out
}

/// The first report in `s` whose id reads `id`, if any.
pub open spec fn find_report(s: Seq<Report>, id: Seq<char>) -> Option<Report>
    decreases s.len(),
{
    if s.len() == 0 {
        None
    } else if s[0].id@ == id {
        Some(s[0])
    } else {
        find_report(s.drop_first(), id)
    }
}

/// The first user in `s` whose username reads `name`, if any.
pub open spec fn find_by_username(s: Seq<User>, name: Seq<char>) -> Option<User>
    decreases s.len(),
{
    if s.len() == 0 {
        None
    } else if s[0].username@ == name {
        Some(s[0])
    } else {
        find_by_username(s.drop_first(), name)
    }
}

/// The in-memory store behind the REST API.
pub struct MockData {
    pub users: Table<User>,
    pub cameras: Table<Camera>,
    pub activity_logs: Vec<ActivityLog>,
    pub reports: Vec<Report>,
    pub settings: Settings,
}

impl MockData {
    /// Well-formed: the keyed collections hold distinct keys.
    pub open spec fn wf(self) -> bool {
        self.users.wf() && self.cameras.wf()
    }

    /// All users, in entry order. The order is stable across calls absent
    /// writes.
    pub fn get_users(&self) -> (r: Vec<User>)
        ensures
            r@ == self.users.values(),
    {
        self.users.list()
    }

    /// The user filed under `id`, or nothing.
    pub fn get_user(&self, id: &str) -> (r: Option<User>)
        requires
            self.wf(),
        ensures
            r == spec_get(self.users.as_map(), id@),
    {
        self.users.get(id)
    }

    /// Files `user` under its own id, overwriting any previous record whole,
    /// and returns the stored value unchanged.
    pub fn create_user(&mut self, user: User) -> (r: User)
        requires
            old(self).wf(),
        ensures
            final(self).wf(),
            r == user,
            final(self).users.as_map() == old(self).users.as_map().insert(user.id@, user),
            (exists|i: int|
                0 <= i < old(self).users.entries@.len() && old(self).users.entries@[i].key@
                    == user.id@ && final(self).users.entries@ == old(self).users.entries@.update(
                    i,
                    Entry { key: user.id, value: user },
                )) || ((forall|i: int|
                0 <= i < old(self).users.entries@.len() ==> old(self).users.entries@[i].key@
                    != user.id@) && final(self).users.entries@ == old(self).users.entries@.push(Entry { key: user.id, value: user })),
            final(self).cameras == old(self).cameras,
            final(self).activity_logs == old(self).activity_logs,
            final(self).reports == old(self).reports,
            final(self).settings == old(self).settings,
    {
        let key = user.id.clone();
        let stored = user.clone();
        self.users.insert_entry(key, stored);
        user
    }

    /// Replaces the user filed under `id`, only if one exists; otherwise
    /// signals not-found and leaves the store unchanged.
    pub fn update_user(&mut self, id: &str, user: User) -> (r: Option<User>)
        requires
            old(self).wf(),
        ensures
            final(self).wf(),
            old(self).users.as_map().dom().contains(id@) ==> {
                &&& r == Some(user)
                &&& final(self).users.as_map() == old(self).users.as_map().insert(id@, user)
                &&& final(self).users.entries@.len() == old(self).users.entries@.len()
                &&& exists|i: int|
                    0 <= i < old(self).users.entries@.len() && old(self).users.entries@[i].key@
                        == id@ && final(self).users.entries@[i].key@ == id@ && final(self).users.entries@[i].value == user && (forall|j: int|
                        0 <= j < old(self).users.entries@.len() && j != i ==> final(self).users.entries@[j] == old(self).users.entries@[j])
            },
            !old(self).users.as_map().dom().contains(id@) ==> r is None && *final(self) == *old(self),
            final(self).cameras == old(self).cameras,
            final(self).activity_logs == old(self).activity_logs,
            final(self).reports == old(self).reports,
            final(self).settings == old(self).settings,
    {
        if self.users.contains(id) {
            let ghost old_entries = self.users.entries@;
            let key = id.to_owned();
            let stored = user.clone();
            self.users.insert_entry(key, stored);
            proof {
                let i = choose|i: int|
                    0 <= i < old_entries.len() && old_entries[i].key@ == key@
                        && self.users.entries@ == old_entries.update(
                        i,
                        Entry { key, value: stored },
                    );
                assert(self.users.entries@[i].key@ == id@ && self.users.entries@[i].value == user);
                assert(exists|w: int|
                    0 <= w < old_entries.len() && old_entries[w].key@ == id@
                        && self.users.entries@[w].key@ == id@ && self.users.entries@[w].value
                        == user && (forall|j: int|
                        0 <= j < old_entries.len() && j != w ==> self.users.entries@[j]
                            == old_entries[j]));
            }
            Some(user)
        } else {
            None
        }
    }

    /// Removes the user filed under `id`; true exactly when one existed.
    pub fn delete_user(&mut self, id: &str) -> (r: bool)
        requires
            old(self).wf(),
        ensures
            final(self).wf(),
            r == old(self).users.as_map().dom().contains(id@),
            final(self).users.as_map() == old(self).users.as_map().remove(id@),
            r ==> exists|i: int|
                0 <= i < old(self).users.entries@.len() && old(self).users.entries@[i].key@ == id@
                    && final(self).users.entries@ == old(self).users.entries@.remove(i),
            !r ==> *final(self) == *old(self),
            final(self).cameras == old(self).cameras,
            final(self).activity_logs == old(self).activity_logs,
            final(self).reports == old(self).reports,
            final(self).settings == old(self).settings,
    {
        self.users.remove_entry(id)
    }

    /// All cameras, in entry order. The order is stable across calls absent
    /// writes.
    pub fn get_cameras(&self) -> (r: Vec<Camera>)
        ensures
            r@ == self.cameras.values(),
    {
        self.cameras.list()
    }

    /// The camera filed under `id`, or nothing.
    pub fn get_camera(&self, id: &str) -> (r: Option<Camera>)
        requires
            self.wf(),
        ensures
            r == spec_get(self.cameras.as_map(), id@),
    {
        self.cameras.get(id)
    }

    /// Files `camera` under its own id, overwriting any previous record
    /// whole, and returns the stored value unchanged.
    pub fn create_camera(&mut self, camera: Camera) -> (r: Camera)
        requires
            old(self).wf(),
        ensures
            final(self).wf(),
            r == camera,
            final(self).cameras.as_map() == old(self).cameras.as_map().insert(camera.id@, camera),
            (exists|i: int|
                0 <= i < old(self).cameras.entries@.len() && old(self).cameras.entries@[i].key@
                    == camera.id@ && final(self).cameras.entries@ == old(self).cameras.entries@.update(i, Entry { key: camera.id, value: camera })) || ((forall|
                i: int,
            |
                0 <= i < old(self).cameras.entries@.len() ==> old(self).cameras.entries@[i].key@
                    != camera.id@) && final(self).cameras.entries@ == old(self).cameras.entries@.push(Entry { key: camera.id, value: camera })),
            final(self).users == old(self).users,
            final(self).activity_logs == old(self).activity_logs,
            final(self).reports == old(self).reports,
            final(self).settings == old(self).settings,
    {
        let key = camera.id.clone();
        let stored = camera.clone();
        self.cameras.insert_entry(key, stored);
        camera
    }

    /// Replaces the camera filed under `id`, only if one exists; otherwise
    /// signals not-found and leaves the store unchanged.
    pub fn update_camera(&mut self, id: &str, camera: Camera) -> (r: Option<Camera>)
        requires
            old(self).wf(),
        ensures
            final(self).wf(),
            old(self).cameras.as_map().dom().contains(id@) ==> {
                &&& r == Some(camera)
                &&& final(self).cameras.as_map() == old(self).cameras.as_map().insert(id@, camera)
                &&& final(self).cameras.entries@.len() == old(self).cameras.entries@.len()
                &&& exists|i: int|
                    0 <= i < old(self).cameras.entries@.len() && old(self).cameras.entries@[i].key@
                        == id@ && final(self).cameras.entries@[i].key@ == id@ && final(self).cameras.entries@[i].value == camera && (forall|j: int|
                        0 <= j < old(self).cameras.entries@.len() && j != i ==> final(self).cameras.entries@[j] == old(self).cameras.entries@[j])
            },
            !old(self).cameras.as_map().dom().contains(id@) ==> r is None && *final(self) == *old(self),
            final(self).users == old(self).users,
            final(self).activity_logs == old(self).activity_logs,
            final(self).reports == old(self).reports,
            final(self).settings == old(self).settings,
    {
        if self.cameras.contains(id) {
            let ghost old_entries = self.cameras.entries@;
            let key = id.to_owned();
            let stored = camera.clone();
            self.cameras.insert_entry(key, stored);
            proof {
                let i = choose|i: int|
                    0 <= i < old_entries.len() && old_entries[i].key@ == key@
                        && self.cameras.entries@ == old_entries.update(
                        i,
                        Entry { key, value: stored },
                    );
                assert(self.cameras.entries@[i].key@ == id@ && self.cameras.entries@[i].value
                    == camera);
                assert(exists|w: int|
                    0 <= w < old_entries.len() && old_entries[w].key@ == id@
                        && self.cameras.entries@[w].key@ == id@ && self.cameras.entries@[w].value
                        == camera && (forall|j: int|
                        0 <= j < old_entries.len() && j != w ==> self.cameras.entries@[j]
                            == old_entries[j]));
            }
            Some(camera)
        } else {
            None
        }
    }

    /// Removes the camera filed under `id`; true exactly when one existed.
    pub fn delete_camera(&mut self, id: &str) -> (r: bool)
        requires
            old(self).wf(),
        ensures
            final(self).wf(),
            r == old(self).cameras.as_map().dom().contains(id@),
            final(self).cameras.as_map() == old(self).cameras.as_map().remove(id@),
            r ==> exists|i: int|
                0 <= i < old(self).cameras.entries@.len() && old(self).cameras.entries@[i].key@
                    == id@ && final(self).cameras.entries@ == old(self).cameras.entries@.remove(i),
            !r ==> *final(self) == *old(self),
            final(self).users == old(self).users,
            final(self).activity_logs == old(self).activity_logs,
            final(self).reports == old(self).reports,
            final(self).settings == old(self).settings,
    {
        self.cameras.remove_entry(id)
    }

    /// All activity log entries, oldest first.
    pub fn get_activity_logs(&self) -> (r: Vec<ActivityLog>)
        ensures
            r@ == self.activity_logs@,
    {
        clone_records(&self.activity_logs)
    }

    /// Appends one activity log entry; nothing else changes.
    pub fn add_activity_log(&mut self, log: ActivityLog)
        ensures
            final(self).activity_logs@ == old(self).activity_logs@.push(log),
            final(self).users == old(self).users,
            final(self).cameras == old(self).cameras,
            final(self).reports == old(self).reports,
            final(self).settings == old(self).settings,
    {
        self.activity_logs.push(log);
    }

    /// All reports, oldest first.
    pub fn get_reports(&self) -> (r: Vec<Report>)
        ensures
            r@ == self.reports@,
    {
        clone_records(&self.reports)
    }

    /// The first report whose id reads `id`, or nothing.
    pub fn get_report(&self, id: &str) -> (r: Option<Report>)
        ensures
            r == find_report(self.reports@, id@),
    {
        let owned: String = id.to_owned();
        let n = self.reports.len();
        proof {
            assert(self.reports@.subrange(0, n as int) =~= self.reports@);
        }
        let mut i: usize = 0;
        while i < n
            invariant
                n == self.reports@.len(),
                i <= n,
                owned@ == id@,
                find_report(self.reports@, id@) == find_report(
                    self.reports@.subrange(i as int, n as int),
                    id@,
                ),
            decreases n - i,
        {
            if self.reports[i].id.eq(&owned) {
                proof {
                    assert(self.reports@.subrange(i as int, n as int)[0] == self.reports@[i as int]);
                }
                return Some(self.reports[i].duplicate());
            }
            proof {
                assert(self.reports@.subrange(i as int, n as int).drop_first()
                    =~= self.reports@.subrange(i as int + 1, n as int));
            }
            i = i + 1;
        }
        proof {
            assert(self.reports@.subrange(n as int, n as int).len() == 0);
        }
        None
    }

    /// Appends one report; nothing else changes.
    pub fn add_report(&mut self, report: Report)
        ensures
            final(self).reports@ == old(self).reports@.push(report),
            final(self).users == old(self).users,
            final(self).cameras == old(self).cameras,
            final(self).activity_logs == old(self).activity_logs,
            final(self).settings == old(self).settings,
    {
        self.reports.push(report);
    }

    /// The settings record; always present.
    pub fn get_settings(&self) -> (r: Settings)
        ensures
            r == self.settings,
    {
        self.settings.duplicate()
    }

    /// Replaces the settings record whole; nothing else changes.
    pub fn update_settings(&mut self, settings: Settings)
        ensures
            final(self).settings == settings,
            final(self).users == old(self).users,
            final(self).cameras == old(self).cameras,
            final(self).activity_logs == old(self).activity_logs,
            final(self).reports == old(self).reports,
    {
        self.settings = settings;
    }
}

/// The seeded administrator account.
pub open spec fn seed_user_admin(u: User) -> bool {
    &&& u.id@ == "1"@
    &&& u.username@ == "admin"@
    &&& u.name@ == "Admin User"@
    &&& u.email@ == "admin@example.com"@
    &&& u.role == UserRole::SuperAdmin
    &&& u.active == true
    &&& u.last_login@ == "2025-02-25T14:30:00Z"@
}

/// The seeded second account.
pub open spec fn seed_user_jdoe(u: User) -> bool {
    &&& u.id@ == "2"@
    &&& u.username@ == "jdoe"@
    &&& u.name@ == "John Doe"@
    &&& u.email@ == "jdoe@example.com"@
    &&& u.role == UserRole::Admin
    &&& u.active == true
    &&& u.last_login@ == "2025-02-24T10:15:00Z"@
}

/// The seeded third account.
pub open spec fn seed_user_asmith(u: User) -> bool {
    &&& u.id@ == "3"@
    &&& u.username@ == "asmith"@
    &&& u.name@ == "Alice Smith"@
    &&& u.email@ == "asmith@example.com"@
    &&& u.role == UserRole::Viewer
    &&& u.active == true
    &&& u.last_login@ == "2025-02-23T09:45:00Z"@
}

/// The three seeded user entries, in order, under keys "1", "2", "3".
pub open spec fn seed_users(s: Seq<Entry<User>>) -> bool {
    &&& s.len() == 3
    &&& s[0].key@ == "1"@ && seed_user_admin(s[0].value)
    &&& s[1].key@ == "2"@ && seed_user_jdoe(s[1].value)
    &&& s[2].key@ == "3"@ && seed_user_asmith(s[2].value)
}

/// One seeded camera record.
pub open spec fn seed_camera(
    c: Camera,
    id: Seq<char>,
    name: Seq<char>,
    ip: Seq<char>,
    location: Seq<char>,
    active: bool,
    status: CameraStatus,
    last_update: Seq<char>,
) -> bool {
    &&& c.id@ == id
    &&& c.name@ == name
    &&& c.ip_address@ == ip
    &&& c.port == 554u16
    &&& c.location@ == location
    &&& c.active == active
    &&& c.status == status
    &&& c.last_update@ == last_update
}

/// The four seeded camera entries, in order, under keys "101" to "104".
pub open spec fn seed_cameras(s: Seq<Entry<Camera>>) -> bool {
    &&& s.len() == 4
    &&& s[0].key@ == "101"@ && seed_camera(
        s[0].value,
        "101"@,
        "Front Gate"@,
        "192.168.1.101"@,
        "Main Entrance"@,
        true,
        CameraStatus::Online,
        "2025-02-25T14:35:00Z"@,
    )
    &&& s[1].key@ == "102"@ && seed_camera(
        s[1].value,
        "102"@,
        "Side Door"@,
        "192.168.1.102"@,
        "East Wing"@,
        false,
        CameraStatus::Offline,
        "2025-02-25T10:20:00Z"@,
    )
    &&& s[2].key@ == "103"@ && seed_camera(
        s[2].value,
        "103"@,
        "Parking Lot"@,
        "192.168.1.103"@,
        "North Side"@,
        true,
        CameraStatus::Online,
        "2025-02-25T14:40:00Z"@,
    )
    &&& s[3].key@ == "104"@ && seed_camera(
        s[3].value,
        "104"@,
        "Reception"@,
        "192.168.1.104"@,
        "Main Building"@,
        true,
        CameraStatus::Maintenance,
        "2025-02-25T08:15:00Z"@,
    )
}

/// One seeded activity log record.
pub open spec fn seed_log(
    l: ActivityLog,
    id: Seq<char>,
    timestamp: Seq<char>,
    user_id: Seq<char>,
    action: Seq<char>,
    target: Seq<char>,
    details: Seq<char>,
) -> bool {
    &&& l.id@ == id
    &&& l.timestamp@ == timestamp
    &&& l.user_id@ == user_id
    &&& l.action@ == action
    &&& l.target@ == target
    &&& l.details@ == details
}

/// The four seeded activity log entries, oldest first.
pub open spec fn seed_logs(s: Seq<ActivityLog>) -> bool {
    &&& s.len() == 4
    &&& seed_log(
        s[0],
        "1001"@,
        "2025-02-25T14:30:00Z"@,
        "1"@,
        "EDIT_CAMERA"@,
        "Camera 101"@,
        "Changed name to 'Front Gate'"@,
    )
    &&& seed_log(
        s[1],
        "1002"@,
        "2025-02-25T13:45:00Z"@,
        "2"@,
        "DISABLE_CAMERA"@,
        "Camera 102"@,
        "Disabled for maintenance"@,
    )
    &&& seed_log(
        s[2],
        "1003"@,
        "2025-02-25T12:30:00Z"@,
        "1"@,
        "GENERATE_REPORT"@,
        "UsageSummary"@,
        "Generated monthly usage report"@,
    )
    &&& seed_log(
        s[3],
        "1004"@,
        "2025-02-25T11:15:00Z"@,
        "1"@,
        "CREATE_USER"@,
        "User 3"@,
        "Created user 'asmith'"@,
    )
}

/// One seeded report record.
pub open spec fn seed_report(
    r: Report,
    id: Seq<char>,
    name: Seq<char>,
    type_: ReportType,
    created_at: Seq<char>,
    created_by: Seq<char>,
    period: Seq<char>,
    format: ReportFormat,
    url: Seq<char>,
) -> bool {
    &&& r.id@ == id
    &&& r.name@ == name
    &&& r.type_ == type_
    &&& r.created_at@ == created_at
    &&& r.created_by@ == created_by
    &&& r.period@ == period
    &&& r.format == format
    &&& r.url@ == url
}

/// The three seeded reports, oldest entry first.
pub open spec fn seed_reports(s: Seq<Report>) -> bool {
    &&& s.len() == 3
    &&& seed_report(
        s[0],
        "2001"@,
        "Usage_Summary_Feb_2025"@,
        ReportType::UsageSummary,
        "2025-02-25T12:30:00Z"@,
        "1"@,
        "February 2025"@,
        ReportFormat::PDF,
        "/api/reports/2001/download"@,
    )
    &&& seed_report(
        s[1],
        "2002"@,
        "Camera_Status_Q1_2025"@,
        ReportType::CameraStatus,
        "2025-02-20T09:15:00Z"@,
        "2"@,
        "Q1 2025"@,
        ReportFormat::CSV,
        "/api/reports/2002/download"@,
    )
    &&& seed_report(
        s[2],
        "2003"@,
        "User_Activity_Jan_2025"@,
        ReportType::UserActivity,
        "2025-02-10T14:45:00Z"@,
        "1"@,
        "January 2025"@,
        ReportFormat::PDF,
        "/api/reports/2003/download"@,
    )
}

/// The seeded settings singleton.
pub open spec fn seed_settings(s: Settings) -> bool {
    &&& s.registered_to@ == "Jane Doe"@
    &&& s.server_status == true
    &&& s.api_url@ == "api.example.com"@
    &&& s.license_expiry@ == "2025-12-31"@
    &&& s.theme@ == "light"@
    &&& s.email_alerts == true
    &&& s.sms_alerts == false
    &&& s.refresh_interval == 10u32
    &&& s.app_version@ == "1.0.0"@
}

impl MockData {
    /// A store holding the fixed fixtures loaded at process start.
    pub fn new() -> (r: MockData)
        ensures
            r.wf(),
            seed_users(r.users.entries@),
            seed_cameras(r.cameras.entries@),
            seed_logs(r.activity_logs@),
            seed_reports(r.reports@),
            seed_settings(r.settings),
    {
        let mut users: Vec<Entry<User>> = Vec::new();
        users.push(
            Entry {
                key: "1".to_owned(),
                value: User {
                    id: "1".to_owned(),
                    username: "admin".to_owned(),
                    name: "Admin User".to_owned(),
                    email: "admin@example.com".to_owned(),
                    role: UserRole::SuperAdmin,
                    active: true,
                    last_login: "2025-02-25T14:30:00Z".to_owned(),
                },
            },
        );
        users.push(
            Entry {
                key: "2".to_owned(),
                value: User {
                    id: "2".to_owned(),
                    username: "jdoe".to_owned(),
                    name: "John Doe".to_owned(),
                    email: "jdoe@example.com".to_owned(),
                    role: UserRole::Admin,
                    active: true,
                    last_login: "2025-02-24T10:15:00Z".to_owned(),
                },
            },
        );
        users.push(
            Entry {
                key: "3".to_owned(),
                value: User {
                    id: "3".to_owned(),
                    username: "asmith".to_owned(),
                    name: "Alice Smith".to_owned(),
                    email: "asmith@example.com".to_owned(),
                    role: UserRole::Viewer,
                    active: true,
                    last_login: "2025-02-23T09:45:00Z".to_owned(),
                },
            },
        );
        proof {
            reveal_strlit("1");
            reveal_strlit("2");
            reveal_strlit("3");
            assert("1"@[0] == '1' && "2"@[0] == '2' && "3"@[0] == '3');
            assert("1"@ != "2"@ && "1"@ != "3"@ && "2"@ != "3"@);
            assert forall|i: int, j: int| 0 <= i < j < users@.len() implies users@[i].key@
                != users@[j].key@ by {
                assert(users@[0].key@ == "1"@ && users@[1].key@ == "2"@ && users@[2].key@ == "3"@);
            };
            assert(crate::table::unique_keys(users@));
        }

        let mut cameras: Vec<Entry<Camera>> = Vec::new();
        cameras.push(
            Entry {
                key: "101".to_owned(),
                value: Camera {
                    id: "101".to_owned(),
                    name: "Front Gate".to_owned(),
                    ip_address: "192.168.1.101".to_owned(),
                    port: 554,
                    location: "Main Entrance".to_owned(),
                    active: true,
                    status: CameraStatus::Online,
                    last_update: "2025-02-25T14:35:00Z".to_owned(),
                },
            },
        );
        cameras.push(
            Entry {
                key: "102".to_owned(),
                value: Camera {
                    id: "102".to_owned(),
                    name: "Side Door".to_owned(),
                    ip_address: "192.168.1.102".to_owned(),
                    port: 554,
                    location: "East Wing".to_owned(),
                    active: false,
                    status: CameraStatus::Offline,
                    last_update: "2025-02-25T10:20:00Z".to_owned(),
                },
            },
        );
        cameras.push(
            Entry {
                key: "103".to_owned(),
                value: Camera {
                    id: "103".to_owned(),
                    name: "Parking Lot".to_owned(),
                    ip_address: "192.168.1.103".to_owned(),
                    port: 554,
                    location: "North Side".to_owned(),
                    active: true,
                    status: CameraStatus::Online,
                    last_update: "2025-02-25T14:40:00Z".to_owned(),
                },
            },
        );
        cameras.push(
            Entry {
                key: "104".to_owned(),
                value: Camera {
                    id: "104".to_owned(),
                    name: "Reception".to_owned(),
                    ip_address: "192.168.1.104".to_owned(),
                    port: 554,
                    location: "Main Building".to_owned(),
                    active: true,
                    status: CameraStatus::Maintenance,
                    last_update: "2025-02-25T08:15:00Z".to_owned(),
                },
            },
        );
        proof {
            reveal_strlit("101");
            reveal_strlit("102");
            reveal_strlit("103");
            reveal_strlit("104");
            assert("101"@[2] == '1' && "102"@[2] == '2' && "103"@[2] == '3' && "104"@[2] == '4');
            assert("101"@ != "102"@ && "101"@ != "103"@ && "101"@ != "104"@ && "102"@ != "103"@
                && "102"@ != "104"@ && "103"@ != "104"@);
            assert forall|i: int, j: int| 0 <= i < j < cameras@.len() implies cameras@[i].key@
                != cameras@[j].key@ by {
                assert(cameras@[0].key@ == "101"@ && cameras@[1].key@ == "102"@ && cameras@[2].key@
                    == "103"@ && cameras@[3].key@ == "104"@);
            };
            assert(crate::table::unique_keys(cameras@));
        }

        let mut activity_logs: Vec<ActivityLog> = Vec::new();
        activity_logs.push(
            ActivityLog {
                id: "1001".to_owned(),
                timestamp: "2025-02-25T14:30:00Z".to_owned(),
                user_id: "1".to_owned(),
                action: "EDIT_CAMERA".to_owned(),
                target: "Camera 101".to_owned(),
                details: "Changed name to 'Front Gate'".to_owned(),
            },
        );
        activity_logs.push(
            ActivityLog {
                id: "1002".to_owned(),
                timestamp: "2025-02-25T13:45:00Z".to_owned(),
                user_id: "2".to_owned(),
                action: "DISABLE_CAMERA".to_owned(),
                target: "Camera 102".to_owned(),
                details: "Disabled for maintenance".to_owned(),
            },
        );
        activity_logs.push(
            ActivityLog {
                id: "1003".to_owned(),
                timestamp: "2025-02-25T12:30:00Z".to_owned(),
                user_id: "1".to_owned(),
                action: "GENERATE_REPORT".to_owned(),
                target: "UsageSummary".to_owned(),
                details: "Generated monthly usage report".to_owned(),
            },
        );
        activity_logs.push(
            ActivityLog {
                id: "1004".to_owned(),
                timestamp: "2025-02-25T11:15:00Z".to_owned(),
                user_id: "1".to_owned(),
                action: "CREATE_USER".to_owned(),
                target: "User 3".to_owned(),
                details: "Created user 'asmith'".to_owned(),
            },
        );

        let mut reports: Vec<Report> = Vec::new();
        reports.push(
            Report {
                id: "2001".to_owned(),
                name: "Usage_Summary_Feb_2025".to_owned(),
                type_: ReportType::UsageSummary,
                created_at: "2025-02-25T12:30:00Z".to_owned(),
                created_by: "1".to_owned(),
                period: "February 2025".to_owned(),
                format: ReportFormat::PDF,
                url: "/api/reports/2001/download".to_owned(),
            },
        );
        reports.push(
            Report {
                id: "2002".to_owned(),
                name: "Camera_Status_Q1_2025".to_owned(),
                type_: ReportType::CameraStatus,
                created_at: "2025-02-20T09:15:00Z".to_owned(),
                created_by: "2".to_owned(),
                period: "Q1 2025".to_owned(),
                format: ReportFormat::CSV,
                url: "/api/reports/2002/download".to_owned(),
            },
        );
        reports.push(
            Report {
                id: "2003".to_owned(),
                name: "User_Activity_Jan_2025".to_owned(),
                type_: ReportType::UserActivity,
                created_at: "2025-02-10T14:45:00Z".to_owned(),
                created_by: "1".to_owned(),
                period: "January 2025".to_owned(),
                format: ReportFormat::PDF,
                url: "/api/reports/2003/download".to_owned(),
            },
        );

        let settings = Settings {
            registered_to: "Jane Doe".to_owned(),
            server_status: true,
            api_url: "api.example.com".to_owned(),
            license_expiry: "2025-12-31".to_owned(),
            theme: "light".to_owned(),
            email_alerts: true,
            sms_alerts: false,
            refresh_interval: 10,
            app_version: "1.0.0".to_owned(),
        };

        MockData {
            users: Table { entries: users },
            cameras: Table { entries: cameras },
            activity_logs,
            reports,
            settings,
        }
    }
}

/// Law: a record filed under a key and then looked up by that key comes back
/// unchanged.
pub proof fn lemma_create_then_get<R>(m: Map<Seq<char>, R>, k: Seq<char>, v: R)
    ensures
        spec_get(m.insert(k, v), k) == Some(v),
{
}

/// Law: filing a record under a key that is already bound replaces the prior
/// record whole, and touches no other key.
pub proof fn lemma_create_overwrites<R>(m: Map<Seq<char>, R>, k: Seq<char>, v: R)
    ensures
        spec_get(m.insert(k, v), k) == Some(v),
        forall|k2: Seq<char>| k2 != k ==> spec_get(m.insert(k, v), k2) == spec_get(m, k2),
{
}

/// Law: after a key is removed, looking it up signals absence.
pub proof fn lemma_delete_then_get<R>(m: Map<Seq<char>, R>, k: Seq<char>)
    ensures
        spec_get(m.remove(k), k) == None::<R>,
{
}

/// Law: two records filed under distinct keys both persist, in either order
/// of filing.
pub proof fn lemma_distinct_creates_both_persist<R>(
    m: Map<Seq<char>, R>,
    k1: Seq<char>,
    v1: R,
    k2: Seq<char>,
    v2: R,
)
    requires
        k1 != k2,
    ensures
        spec_get(m.insert(k1, v1).insert(k2, v2), k1) == Some(v1),
        spec_get(m.insert(k1, v1).insert(k2, v2), k2) == Some(v2),
{
}

} // verus!
