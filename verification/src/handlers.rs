//! Request-handler logic: the stateless mapping from store operations to
//! HTTP status codes and response bodies.
//!
//! Each handler calls exactly one store operation and maps its result:
//! success is 200 (get/replace) or 201 (append), a deletion success is 204
//! with an empty body, a missing id is 404, and a failed login is 401. No
//! handler performs business validation. The server's routing and JSON
//! codecs stand outside the library and hand these functions plain values.

use vstd::prelude::*;
use vstd::string::StringExecFns;

use crate::models::{ActivityLog, Camera, LoginRequest, LoginResponse, Report, Settings, User};
use crate::store::{find_by_username, find_report, MockData};
use crate::table::{spec_get, Record};

verus! {

/// Success for a read or a replace.
pub const STATUS_OK: u16 = 200;

/// Success for an append.
pub const STATUS_CREATED: u16 = 201;

/// Success for a deletion; the body is empty.
pub const STATUS_NO_CONTENT: u16 = 204;

/// A failed login.
pub const STATUS_UNAUTHORIZED: u16 = 401;

/// A missing id on get, update or delete.
pub const STATUS_NOT_FOUND: u16 = 404;

/// A diagnostic greeting body.
pub struct HelloResponse {
    pub message: String,
}

/// Login: succeeds only if the password is the hardcoded one and a user with
/// the given username exists; then the answer carries a mock token reading
/// `mock-token-` followed by that user's id, and the user record. Any other
/// password, or an unknown username, is unauthorized.
pub fn login_handler(store: &MockData, req: &LoginRequest) -> (r: Result<LoginResponse, u16>)
    ensures
        req.password@ != "password"@ ==> r == Err::<LoginResponse, u16>(401u16),
        req.password@ == "password"@ ==> match find_by_username(
            store.users.values(),
            req.username@,
        ) {
            Some(u) => r matches Ok(resp) && resp.user == u && resp.token@ == "mock-token-"@
                + u.id@,
            None => r == Err::<LoginResponse, u16>(401u16),
        },
{
    let expected: String = "password".to_owned();
    if !req.password.eq(&expected) {
        return Err(STATUS_UNAUTHORIZED);
    }
    let n = store.users.entries.len();
    proof {
        assert(store.users.values().subrange(0, n as int) =~= store.users.values());
    }
    let mut i: usize = 0;
    while i < n
        invariant
            n == store.users.entries@.len(),
            i <= n,
            req.password@ == "password"@,
            find_by_username(store.users.values(), req.username@) == find_by_username(
                store.users.values().subrange(i as int, n as int),
                req.username@,
            ),
        decreases n - i,
    {
        proof {
            assert(store.users.values()[i as int] == store.users.entries@[i as int].value);
            assert(store.users.values().subrange(i as int, n as int)[0] == store.users.values()[i as int]);
        }
        if store.users.entries[i].value.username.eq(&req.username) {
            let user = store.users.entries[i].value.duplicate();
            let token = "mock-token-".to_owned().concat(user.id.as_str());
            return Ok(LoginResponse { token, user });
        }
        proof {
            assert(store.users.values().subrange(i as int, n as int).drop_first()
                =~= store.users.values().subrange(i as int + 1, n as int));
        }
        i = i + 1;
    }
    proof {
        assert(store.users.values().subrange(n as int, n as int).len() == 0);
    }
    Err(STATUS_UNAUTHORIZED)
}

/// GET on the user collection: always 200 with every record, in stored order.
pub fn get_users_handler(store: &MockData) -> (r: (u16, Vec<User>))
    ensures
        r.0 == 200u16,
        r.1@ == store.users.values(),
{
    (STATUS_OK, store.get_users())
}

/// GET on one user: 200 with the record, or 404 with none.
pub fn get_user_handler(store: &MockData, id: &str) -> (r: (u16, Option<User>))
    requires
        store.wf(),
    ensures
        r.1 == spec_get(store.users.as_map(), id@),
        r.0 == if store.users.as_map().dom().contains(id@) { 200u16 } else { 404u16 },
{
    match store.get_user(id) {
        Some(u) => (STATUS_OK, Some(u)),
        None => (STATUS_NOT_FOUND, None),
    }
}

/// POST on the user collection: files the record under its id (overwriting
/// any prior record whole) and answers 200 with the stored value.
pub fn create_user_handler(store: &mut MockData, user: User) -> (r: (u16, User))
    requires
        old(store).wf(),
    ensures
        final(store).wf(),
        r.0 == 200u16,
        r.1 == user,
        final(store).users.as_map() == old(store).users.as_map().insert(user.id@, user),
        final(store).cameras == old(store).cameras,
        final(store).activity_logs == old(store).activity_logs,
        final(store).reports == old(store).reports,
        final(store).settings == old(store).settings,
{
    (STATUS_OK, store.create_user(user))
}

/// PUT on one user: replaces the record only if the id exists (200), else
/// 404 with the store unchanged.
pub fn update_user_handler(store: &mut MockData, id: &str, user: User) -> (r: (u16, Option<User>))
    requires
        old(store).wf(),
    ensures
        final(store).wf(),
        old(store).users.as_map().dom().contains(id@) ==> r.0 == 200u16 && r.1 == Some(user)
            && final(store).users.as_map() == old(store).users.as_map().insert(id@, user),
        !old(store).users.as_map().dom().contains(id@) ==> r.0 == 404u16 && r.1 is None
            && *final(store) == *old(store),
        final(store).cameras == old(store).cameras,
        final(store).activity_logs == old(store).activity_logs,
        final(store).reports == old(store).reports,
        final(store).settings == old(store).settings,
{
    match store.update_user(id, user) {
        Some(u) => (STATUS_OK, Some(u)),
        None => (STATUS_NOT_FOUND, None),
    }
}

/// DELETE on one user: 204 when a record existed and was removed, else 404.
pub fn delete_user_handler(store: &mut MockData, id: &str) -> (r: u16)
    requires
        old(store).wf(),
    ensures
        final(store).wf(),
        r == if old(store).users.as_map().dom().contains(id@) { 204u16 } else { 404u16 },
        final(store).users.as_map() == old(store).users.as_map().remove(id@),
        !old(store).users.as_map().dom().contains(id@) ==> *final(store) == *old(store),
        final(store).cameras == old(store).cameras,
        final(store).activity_logs == old(store).activity_logs,
        final(store).reports == old(store).reports,
        final(store).settings == old(store).settings,
{
    if store.delete_user(id) {
        STATUS_NO_CONTENT
    } else {
        STATUS_NOT_FOUND
    }
}

/// GET on the camera collection: always 200 with every record, in stored
/// order.
pub fn get_cameras_handler(store: &MockData) -> (r: (u16, Vec<Camera>))
    ensures
        r.0 == 200u16,
        r.1@ == store.cameras.values(),
{
    (STATUS_OK, store.get_cameras())
}

/// GET on one camera: 200 with the record, or 404 with none.
pub fn get_camera_handler(store: &MockData, id: &str) -> (r: (u16, Option<Camera>))
    requires
        store.wf(),
    ensures
        r.1 == spec_get(store.cameras.as_map(), id@),
        r.0 == if store.cameras.as_map().dom().contains(id@) { 200u16 } else { 404u16 },
{
    match store.get_camera(id) {
        Some(c) => (STATUS_OK, Some(c)),
        None => (STATUS_NOT_FOUND, None),
    }
}

/// POST on the camera collection: files the record under its id (overwriting
/// any prior record whole) and answers 200 with the stored value.
pub fn create_camera_handler(store: &mut MockData, camera: Camera) -> (r: (u16, Camera))
    requires
        old(store).wf(),
    ensures
        final(store).wf(),
        r.0 == 200u16,
        r.1 == camera,
        final(store).cameras.as_map() == old(store).cameras.as_map().insert(camera.id@, camera),
        final(store).users == old(store).users,
        final(store).activity_logs == old(store).activity_logs,
        final(store).reports == old(store).reports,
        final(store).settings == old(store).settings,
{
    (STATUS_OK, store.create_camera(camera))
}

/// PUT on one camera: replaces the record only if the id exists (200), else
/// 404 with the store unchanged.
pub fn update_camera_handler(store: &mut MockData, id: &str, camera: Camera) -> (r: (
    u16,
    Option<Camera>,
))
    requires
        old(store).wf(),
    ensures
        final(store).wf(),
        old(store).cameras.as_map().dom().contains(id@) ==> r.0 == 200u16 && r.1 == Some(camera)
            && final(store).cameras.as_map() == old(store).cameras.as_map().insert(id@, camera),
        !old(store).cameras.as_map().dom().contains(id@) ==> r.0 == 404u16 && r.1 is None
            && *final(store) == *old(store),
        final(store).users == old(store).users,
        final(store).activity_logs == old(store).activity_logs,
        final(store).reports == old(store).reports,
        final(store).settings == old(store).settings,
{
    match store.update_camera(id, camera) {
        Some(c) => (STATUS_OK, Some(c)),
        None => (STATUS_NOT_FOUND, None),
    }
}

/// DELETE on one camera: 204 when a record existed and was removed, else
/// 404.
pub fn delete_camera_handler(store: &mut MockData, id: &str) -> (r: u16)
    requires
        old(store).wf(),
    ensures
        final(store).wf(),
        r == if old(store).cameras.as_map().dom().contains(id@) { 204u16 } else { 404u16 },
        final(store).cameras.as_map() == old(store).cameras.as_map().remove(id@),
        !old(store).cameras.as_map().dom().contains(id@) ==> *final(store) == *old(store),
        final(store).users == old(store).users,
        final(store).activity_logs == old(store).activity_logs,
        final(store).reports == old(store).reports,
        final(store).settings == old(store).settings,
{
    if store.delete_camera(id) {
        STATUS_NO_CONTENT
    } else {
        STATUS_NOT_FOUND
    }
}

/// GET on the activity log: always 200 with every entry, oldest first.
pub fn get_logs_handler(store: &MockData) -> (r: (u16, Vec<ActivityLog>))
    ensures
        r.0 == 200u16,
        r.1@ == store.activity_logs@,
{
    (STATUS_OK, store.get_activity_logs())
}

/// POST on the activity log: appends the entry and answers 201.
pub fn create_log_handler(store: &mut MockData, log: ActivityLog) -> (r: u16)
    ensures
        r == 201u16,
        final(store).activity_logs@ == old(store).activity_logs@.push(log),
        final(store).users == old(store).users,
        final(store).cameras == old(store).cameras,
        final(store).reports == old(store).reports,
        final(store).settings == old(store).settings,
{
    store.add_activity_log(log);
    STATUS_CREATED
}

/// GET on the report collection: always 200 with every record, oldest first.
pub fn get_reports_handler(store: &MockData) -> (r: (u16, Vec<Report>))
    ensures
        r.0 == 200u16,
        r.1@ == store.reports@,
{
    (STATUS_OK, store.get_reports())
}

/// GET on one report: 200 with the first record carrying the id, or 404
/// with none.
pub fn get_report_handler(store: &MockData, id: &str) -> (r: (u16, Option<Report>))
    ensures
        r.1 == find_report(store.reports@, id@),
        r.0 == if find_report(store.reports@, id@) is Some { 200u16 } else { 404u16 },
{
    match store.get_report(id) {
        Some(rep) => (STATUS_OK, Some(rep)),
        None => (STATUS_NOT_FOUND, None),
    }
}

/// POST on the report collection: appends the record and answers 201.
pub fn create_report_handler(store: &mut MockData, report: Report) -> (r: u16)
    ensures
        r == 201u16,
        final(store).reports@ == old(store).reports@.push(report),
        final(store).users == old(store).users,
        final(store).cameras == old(store).cameras,
        final(store).activity_logs == old(store).activity_logs,
        final(store).settings == old(store).settings,
{
    store.add_report(report);
    STATUS_CREATED
}

/// GET on settings: always 200 with the singleton record.
pub fn get_settings_handler(store: &MockData) -> (r: (u16, Settings))
    ensures
        r.0 == 200u16,
        r.1 == store.settings,
{
    (STATUS_OK, store.get_settings())
}

/// PUT on settings: replaces the singleton whole and answers 200.
pub fn update_settings_handler(store: &mut MockData, settings: Settings) -> (r: u16)
    ensures
        r == 200u16,
        final(store).settings == settings,
        final(store).users == old(store).users,
        final(store).cameras == old(store).cameras,
        final(store).activity_logs == old(store).activity_logs,
        final(store).reports == old(store).reports,
{
    store.update_settings(settings);
    STATUS_OK
}

/// The fixed greeting of the legacy diagnostic route.
pub fn hello_handler() -> (r: HelloResponse)
    ensures
        r.message@ == "Hello, world!"@,
{
    HelloResponse { message: "Hello, world!".to_owned() }
}

/// The parameterised greeting of the legacy diagnostic route.
pub fn hello_name_handler(name: &str) -> (r: HelloResponse)
    ensures
        r.message@ == "Hello, "@ + name@ + "!"@,
{
    HelloResponse { message: "Hello, ".to_owned().concat(name).concat("!") }
}

/// The ports the server tries to bind, in order: the configured port alone
/// when one is set, else the fixed fallback list. The first successful bind
/// wins; exhausting the list is fatal at startup.
pub fn candidate_ports(configured: u16) -> (r: Vec<u16>)
    ensures
        configured != 0 ==> r@ == seq![configured],
        configured == 0 ==> r@ == seq![3000u16, 3001u16, 3002u16, 3003u16, 8000u16, 8080u16],
{
    let mut ports: Vec<u16> = Vec::new();
    if configured != 0 {
        ports.push(configured);
        proof {
            assert(ports@ =~= seq![configured]);
        }
    } else {
        ports.push(3000);
        ports.push(3001);
        ports.push(3002);
        ports.push(3003);
        ports.push(8000);
        ports.push(8080);
        proof {
            assert(ports@ =~= seq![3000u16, 3001u16, 3002u16, 3003u16, 8000u16, 8080u16]);
        }
    }
    ports
}

} // verus!
