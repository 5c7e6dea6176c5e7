//! The connection handle, the proxy factory and the remote-call layer.
//!
//! One persistent connection to the service manager is owned by
//! [`DBusInterface`]; every proxy borrows it, so no proxy can outlive it.
//! A proxy is a capability bound to one destination, one object path and one
//! timeout; it performs no round trip until a call is issued through it.
//! Each call is a blocking round trip that returns the remote value or a
//! structured [`RemoteError`].
use vstd::prelude::*;
use std::time::Duration;
use dbus::blocking::stdintf::org_freedesktop_dbus::Properties;
use crate::api_errors::RemoteError;
use crate::dto::{ExecDataTuple, UnitListEntryTuple};
use crate::names::{valid_bus_name, valid_interface_name, valid_member_name, valid_object_path};

verus! {

#[verifier::external_type_specification]
#[verifier::external_body]
pub struct ExConnection(dbus::blocking::Connection);

/// The well-known bus name of the service manager.
pub const SYSTEMD_DESTINATION: &'static str = "org.freedesktop.systemd1";

/// The fixed object path of the manager object.
pub const SYSTEMD_MANAGER_PATH: &'static str = "/org/freedesktop/systemd1";

/// The manager-level remote interface.
pub const MANAGER_INTERFACE: &'static str = "org.freedesktop.systemd1.Manager";

/// The unit-level remote interface.
pub const UNIT_INTERFACE: &'static str = "org.freedesktop.systemd1.Unit";

/// The service-subtype remote interface.
pub const SERVICE_INTERFACE: &'static str = "org.freedesktop.systemd1.Service";

/// How long one round trip may stay pending before it is abandoned.
pub const DEFAULT_TIMEOUT_MS: u64 = 5000;

/// The fixed addressing strings above are valid under the protocol's
/// naming rules, so the transport's validators accept them.
pub proof fn lemma_addressing_constants_valid()
    ensures
        valid_bus_name(SYSTEMD_DESTINATION@),
        valid_object_path(SYSTEMD_MANAGER_PATH@),
        valid_interface_name(MANAGER_INTERFACE@),
        valid_member_name("LoadUnit"@),
        valid_member_name("ListUnits"@),
{
    reveal_strlit("org.freedesktop.systemd1");
    reveal_strlit("/org/freedesktop/systemd1");
    reveal_strlit("org.freedesktop.systemd1.Manager");
    reveal_strlit("LoadUnit");
    reveal_strlit("ListUnits");
    assert("org.freedesktop.systemd1"@[3] == '.');
    assert("org.freedesktop.systemd1"@[15] == '.');
    assert(valid_bus_name("org.freedesktop.systemd1"@));
    assert(valid_object_path("/org/freedesktop/systemd1"@));
    assert("org.freedesktop.systemd1.Manager"@[3] == '.');
    assert("org.freedesktop.systemd1.Manager"@[15] == '.');
    assert("org.freedesktop.systemd1.Manager"@[24] == '.');
    assert(valid_interface_name("org.freedesktop.systemd1.Manager"@));
    assert(valid_member_name("LoadUnit"@));
    assert(valid_member_name("ListUnits"@));
}

/// Relies on dbus's `Connection::new_system`: opens the one channel to the
/// system bus, or reports why it cannot be established.
#[verifier::external_body]
fn connect_system() -> Result<dbus::blocking::Connection, dbus::Error> {
    dbus::blocking::Connection::new_system()
}

/// Relies on dbus's `Connection::with_proxy` (binds destination, path and
/// timeout; no I/O) and `Properties::get`: one property-read round trip
/// returning the remote string value or the remote error. The transport
/// validates the destination and path strings and panics on an invalid
/// one; the preconditions admit only strings its validators accept.
#[verifier::external_body]
fn prop_string(
    conn: &dbus::blocking::Connection,
    dest: &str,
    path: &str,
    timeout_ms: u64,
    iface: &str,
    prop: &str,
) -> Result<String, dbus::Error>
    requires
        valid_bus_name(dest@),
        valid_object_path(path@),
{
    conn.with_proxy(dest, path, Duration::from_millis(timeout_ms)).get(iface, prop)
}

/// Relies on dbus's `Connection::with_proxy` and `Properties::get`: one
/// property-read round trip returning a remote string array or the remote
/// error. The transport validates the destination and path
/// strings and panics on an invalid one; the preconditions admit only
/// strings its validators accept.
#[verifier::external_body]
fn prop_strings(
    conn: &dbus::blocking::Connection,
    dest: &str,
    path: &str,
    timeout_ms: u64,
    iface: &str,
    prop: &str,
) -> Result<Vec<String>, dbus::Error>
    requires
        valid_bus_name(dest@),
        valid_object_path(path@),
{
    conn.with_proxy(dest, path, Duration::from_millis(timeout_ms)).get(iface, prop)
}

/// Relies on dbus's `Connection::with_proxy` and `Properties::get`: one
/// property-read round trip returning a remote pair of strings or the
/// remote error. The transport validates the destination and path
/// strings and panics on an invalid one; the preconditions admit only
/// strings its validators accept.
#[verifier::external_body]
fn prop_string_pair(
    conn: &dbus::blocking::Connection,
    dest: &str,
    path: &str,
    timeout_ms: u64,
    iface: &str,
    prop: &str,
) -> Result<(String, String), dbus::Error>
    requires
        valid_bus_name(dest@),
        valid_object_path(path@),
{
    conn.with_proxy(dest, path, Duration::from_millis(timeout_ms)).get(iface, prop)
}

/// Relies on dbus's `Connection::with_proxy` and `Properties::get`: one
/// property-read round trip returning a remote unsigned 64-bit value or the
/// remote error. The transport validates the destination and path
/// strings and panics on an invalid one; the preconditions admit only
/// strings its validators accept.
#[verifier::external_body]
fn prop_u64(
    conn: &dbus::blocking::Connection,
    dest: &str,
    path: &str,
    timeout_ms: u64,
    iface: &str,
    prop: &str,
) -> Result<u64, dbus::Error>
    requires
        valid_bus_name(dest@),
        valid_object_path(path@),
{
    conn.with_proxy(dest, path, Duration::from_millis(timeout_ms)).get(iface, prop)
}

/// Relies on dbus's `Connection::with_proxy` and `Properties::get`: one
/// property-read round trip returning a remote unsigned 32-bit value or the
/// remote error. The transport validates the destination and path
/// strings and panics on an invalid one; the preconditions admit only
/// strings its validators accept.
#[verifier::external_body]
fn prop_u32(
    conn: &dbus::blocking::Connection,
    dest: &str,
    path: &str,
    timeout_ms: u64,
    iface: &str,
    prop: &str,
) -> Result<u32, dbus::Error>
    requires
        valid_bus_name(dest@),
        valid_object_path(path@),
{
    conn.with_proxy(dest, path, Duration::from_millis(timeout_ms)).get(iface, prop)
}

/// Relies on dbus's `Connection::with_proxy` and `Properties::get`: one
/// property-read round trip returning a remote signed 32-bit value or the
/// remote error. The transport validates the destination and path
/// strings and panics on an invalid one; the preconditions admit only
/// strings its validators accept.
#[verifier::external_body]
fn prop_i32(
    conn: &dbus::blocking::Connection,
    dest: &str,
    path: &str,
    timeout_ms: u64,
    iface: &str,
    prop: &str,
) -> Result<i32, dbus::Error>
    requires
        valid_bus_name(dest@),
        valid_object_path(path@),
{
    conn.with_proxy(dest, path, Duration::from_millis(timeout_ms)).get(iface, prop)
}

/// Relies on dbus's `Connection::with_proxy` and `Properties::get`: one
/// property-read round trip returning the exec-command table, each row a
/// positional 10-tuple, or the remote error. The transport validates the
/// destination and path strings and panics on an invalid one; the
/// preconditions admit only strings its validators accept.
#[verifier::external_body]
fn prop_exec_rows(
    conn: &dbus::blocking::Connection,
    dest: &str,
    path: &str,
    timeout_ms: u64,
    iface: &str,
    prop: &str,
) -> Result<Vec<ExecDataTuple>, dbus::Error>
    requires
        valid_bus_name(dest@),
        valid_object_path(path@),
{
    conn.with_proxy(dest, path, Duration::from_millis(timeout_ms)).get(iface, prop)
}

/// Relies on dbus's `Connection::with_proxy` and `Proxy::method_call`: one
/// method-call round trip taking one string argument and returning one
/// object path, read back as a plain string, or the remote error. The
/// transport validates the four addressing strings and panics on an
/// invalid one; the preconditions admit only strings its validators
/// accept.
#[verifier::external_body]
fn call_path_method(
    conn: &dbus::blocking::Connection,
    dest: &str,
    path: &str,
    timeout_ms: u64,
    iface: &str,
    member: &str,
    arg: &str,
) -> Result<String, dbus::Error>
    requires
        valid_bus_name(dest@),
        valid_object_path(path@),
        valid_interface_name(iface@),
        valid_member_name(member@),
{
    let r: (dbus::Path<'static>,) = conn
        .with_proxy(dest, path, Duration::from_millis(timeout_ms))
        .method_call(iface, member, (arg,))?;
    Ok(r.0.to_string())
}

/// Relies on dbus's `Connection::with_proxy` and `Proxy::method_call`: one
/// method-call round trip without arguments returning the manager's full
/// unit table, each row a positional 10-tuple with its two object paths
/// read back as plain strings, or the remote error. The transport
/// validates the addressing strings and panics on an invalid one; the
/// preconditions admit only strings its validators accept.
#[verifier::external_body]
fn call_unit_table_method(
    conn: &dbus::blocking::Connection,
    dest: &str,
    path: &str,
    timeout_ms: u64,
    iface: &str,
    member: &str,
) -> Result<Vec<UnitListEntryTuple>, dbus::Error>
    requires
        valid_bus_name(dest@),
        valid_object_path(path@),
        valid_interface_name(iface@),
        valid_member_name(member@),
{
    let r: (Vec<(
        String, String, String, String, String, String,
        dbus::Path<'static>, u32, String, dbus::Path<'static>,
    )>,) = conn
        .with_proxy(dest, path, Duration::from_millis(timeout_ms))
        .method_call(iface, member, ())?;
    Ok(r.0
        .into_iter()
        .map(|t| (t.0, t.1, t.2, t.3, t.4, t.5, t.6.to_string(), t.7, t.8, t.9.to_string()))
        .collect())
}

/// Owns the single persistent connection to the service manager for the
/// lifetime of the process; every proxy derived from it borrows it.
pub struct DBusInterface {
    connection: dbus::blocking::Connection,
}

impl DBusInterface {
    /// Establishes the channel to the local service manager. When the
    /// channel cannot be established the process cannot serve any request;
    /// the caller treats the error as fatal.
    pub fn new() -> Result<DBusInterface, RemoteError> {
        match connect_system() {
            Ok(connection) => Ok(DBusInterface { connection }),
            Err(e) => Err(RemoteError::from_dbus(&e)),
        }
    }

    /// The manager proxy: fixed well-known path, process-lifetime scope.
    pub fn systemd_manager<'a>(&'a self) -> (r: ManagerProxy<'a>)
        ensures
            r.timeout_ms == DEFAULT_TIMEOUT_MS,
    {
        ManagerProxy { conn: &self.connection, timeout_ms: DEFAULT_TIMEOUT_MS }
    }

    /// A unit proxy bound to the given object path.
    pub fn systemd_unit<'a>(&'a self, path: &'a str) -> (r: UnitProxy<'a>)
        requires
            valid_object_path(path@),
        ensures
            r.path == path,
            r.timeout_ms == DEFAULT_TIMEOUT_MS,
    {
        UnitProxy { conn: &self.connection, path, timeout_ms: DEFAULT_TIMEOUT_MS }
    }

    /// A service proxy bound to the given object path: the same object as
    /// the unit proxy, seen through the narrower service interface.
    pub fn systemd_service<'a>(&'a self, path: &'a str) -> (r: ServiceProxy<'a>)
        requires
            valid_object_path(path@),
        ensures
            r.path == path,
            r.timeout_ms == DEFAULT_TIMEOUT_MS,
    {
        ServiceProxy { conn: &self.connection, path, timeout_ms: DEFAULT_TIMEOUT_MS }
    }
}

/// A capability to issue manager-level calls, bound to the fixed manager
/// path and one timeout.
pub struct ManagerProxy<'a> {
    pub conn: &'a dbus::blocking::Connection,
    pub timeout_ms: u64,
}

impl<'a> ManagerProxy<'a> {
    /// Loads the unit with the given name and returns its object path.
    /// The daemon resolves the unit-type suffix if it is omitted.
    pub fn load_unit(&self, name: &str) -> Result<String, RemoteError> {
        proof {
            lemma_addressing_constants_valid();
        }
        match call_path_method(
            self.conn,
            SYSTEMD_DESTINATION,
            SYSTEMD_MANAGER_PATH,
            self.timeout_ms,
            MANAGER_INTERFACE,
            "LoadUnit",
            name,
        ) {
            Ok(path) => Ok(path),
            Err(e) => Err(RemoteError::from_dbus(&e)),
        }
    }

    /// Returns the manager's complete unit table in one call, as raw
    /// positional rows.
    pub fn list_units(&self) -> Result<Vec<UnitListEntryTuple>, RemoteError> {
        proof {
            lemma_addressing_constants_valid();
        }
        match call_unit_table_method(
            self.conn,
            SYSTEMD_DESTINATION,
            SYSTEMD_MANAGER_PATH,
            self.timeout_ms,
            MANAGER_INTERFACE,
            "ListUnits",
        ) {
            Ok(rows) => Ok(rows),
            Err(e) => Err(RemoteError::from_dbus(&e)),
        }
    }
}

/// A capability to read unit-level properties of one object path.
pub struct UnitProxy<'a> {
    pub conn: &'a dbus::blocking::Connection,
    pub path: &'a str,
    pub timeout_ms: u64,
}

impl<'a> UnitProxy<'a> {
    fn get_string(&self, prop: &str) -> Result<String, RemoteError>
        requires
            valid_object_path(self.path@),
    {
        proof {
            lemma_addressing_constants_valid();
        }
        match prop_string(self.conn, SYSTEMD_DESTINATION, self.path, self.timeout_ms, UNIT_INTERFACE, prop) {
            Ok(v) => Ok(v),
            Err(e) => Err(RemoteError::from_dbus(&e)),
        }
    }

    fn get_strings(&self, prop: &str) -> Result<Vec<String>, RemoteError>
        requires
            valid_object_path(self.path@),
    {
        proof {
            lemma_addressing_constants_valid();
        }
        match prop_strings(self.conn, SYSTEMD_DESTINATION, self.path, self.timeout_ms, UNIT_INTERFACE, prop) {
            Ok(v) => Ok(v),
            Err(e) => Err(RemoteError::from_dbus(&e)),
        }
    }

    pub fn id(&self) -> Result<String, RemoteError>
        requires
            valid_object_path(self.path@),
    {
        self.get_string("Id")
    }

    pub fn names(&self) -> Result<Vec<String>, RemoteError>
        requires
            valid_object_path(self.path@),
    {
        self.get_strings("Names")
    }

    pub fn description(&self) -> Result<String, RemoteError>
        requires
            valid_object_path(self.path@),
    {
        self.get_string("Description")
    }

    pub fn documentation(&self) -> Result<Vec<String>, RemoteError>
        requires
            valid_object_path(self.path@),
    {
        self.get_strings("Documentation")
    }

    pub fn triggered_by(&self) -> Result<Vec<String>, RemoteError>
        requires
            valid_object_path(self.path@),
    {
        self.get_strings("TriggeredBy")
    }

    pub fn load_state(&self) -> Result<String, RemoteError>
        requires
            valid_object_path(self.path@),
    {
        self.get_string("LoadState")
    }

    pub fn active_state(&self) -> Result<String, RemoteError>
        requires
            valid_object_path(self.path@),
    {
        self.get_string("ActiveState")
    }

    pub fn sub_state(&self) -> Result<String, RemoteError>
        requires
            valid_object_path(self.path@),
    {
        self.get_string("SubState")
    }

    pub fn load_error(&self) -> Result<(String, String), RemoteError>
        requires
            valid_object_path(self.path@),
    {
        proof {
            lemma_addressing_constants_valid();
        }
        match prop_string_pair(self.conn, SYSTEMD_DESTINATION, self.path, self.timeout_ms, UNIT_INTERFACE, "LoadError") {
            Ok(v) => Ok(v),
            Err(e) => Err(RemoteError::from_dbus(&e)),
        }
    }

    pub fn fragment_path(&self) -> Result<String, RemoteError>
        requires
            valid_object_path(self.path@),
    {
        self.get_string("FragmentPath")
    }

    pub fn unit_file_state(&self) -> Result<String, RemoteError>
        requires
            valid_object_path(self.path@),
    {
        self.get_string("UnitFileState")
    }

    pub fn unit_file_preset(&self) -> Result<String, RemoteError>
        requires
            valid_object_path(self.path@),
    {
        self.get_string("UnitFilePreset")
    }

    pub fn state_change_timestamp(&self) -> Result<u64, RemoteError>
        requires
            valid_object_path(self.path@),
    {
        proof {
            lemma_addressing_constants_valid();
        }
        match prop_u64(self.conn, SYSTEMD_DESTINATION, self.path, self.timeout_ms, UNIT_INTERFACE, "StateChangeTimestamp") {
            Ok(v) => Ok(v),
            Err(e) => Err(RemoteError::from_dbus(&e)),
        }
    }
}

/// A capability to read service-subtype properties of one object path.
pub struct ServiceProxy<'a> {
    pub conn: &'a dbus::blocking::Connection,
    pub path: &'a str,
    pub timeout_ms: u64,
}

impl<'a> ServiceProxy<'a> {
    fn get_string(&self, prop: &str) -> Result<String, RemoteError>
        requires
            valid_object_path(self.path@),
    {
        proof {
            lemma_addressing_constants_valid();
        }
        match prop_string(self.conn, SYSTEMD_DESTINATION, self.path, self.timeout_ms, SERVICE_INTERFACE, prop) {
            Ok(v) => Ok(v),
            Err(e) => Err(RemoteError::from_dbus(&e)),
        }
    }

    fn get_u64(&self, prop: &str) -> Result<u64, RemoteError>
        requires
            valid_object_path(self.path@),
    {
        proof {
            lemma_addressing_constants_valid();
        }
        match prop_u64(self.conn, SYSTEMD_DESTINATION, self.path, self.timeout_ms, SERVICE_INTERFACE, prop) {
            Ok(v) => Ok(v),
            Err(e) => Err(RemoteError::from_dbus(&e)),
        }
    }

    fn get_i32(&self, prop: &str) -> Result<i32, RemoteError>
        requires
            valid_object_path(self.path@),
    {
        proof {
            lemma_addressing_constants_valid();
        }
        match prop_i32(self.conn, SYSTEMD_DESTINATION, self.path, self.timeout_ms, SERVICE_INTERFACE, prop) {
            Ok(v) => Ok(v),
            Err(e) => Err(RemoteError::from_dbus(&e)),
        }
    }

    pub fn exec_main_pid(&self) -> Result<u32, RemoteError>
        requires
            valid_object_path(self.path@),
    {
        proof {
            lemma_addressing_constants_valid();
        }
        match prop_u32(self.conn, SYSTEMD_DESTINATION, self.path, self.timeout_ms, SERVICE_INTERFACE, "ExecMainPID") {
            Ok(v) => Ok(v),
            Err(e) => Err(RemoteError::from_dbus(&e)),
        }
    }

    pub fn exec_main_code(&self) -> Result<i32, RemoteError>
        requires
            valid_object_path(self.path@),
    {
        self.get_i32("ExecMainCode")
    }

    pub fn exec_main_status(&self) -> Result<i32, RemoteError>
        requires
            valid_object_path(self.path@),
    {
        self.get_i32("ExecMainStatus")
    }

    pub fn memory_current(&self) -> Result<u64, RemoteError>
        requires
            valid_object_path(self.path@),
    {
        self.get_u64("MemoryCurrent")
    }

    pub fn cpuusage_nsec(&self) -> Result<u64, RemoteError>
        requires
            valid_object_path(self.path@),
    {
        self.get_u64("CPUUsageNSec")
    }

    pub fn tasks_current(&self) -> Result<u64, RemoteError>
        requires
            valid_object_path(self.path@),
    {
        self.get_u64("TasksCurrent")
    }

    pub fn result(&self) -> Result<String, RemoteError>
        requires
            valid_object_path(self.path@),
    {
        self.get_string("Result")
    }

    pub fn status_text(&self) -> Result<String, RemoteError>
        requires
            valid_object_path(self.path@),
    {
        self.get_string("StatusText")
    }

    pub fn status_errno(&self) -> Result<i32, RemoteError>
        requires
            valid_object_path(self.path@),
    {
        self.get_i32("StatusErrno")
    }

    pub fn exec_start(&self) -> Result<Vec<ExecDataTuple>, RemoteError>
        requires
            valid_object_path(self.path@),
    {
        proof {
            lemma_addressing_constants_valid();
        }
        match prop_exec_rows(self.conn, SYSTEMD_DESTINATION, self.path, self.timeout_ms, SERVICE_INTERFACE, "ExecStart") {
            Ok(v) => Ok(v),
            Err(e) => Err(RemoteError::from_dbus(&e)),
        }
    }
}

} // verus!
