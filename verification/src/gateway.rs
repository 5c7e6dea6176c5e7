//! The gateway's two entry points: load one unit by name, list all units.
//!
//! Each operation runs its whole sequence of round trips against one
//! borrowed connection; the caller serializes access to it. Any remote
//! failure aborts the whole operation — no partial record is returned.
use vstd::prelude::*;
use crate::api_errors::RemoteError;
use crate::dto::{ServiceDto, UnitDto, UnitListEntry, assemble_list_entries};
use crate::dbus_interface::DBusInterface;
use crate::names::is_valid_object_path;

verus! {

/// Whether the sequence ends with the given suffix.
pub open spec fn seq_ends_with(s: Seq<char>, suffix: Seq<char>) -> bool {
    &&& suffix.len() <= s.len()
    &&& s.skip(s.len() - suffix.len()) == suffix
}

/// Whether the string ends with the given suffix.
pub fn str_ends_with(s: &str, suffix: &str) -> (r: bool)
    ensures
        r == seq_ends_with(s@, suffix@),
{
    let n: usize = s.unicode_len();
    let m: usize = suffix.unicode_len();
    if m > n {
        return false;
    }
    let mut i: usize = 0;
    let mut same = true;
    while i < m
        invariant
            m <= n,
            n == s@.len(),
            m == suffix@.len(),
            0 <= i <= m,
            same == (forall|k: int| 0 <= k < i ==> s@[n - m + k] == suffix@[k]),
        decreases m - i,
    {
        let a = s.get_char(n - m + i);
        let b = suffix.get_char(i);
        same = same && (a == b);
        i = i + 1;
    }
    proof {
        if same {
            assert(s@.skip(n - m) =~= suffix@);
        } else {
            let k = choose|k: int| 0 <= k < m && s@[n - m + k] != suffix@[k];
            assert(s@.skip(n - m)[k] != suffix@[k]);
        }
    }
    same
}

/// The suffix that marks a unit name as a service unit.
pub open spec fn service_suffix() -> Seq<char> {
    ".service"@
}

/// Loads the unit with the given name and returns its full record.
///
/// The manager resolves the name to an object path; the unit's properties
/// are read at that path. When — and only when — the name ends in
/// `.service`, the service-subtype properties are read at the same path
/// and the service record is attached: a name without that suffix never
/// yields a service record, and for a name with it the call either
/// returns a record with the service record present or fails entirely.
///
/// A returned path that is not a syntactically valid object path is a
/// protocol violation; the operation then fails fast with an error rather
/// than handing the daemon's string onward.
pub fn load_unit_data(dbus: &DBusInterface, unit_name: &str) -> (r: Result<
    UnitDto,
    RemoteError,
>)
    ensures
        r is Ok ==> ((r->Ok_0).has_service() <==> seq_ends_with(unit_name@, service_suffix())),
{
    let manager = dbus.systemd_manager();
    let unit_path = match manager.load_unit(unit_name) {
        Ok(p) => p,
        Err(e) => return Err(e),
    };
    if !is_valid_object_path(unit_path.as_str()) {
        return Err(
            RemoteError {
                name: None,
                message: Some(
                    String::from_str("service manager returned an invalid unit object path"),
                ),
            },
        );
    }
    let unit_proxy = dbus.systemd_unit(unit_path.as_str());
    let mut unit = match UnitDto::create_from_proxy(&unit_proxy) {
        Ok(u) => u,
        Err(e) => return Err(e),
    };
    if str_ends_with(unit_name, ".service") {
        let service_proxy = dbus.systemd_service(unit_path.as_str());
        let service = match ServiceDto::create_from_proxy(&service_proxy) {
            Ok(s) => s,
            Err(e) => return Err(e),
        };
        unit.add_service(service);
    }
    Ok(unit)
}

/// Returns the manager's complete unit table, each row mapped to its
/// entry in the order the table was supplied: no pagination, no
/// filtering, no reordering.
pub fn list_units(dbus: &DBusInterface) -> Result<Vec<UnitListEntry>, RemoteError> {
    let manager = dbus.systemd_manager();
    let rows = match manager.list_units() {
        Ok(rows) => rows,
        Err(e) => return Err(e),
    };
    Ok(assemble_list_entries(rows))
}

} // verus!
